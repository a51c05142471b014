//! Failure taxonomy of the code lifecycle.
//!
//! Every failure is scoped to a single operation on a single key; none is
//! fatal to the process, and nothing is retried inside the core.

use vstd::prelude::*;

verus! {

/// Why a `send_code` or `verify_code` operation failed.
#[derive(Clone, Copy, Debug, PartialEq, Eq, Structural)]
pub enum ServiceError {
    /// A record for the key exists and its resend cooldown has not elapsed.
    CooldownError,
    /// The storage backend failed while reading or writing a record.
    StorageError,
    /// The delivery collaborator failed; the freshly stored record remains.
    SendError,
    /// No record exists for the key, or the record's validity window passed.
    NotFoundOrExpiredError,
    /// The record's attempt budget was already used up.
    AttemptsExhaustedError,
    /// The submitted code differs from the stored one; one attempt charged.
    MismatchError,
}

impl ServiceError {
    /// A short human-readable description, in place of `Display`.
    pub fn message(&self) -> String {
        match self {
            ServiceError::CooldownError => "resend cooldown in effect".to_owned(),
            ServiceError::StorageError => "storage backend failure".to_owned(),
            ServiceError::SendError => "code delivery failure".to_owned(),
            ServiceError::NotFoundOrExpiredError => "no valid code for this key".to_owned(),
            ServiceError::AttemptsExhaustedError => "verification attempts exhausted".to_owned(),
            ServiceError::MismatchError => "submitted code does not match".to_owned(),
        }
    }
}

} // verus!
