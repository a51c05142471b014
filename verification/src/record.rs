//! The per-key code record and its mathematical model.

use vstd::prelude::*;

verus! {

/// Mathematical model of a stored code record: the code as a character
/// sequence and the policy timestamps as unbounded integers.
pub ghost struct Rec {
    pub code: Seq<char>,
    pub created_at: int,
    pub expires_at: int,
    pub resend_available_at: int,
    pub attempts: int,
}

/// One active verification-code record, as persisted under a key.
///
/// `expires_at = created_at + ttl` and `resend_available_at =
/// created_at + cooldown` hold of every record built by [`CodeRecord::fresh`];
/// `attempts` counts the wrong submissions charged so far and starts at 0.
pub struct CodeRecord {
    pub code: String,
    pub created_at: u64,
    pub expires_at: u64,
    pub resend_available_at: u64,
    pub attempts: u64,
}

impl View for CodeRecord {
    type V = Rec;

    open spec fn view(&self) -> Rec {
        Rec {
            code: self.code@,
            created_at: self.created_at as int,
            expires_at: self.expires_at as int,
            resend_available_at: self.resend_available_at as int,
            attempts: self.attempts as int,
        }
    }
}

/// The model of a record issued at `now` under the given policy windows.
pub open spec fn fresh_rec(code: Seq<char>, now: int, ttl: int, cooldown: int) -> Rec {
    Rec {
        code: code,
        created_at: now,
        expires_at: now + ttl,
        resend_available_at: now + cooldown,
        attempts: 0,
    }
}

/// The same record with one more wrong attempt charged. Only the attempt
/// count changes: the expiry and the resend cooldown stand as issued, so a
/// failed verification neither extends nor resets them.
pub open spec fn bump_attempts(r: Rec) -> Rec {
    Rec { attempts: r.attempts + 1, ..r }
}

impl CodeRecord {
    /// Builds the record that `send_code` persists: new timestamps, a zero
    /// attempt count, and the freshly generated code.
    pub fn fresh(code: String, now: u64, ttl: u64, cooldown: u64) -> (r: CodeRecord)
        requires
            now + ttl <= u64::MAX,
            now + cooldown <= u64::MAX,
        ensures
            r@ == fresh_rec(code@, now as int, ttl as int, cooldown as int),
    {
        CodeRecord {
            code: code,
            created_at: now,
            expires_at: now + ttl,
            resend_available_at: now + cooldown,
            attempts: 0,
        }
    }

    /// An owned copy with the same model, in place of a derived `Clone`.
    pub fn duplicate(&self) -> (r: CodeRecord)
        ensures
            r@ == self@,
    {
        CodeRecord {
            code: self.code.clone(),
            created_at: self.created_at,
            expires_at: self.expires_at,
            resend_available_at: self.resend_available_at,
            attempts: self.attempts,
        }
    }
}

} // verus!
