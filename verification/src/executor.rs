//! The per-key coordinator: owns the send/verify policy for exactly one key
//! and drives the generator, store and sender through one operation at a
//! time.
//!
//! In a concurrent deployment every operation for a key passes through that
//! key's executor under an exclusive hold, so the contracts here describe
//! single uninterleaved operations; the registry in [`crate::pool`] keeps at
//! most one executor per key.

use vstd::prelude::*;
use crate::errors::ServiceError;
use crate::policy::{
    decide_send, decide_verify, lookup, send_blocked, send_updates, verify_outcome,
    verify_updates, VerifyDecision, VerifyOutcome,
};
use crate::ports::{Generator, Sender, Store};
use crate::record::{CodeRecord, Rec};

verus! {

/// The coordinator for one key, carrying the policy constants it applies.
pub struct Executor {
    pub key: String,
    pub ttl: u64,
    pub cooldown: u64,
    pub max_attempts: u64,
}

impl Executor {
    /// True when `send_code` at time `now` would be refused for cooldown,
    /// given store contents `m`.
    pub open spec fn blocked(&self, m: Map<Seq<char>, Rec>, now: u64) -> bool {
        send_blocked(lookup(m, self.key@), now as int)
    }

    /// The store contents after this executor issues `code` at time `now`.
    pub open spec fn issued(&self, m: Map<Seq<char>, Rec>, code: Seq<char>, now: u64) -> Map<
        Seq<char>,
        Rec,
    > {
        send_updates(m, self.key@, code, now as int, self.ttl as int, self.cooldown as int)
    }

    /// The policy's verdict on `submitted` at time `now`, given store
    /// contents `m`.
    pub open spec fn outcome(&self, m: Map<Seq<char>, Rec>, now: u64, submitted: Seq<char>)
        -> VerifyOutcome {
        verify_outcome(lookup(m, self.key@), now as int, self.max_attempts as int, submitted)
    }

    /// The store contents after this executor completes a verification of
    /// `submitted` at time `now`, given contents `m`.
    pub open spec fn settled(&self, m: Map<Seq<char>, Rec>, now: u64, submitted: Seq<char>)
        -> Map<Seq<char>, Rec> {
        verify_updates(m, self.key@, now as int, self.max_attempts as int, submitted)
    }

    pub fn new(key: String, ttl: u64, cooldown: u64, max_attempts: u64) -> (e: Executor)
        ensures
            e.key@ == key@,
            e.ttl == ttl,
            e.cooldown == cooldown,
            e.max_attempts == max_attempts,
    {
        Executor { key, ttl, cooldown, max_attempts }
    }

    /// An owned copy with the same key and policy constants.
    pub fn duplicate(&self) -> (e: Executor)
        ensures
            e.key@ == self.key@,
            e.ttl == self.ttl,
            e.cooldown == self.cooldown,
            e.max_attempts == self.max_attempts,
    {
        Executor {
            key: self.key.clone(),
            ttl: self.ttl,
            cooldown: self.cooldown,
            max_attempts: self.max_attempts,
        }
    }

    /// Issues a fresh code for this executor's key: refuses while the
    /// current record's cooldown runs, otherwise generates, overwrites the
    /// stored record, and only then attempts delivery.
    pub fn send_code<G: Generator, S: Store, D: Sender>(
        &self,
        generator: &G,
        store: &mut S,
        sender: &mut D,
        now: u64,
    ) -> (r: Result<(), ServiceError>)
        requires
            now + self.ttl <= u64::MAX,
            now + self.cooldown <= u64::MAX,
        ensures
            final(store).reliable() == old(store).reliable(),
            final(sender).reliable() == old(sender).reliable(),
            forall|k2: Seq<char>|
                k2 != self.key@ ==> lookup(final(store).contents(), k2) == lookup(
                    old(store).contents(),
                    k2,
                ),
            r is Ok ==> !self.blocked(old(store).contents(), now) && exists|c: Seq<char>|
                final(store).contents() == self.issued(old(store).contents(), c, now)
                    && final(sender).sent() == old(sender).sent().push((self.key@, c)),
            r == Err::<(), ServiceError>(ServiceError::CooldownError) ==> self.blocked(old(store).contents(), now)
                && final(store).contents() == old(store).contents() && final(sender).sent()
                == old(sender).sent(),
            r == Err::<(), ServiceError>(ServiceError::StorageError) ==> final(store).contents() == old(
                store,
            ).contents() && final(sender).sent() == old(sender).sent(),
            r == Err::<(), ServiceError>(ServiceError::SendError) ==> !self.blocked(old(store).contents(), now)
                && final(sender).sent() == old(sender).sent() && exists|c: Seq<char>|
                final(store).contents() == self.issued(old(store).contents(), c, now),
            r is Err ==> (r == Err::<(), ServiceError>(ServiceError::CooldownError) || r == Err::<(), ServiceError>(
                ServiceError::StorageError,
            ) || r == Err::<(), ServiceError>(ServiceError::SendError)),
            old(store).reliable() && old(sender).reliable() ==> ((r is Ok) <==> !self.blocked(
                old(store).contents(),
                now,
            )),
            old(store).reliable() ==> ((r == Err::<(), ServiceError>(ServiceError::CooldownError)) <==> self.blocked(
                old(store).contents(),
                now,
            )),
            generator.fixed_code() matches Some(c) ==> (r is Ok ==> final(store).contents()
                == self.issued(old(store).contents(), c, now) && final(sender).sent() == old(
                sender,
            ).sent().push((self.key@, c))),
    {
        let cur = match store.get(&self.key) {
            Result::Ok(c) => c,
            Result::Err(_) => { return Result::Err(ServiceError::StorageError); },
        };
        if decide_send(&cur, now) {
            return Result::Err(ServiceError::CooldownError);
        }
        let code = generator.generate();
        let record = CodeRecord::fresh(code.clone(), now, self.ttl, self.cooldown);
        match store.put(&self.key, record) {
            Result::Ok(u) => u,
            Result::Err(_) => { return Result::Err(ServiceError::StorageError); },
        }
        let delivered = match sender.send(&self.key, &code) {
            Result::Ok(u) => Result::Ok(u),
            Result::Err(_) => Result::Err(ServiceError::SendError),
        };
        proof {
            // witness for the existentially bound code in the ensures
            assert(final(store).contents() == self.issued(old(store).contents(), code@, now));
        }
        delivered
    }

    /// Verifies a submitted code for this executor's key: absence or expiry
    /// charges nothing, an exhausted budget refuses, a mismatch charges one
    /// attempt and persists it, and a match consumes the record.
    pub fn verify_code<S: Store>(
        &self,
        store: &mut S,
        submitted: &String,
        now: u64,
    ) -> (r: Result<(), ServiceError>)
        ensures
            final(store).reliable() == old(store).reliable(),
            forall|k2: Seq<char>|
                k2 != self.key@ ==> lookup(final(store).contents(), k2) == lookup(
                    old(store).contents(),
                    k2,
                ),
            r is Ok ==> self.outcome(old(store).contents(), now, submitted@) is Accepted
                && final(store).contents() == self.settled(
                old(store).contents(),
                now,
                submitted@,
            ),
            r == Err::<(), ServiceError>(ServiceError::NotFoundOrExpiredError) ==> self.outcome(
                old(store).contents(),
                now,
                submitted@,
            ) is NotFoundOrExpired && final(store).contents() == old(store).contents(),
            r == Err::<(), ServiceError>(ServiceError::AttemptsExhaustedError) ==> self.outcome(
                old(store).contents(),
                now,
                submitted@,
            ) is AttemptsExhausted && final(store).contents() == old(store).contents(),
            r == Err::<(), ServiceError>(ServiceError::MismatchError) ==> self.outcome(
                old(store).contents(),
                now,
                submitted@,
            ) is Mismatch && final(store).contents() == self.settled(
                old(store).contents(),
                now,
                submitted@,
            ),
            r == Err::<(), ServiceError>(ServiceError::StorageError) ==> final(store).contents() == old(
                store,
            ).contents(),
            r != Err::<(), ServiceError>(ServiceError::CooldownError) && r != Err::<(), ServiceError>(ServiceError::SendError),
            old(store).reliable() ==> ((r is Ok) <==> self.outcome(
                old(store).contents(),
                now,
                submitted@,
            ) is Accepted) && ((r == Err::<(), ServiceError>(ServiceError::NotFoundOrExpiredError)) <==> self.outcome(
                old(store).contents(),
                now,
                submitted@,
            ) is NotFoundOrExpired) && ((r == Err::<(), ServiceError>(ServiceError::AttemptsExhaustedError))
                <==> self.outcome(old(store).contents(), now, submitted@) is AttemptsExhausted)
                && ((r == Err::<(), ServiceError>(ServiceError::MismatchError)) <==> self.outcome(
                old(store).contents(),
                now,
                submitted@,
            ) is Mismatch),
    {
        let cur = match store.get(&self.key) {
            Result::Ok(c) => c,
            Result::Err(_) => { return Result::Err(ServiceError::StorageError); },
        };
        match decide_verify(&cur, submitted, now, self.max_attempts) {
            VerifyDecision::RejectMissingOrExpired => Result::Err(
                ServiceError::NotFoundOrExpiredError,
            ),
            VerifyDecision::RejectExhausted => Result::Err(ServiceError::AttemptsExhaustedError),
            VerifyDecision::RejectMismatch(updated) => {
                match store.put(&self.key, updated) {
                    Result::Ok(u) => Result::Err(ServiceError::MismatchError),
                    Result::Err(_) => Result::Err(ServiceError::StorageError),
                }
            },
            VerifyDecision::Accept => {
                match store.remove(&self.key) {
                    Result::Ok(u) => Result::Ok(()),
                    Result::Err(_) => Result::Err(ServiceError::StorageError),
                }
            },
        }
    }
}

} // verus!
