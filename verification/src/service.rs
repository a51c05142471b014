//! The facade over the whole lifecycle: a shared generator, store and
//! sender, the executor registry, and the two operations the boundary
//! exposes, `send_code` and `verify_code`.
//!
//! The clock is caller-supplied: every operation takes `now`, a reading in
//! seconds, so the core stays a function of its arguments. In a concurrent
//! deployment the caller holds the key's exclusive lock around each call;
//! operations on distinct keys are independent, which the frame clauses
//! (`forall k2 != key@ ...`) state.

use vstd::prelude::*;
use crate::errors::ServiceError;
use crate::executor::Executor;
use crate::policy::{lookup, send_blocked, send_updates, verify_outcome, verify_updates};
use crate::pool::ExecutorPool;
use crate::ports::{Generator, Sender, Store};
use crate::record::Rec;

verus! {

/// Boundary reply for a verification request.
pub struct VerifyCodeResp {
    pub is_ok: bool,
}

/// The process-wide service: policy constants, the collaborator triple, and
/// the per-key executor registry.
pub struct Service<G: Generator, S: Store, D: Sender> {
    pub cooldown: u64,
    pub ttl: u64,
    pub max_attempts: u64,
    pub sender: D,
    pub store: S,
    pub generator: G,
    pub pool: ExecutorPool,
}

impl<G: Generator, S: Store, D: Sender> Service<G, S, D> {
    /// The registry holds one executor per key, each carrying this
    /// service's policy constants.
    pub open spec fn wf(&self) -> bool {
        self.pool.wf(self.ttl, self.cooldown, self.max_attempts)
    }

    /// The stored records, one model per key.
    pub open spec fn records(&self) -> Map<Seq<char>, Rec> {
        self.store.contents()
    }

    /// The deliveries performed so far.
    pub open spec fn deliveries(&self) -> Seq<(Seq<char>, Seq<char>)> {
        self.sender.sent()
    }

    pub fn new(cooldown: u64, ttl: u64, sender: D, store: S, generator: G, max_attempts: u64)
        -> (s: Service<G, S, D>)
        ensures
            s.wf(),
            s.cooldown == cooldown,
            s.ttl == ttl,
            s.max_attempts == max_attempts,
            s.sender == sender,
            s.store == store,
            s.generator == generator,
            s.pool.m@ == Map::<Seq<char>, Executor>::empty(),
    {
        Service { cooldown, ttl, max_attempts, sender, store, generator, pool: ExecutorPool::new() }
    }

    /// Returns the executor for `key`, registering one on first use. No two
    /// executors ever coexist for one key.
    pub fn acquire_executor(&mut self, key: &String) -> (e: Executor)
        requires
            old(self).wf(),
        ensures
            final(self).wf(),
            final(self).pool.m@.contains_key(key@),
            old(self).pool.m@.contains_key(key@) ==> final(self).pool.m@ == old(self).pool.m@,
            forall|k2: Seq<char>|
                old(self).pool.m@.contains_key(k2) ==> final(self).pool.m@.contains_key(k2)
                    && final(self).pool.m@[k2] == old(self).pool.m@[k2],
            e.key@ == key@,
            e.ttl == old(self).ttl,
            e.cooldown == old(self).cooldown,
            e.max_attempts == old(self).max_attempts,
            final(self).cooldown == old(self).cooldown,
            final(self).ttl == old(self).ttl,
            final(self).max_attempts == old(self).max_attempts,
            final(self).sender == old(self).sender,
            final(self).store == old(self).store,
            final(self).generator == old(self).generator,
    {
        self.pool.acquire(key, self.ttl, self.cooldown, self.max_attempts)
    }

    /// Issues and delivers a fresh code for `key` at time `now`: refused
    /// with `CooldownError` while the current record's cooldown runs;
    /// otherwise the stored record is overwritten first and delivery
    /// attempted only after a successful write.
    pub fn send_code(&mut self, key: &String, now: u64) -> (r: Result<(), ServiceError>)
        requires
            old(self).wf(),
            now + old(self).ttl <= u64::MAX,
            now + old(self).cooldown <= u64::MAX,
        ensures
            final(self).wf(),
            final(self).cooldown == old(self).cooldown,
            final(self).ttl == old(self).ttl,
            final(self).max_attempts == old(self).max_attempts,
            final(self).generator == old(self).generator,
            final(self).store.reliable() == old(self).store.reliable(),
            final(self).sender.reliable() == old(self).sender.reliable(),
            forall|k2: Seq<char>|
                k2 != key@ ==> lookup(final(self).records(), k2) == lookup(
                    old(self).records(),
                    k2,
                ),
            r is Ok ==> !send_blocked(lookup(old(self).records(), key@), now as int) && exists|
                c: Seq<char>,
            |
                final(self).records() == send_updates(
                    old(self).records(),
                    key@,
                    c,
                    now as int,
                    old(self).ttl as int,
                    old(self).cooldown as int,
                ) && final(self).deliveries() == old(self).deliveries().push((key@, c)),
            r == Err::<(), ServiceError>(ServiceError::CooldownError) ==> send_blocked(
                lookup(old(self).records(), key@),
                now as int,
            ) && final(self).records() == old(self).records() && final(self).deliveries()
                == old(self).deliveries(),
            r == Err::<(), ServiceError>(ServiceError::StorageError) ==> final(self).records()
                == old(self).records() && final(self).deliveries() == old(self).deliveries(),
            r == Err::<(), ServiceError>(ServiceError::SendError) ==> !send_blocked(
                lookup(old(self).records(), key@),
                now as int,
            ) && final(self).deliveries() == old(self).deliveries() && exists|c: Seq<char>|
                final(self).records() == send_updates(
                    old(self).records(),
                    key@,
                    c,
                    now as int,
                    old(self).ttl as int,
                    old(self).cooldown as int,
                ),
            r is Err ==> (r == Err::<(), ServiceError>(ServiceError::CooldownError) || r
                == Err::<(), ServiceError>(ServiceError::StorageError) || r == Err::<(
            ), ServiceError>(ServiceError::SendError)),
            old(self).store.reliable() && old(self).sender.reliable() ==> ((r is Ok)
                <==> !send_blocked(lookup(old(self).records(), key@), now as int)),
            old(self).store.reliable() ==> ((r == Err::<(), ServiceError>(
                ServiceError::CooldownError,
            )) <==> send_blocked(lookup(old(self).records(), key@), now as int)),
            old(self).generator.fixed_code() matches Some(c) ==> (r is Ok
                ==> final(self).records() == send_updates(
                old(self).records(),
                key@,
                c,
                now as int,
                old(self).ttl as int,
                old(self).cooldown as int,
            ) && final(self).deliveries() == old(self).deliveries().push((key@, c))),
    {
        let ex = self.acquire_executor(key);
        ex.send_code(&self.generator, &mut self.store, &mut self.sender, now)
    }

    /// Verifies `submitted` for `key` at time `now`: absence or expiry is
    /// refused without charge, an exhausted budget is refused, a mismatch
    /// charges and persists one attempt, and a match consumes the record.
    pub fn verify_code(&mut self, key: &String, submitted: &String, now: u64) -> (r: Result<
        (),
        ServiceError,
    >)
        requires
            old(self).wf(),
        ensures
            final(self).wf(),
            final(self).cooldown == old(self).cooldown,
            final(self).ttl == old(self).ttl,
            final(self).max_attempts == old(self).max_attempts,
            final(self).generator == old(self).generator,
            final(self).sender == old(self).sender,
            final(self).store.reliable() == old(self).store.reliable(),
            forall|k2: Seq<char>|
                k2 != key@ ==> lookup(final(self).records(), k2) == lookup(
                    old(self).records(),
                    k2,
                ),
            r is Ok ==> verify_outcome(
                lookup(old(self).records(), key@),
                now as int,
                old(self).max_attempts as int,
                submitted@,
            ) is Accepted && final(self).records() == verify_updates(
                old(self).records(),
                key@,
                now as int,
                old(self).max_attempts as int,
                submitted@,
            ),
            r == Err::<(), ServiceError>(ServiceError::NotFoundOrExpiredError) ==> verify_outcome(
                lookup(old(self).records(), key@),
                now as int,
                old(self).max_attempts as int,
                submitted@,
            ) is NotFoundOrExpired && final(self).records() == old(self).records(),
            r == Err::<(), ServiceError>(ServiceError::AttemptsExhaustedError) ==> verify_outcome(
                lookup(old(self).records(), key@),
                now as int,
                old(self).max_attempts as int,
                submitted@,
            ) is AttemptsExhausted && final(self).records() == old(self).records(),
            r == Err::<(), ServiceError>(ServiceError::MismatchError) ==> verify_outcome(
                lookup(old(self).records(), key@),
                now as int,
                old(self).max_attempts as int,
                submitted@,
            ) is Mismatch && final(self).records() == verify_updates(
                old(self).records(),
                key@,
                now as int,
                old(self).max_attempts as int,
                submitted@,
            ),
            r == Err::<(), ServiceError>(ServiceError::StorageError) ==> final(self).records()
                == old(self).records(),
            r != Err::<(), ServiceError>(ServiceError::CooldownError) && r != Err::<(
            ), ServiceError>(ServiceError::SendError),
            old(self).store.reliable() ==> ((r is Ok) <==> verify_outcome(
                lookup(old(self).records(), key@),
                now as int,
                old(self).max_attempts as int,
                submitted@,
            ) is Accepted) && ((r == Err::<(), ServiceError>(ServiceError::MismatchError))
                <==> verify_outcome(
                lookup(old(self).records(), key@),
                now as int,
                old(self).max_attempts as int,
                submitted@,
            ) is Mismatch) && ((r == Err::<(), ServiceError>(ServiceError::NotFoundOrExpiredError))
                <==> verify_outcome(
                lookup(old(self).records(), key@),
                now as int,
                old(self).max_attempts as int,
                submitted@,
            ) is NotFoundOrExpired) && ((r == Err::<(), ServiceError>(
                ServiceError::AttemptsExhaustedError,
            )) <==> verify_outcome(
                lookup(old(self).records(), key@),
                now as int,
                old(self).max_attempts as int,
                submitted@,
            ) is AttemptsExhausted),
    {
        let ex = self.acquire_executor(key);
        ex.verify_code(&mut self.store, submitted, now)
    }
}

} // verus!
