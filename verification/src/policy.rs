//! The pure send/verify policy: every decision the per-key coordinator makes,
//! as spec functions over the record model and as executable decision
//! functions with exact contracts.
//!
//! The executable layer around a real backend reads the current record, asks
//! these functions what to do, and then performs the chosen storage or
//! delivery action; nothing here does I/O.

use vstd::prelude::*;
use crate::record::{bump_attempts, CodeRecord, Rec};

verus! {

/// The model of an optional stored record.
pub open spec fn opt_rec(o: Option<CodeRecord>) -> Option<Rec> {
    match o {
        Option::Some(r) => Option::Some(r@),
        Option::None => Option::None,
    }
}

/// A record still inside its validity window at time `now`.
pub open spec fn live(r: Rec, now: int) -> bool {
    now < r.expires_at
}

/// A record whose resend cooldown has not yet elapsed at time `now`.
pub open spec fn in_cooldown(r: Rec, now: int) -> bool {
    now < r.resend_available_at
}

/// A record whose wrong-attempt budget is used up.
pub open spec fn exhausted(r: Rec, max_attempts: int) -> bool {
    r.attempts >= max_attempts
}

/// `send_code` is refused exactly when a record is present and its resend
/// cooldown still runs.
pub open spec fn send_blocked(cur: Option<Rec>, now: int) -> bool {
    match cur {
        Option::Some(r) => in_cooldown(r, now),
        Option::None => false,
    }
}

/// What a verification of `submitted` at time `now` must do, in the order the
/// policy checks: absence or expiry first, then the attempt budget, then the
/// comparison against the stored code.
pub ghost enum VerifyOutcome {
    NotFoundOrExpired,
    AttemptsExhausted,
    Mismatch,
    Accepted,
}

/// The policy's verdict on a submission, as a function of the stored record,
/// the clock, the attempt limit and the submitted code alone.
pub open spec fn verify_outcome(
    cur: Option<Rec>,
    now: int,
    max_attempts: int,
    submitted: Seq<char>,
) -> VerifyOutcome {
    match cur {
        Option::None => VerifyOutcome::NotFoundOrExpired,
        Option::Some(r) => if !live(r, now) {
            VerifyOutcome::NotFoundOrExpired
        } else if exhausted(r, max_attempts) {
            VerifyOutcome::AttemptsExhausted
        } else if submitted != r.code {
            VerifyOutcome::Mismatch
        } else {
            VerifyOutcome::Accepted
        },
    }
}

/// Point lookup in a store model.
pub open spec fn lookup(m: Map<Seq<char>, Rec>, k: Seq<char>) -> Option<Rec> {
    if m.contains_key(k) {
        Option::Some(m[k])
    } else {
        Option::None
    }
}

/// The store contents after a successful `send_code` for `k` issued `code`
/// at time `now`: the prior record, whatever its state, is overwritten.
pub open spec fn send_updates(
    m: Map<Seq<char>, Rec>,
    k: Seq<char>,
    code: Seq<char>,
    now: int,
    ttl: int,
    cooldown: int,
) -> Map<Seq<char>, Rec> {
    m.insert(k, crate::record::fresh_rec(code, now, ttl, cooldown))
}

/// The store contents after a completed `verify_code` for `k`: a mismatch
/// charges one attempt, an accepted code consumes the record, and every
/// rejected-before-comparison case leaves the store as it was.
pub open spec fn verify_updates(
    m: Map<Seq<char>, Rec>,
    k: Seq<char>,
    now: int,
    max_attempts: int,
    submitted: Seq<char>,
) -> Map<Seq<char>, Rec> {
    match verify_outcome(lookup(m, k), now, max_attempts, submitted) {
        VerifyOutcome::Mismatch => m.insert(k, bump_attempts(m[k])),
        VerifyOutcome::Accepted => m.remove(k),
        _ => m,
    }
}

/// What `verify_code` must do next, together with the updated record to
/// persist when one attempt is charged.
pub enum VerifyDecision {
    RejectMissingOrExpired,
    RejectExhausted,
    RejectMismatch(CodeRecord),
    Accept,
}

/// Decides whether a `send_code` at time `now` is blocked by the cooldown of
/// the current record.
pub fn decide_send(cur: &Option<CodeRecord>, now: u64) -> (blocked: bool)
    ensures
        blocked == send_blocked(opt_rec(*cur), now as int),
{
    match cur {
        Option::Some(r) => now < r.resend_available_at,
        Option::None => false,
    }
}

/// Decides what a `verify_code` of `submitted` at time `now` must do with the
/// current record, under the given attempt limit.
pub fn decide_verify(
    cur: &Option<CodeRecord>,
    submitted: &String,
    now: u64,
    max_attempts: u64,
) -> (d: VerifyDecision)
    ensures
        (d matches VerifyDecision::RejectMissingOrExpired) <==> (verify_outcome(
            opt_rec(*cur),
            now as int,
            max_attempts as int,
            submitted@,
        ) is NotFoundOrExpired),
        (d matches VerifyDecision::RejectExhausted) <==> (verify_outcome(
            opt_rec(*cur),
            now as int,
            max_attempts as int,
            submitted@,
        ) is AttemptsExhausted),
        (d matches VerifyDecision::Accept) <==> (verify_outcome(
            opt_rec(*cur),
            now as int,
            max_attempts as int,
            submitted@,
        ) is Accepted),
        d matches VerifyDecision::RejectMismatch(u) ==> ((verify_outcome(
            opt_rec(*cur),
            now as int,
            max_attempts as int,
            submitted@,
        ) is Mismatch) && (cur matches Option::Some(r) && u@ == bump_attempts(r@))),
        (verify_outcome(opt_rec(*cur), now as int, max_attempts as int, submitted@)
            is Mismatch) ==> (d matches VerifyDecision::RejectMismatch(_)),
{
    match cur {
        Option::None => VerifyDecision::RejectMissingOrExpired,
        Option::Some(r) => {
            if now >= r.expires_at {
                VerifyDecision::RejectMissingOrExpired
            } else if r.attempts >= max_attempts {
                VerifyDecision::RejectExhausted
            } else if !submitted.eq(&r.code) {
                VerifyDecision::RejectMismatch(
                    CodeRecord {
                        code: r.code.clone(),
                        created_at: r.created_at,
                        expires_at: r.expires_at,
                        resend_available_at: r.resend_available_at,
                        attempts: r.attempts + 1,
                    },
                )
            } else {
                VerifyDecision::Accept
            }
        },
    }
}

} // verus!
