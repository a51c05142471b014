//! Proved properties of the code lifecycle, stated over the same spec
//! functions the executor's and service's contracts use, so each holds of
//! every run of the verified operations.

use vstd::prelude::*;
use crate::policy::{
    exhausted, live, lookup, send_blocked, send_updates, verify_outcome, verify_updates,
    VerifyOutcome,
};
use crate::record::{bump_attempts, fresh_rec, Rec};

verus! {

/// Operations on one key never touch another key's record: both the issue
/// and the verify transition leave every other key's lookup unchanged.
pub proof fn law_distinct_keys_independent(
    m: Map<Seq<char>, Rec>,
    k: Seq<char>,
    k2: Seq<char>,
    code: Seq<char>,
    now: int,
    ttl: int,
    cooldown: int,
    max_attempts: int,
    submitted: Seq<char>,
)
    requires
        k2 != k,
    ensures
        lookup(send_updates(m, k, code, now, ttl, cooldown), k2) == lookup(m, k2),
        lookup(verify_updates(m, k, now, max_attempts, submitted), k2) == lookup(m, k2),
{
}

/// After an issue for a key at `t1`, a second issue for the same key at any
/// `t2` inside the cooldown window is blocked: of two issues within one
/// window, only the first generates and delivers.
pub proof fn law_second_send_blocked(
    m: Map<Seq<char>, Rec>,
    k: Seq<char>,
    code: Seq<char>,
    t1: int,
    t2: int,
    ttl: int,
    cooldown: int,
)
    requires
        t2 < t1 + cooldown,
    ensures
        send_blocked(lookup(send_updates(m, k, code, t1, ttl, cooldown), k), t2),
{
}

/// A correct code, submitted within its validity window and before the
/// attempt budget is spent, is accepted, and acceptance consumes the
/// record: the same code is rejected as not-found on any later attempt.
pub proof fn law_correct_code_single_use(
    m: Map<Seq<char>, Rec>,
    k: Seq<char>,
    r: Rec,
    t1: int,
    t2: int,
    max_attempts: int,
)
    requires
        lookup(m, k) == Some(r),
        live(r, t1),
        !exhausted(r, max_attempts),
    ensures
        verify_outcome(lookup(m, k), t1, max_attempts, r.code) is Accepted,
        verify_updates(m, k, t1, max_attempts, r.code) == m.remove(k),
        verify_outcome(
            lookup(verify_updates(m, k, t1, max_attempts, r.code), k),
            t2,
            max_attempts,
            r.code,
        ) is NotFoundOrExpired,
{
}

/// One wrong submission against a live record with budget left is rejected
/// as a mismatch and charges exactly one attempt; nothing else of the
/// record changes.
pub proof fn law_wrong_code_charges_one(
    m: Map<Seq<char>, Rec>,
    k: Seq<char>,
    r: Rec,
    submitted: Seq<char>,
    now: int,
    max_attempts: int,
)
    requires
        lookup(m, k) == Some(r),
        live(r, now),
        submitted != r.code,
        r.attempts < max_attempts,
    ensures
        verify_outcome(lookup(m, k), now, max_attempts, submitted) is Mismatch,
        lookup(verify_updates(m, k, now, max_attempts, submitted), k) == Some(bump_attempts(r)),
        bump_attempts(r).attempts == r.attempts + 1,
        bump_attempts(r).code == r.code,
        bump_attempts(r).expires_at == r.expires_at,
        bump_attempts(r).resend_available_at == r.resend_available_at,
{
}

/// Once the budget is spent, a further submission against a live record is
/// rejected as exhausted and charges nothing.
pub proof fn law_exhausted_charges_nothing(
    m: Map<Seq<char>, Rec>,
    k: Seq<char>,
    r: Rec,
    submitted: Seq<char>,
    now: int,
    max_attempts: int,
)
    requires
        lookup(m, k) == Some(r),
        live(r, now),
        r.attempts >= max_attempts,
    ensures
        verify_outcome(lookup(m, k), now, max_attempts, submitted) is AttemptsExhausted,
        verify_updates(m, k, now, max_attempts, submitted) == m,
{
}

/// The store contents after a run of wrong submissions for `k`, one
/// verification per entry of `times`, oldest first.
pub open spec fn wrongs_applied(
    m: Map<Seq<char>, Rec>,
    k: Seq<char>,
    submitted: Seq<char>,
    times: Seq<int>,
    max_attempts: int,
) -> Map<Seq<char>, Rec>
    decreases times.len(),
{
    if times.len() == 0 {
        m
    } else {
        verify_updates(
            wrongs_applied(m, k, submitted, times.drop_last(), max_attempts),
            k,
            times.last(),
            max_attempts,
            submitted,
        )
    }
}

/// After `n` wrong submissions, all inside the record's validity window,
/// the record still stands, unchanged but for its attempt count, which has
/// reached `n` capped at the budget.
pub proof fn lemma_wrong_run_state(
    m: Map<Seq<char>, Rec>,
    k: Seq<char>,
    r0: Rec,
    submitted: Seq<char>,
    times: Seq<int>,
    max_attempts: int,
)
    requires
        lookup(m, k) == Some(r0),
        r0.attempts == 0,
        submitted != r0.code,
        max_attempts >= 0,
        forall|i: int| 0 <= i < times.len() ==> live(r0, #[trigger] times[i]),
    ensures
        lookup(wrongs_applied(m, k, submitted, times, max_attempts), k) == Some(
            Rec {
                attempts: if times.len() <= max_attempts {
                    times.len() as int
                } else {
                    max_attempts
                },
                ..r0
            },
        ),
    decreases times.len(),
{
    if times.len() == 0 {
        assert(Rec { attempts: 0, ..r0 } == r0);
    } else {
        lemma_wrong_run_state(m, k, r0, submitted, times.drop_last(), max_attempts);
    }
}

/// The verdict on the submission made at `times[i]`, after the wrong
/// submissions at `times[..i]` have been charged.
pub open spec fn nth_wrong_outcome(
    m: Map<Seq<char>, Rec>,
    k: Seq<char>,
    submitted: Seq<char>,
    times: Seq<int>,
    max_attempts: int,
    i: int,
) -> VerifyOutcome {
    verify_outcome(
        lookup(wrongs_applied(m, k, submitted, times.take(i), max_attempts), k),
        times[i],
        max_attempts,
        submitted,
    )
}

/// A run of wrong submissions against a fresh record, all inside its
/// validity window, is rejected as a mismatch on every submission up to the
/// budget, and as exhausted from the very next one on — never earlier.
pub proof fn law_exhaustion_exactly_after_budget(
    m: Map<Seq<char>, Rec>,
    k: Seq<char>,
    r0: Rec,
    submitted: Seq<char>,
    times: Seq<int>,
    max_attempts: int,
)
    requires
        lookup(m, k) == Some(r0),
        r0.attempts == 0,
        submitted != r0.code,
        max_attempts >= 0,
        forall|i: int| 0 <= i < times.len() ==> live(r0, #[trigger] times[i]),
    ensures
        forall|i: int|
            0 <= i < times.len() ==> nth_wrong_outcome(m, k, submitted, times, max_attempts, i)
                == (if i < max_attempts {
                VerifyOutcome::Mismatch
            } else {
                VerifyOutcome::AttemptsExhausted
            }),
{
    assert forall|i: int| 0 <= i < times.len() implies nth_wrong_outcome(
        m,
        k,
        submitted,
        times,
        max_attempts,
        i,
    ) == (if i < max_attempts {
        VerifyOutcome::Mismatch
    } else {
        VerifyOutcome::AttemptsExhausted
    }) by {
        let prefix = times.take(i);
        assert(forall|j: int| 0 <= j < prefix.len() ==> live(r0, #[trigger] prefix[j]));
        lemma_wrong_run_state(m, k, r0, submitted, prefix, max_attempts);
    }
}

/// A record is unverifiable from its expiry on, whatever its remaining
/// attempt budget and whatever is submitted.
pub proof fn law_expired_unverifiable(r: Rec, now: int, max_attempts: int, submitted: Seq<char>)
    requires
        now >= r.expires_at,
    ensures
        verify_outcome(Some(r), now, max_attempts, submitted) is NotFoundOrExpired,
{
}

/// Round trip: the code a successful issue stored is accepted by a
/// verification at any time inside its validity window, provided the
/// attempt budget admits at least one attempt, and acceptance consumes the
/// record.
pub proof fn law_round_trip(
    m: Map<Seq<char>, Rec>,
    k: Seq<char>,
    code: Seq<char>,
    t1: int,
    t2: int,
    ttl: int,
    cooldown: int,
    max_attempts: int,
)
    requires
        t2 < t1 + ttl,
        max_attempts >= 1,
    ensures
        ({
            let issued = send_updates(m, k, code, t1, ttl, cooldown);
            verify_outcome(lookup(issued, k), t2, max_attempts, code) is Accepted
                && verify_updates(issued, k, t2, max_attempts, code) == issued.remove(k)
        }),
{
}

} // verus!
