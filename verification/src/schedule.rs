//! The mathematical model of one retry call.
//!
//! A call is determined by the repetition count, the optional catch point,
//! and the outcome each predicate invocation would have. The spec functions
//! here give the closed forms for how many invocations, pauses, and catch
//! firings such a call performs; the executable driver is proved against
//! them, and the laws about retry behaviour are proved from them.

use vstd::prelude::*;

verus! {

/// The smallest index `j` in `[0, n)` with `outcomes[j]`, or `n` when every
/// outcome in that range is a failure.
pub open spec fn first_success(outcomes: Seq<bool>, n: int) -> int
    decreases n,
{
    if n <= 0 {
        0
    } else {
        let p = first_success(outcomes, n - 1);
        if p < n - 1 {
            p
        } else if outcomes[n - 1] {
            n - 1
        } else {
            n
        }
    }
}

pub proof fn lemma_first_success_bounds(outcomes: Seq<bool>, n: int)
    requires
        0 <= n,
    ensures
        0 <= first_success(outcomes, n) <= n,
        forall|j: int| 0 <= j < first_success(outcomes, n) ==> !outcomes[j],
        first_success(outcomes, n) < n ==> outcomes[first_success(outcomes, n)],
    decreases n,
{
    if n > 0 {
        lemma_first_success_bounds(outcomes, n - 1);
    }
}

/// The first success is pinned by its characteristic facts: if everything
/// before `m` fails, and `m` either succeeds or is the bound itself, then
/// `m` is the first success.
pub proof fn lemma_first_success_is(outcomes: Seq<bool>, n: int, m: int)
    requires
        0 <= m <= n,
        forall|j: int| 0 <= j < m ==> !outcomes[j],
        m < n ==> outcomes[m],
    ensures
        first_success(outcomes, n) == m,
    decreases n,
{
    if n > 0 {
        if m == n {
            lemma_first_success_is(outcomes, n - 1, m - 1);
        } else {
            lemma_first_success_is(outcomes, n - 1, m);
        }
    }
}

/// A call is given by a repetition count of at least one and an optional
/// catch point below that count.
pub open spec fn valid_call(reps: int, catch_after: Option<int>) -> bool {
    &&& 1 <= reps
    &&& match catch_after {
        Some(k) => 0 <= k < reps,
        None => true,
    }
}

/// The largest number of predicate invocations a call can make. A catch
/// point before the final attempt sacrifices one loop iteration to the
/// hook; a catch point on the final attempt is never reached, because the
/// final attempt takes precedence over the hook.
pub open spec fn invocation_cap(reps: int, catch_after: Option<int>) -> int {
    match catch_after {
        Some(k) => if k < reps - 1 {
            reps - 1
        } else {
            reps
        },
        None => reps,
    }
}

/// How many times the call invokes the predicate, when invocation `j` has
/// outcome `outcomes[j]`: it stops right after the first success, and
/// otherwise exhausts every attempt.
pub open spec fn invocation_count(reps: int, catch_after: Option<int>, outcomes: Seq<bool>) -> int {
    let cap = invocation_cap(reps, catch_after);
    let f = first_success(outcomes, cap);
    if f < cap {
        f + 1
    } else {
        cap
    }
}

/// Whether the call returns a value, rather than letting the final
/// attempt's failure propagate.
pub open spec fn call_succeeds(reps: int, catch_after: Option<int>, outcomes: Seq<bool>) -> bool {
    first_success(outcomes, invocation_cap(reps, catch_after)) < invocation_cap(
        reps,
        catch_after,
    )
}

/// Whether the catch hook fires: only when a catch point exists before the
/// final attempt and every attempt before the catch point failed.
pub open spec fn catch_fires(reps: int, catch_after: Option<int>, outcomes: Seq<bool>) -> bool {
    match catch_after {
        Some(k) => k < reps - 1 && first_success(outcomes, k) == k,
        None => false,
    }
}

/// How many pauses the call takes: one after every failed protected attempt
/// and one after the catch hook, none after the final attempt.
pub open spec fn sleep_count(reps: int, catch_after: Option<int>, outcomes: Seq<bool>) -> int {
    invocation_count(reps, catch_after, outcomes) - 1 + if catch_fires(
        reps,
        catch_after,
        outcomes,
    ) {
        1int
    } else {
        0int
    }
}

/// When the predicate first succeeds on attempt `k` of a plain retry call,
/// the predicate is invoked exactly `k + 1` times and the call pauses
/// exactly `k` times, so it spans at least `k` delays of wall time.
pub proof fn lemma_eventual_success(reps: int, outcomes: Seq<bool>, k: int)
    requires
        1 <= reps,
        0 <= k < reps,
        outcomes[k],
        forall|j: int| 0 <= j < k ==> !outcomes[j],
    ensures
        invocation_count(reps, None, outcomes) == k + 1,
        sleep_count(reps, None, outcomes) == k,
        call_succeeds(reps, None, outcomes),
{
    lemma_first_success_is(outcomes, reps, k);
}

/// When every attempt of a plain retry call fails, the predicate is invoked
/// exactly `reps` times, the call does not succeed (the final failure
/// propagates), and the call pauses exactly `reps - 1` times.
pub proof fn lemma_always_fails(reps: int, outcomes: Seq<bool>)
    requires
        1 <= reps,
        forall|j: int| 0 <= j < reps ==> !outcomes[j],
    ensures
        invocation_count(reps, None, outcomes) == reps,
        sleep_count(reps, None, outcomes) == reps - 1,
        !call_succeeds(reps, None, outcomes),
{
    lemma_first_success_is(outcomes, reps, reps);
}

/// A call with a single repetition is the predicate invoked directly once:
/// one invocation, no pauses, no catch firing, and success exactly when
/// that one invocation succeeds.
pub proof fn lemma_single_repetition(outcomes: Seq<bool>)
    ensures
        invocation_count(1, None, outcomes) == 1,
        sleep_count(1, None, outcomes) == 0,
        !catch_fires(1, None, outcomes),
        call_succeeds(1, None, outcomes) == outcomes[0],
{
    if outcomes[0] {
        lemma_first_success_is(outcomes, 1, 0);
    } else {
        lemma_first_success_is(outcomes, 1, 1);
    }
}

/// A catch point on the final attempt is never reached — the final attempt
/// takes precedence over the hook — so such a call behaves exactly like one
/// without a catch hook.
pub proof fn lemma_catch_on_final_is_plain(reps: int, outcomes: Seq<bool>)
    requires
        1 <= reps,
    ensures
        invocation_count(reps, Some(reps - 1), outcomes) == invocation_count(
            reps,
            None,
            outcomes,
        ),
        sleep_count(reps, Some(reps - 1), outcomes) == sleep_count(reps, None, outcomes),
        !catch_fires(reps, Some(reps - 1), outcomes),
        call_succeeds(reps, Some(reps - 1), outcomes) == call_succeeds(reps, None, outcomes),
{
}

/// The catch hook fires only when every attempt before the catch point
/// failed. In particular it does not fire when some attempt before the
/// catch point succeeded, and when it fires past a catch point of at least
/// one, some attempt has indeed failed.
pub proof fn lemma_catch_only_after_failures(reps: int, k: int, outcomes: Seq<bool>)
    requires
        1 <= reps,
        0 <= k < reps,
    ensures
        catch_fires(reps, Some(k), outcomes) ==> forall|j: int| 0 <= j < k ==> !outcomes[j],
        (exists|j: int| 0 <= j < k && outcomes[j]) ==> !catch_fires(reps, Some(k), outcomes),
        k >= 1 && catch_fires(reps, Some(k), outcomes) ==> exists|j: int|
            0 <= j < k && !outcomes[j],
{
    lemma_first_success_bounds(outcomes, k);
    if catch_fires(reps, Some(k), outcomes) && k >= 1 {
        assert(!outcomes[0]);
    }
}

} // verus!
