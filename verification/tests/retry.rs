//! Behaviour of the retry schedule, driven with explicit attempt outcomes.
//!
//! `outcomes[j]` is what the predicate's invocation `j` would do: `true`
//! succeeds, `false` fails. The shape of each scenario mirrors a predicate
//! watching a counter another worker bumps once a second.

use repeated_assert::that;
use repeated_assert::with_catch;

/// The counter is bumped after two delays, so the third attempt sees it.
#[test]
fn single_success() {
    let outcomes = vec![false, false, true, false, false];
    let t = that(5, &outcomes);
    assert!(t.succeeded);
    assert_eq!(t.invocations, 3);
    assert!(2 <= t.invocations && t.invocations <= 5);
    assert_eq!(t.sleeps, 2);
    assert!(!t.catch_fired);
}

/// The counter never moves within three attempts: the predicate is invoked
/// exactly three times and the final failure propagates.
#[test]
fn single_failure() {
    let outcomes = vec![false, false, false];
    let t = that(3, &outcomes);
    assert!(!t.succeeded);
    assert_eq!(t.invocations, 3);
    assert_eq!(t.sleeps, 2);
    assert!(!t.catch_fired);
}

/// Two assertions in the predicate, both eventually holding (11 == 11).
#[test]
fn multiple_success() {
    let outcomes = vec![false, false, true, false, false];
    let t = that(5, &outcomes);
    assert!(t.succeeded);
    assert_eq!(t.invocations, 3);
}

/// The first of the two assertions keeps failing within three attempts.
#[test]
fn multiple_failure_1() {
    let outcomes = vec![false, false, false];
    let t = that(3, &outcomes);
    assert!(!t.succeeded);
    assert_eq!(t.invocations, 3);
}

/// The second assertion (11 == 12) can never hold, so every attempt
/// fails and the final attempt's failure is the one that propagates.
#[test]
fn multiple_failure_2() {
    let outcomes = vec![false, false, false, false, false];
    let t = that(5, &outcomes);
    assert!(!t.succeeded);
    assert_eq!(t.invocations, 5);
    assert_eq!(t.sleeps, 4);
}

/// The counter starts at -1000; the catch hook resets it to 0 after five
/// failed attempts, and the next attempt sees it above zero.
#[test]
fn catch() {
    let outcomes = vec![
        false, false, false, false, false, true, false, false, false, false,
    ];
    let t = with_catch(10, 5, &outcomes);
    assert!(t.succeeded);
    assert!(t.catch_fired);
    assert_eq!(t.invocations, 6);
    assert_eq!(t.sleeps, 6);
}

/// A bound variable inside the predicate changes nothing about the
/// schedule: success on the third attempt.
#[test]
fn let_success() {
    let outcomes = vec![false, false, true, false, false];
    let t = that(5, &outcomes);
    assert!(t.succeeded);
    assert_eq!(t.invocations, 3);
}

/// A bound variable inside the predicate, never satisfying the assertion.
#[test]
fn let_failure() {
    let outcomes = vec![false, false, false];
    let t = that(3, &outcomes);
    assert!(!t.succeeded);
    assert_eq!(t.invocations, 3);
}

/// With a single repetition the call is the predicate invoked directly
/// once: no pause, no catch, the one outcome decides.
#[test]
fn single_repetition_success() {
    let t = that(1, &vec![true]);
    assert!(t.succeeded);
    assert_eq!(t.invocations, 1);
    assert_eq!(t.sleeps, 0);
    assert!(!t.catch_fired);
}

#[test]
fn single_repetition_failure() {
    let t = that(1, &vec![false]);
    assert!(!t.succeeded);
    assert_eq!(t.invocations, 1);
    assert_eq!(t.sleeps, 0);
}

/// Success exactly on the final, authoritative attempt: the predicate is
/// invoked the full five times and no failure surfaces.
#[test]
fn success_on_final_attempt() {
    let outcomes = vec![false, false, false, false, true];
    let t = that(5, &outcomes);
    assert!(t.succeeded);
    assert_eq!(t.invocations, 5);
    assert_eq!(t.sleeps, 4);
}

/// An attempt before the catch point succeeds: the hook must not fire.
#[test]
fn catch_not_fired_on_early_success() {
    let outcomes = vec![false, true, false, false, false, false, false, false, false, false];
    let t = with_catch(10, 5, &outcomes);
    assert!(t.succeeded);
    assert!(!t.catch_fired);
    assert_eq!(t.invocations, 2);
    assert_eq!(t.sleeps, 1);
}

/// A catch point of zero fires the hook before any attempt is made; the
/// hook takes the first iteration's place.
#[test]
fn catch_point_zero_fires_first() {
    let outcomes = vec![true, false, false];
    let t = with_catch(3, 0, &outcomes);
    assert!(t.succeeded);
    assert!(t.catch_fired);
    assert_eq!(t.invocations, 1);
    assert_eq!(t.sleeps, 1);
}

/// A catch point on the final attempt is never reached: the final attempt
/// takes precedence and the hook never fires.
#[test]
fn catch_point_on_final_attempt_never_fires() {
    let outcomes = vec![false, false, false];
    let t = with_catch(3, 2, &outcomes);
    assert!(!t.succeeded);
    assert!(!t.catch_fired);
    assert_eq!(t.invocations, 3);
    assert_eq!(t.sleeps, 2);
}

/// When every attempt of a run with a catch point fails, one attempt was
/// sacrificed to the hook: ten repetitions make nine invocations.
#[test]
fn catch_all_attempts_fail() {
    let outcomes = vec![false; 10];
    let t = with_catch(10, 5, &outcomes);
    assert!(!t.succeeded);
    assert!(t.catch_fired);
    assert_eq!(t.invocations, 9);
    assert_eq!(t.sleeps, 9);
}
