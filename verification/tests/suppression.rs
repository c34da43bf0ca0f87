//! Suppression scoping, the reporter's forwarding decision, the one-shot
//! hook installation, and the driver's action sequence.

use repeated_assert::driver::catch_announcement;
use repeated_assert::driver::plan_repetitions;
use repeated_assert::driver::Action;
use repeated_assert::driver::Driver;
use repeated_assert::reporter::should_forward;
use repeated_assert::reporter::HookInstallation;
use repeated_assert::suppression::SuppressionSet;
use repeated_assert::worker::WorkerId;

fn id(name: &str) -> WorkerId {
    WorkerId::new(name.as_bytes().to_vec())
}

#[test]
fn worker_identity_comparison() {
    assert!(id("w1").same_as(&id("w1")));
    assert!(!id("w1").same_as(&id("w2")));
    assert!(!id("w1").same_as(&id("w11")));
    assert!(id("").same_as(&id("")));
}

/// A guard inserts its worker and removes it again: nothing it inserted
/// survives, whichever exit path released it.
#[test]
fn guard_is_balanced() {
    let mut set = SuppressionSet::new();
    set.insert(id("w1"));
    assert!(set.contains(&id("w1")));
    set.remove(&id("w1"));
    assert!(!set.contains(&id("w1")));
    // The scope-exit release after an early release is a no-op.
    set.remove(&id("w1"));
    assert!(!set.contains(&id("w1")));
}

/// Inserting an identity already present is a no-op: one removal empties
/// the entry however many insertions preceded it.
#[test]
fn insert_is_idempotent() {
    let mut set = SuppressionSet::new();
    set.insert(id("w1"));
    set.insert(id("w1"));
    assert!(set.contains(&id("w1")));
    set.remove(&id("w1"));
    assert!(!set.contains(&id("w1")));
}

/// Nested calls on the same worker: the inner guard's release empties the
/// entry, and the outer guard's later release stays a no-op; both levels
/// end balanced.
#[test]
fn nested_guards_stay_balanced() {
    let mut set = SuppressionSet::new();
    set.insert(id("w1")); // outer call
    set.insert(id("w1")); // inner call, nested in the outer predicate
    set.remove(&id("w1")); // inner release
    assert!(!set.contains(&id("w1")));
    set.remove(&id("w1")); // outer release
    assert!(!set.contains(&id("w1")));
}

/// Suppressing one worker never changes the decision for another worker,
/// nor for a failure with no readable identity.
#[test]
fn suppression_is_scoped_per_worker() {
    let mut set = SuppressionSet::new();
    assert!(should_forward(&set, Some(&id("w2"))));
    set.insert(id("w1"));
    assert!(!should_forward(&set, Some(&id("w1"))));
    assert!(should_forward(&set, Some(&id("w2"))));
    assert!(should_forward(&set, None));
    set.remove(&id("w1"));
    assert!(should_forward(&set, Some(&id("w1"))));
    assert!(should_forward(&set, Some(&id("w2"))));
}

/// Only the first acquisition of the one-shot performs the installation,
/// however many follow.
#[test]
fn hook_installed_at_most_once() {
    let mut h = HookInstallation::new();
    assert!(h.acquire_install());
    assert!(!h.acquire_install());
    assert!(!h.acquire_install());
}

/// With no readable worker identity the call degrades to the single
/// authoritative attempt.
#[test]
fn unnamed_worker_degrades_to_one_attempt() {
    assert_eq!(plan_repetitions(true, 7), 7);
    assert_eq!(plan_repetitions(false, 7), 1);
    assert_eq!(plan_repetitions(false, 1), 1);
}

/// The driver's full action sequence for three repetitions, all attempts
/// failing: two protected attempts, the guard release, the final attempt.
#[test]
fn driver_actions_plain() {
    let mut d = Driver::new(3, None);
    assert_eq!(d.next_action(), Action::AttemptProtected);
    d.record_failed_attempt();
    assert_eq!(d.next_action(), Action::AttemptProtected);
    d.record_failed_attempt();
    assert_eq!(d.next_action(), Action::ReleaseGuard);
    d.record_release();
    assert_eq!(d.next_action(), Action::AttemptFinal);
}

/// With a catch point, the hook takes the place of that iteration's
/// attempt, exactly once, and the suppression entry is lifted around it.
#[test]
fn driver_actions_with_catch() {
    let mut d = Driver::new(4, Some(1));
    assert_eq!(d.next_action(), Action::AttemptProtected);
    d.record_failed_attempt();
    assert_eq!(d.next_action(), Action::ReleaseForCatch);
    d.record_lift();
    assert_eq!(d.next_action(), Action::Catch);
    d.record_catch();
    assert_eq!(d.next_action(), Action::ResumeGuard);
    d.record_resume();
    assert_eq!(d.next_action(), Action::AttemptProtected);
    d.record_failed_attempt();
    assert_eq!(d.next_action(), Action::ReleaseGuard);
    d.record_release();
    assert_eq!(d.next_action(), Action::AttemptFinal);
}

/// The shell's set follows the driver's actions, so a failure raised by
/// the catch hook — or by the final attempt — would be forwarded, while
/// failures of protected attempts are swallowed.
#[test]
fn catch_hook_failure_is_reported() {
    let mut set = SuppressionSet::new();
    let mut d = Driver::new(3, Some(1));
    set.insert(id("w1"));
    assert_eq!(d.next_action(), Action::AttemptProtected);
    assert!(!should_forward(&set, Some(&id("w1"))));
    d.record_failed_attempt();
    assert_eq!(d.next_action(), Action::ReleaseForCatch);
    set.remove(&id("w1"));
    d.record_lift();
    assert_eq!(d.next_action(), Action::Catch);
    // The hook runs here; were it to fail, the failure would be reported.
    assert!(should_forward(&set, Some(&id("w1"))));
    d.record_catch();
    assert_eq!(d.next_action(), Action::ResumeGuard);
    set.insert(id("w1"));
    d.record_resume();
    assert!(!should_forward(&set, Some(&id("w1"))));
    assert_eq!(d.next_action(), Action::ReleaseGuard);
    set.remove(&id("w1"));
    d.record_release();
    assert_eq!(d.next_action(), Action::AttemptFinal);
    assert!(should_forward(&set, Some(&id("w1"))));
}

/// The announcement line that precedes the catch hook, with and without a
/// worker name.
#[test]
fn catch_announcement_line() {
    assert_eq!(
        catch_announcement(Some("w1")),
        "w1: executing repeated-assert catch block"
    );
    assert_eq!(
        catch_announcement(None),
        "<unnamed thread>: executing repeated-assert catch block"
    );
}
