//! The failure-reporter interceptor's decisions.
//!
//! The shell replaces the process-wide failure reporter with an interceptor
//! that chains to the captured original. The two decisions the interceptor
//! embodies live here: whether a given failure is forwarded, and whether a
//! caller racing through the one-shot is the one that performs the
//! installation. The shell supplies the mutual exclusion around both.

use vstd::prelude::*;

use crate::suppression::SuppressionSet;
use crate::worker::WorkerId;

verus! {

/// The identity a failure carries: the failing worker's name, read at
/// failure time, when the runtime reports one.
pub open spec fn worker_view(worker: Option<&WorkerId>) -> Option<Seq<u8>> {
    match worker {
        Some(w) => Some(w@),
        None => None,
    }
}

/// Whether the interceptor forwards a failure to the pre-existing
/// reporter: always when the failing worker has no readable identity (the
/// conservative default), and otherwise exactly when that identity is not
/// suppressed.
pub open spec fn forwards(suppressed: Set<Seq<u8>>, worker: Option<Seq<u8>>) -> bool {
    match worker {
        Some(w) => !suppressed.contains(w),
        None => true,
    }
}

/// The interceptor's decision for one signalled failure. The shell's hook
/// reads the current worker's name at failure time, takes the process-wide
/// lock, and asks this function whether to chain to the captured original
/// reporter with the unmodified failure payload.
pub fn should_forward(set: &SuppressionSet, worker: Option<&WorkerId>) -> (r: bool)
    ensures
        r == forwards(set@, worker_view(worker)),
{
    match worker {
        Some(w) => !set.contains(w),
        None => true,
    }
}

/// Suppression is scoped to one worker: adding or removing one worker's
/// entry never changes the forwarding decision for a failure on a
/// different worker, nor for a failure with no readable identity; and a
/// worker whose entry stands inserted is itself not forwarded.
pub proof fn lemma_worker_isolation(suppressed: Set<Seq<u8>>, w1: Seq<u8>, w2: Seq<u8>)
    requires
        w1 != w2,
    ensures
        forwards(suppressed.insert(w1), Some(w2)) == forwards(suppressed, Some(w2)),
        forwards(suppressed.remove(w1), Some(w2)) == forwards(suppressed, Some(w2)),
        forwards(suppressed.insert(w1), None),
        forwards(suppressed.remove(w1), None),
        !forwards(suppressed.insert(w1), Some(w1)),
{
}

/// The once-only installation of the reporter hook. The shell holds one
/// value of this type behind its process-wide one-shot; the caller that is
/// handed `true` captures the original reporter and puts the interceptor
/// in its place, and nobody else ever does.
pub struct HookInstallation {
    installed: bool,
}

impl HookInstallation {
    pub closed spec fn is_installed(&self) -> bool {
        self.installed
    }

    pub fn new() -> (h: HookInstallation)
        ensures
            !h.is_installed(),
    {
        HookInstallation { installed: false }
    }

    /// Whether the caller must perform the installation: it answers yes
    /// the first time and no ever after, so the interceptor is installed
    /// at most once and the captured original reporter is never replaced
    /// a second time by this system.
    pub fn acquire_install(&mut self) -> (perform: bool)
        ensures
            final(self).is_installed(),
            perform == !old(self).is_installed(),
    {
        let perform = !self.installed;
        self.installed = true;
        perform
    }
}

/// Over any serialized sequence of installation acquisitions, at most one
/// of them — and only the very first — is told to install. `states[i]` is
/// the installation flag before acquisition `i`; `performed[i]` is what
/// acquisition `i` answered.
pub proof fn lemma_install_at_most_once(states: Seq<bool>, performed: Seq<bool>)
    requires
        states.len() == performed.len() + 1,
        forall|i: int|
            0 <= i < performed.len() ==> states[i + 1] && (#[trigger] performed[i]) == !states[i],
    ensures
        forall|i: int| 1 <= i < performed.len() ==> !(#[trigger] performed[i]),
        forall|i: int, j: int|
            0 <= i < j < performed.len() ==> !(#[trigger] performed[i] && #[trigger] performed[j]),
{
    assert forall|i: int| 1 <= i < performed.len() implies !(#[trigger] performed[i]) by {
        assert(performed[i - 1] == !states[i - 1]);
        assert(states[i]);
        assert(performed[i] == !states[i]);
    }
}

} // verus!
