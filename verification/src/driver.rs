//! The per-call attempt driver, as an explicit state machine.
//!
//! One `Driver` value tracks where a single retry call stands: which loop
//! iteration it is on, whether the catch hook has fired, and whether the
//! worker's suppression entry currently stands. The shell around the
//! library asks `next_action` what to do, performs the outside work
//! (invoke the predicate in a protected frame, pause, run the catch hook,
//! remove or re-insert the suppression entry), and records the step. Every
//! decision is taken here, so the schedule the shell executes is exactly
//! the verified one.
//!
//! The catch hook's failure must not be swallowed, so the machine lifts
//! the suppression entry before the hook runs (`ReleaseForCatch`) and puts
//! it back only afterwards (`ResumeGuard`); the final attempt likewise
//! runs only after `ReleaseGuard`. `lemma_failure_windows_unsuppressed`
//! states this.

use vstd::prelude::*;
use vstd::string::StringExecFns;

use crate::schedule::valid_call;

verus! {

/// The next step of a retry call. Each step names the set operation the
/// shell performs with it, so set membership always equals the driver's
/// `entry_held`.
#[derive(Clone, Copy, Debug, PartialEq, Eq, Structural)]
pub enum Action {
    /// Invoke the predicate inside a protected frame; on failure, pause for
    /// the configured delay and record the failed attempt.
    AttemptProtected,
    /// Remove this worker's suppression entry, so that a failure raised by
    /// the catch hook is reported.
    ReleaseForCatch,
    /// Announce and invoke the catch hook in place of this iteration's
    /// predicate call — with the entry out, so the hook's own failure
    /// propagates to the reporter — then pause and record it.
    Catch,
    /// Re-insert this worker's suppression entry for the remaining
    /// protected attempts.
    ResumeGuard,
    /// Remove this worker's suppression entry, arming the final attempt.
    ReleaseGuard,
    /// Invoke the predicate with no protection; any failure propagates.
    AttemptFinal,
}

/// How many attempts a call may schedule. When the runtime reports no
/// identity for the calling worker, there is no safe way to swallow a
/// failure without silencing other workers, so the call degrades to the
/// single authoritative attempt.
pub fn plan_repetitions(worker_known: bool, repetitions: usize) -> (r: usize)
    requires
        1 <= repetitions,
    ensures
        r == if worker_known {
            repetitions as int
        } else {
            1int
        },
{
    if worker_known {
        repetitions
    } else {
        1
    }
}

/// The catch point as a mathematical value.
pub open spec fn catch_point(catch_after: Option<usize>) -> Option<int> {
    match catch_after {
        Some(k) => Some(k as int),
        None => None,
    }
}

/// The worker's name as the announcement prints it.
pub open spec fn name_view(name: Option<&str>) -> Option<Seq<char>> {
    match name {
        Some(n) => Some(n@),
        None => None,
    }
}

/// The single stdout line that announces the catch hook: the worker's
/// name — or the placeholder when the runtime reports none — followed by
/// the fixed announcement.
pub open spec fn announcement_text(name: Option<Seq<char>>) -> Seq<char> {
    (match name {
        Some(n) => n,
        None => "<unnamed thread>"@,
    }) + ": executing repeated-assert catch block"@
}

/// Build the announcement line the shell prints just before the catch
/// hook runs.
pub fn catch_announcement(name: Option<&str>) -> (r: String)
    ensures
        r@ == announcement_text(name_view(name)),
{
    let base: String = match name {
        Some(n) => n.to_owned(),
        None => "<unnamed thread>".to_owned(),
    };
    base.concat(": executing repeated-assert catch block")
}

/// The state of one retry call.
pub struct Driver {
    /// Total number of attempts the call may make; at least one.
    pub repetitions: usize,
    /// Iteration index after which the catch hook runs, if any.
    pub catch_after: Option<usize>,
    /// Loop iterations completed so far.
    pub iteration: usize,
    /// Whether the catch hook has been run.
    pub catch_fired: bool,
    /// Whether the suppression entry is out of the set for the catch hook.
    pub guard_lifted: bool,
    /// Whether the suppression entry has been released for the final attempt.
    pub released: bool,
}

impl Driver {
    pub open spec fn wf(&self) -> bool {
        &&& 1 <= self.repetitions
        &&& self.iteration <= self.repetitions - 1
        &&& (self.released ==> self.iteration == self.repetitions - 1)
        &&& !(self.released && self.guard_lifted)
        &&& match self.catch_after {
            Some(k) => {
                &&& k < self.repetitions
                &&& if k < self.repetitions - 1 {
                    self.catch_fired <==> self.iteration > k
                } else {
                    !self.catch_fired
                }
                &&& (self.guard_lifted ==> k < self.repetitions - 1 && (if self.catch_fired {
                    self.iteration == k + 1
                } else {
                    self.iteration == k
                }))
            },
            None => !self.catch_fired && !self.guard_lifted,
        }
    }

    /// Predicate invocations made so far: one per completed iteration,
    /// except the iteration sacrificed to the catch hook.
    pub open spec fn invocations_so_far(&self) -> int {
        self.iteration - if self.catch_fired {
            1int
        } else {
            0int
        }
    }

    /// Whether the worker's suppression entry currently stands in the set,
    /// assuming the shell performs the set operation each action names.
    pub open spec fn entry_held(&self) -> bool {
        !self.guard_lifted && !self.released
    }

    /// What the call does next, as a function of the state alone.
    pub open spec fn spec_next(&self) -> Action {
        if self.released {
            Action::AttemptFinal
        } else if self.guard_lifted && self.catch_fired {
            Action::ResumeGuard
        } else if self.guard_lifted {
            Action::Catch
        } else if self.iteration == self.repetitions - 1 {
            Action::ReleaseGuard
        } else if self.catch_after == Some(self.iteration) && !self.catch_fired {
            Action::ReleaseForCatch
        } else {
            Action::AttemptProtected
        }
    }

    pub fn new(repetitions: usize, catch_after: Option<usize>) -> (d: Driver)
        requires
            valid_call(repetitions as int, catch_point(catch_after)),
        ensures
            d.wf(),
            d.repetitions == repetitions,
            d.catch_after == catch_after,
            d.iteration == 0,
            !d.catch_fired,
            !d.guard_lifted,
            !d.released,
    {
        Driver {
            repetitions,
            catch_after,
            iteration: 0,
            catch_fired: false,
            guard_lifted: false,
            released: false,
        }
    }

    pub fn next_action(&self) -> (a: Action)
        requires
            self.wf(),
        ensures
            a == self.spec_next(),
    {
        if self.released {
            Action::AttemptFinal
        } else if self.guard_lifted {
            if self.catch_fired {
                Action::ResumeGuard
            } else {
                Action::Catch
            }
        } else if self.iteration == self.repetitions - 1 {
            Action::ReleaseGuard
        } else {
            let at_catch_point = match self.catch_after {
                Some(k) => k == self.iteration,
                None => false,
            };
            if at_catch_point && !self.catch_fired {
                Action::ReleaseForCatch
            } else {
                Action::AttemptProtected
            }
        }
    }

    /// Record that a protected attempt was made and failed (and that the
    /// pause after it was taken).
    pub fn record_failed_attempt(&mut self)
        requires
            old(self).wf(),
            old(self).spec_next() == Action::AttemptProtected,
        ensures
            final(self).wf(),
            final(self).iteration == old(self).iteration + 1,
            final(self).invocations_so_far() == old(self).invocations_so_far() + 1,
            final(self).repetitions == old(self).repetitions,
            final(self).catch_after == old(self).catch_after,
            final(self).catch_fired == old(self).catch_fired,
            final(self).guard_lifted == old(self).guard_lifted,
            final(self).released == old(self).released,
    {
        self.iteration = self.iteration + 1;
    }

    /// Record that the worker's suppression entry was removed ahead of the
    /// catch hook, so a failure the hook raises is reported.
    pub fn record_lift(&mut self)
        requires
            old(self).wf(),
            old(self).spec_next() == Action::ReleaseForCatch,
        ensures
            final(self).wf(),
            final(self).guard_lifted,
            !final(self).entry_held(),
            final(self).iteration == old(self).iteration,
            final(self).invocations_so_far() == old(self).invocations_so_far(),
            final(self).repetitions == old(self).repetitions,
            final(self).catch_after == old(self).catch_after,
            final(self).catch_fired == old(self).catch_fired,
            final(self).released == old(self).released,
    {
        self.guard_lifted = true;
    }

    /// Record that the catch hook was run — with the entry out of the set —
    /// and the pause after it taken. It can be recorded only while it has
    /// not fired, so it fires at most once per call.
    pub fn record_catch(&mut self)
        requires
            old(self).wf(),
            old(self).spec_next() == Action::Catch,
        ensures
            final(self).wf(),
            !old(self).catch_fired,
            !old(self).entry_held(),
            final(self).catch_fired,
            final(self).iteration == old(self).iteration + 1,
            final(self).invocations_so_far() == old(self).invocations_so_far(),
            final(self).repetitions == old(self).repetitions,
            final(self).catch_after == old(self).catch_after,
            final(self).guard_lifted == old(self).guard_lifted,
            final(self).released == old(self).released,
    {
        self.iteration = self.iteration + 1;
        self.catch_fired = true;
    }

    /// Record that the worker's suppression entry was put back after the
    /// catch hook, restoring protection for the remaining attempts.
    pub fn record_resume(&mut self)
        requires
            old(self).wf(),
            old(self).spec_next() == Action::ResumeGuard,
        ensures
            final(self).wf(),
            !final(self).guard_lifted,
            final(self).iteration == old(self).iteration,
            final(self).invocations_so_far() == old(self).invocations_so_far(),
            final(self).repetitions == old(self).repetitions,
            final(self).catch_after == old(self).catch_after,
            final(self).catch_fired == old(self).catch_fired,
            final(self).released == old(self).released,
    {
        self.guard_lifted = false;
    }

    /// Record that this worker's suppression entry was removed, so the
    /// final attempt is authoritative.
    pub fn record_release(&mut self)
        requires
            old(self).wf(),
            old(self).spec_next() == Action::ReleaseGuard,
        ensures
            final(self).wf(),
            final(self).released,
            !final(self).entry_held(),
            final(self).iteration == old(self).iteration,
            final(self).invocations_so_far() == old(self).invocations_so_far(),
            final(self).repetitions == old(self).repetitions,
            final(self).catch_after == old(self).catch_after,
            final(self).catch_fired == old(self).catch_fired,
            final(self).guard_lifted == old(self).guard_lifted,
    {
        self.released = true;
    }
}

/// A failure raised by the catch hook, or by the final attempt, is not
/// suppressed: whenever the driver schedules the catch step or the final
/// attempt, the worker's suppression entry is out of the set, so the
/// interceptor forwards the failure to the pre-existing reporter. (The
/// shell removes the entry at `ReleaseForCatch` and `ReleaseGuard` and
/// puts it back only at `ResumeGuard`.)
pub proof fn lemma_failure_windows_unsuppressed(d: Driver)
    requires
        d.wf(),
    ensures
        d.spec_next() == Action::Catch ==> !d.entry_held(),
        d.spec_next() == Action::AttemptFinal ==> !d.entry_held(),
        d.spec_next() == Action::AttemptProtected ==> d.entry_held(),
{
}

} // verus!
