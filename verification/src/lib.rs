//! A retry harness for assertions that observe asynchronous side effects.
//!
//! A predicate is attempted up to a fixed number of times with a pause
//! between attempts. Failures on every attempt but the last are swallowed;
//! a failure on the last attempt propagates as if the predicate had been
//! invoked directly. This crate holds the verified core: the attempt
//! schedule, the per-worker failure-suppression bookkeeping, and the
//! forwarding decision of the process-wide failure reporter. The shell
//! that actually catches panics, sleeps, and talks to the host runtime
//! drives these decisions from outside.

use vstd::prelude::*;

pub mod driver;
pub mod reporter;
pub mod schedule;
pub mod suppression;
pub mod worker;

use crate::driver::{catch_point, Action, Driver};
use crate::schedule::{
    call_succeeds, catch_fires, invocation_cap, invocation_count, lemma_first_success_is,
    sleep_count, valid_call,
};

verus! {

/// What a finished retry call did, as observable counts: how many times the
/// predicate was invoked, how many pauses were taken, whether the catch hook
/// fired, and whether the call ended in a successful attempt.
pub struct Trace {
    pub invocations: usize,
    pub sleeps: usize,
    pub catch_fired: bool,
    pub succeeded: bool,
}

/// Drive one retry call to completion, where invocation `j` of the
/// predicate has outcome `outcomes[j]`.
fn run_driver(repetitions: usize, catch_after: Option<usize>, outcomes: &Vec<bool>) -> (t: Trace)
    requires
        valid_call(repetitions as int, catch_point(catch_after)),
        outcomes@.len() >= repetitions,
    ensures
        t.invocations == invocation_count(
            repetitions as int,
            catch_point(catch_after),
            outcomes@,
        ),
        t.sleeps == sleep_count(repetitions as int, catch_point(catch_after), outcomes@),
        t.catch_fired == catch_fires(repetitions as int, catch_point(catch_after), outcomes@),
        t.succeeded == call_succeeds(repetitions as int, catch_point(catch_after), outcomes@),
{
    let ghost k_opt = catch_point(catch_after);
    let ghost cap = invocation_cap(repetitions as int, k_opt);
    let mut d = Driver::new(repetitions, catch_after);
    let mut invocations: usize = 0;
    loop
        invariant
            k_opt == catch_point(catch_after),
            cap == invocation_cap(repetitions as int, k_opt),
            d.wf(),
            d.repetitions == repetitions,
            d.catch_after == catch_after,
            1 <= repetitions,
            outcomes@.len() >= repetitions,
            invocations == d.invocations_so_far(),
            forall|j: int| 0 <= j < invocations ==> !outcomes@[j],
        decreases 4 * (repetitions - d.iteration) + (if d.released {
            0int
        } else if d.guard_lifted && d.catch_fired {
            5int
        } else if d.guard_lifted {
            2int
        } else {
            3int
        }),
    {
        match d.next_action() {
            Action::AttemptProtected => {
                let ok = outcomes[invocations];
                if ok {
                    proof {
                        lemma_first_success_is(outcomes@, cap, invocations as int);
                        match k_opt {
                            Some(k) => {
                                if d.catch_fired {
                                    lemma_first_success_is(outcomes@, k, k);
                                } else if (invocations as int) < k {
                                    lemma_first_success_is(outcomes@, k, invocations as int);
                                }
                            },
                            None => {},
                        }
                    }
                    return Trace {
                        invocations: invocations + 1,
                        sleeps: d.iteration,
                        catch_fired: d.catch_fired,
                        succeeded: true,
                    };
                }
                d.record_failed_attempt();
                invocations = invocations + 1;
            },
            Action::ReleaseForCatch => {
                d.record_lift();
            },
            Action::Catch => {
                d.record_catch();
            },
            Action::ResumeGuard => {
                d.record_resume();
            },
            Action::ReleaseGuard => {
                d.record_release();
            },
            Action::AttemptFinal => {
                let ok = outcomes[invocations];
                proof {
                    if ok {
                        lemma_first_success_is(outcomes@, cap, invocations as int);
                    } else {
                        lemma_first_success_is(outcomes@, cap, cap);
                    }
                    match k_opt {
                        Some(k) => {
                            if d.catch_fired {
                                lemma_first_success_is(outcomes@, k, k);
                            }
                        },
                        None => {},
                    }
                }
                return Trace {
                    invocations: invocations + 1,
                    sleeps: d.iteration,
                    catch_fired: d.catch_fired,
                    succeeded: ok,
                };
            },
        }
    }
}

/// Run the retry schedule without a catch hook: up to `repetitions`
/// attempts, where attempt `j` has outcome `outcomes[j]`. The call returns
/// right after the first success; otherwise the final attempt is
/// authoritative and its failure propagates.
pub fn that(repetitions: usize, outcomes: &Vec<bool>) -> (t: Trace)
    requires
        1 <= repetitions,
        outcomes@.len() >= repetitions,
    ensures
        t.invocations == invocation_count(repetitions as int, None, outcomes@),
        t.sleeps == sleep_count(repetitions as int, None, outcomes@),
        !t.catch_fired,
        t.succeeded == call_succeeds(repetitions as int, None, outcomes@),
{
    run_driver(repetitions, None, outcomes)
}

/// Run the retry schedule with a catch hook after `repetitions_catch`
/// failed attempts. The hook runs in place of that iteration's predicate
/// call (so one attempt is sacrificed to it), unless the catch point falls
/// on the final attempt, which always takes precedence.
pub fn with_catch(repetitions: usize, repetitions_catch: usize, outcomes: &Vec<bool>) -> (t:
    Trace)
    requires
        1 <= repetitions,
        repetitions_catch < repetitions,
        outcomes@.len() >= repetitions,
    ensures
        t.invocations == invocation_count(
            repetitions as int,
            Some(repetitions_catch as int),
            outcomes@,
        ),
        t.sleeps == sleep_count(repetitions as int, Some(repetitions_catch as int), outcomes@),
        t.catch_fired == catch_fires(
            repetitions as int,
            Some(repetitions_catch as int),
            outcomes@,
        ),
        t.succeeded == call_succeeds(
            repetitions as int,
            Some(repetitions_catch as int),
            outcomes@,
        ),
{
    run_driver(repetitions, Some(repetitions_catch), outcomes)
}

} // verus!
