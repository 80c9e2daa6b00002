//! The endpoint awaiter: bounded polling for a path to appear.
//!
//! Provisioning materializes the device nodes asynchronously, so the
//! writer polls at a fixed short interval until the endpoint exists or a
//! whole-second timeout elapses. The decision logic lives here; the
//! surrounding process checks the filesystem and sleeps between polls.

use vstd::prelude::*;

verus! {

/// Polls per second: one check every 100 milliseconds.
pub const POLLS_PER_SEC: u64 = 10;

/// What one poll of the filesystem decides.
#[derive(Clone, Copy, PartialEq, Eq, Structural, Debug)]
pub enum AwaitStep {
    /// The endpoint exists; polling ends with success.
    Found,
    /// Not there yet; sleep one interval and poll again.
    Wait,
    /// The poll budget is spent; polling ends with failure.
    TimedOut,
}

/// Bounded poll-for-existence, driven one observation at a time.
pub struct EndpointAwaiter {
    /// Polls still allowed, including the one about to be made.
    pub polls_left: u64,
}

impl EndpointAwaiter {
    /// An awaiter for a whole-second timeout: ten polls per second.
    pub fn new(timeout_secs: u64) -> (r: Self)
        requires
            timeout_secs <= u64::MAX / 10,
        ensures
            r.polls_left == timeout_secs * POLLS_PER_SEC,
    {
        EndpointAwaiter { polls_left: timeout_secs * POLLS_PER_SEC }
    }

    /// Feed one filesystem observation: whether the path exists now.
    ///
    /// Success is reported the moment the path is seen; failure exactly
    /// when the last allowed poll still misses it, so the awaiter never
    /// waits past its budget.
    pub fn observe(&mut self, exists_now: bool) -> (step: AwaitStep)
        ensures
            old(self).polls_left == 0 ==> step == AwaitStep::TimedOut && *final(self) == *old(self),
            old(self).polls_left > 0 && exists_now ==> step == AwaitStep::Found && *final(self)
                == *old(self),
            old(self).polls_left == 1 && !exists_now ==> step == AwaitStep::TimedOut
                && final(self).polls_left == 0,
            old(self).polls_left > 1 && !exists_now ==> step == AwaitStep::Wait
                && final(self).polls_left == old(self).polls_left - 1,
    {
        if self.polls_left == 0 {
            AwaitStep::TimedOut
        } else if exists_now {
            AwaitStep::Found
        } else {
            self.polls_left = self.polls_left - 1;
            if self.polls_left == 0 {
                AwaitStep::TimedOut
            } else {
                AwaitStep::Wait
            }
        }
    }
}

/// Law: run the awaiter over a prerecorded trace of filesystem states,
/// one entry per poll instant. The result is `Some(i)` exactly when `i`
/// is the first instant within the poll budget at which the path exists,
/// and `None` exactly when the path appears at no instant within the
/// budget — so the awaiter reports success as soon as the path appears
/// and never polls past its timeout.
pub fn run_awaiter_trace(states: &Vec<bool>, timeout_secs: u64) -> (r: Option<usize>)
    requires
        timeout_secs <= u64::MAX / 10,
        states@.len() >= timeout_secs * POLLS_PER_SEC,
    ensures
        match r {
            Some(i) => i < timeout_secs * POLLS_PER_SEC && states@[i as int] && forall|j: int|
                0 <= j < i ==> !states@[j],
            None => forall|j: int| 0 <= j < timeout_secs * POLLS_PER_SEC ==> !states@[j],
        },
{
    let budget: u64 = timeout_secs * POLLS_PER_SEC;
    let total: usize = states.len();
    let mut aw = EndpointAwaiter::new(timeout_secs);
    let mut i: usize = 0;
    while (i as u64) < budget
        invariant
            budget == timeout_secs * POLLS_PER_SEC,
            states@.len() == total,
            states@.len() >= budget,
            i <= budget,
            aw.polls_left == budget - i,
            forall|j: int| 0 <= j < i ==> !states@[j],
        decreases budget - i,
    {
        let here = states[i];
        match aw.observe(here) {
            AwaitStep::Found => {
                return Some(i);
            },
            AwaitStep::TimedOut => {
                return None;
            },
            AwaitStep::Wait => {
                i = i + 1;
            },
        }
    }
    None
}

} // verus!
