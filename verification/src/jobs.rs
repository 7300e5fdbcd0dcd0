//! The asynchronous move-job poll loop, modelled as an explicit state
//! machine: each observed job state maps to a transition, and the
//! attempt ceiling turns into a first-class timeout state instead of a
//! counter compared in the loop.

use vstd::prelude::*;

use crate::text::str_eq;

verus! {

/// How many times a job is polled before the wait is reported as a
/// timeout; at two-second spacing this bounds the wait to about ten
/// minutes.
pub const MAX_POLL_ATTEMPTS: u32 = 300;

/// Where the wait for an asynchronous move job stands.
#[derive(Clone, Copy, Debug, PartialEq, Eq, Structural)]
pub enum JobPollState {
    /// The job is still running; poll again.
    Pending,
    /// The job reported success.
    Succeeded,
    /// The job reported failure.
    Failed,
    /// The attempt ceiling was reached without a terminal state.
    TimedOut,
}

/// The transition for one observed job state: `Success` and `Failure`
/// are terminal, anything else means the job is still running.
pub open spec fn spec_job_transition(state_text: Seq<char>) -> JobPollState {
    if state_text == "Success"@ {
        JobPollState::Succeeded
    } else if state_text == "Failure"@ {
        JobPollState::Failed
    } else {
        JobPollState::Pending
    }
}

pub fn job_transition(state_text: &str) -> (r: JobPollState)
    ensures
        r == spec_job_transition(state_text@),
{
    if str_eq(state_text, "Success") {
        JobPollState::Succeeded
    } else if str_eq(state_text, "Failure") {
        JobPollState::Failed
    } else {
        JobPollState::Pending
    }
}

/// Whether another poll is allowed at this attempt number.  Once the
/// ceiling is passed the wait must end as `TimedOut`: no further poll is
/// made, so the loop is bounded by construction.
pub fn poll_allowed(attempt: u32) -> (r: bool)
    ensures
        r == (attempt <= MAX_POLL_ATTEMPTS),
{
    attempt <= MAX_POLL_ATTEMPTS
}

} // verus!
