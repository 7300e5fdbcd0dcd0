//! The bounded-retry instance downloader, modelled as a state machine.
//! The caller performs one fetch-and-store attempt per step and reports
//! what happened; the machine decides whether to finish, and with which
//! result, or to retry after a backoff delay.

use vstd::prelude::*;

use crate::text::push_char;

verus! {

/// The outcome of downloading one instance.  Exactly one variant holds;
/// `Skipped` and `Completed` are both non-failures for aggregation.
#[derive(Clone, Debug)]
pub enum DownloadResult {
    /// The instance was fetched and stored.
    Completed,
    /// The destination already existed; nothing was written.
    Skipped,
    /// The download failed terminally, with a descriptive reason.
    Failed(String),
}

impl DownloadResult {
    /// Whether this outcome counts as a failure.
    pub fn is_failure(&self) -> (r: bool)
        ensures
            r == (self is Failed),
    {
        match self {
            DownloadResult::Failed(_) => true,
            _ => false,
        }
    }
}

/// Retry settings for one instance download: the attempt ceiling and the
/// per-attempt timeout.
#[derive(Clone)]
pub struct RetryConfig {
    pub max_retries: usize,
    pub timeout_secs: u64,
}

/// What one fetch-and-store attempt observed.
pub enum AttemptOutcome {
    /// The bytes were fetched and written to a fresh destination file.
    Stored,
    /// The destination file already existed, so nothing was written.
    AlreadyExists,
    /// The destination file could not be created, for a reason other
    /// than already existing.
    CreateFailed(String),
    /// The destination file was created but writing the bytes failed.
    WriteFailed(String),
    /// The fetch itself failed with a transport error.
    FetchFailed(String),
    /// The attempt exceeded the per-attempt timeout.
    TimedOut,
}

/// Where one instance download stands: either attempt number `attempt`
/// is to be made next, or the download is over with a result.
pub enum RetryState {
    Trying { attempt: usize },
    Finished { result: DownloadResult },
}

/// With a zero attempt ceiling the download finishes as `Failed` at once:
/// no attempt is ever to be made, and the filesystem is never touched.
/// Otherwise the first attempt is attempt zero.
pub fn retry_init(config: &RetryConfig) -> (s: RetryState)
    ensures
        config.max_retries == 0 ==> match s {
            RetryState::Finished { result: DownloadResult::Failed(m) } => m@
                == "No retries configured"@,
            _ => false,
        },
        config.max_retries > 0 ==> (s matches RetryState::Trying { attempt } && attempt == 0),
{
    if config.max_retries == 0 {
        RetryState::Finished { result: DownloadResult::Failed("No retries configured".to_owned()) }
    } else {
        RetryState::Trying { attempt: 0 }
    }
}

/// The backoff before the next attempt, in seconds: linear in the attempt
/// index for transport and write failures, doubled for timeouts.
pub open spec fn spec_retry_delay(attempt: nat, timed_out: bool) -> nat {
    if timed_out {
        (attempt + 1) * 2
    } else {
        attempt + 1
    }
}

/// Feeds the outcome of attempt `attempt` into the machine.
///
/// A stored instance finishes as `Completed`; a destination that already
/// existed finishes as `Skipped`, whatever the attempt number, and the
/// existing file is left untouched.  A failed attempt before the last
/// one moves to the next attempt, with the backoff delay in seconds as
/// the second result; on the last attempt it finishes as `Failed` with a
/// reason naming what went wrong.
pub fn retry_step(config: &RetryConfig, attempt: usize, outcome: &AttemptOutcome) -> (r: (
    RetryState,
    u64,
))
    requires
        attempt < config.max_retries,
        config.max_retries <= u32::MAX,
    ensures
        match outcome {
            AttemptOutcome::Stored => r.0 matches RetryState::Finished {
                result: DownloadResult::Completed,
            },
            AttemptOutcome::AlreadyExists => r.0 matches RetryState::Finished {
                result: DownloadResult::Skipped,
            },
            AttemptOutcome::CreateFailed(e) => if attempt + 1 < config.max_retries {
                r.0 matches RetryState::Trying { attempt: a } && a == attempt + 1 && r.1 as nat
                    == spec_retry_delay(attempt as nat, false)
            } else {
                match r.0 {
                    RetryState::Finished { result: DownloadResult::Failed(m) } => m@
                        == "File create failed: "@ + e@,
                    _ => false,
                }
            },
            AttemptOutcome::WriteFailed(e) => if attempt + 1 < config.max_retries {
                r.0 matches RetryState::Trying { attempt: a } && a == attempt + 1 && r.1 as nat
                    == spec_retry_delay(attempt as nat, false)
            } else {
                match r.0 {
                    RetryState::Finished { result: DownloadResult::Failed(m) } => m@
                        == "Write failed: "@ + e@,
                    _ => false,
                }
            },
            AttemptOutcome::FetchFailed(e) => if attempt + 1 < config.max_retries {
                r.0 matches RetryState::Trying { attempt: a } && a == attempt + 1 && r.1 as nat
                    == spec_retry_delay(attempt as nat, false)
            } else {
                match r.0 {
                    RetryState::Finished { result: DownloadResult::Failed(m) } => m@
                        == "Download failed: "@ + e@,
                    _ => false,
                }
            },
            AttemptOutcome::TimedOut => if attempt + 1 < config.max_retries {
                r.0 matches RetryState::Trying { attempt: a } && a == attempt + 1 && r.1 as nat
                    == spec_retry_delay(attempt as nat, true)
            } else {
                match r.0 {
                    RetryState::Finished { result: DownloadResult::Failed(m) } => m@ == "Timeout"@,
                    _ => false,
                }
            },
        },
        r.0 matches RetryState::Trying { attempt: a } ==> a < config.max_retries,
{
    match outcome {
        AttemptOutcome::Stored => (
            RetryState::Finished { result: DownloadResult::Completed },
            0,
        ),
        AttemptOutcome::AlreadyExists => (
            RetryState::Finished { result: DownloadResult::Skipped },
            0,
        ),
        AttemptOutcome::CreateFailed(e) => {
            if attempt + 1 < config.max_retries {
                (RetryState::Trying { attempt: attempt + 1 }, attempt as u64 + 1)
            } else {
                let mut m = "File create failed: ".to_owned();
                m.append(e.as_str());
                (RetryState::Finished { result: DownloadResult::Failed(m) }, 0)
            }
        },
        AttemptOutcome::WriteFailed(e) => {
            if attempt + 1 < config.max_retries {
                (RetryState::Trying { attempt: attempt + 1 }, attempt as u64 + 1)
            } else {
                let mut m = "Write failed: ".to_owned();
                m.append(e.as_str());
                (RetryState::Finished { result: DownloadResult::Failed(m) }, 0)
            }
        },
        AttemptOutcome::FetchFailed(e) => {
            if attempt + 1 < config.max_retries {
                (RetryState::Trying { attempt: attempt + 1 }, attempt as u64 + 1)
            } else {
                let mut m = "Download failed: ".to_owned();
                m.append(e.as_str());
                (RetryState::Finished { result: DownloadResult::Failed(m) }, 0)
            }
        },
        AttemptOutcome::TimedOut => {
            if attempt + 1 < config.max_retries {
                (RetryState::Trying { attempt: attempt + 1 }, (attempt as u64 + 1) * 2)
            } else {
                (RetryState::Finished { result: DownloadResult::Failed("Timeout".to_owned()) }, 0)
            }
        },
    }
}

} // verus!
