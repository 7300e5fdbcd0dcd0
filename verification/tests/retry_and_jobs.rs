use dicom_download_cli::jobs::{job_transition, poll_allowed, JobPollState, MAX_POLL_ATTEMPTS};
use dicom_download_cli::retry::{
    retry_init, retry_step, AttemptOutcome, DownloadResult, RetryConfig, RetryState,
};

fn config(max_retries: usize) -> RetryConfig {
    RetryConfig { max_retries, timeout_secs: 60 }
}

#[test]
fn zero_retries_fails_immediately_without_any_attempt() {
    let state = retry_init(&config(0));
    match state {
        RetryState::Finished { result: DownloadResult::Failed(m) } => {
            assert_eq!(m, "No retries configured");
        }
        _ => panic!("a zero-retry download must finish as Failed at once"),
    }
}

#[test]
fn positive_retries_start_at_attempt_zero() {
    match retry_init(&config(3)) {
        RetryState::Trying { attempt } => assert_eq!(attempt, 0),
        _ => panic!("the first attempt should be pending"),
    }
}

#[test]
fn stored_attempt_completes() {
    let (state, _) = retry_step(&config(3), 0, &AttemptOutcome::Stored);
    assert!(matches!(state, RetryState::Finished { result: DownloadResult::Completed }));
}

#[test]
fn existing_destination_is_skipped_not_retried() {
    for attempt in [0usize, 1, 2] {
        let (state, _) = retry_step(&config(3), attempt, &AttemptOutcome::AlreadyExists);
        assert!(matches!(state, RetryState::Finished { result: DownloadResult::Skipped }));
    }
}

#[test]
fn transport_failure_retries_with_linear_backoff() {
    let (state, delay) = retry_step(&config(3), 0, &AttemptOutcome::FetchFailed("boom".to_string()));
    assert!(matches!(state, RetryState::Trying { attempt: 1 }));
    assert_eq!(delay, 1);
    let (state, delay) = retry_step(&config(3), 1, &AttemptOutcome::FetchFailed("boom".to_string()));
    assert!(matches!(state, RetryState::Trying { attempt: 2 }));
    assert_eq!(delay, 2);
}

#[test]
fn timeout_retries_with_doubled_backoff() {
    let (state, delay) = retry_step(&config(3), 0, &AttemptOutcome::TimedOut);
    assert!(matches!(state, RetryState::Trying { attempt: 1 }));
    assert_eq!(delay, 2);
    let (_, delay) = retry_step(&config(3), 1, &AttemptOutcome::TimedOut);
    assert_eq!(delay, 4);
}

#[test]
fn final_attempt_failures_carry_reasons() {
    let (state, _) = retry_step(&config(3), 2, &AttemptOutcome::FetchFailed("nope".to_string()));
    match state {
        RetryState::Finished { result: DownloadResult::Failed(m) } => {
            assert_eq!(m, "Download failed: nope");
        }
        _ => panic!("the last attempt must fail terminally"),
    }
    let (state, _) = retry_step(&config(1), 0, &AttemptOutcome::TimedOut);
    match state {
        RetryState::Finished { result: DownloadResult::Failed(m) } => assert_eq!(m, "Timeout"),
        _ => panic!("the last attempt must fail terminally"),
    }
    let (state, _) = retry_step(&config(1), 0, &AttemptOutcome::WriteFailed("disk".to_string()));
    match state {
        RetryState::Finished { result: DownloadResult::Failed(m) } => {
            assert_eq!(m, "Write failed: disk");
        }
        _ => panic!("the last attempt must fail terminally"),
    }
    let (state, _) = retry_step(&config(1), 0, &AttemptOutcome::CreateFailed("perm".to_string()));
    match state {
        RetryState::Finished { result: DownloadResult::Failed(m) } => {
            assert_eq!(m, "File create failed: perm");
        }
        _ => panic!("the last attempt must fail terminally"),
    }
}

#[test]
fn job_states_map_to_transitions() {
    assert_eq!(job_transition("Success"), JobPollState::Succeeded);
    assert_eq!(job_transition("Failure"), JobPollState::Failed);
    assert_eq!(job_transition("Running"), JobPollState::Pending);
    assert_eq!(job_transition("Unknown"), JobPollState::Pending);
    assert_eq!(job_transition(""), JobPollState::Pending);
}

#[test]
fn poll_ceiling_bounds_the_wait() {
    assert_eq!(MAX_POLL_ATTEMPTS, 300);
    assert!(poll_allowed(0));
    assert!(poll_allowed(300));
    assert!(!poll_allowed(301));
}
