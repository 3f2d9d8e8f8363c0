use notify_handshake::errors::{classify, kind_message, Disposition, ErrorKind, ProcedureFailure};
use notify_handshake::retry::{
    failure_of_state, is_attempting, retry_step, run_attempts, AttemptOutcome, RetryState,
    MAX_ATTEMPTS, RETRY_DELAY_MS,
};

#[test]
fn retry_budget_constants() {
    assert_eq!(MAX_ATTEMPTS, 10);
    assert_eq!(RETRY_DELAY_MS, 500);
}

#[test]
fn only_flag_setting_is_fatal() {
    assert_eq!(classify(ErrorKind::FlagSetFailed), Disposition::Fatal);
    let retryable_kinds: Vec<ErrorKind> = vec![
        ErrorKind::EnvMissing,
        ErrorKind::EnvInvalid,
        ErrorKind::HandleInvalid,
        ErrorKind::CloneFailed,
        ErrorKind::StreamSetupFailed,
        ErrorKind::SessionBuildFailed,
    ];
    for kind in retryable_kinds {
        assert_eq!(classify(kind), Disposition::Retryable);
    }
}

#[test]
fn messages_name_each_failure() {
    assert_eq!(
        kind_message(ErrorKind::EnvMissing),
        "handle environment variable not found"
    );
    assert_eq!(
        kind_message(ErrorKind::EnvInvalid),
        "handle environment variable is not a valid handle number"
    );
    assert_eq!(kind_message(ErrorKind::HandleInvalid), "raw handle is not open");
    assert_eq!(
        kind_message(ErrorKind::CloneFailed),
        "failed to clone the raw handle"
    );
    assert_eq!(
        kind_message(ErrorKind::FlagSetFailed),
        "failed to set close-on-exec on the cloned handle"
    );
    assert_eq!(
        kind_message(ErrorKind::StreamSetupFailed),
        "failed to adapt the cloned handle into a stream"
    );
    assert_eq!(
        kind_message(ErrorKind::SessionBuildFailed),
        "failed to negotiate the session"
    );
}

#[test]
fn step_success_terminates() {
    let st = RetryState::Attempting {
        attempt: 4,
        last_error: Some(ErrorKind::CloneFailed),
    };
    assert_eq!(
        retry_step(st, AttemptOutcome::Success),
        RetryState::Succeeded { attempt: 4 }
    );
}

#[test]
fn step_retryable_failure_records_and_advances() {
    let st = RetryState::Attempting {
        attempt: 1,
        last_error: None,
    };
    let next = retry_step(st, AttemptOutcome::Failure(ErrorKind::SessionBuildFailed));
    assert_eq!(
        next,
        RetryState::Attempting {
            attempt: 2,
            last_error: Some(ErrorKind::SessionBuildFailed),
        }
    );
    assert!(is_attempting(&next));
}

#[test]
fn step_fatal_failure_short_circuits() {
    let st = RetryState::Attempting {
        attempt: 2,
        last_error: Some(ErrorKind::EnvMissing),
    };
    let next = retry_step(st, AttemptOutcome::Failure(ErrorKind::FlagSetFailed));
    assert_eq!(
        next,
        RetryState::FatalFailed {
            kind: ErrorKind::FlagSetFailed
        }
    );
    assert!(!is_attempting(&next));
}

#[test]
fn step_last_attempt_exhausts_budget() {
    let st = RetryState::Attempting {
        attempt: MAX_ATTEMPTS,
        last_error: Some(ErrorKind::EnvMissing),
    };
    let next = retry_step(st, AttemptOutcome::Failure(ErrorKind::HandleInvalid));
    assert_eq!(
        next,
        RetryState::RetriesExhausted {
            last_error: Some(ErrorKind::HandleInvalid),
        }
    );
}

#[test]
fn success_at_each_attempt_count() {
    for k in 1..=MAX_ATTEMPTS as usize {
        let mut outcomes: Vec<AttemptOutcome> = Vec::new();
        for _ in 0..k - 1 {
            outcomes.push(AttemptOutcome::Failure(ErrorKind::SessionBuildFailed));
        }
        outcomes.push(AttemptOutcome::Success);
        let report = run_attempts(&outcomes);
        assert_eq!(report.state, RetryState::Succeeded { attempt: k as u32 });
        assert_eq!(report.attempts, k);
        assert_eq!(report.delays, k - 1);
    }
}

#[test]
fn immediate_success_takes_one_attempt_no_delay() {
    let outcomes: Vec<AttemptOutcome> = vec![AttemptOutcome::Success];
    let report = run_attempts(&outcomes);
    assert_eq!(report.state, RetryState::Succeeded { attempt: 1 });
    assert_eq!(report.attempts, 1);
    assert_eq!(report.delays, 0);
}

#[test]
fn env_missing_every_attempt_exhausts_budget() {
    let outcomes: Vec<AttemptOutcome> =
        vec![AttemptOutcome::Failure(ErrorKind::EnvMissing); MAX_ATTEMPTS as usize];
    let report = run_attempts(&outcomes);
    assert_eq!(
        report.state,
        RetryState::RetriesExhausted {
            last_error: Some(ErrorKind::EnvMissing),
        }
    );
    assert_eq!(report.attempts, 10);
    assert_eq!(report.delays, 9);
}

#[test]
fn exhaustion_reports_last_error() {
    let mut outcomes: Vec<AttemptOutcome> =
        vec![AttemptOutcome::Failure(ErrorKind::EnvMissing); MAX_ATTEMPTS as usize - 1];
    outcomes.push(AttemptOutcome::Failure(ErrorKind::SessionBuildFailed));
    let report = run_attempts(&outcomes);
    assert_eq!(
        report.state,
        RetryState::RetriesExhausted {
            last_error: Some(ErrorKind::SessionBuildFailed),
        }
    );
}

#[test]
fn fatal_on_third_attempt_stops_there() {
    let outcomes: Vec<AttemptOutcome> = vec![
        AttemptOutcome::Failure(ErrorKind::HandleInvalid),
        AttemptOutcome::Failure(ErrorKind::CloneFailed),
        AttemptOutcome::Failure(ErrorKind::FlagSetFailed),
        AttemptOutcome::Success,
    ];
    let report = run_attempts(&outcomes);
    assert_eq!(
        report.state,
        RetryState::FatalFailed {
            kind: ErrorKind::FlagSetFailed
        }
    );
    assert_eq!(report.attempts, 3);
    assert_eq!(report.delays, 2);
}

#[test]
fn outcomes_after_termination_are_ignored() {
    let outcomes: Vec<AttemptOutcome> = vec![
        AttemptOutcome::Failure(ErrorKind::EnvInvalid),
        AttemptOutcome::Success,
        AttemptOutcome::Failure(ErrorKind::FlagSetFailed),
        AttemptOutcome::Success,
    ];
    let report = run_attempts(&outcomes);
    assert_eq!(report.state, RetryState::Succeeded { attempt: 2 });
    assert_eq!(report.attempts, 2);
    assert_eq!(report.delays, 1);
}

#[test]
fn short_trace_leaves_machine_attempting() {
    let outcomes: Vec<AttemptOutcome> = vec![
        AttemptOutcome::Failure(ErrorKind::EnvMissing),
        AttemptOutcome::Failure(ErrorKind::EnvMissing),
    ];
    let report = run_attempts(&outcomes);
    assert_eq!(
        report.state,
        RetryState::Attempting {
            attempt: 3,
            last_error: Some(ErrorKind::EnvMissing),
        }
    );
    assert_eq!(report.attempts, 2);
    assert_eq!(report.delays, 2);
}

#[test]
fn fatal_state_surfaces_fatal_failure() {
    let failure = failure_of_state(RetryState::FatalFailed {
        kind: ErrorKind::FlagSetFailed,
    });
    assert_eq!(
        failure,
        ProcedureFailure::Fatal {
            kind: ErrorKind::FlagSetFailed
        }
    );
}

#[test]
fn exhausted_state_surfaces_aggregate_failure() {
    let failure = failure_of_state(RetryState::RetriesExhausted {
        last_error: Some(ErrorKind::HandleInvalid),
    });
    assert_eq!(
        failure,
        ProcedureFailure::RetriesExhausted {
            attempts: MAX_ATTEMPTS,
            last: Some(ErrorKind::HandleInvalid),
        }
    );
}
