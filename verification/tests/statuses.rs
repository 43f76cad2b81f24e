use job_supervisor::join::outcome_of_failure;
use job_supervisor::status::{classify, JoinOutcome, StatusRecord, TerminalStatus};

#[test]
fn finished_is_completed_with_its_result() {
    assert_eq!(
        classify(JoinOutcome::Finished("Job 1 ran for 5000ms".to_string())),
        TerminalStatus::Completed("Job 1 ran for 5000ms".to_string())
    );
}

#[test]
fn aborted_is_cancelled() {
    assert_eq!(classify(JoinOutcome::Aborted), TerminalStatus::Cancelled);
}

#[test]
fn crashed_is_failed_with_its_cause() {
    assert_eq!(
        classify(JoinOutcome::Crashed("boom".to_string())),
        TerminalStatus::Failed("boom".to_string())
    );
}

#[test]
fn cancelled_and_failed_are_told_apart() {
    assert_ne!(
        classify(JoinOutcome::Aborted),
        classify(JoinOutcome::Crashed(String::new()))
    );
}

#[test]
fn a_reported_cancellation_is_an_abort() {
    assert_eq!(outcome_of_failure(true, "whatever".to_string()), JoinOutcome::Aborted);
}

#[test]
fn any_other_failure_is_a_crash_with_its_cause() {
    assert_eq!(
        outcome_of_failure(false, "task 3 panicked".to_string()),
        JoinOutcome::Crashed("task 3 panicked".to_string())
    );
}

#[test]
fn records_compare_by_identity_and_status() {
    let a = StatusRecord { id: 1, status: TerminalStatus::Cancelled };
    let b = StatusRecord { id: 2, status: TerminalStatus::Cancelled };
    assert_ne!(a, b);
    assert_eq!(a, StatusRecord { id: 1, status: TerminalStatus::Cancelled });
}

#[test]
fn a_completed_record_is_described_without_its_result() {
    let record = StatusRecord {
        id: 4,
        status: TerminalStatus::Completed("Job 4 ran for 5000ms".to_string()),
    };
    assert_eq!(record.describe(), "Job 4 completed before shutdown");
}

#[test]
fn a_cancelled_record_is_described() {
    let record = StatusRecord { id: 17, status: TerminalStatus::Cancelled };
    assert_eq!(record.describe(), "Job 17 was cancelled");
}

#[test]
fn a_failed_record_is_described_with_its_cause() {
    let record = StatusRecord { id: 0, status: TerminalStatus::Failed("it broke".to_string()) };
    assert_eq!(record.describe(), "Job 0 failed: it broke");
}
