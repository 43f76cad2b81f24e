//! How a spawned task ended, and the terminal status that is recorded for it.

use crate::text::{decimal, push_decimal};
use vstd::prelude::*;
use vstd::string::*;

verus! {

/// What awaiting a task's handle yielded.
#[derive(Debug, PartialEq, Eq)]
pub enum JoinOutcome {
    /// The operation ran to its end and returned this result.
    Finished(String),
    /// The operation was aborted before its end because it had been cancelled.
    Aborted,
    /// The operation ended abnormally for any other reason; the text is the cause.
    Crashed(String),
}

/// The mathematical content of a [`JoinOutcome`].
pub enum JoinOutcomeView {
    Finished(Seq<char>),
    Aborted,
    Crashed(Seq<char>),
}

impl View for JoinOutcome {
    type V = JoinOutcomeView;

    open spec fn view(&self) -> JoinOutcomeView {
        match self {
            JoinOutcome::Finished(result) => JoinOutcomeView::Finished(result@),
            JoinOutcome::Aborted => JoinOutcomeView::Aborted,
            JoinOutcome::Crashed(cause) => JoinOutcomeView::Crashed(cause@),
        }
    }
}

/// The final disposition of a job.
#[derive(Debug, PartialEq, Eq)]
pub enum TerminalStatus {
    /// The job ran to its end; the text is its result.
    Completed(String),
    /// The job was stopped by the shutdown.
    Cancelled,
    /// The job broke; the text is the cause.
    Failed(String),
}

/// The mathematical content of a [`TerminalStatus`].
pub enum TerminalStatusView {
    Completed(Seq<char>),
    Cancelled,
    Failed(Seq<char>),
}

impl View for TerminalStatus {
    type V = TerminalStatusView;

    open spec fn view(&self) -> TerminalStatusView {
        match self {
            TerminalStatus::Completed(result) => TerminalStatusView::Completed(result@),
            TerminalStatus::Cancelled => TerminalStatusView::Cancelled,
            TerminalStatus::Failed(cause) => TerminalStatusView::Failed(cause@),
        }
    }
}

/// The terminal status of one job, by identity.
#[derive(Debug, PartialEq, Eq)]
pub struct StatusRecord {
    pub id: u32,
    pub status: TerminalStatus,
}

/// The mathematical content of a [`StatusRecord`].
pub struct StatusRecordView {
    pub id: u32,
    pub status: TerminalStatusView,
}

impl View for StatusRecord {
    type V = StatusRecordView;

    open spec fn view(&self) -> StatusRecordView {
        StatusRecordView { id: self.id, status: self.status@ }
    }
}

impl Clone for JoinOutcome {
    fn clone(&self) -> (copy: JoinOutcome)
        ensures
            copy == *self,
    {
        match self {
            JoinOutcome::Finished(result) => JoinOutcome::Finished(result.clone()),
            JoinOutcome::Aborted => JoinOutcome::Aborted,
            JoinOutcome::Crashed(cause) => JoinOutcome::Crashed(cause.clone()),
        }
    }
}

impl Clone for TerminalStatus {
    fn clone(&self) -> (copy: TerminalStatus)
        ensures
            copy == *self,
    {
        match self {
            TerminalStatus::Completed(result) => TerminalStatus::Completed(result.clone()),
            TerminalStatus::Cancelled => TerminalStatus::Cancelled,
            TerminalStatus::Failed(cause) => TerminalStatus::Failed(cause.clone()),
        }
    }
}

impl Clone for StatusRecord {
    fn clone(&self) -> (copy: StatusRecord)
        ensures
            copy == *self,
    {
        StatusRecord { id: self.id, status: self.status.clone() }
    }
}

/// The line that reports a record.
pub open spec fn record_text(record: StatusRecordView) -> Seq<char> {
    match record.status {
        TerminalStatusView::Completed(_) => "Job "@ + decimal(record.id as nat)
            + " completed before shutdown"@,
        TerminalStatusView::Cancelled => "Job "@ + decimal(record.id as nat) + " was cancelled"@,
        TerminalStatusView::Failed(cause) => "Job "@ + decimal(record.id as nat) + " failed: "@
            + cause,
    }
}

impl StatusRecord {
    /// The line that reports this record: the job's identity and what became
    /// of it, with the cause where it failed.
    pub fn describe(&self) -> (text: String)
        ensures
            text@ == record_text(self@),
    {
        let mut text = String::from_str("Job ");
        push_decimal(&mut text, self.id);
        match &self.status {
            TerminalStatus::Completed(_) => {
                text.append(" completed before shutdown");
            },
            TerminalStatus::Cancelled => {
                text.append(" was cancelled");
            },
            TerminalStatus::Failed(cause) => {
                text.append(" failed: ");
                text.append(cause.as_str());
            },
        }
        text
    }
}

/// The mathematical contents of a sequence of records, in the same order.
pub open spec fn record_views(records: Seq<StatusRecord>) -> Seq<StatusRecordView> {
    Seq::new(records.len(), |i: int| records[i]@)
}

/// The three-way classification of a task's end. It reads nothing but the
/// outcome itself: a task that ran to its end is `Completed` whether or not a
/// cancellation had been requested for it in the meantime.
pub open spec fn classified(outcome: JoinOutcomeView) -> TerminalStatusView {
    match outcome {
        JoinOutcomeView::Finished(result) => TerminalStatusView::Completed(result),
        JoinOutcomeView::Aborted => TerminalStatusView::Cancelled,
        JoinOutcomeView::Crashed(cause) => TerminalStatusView::Failed(cause),
    }
}

/// Classifies the end of a task into the terminal status of its job.
pub fn classify(outcome: JoinOutcome) -> (status: TerminalStatus)
    ensures
        status@ == classified(outcome@),
{
    match outcome {
        JoinOutcome::Finished(result) => TerminalStatus::Completed(result),
        JoinOutcome::Aborted => TerminalStatus::Cancelled,
        JoinOutcome::Crashed(cause) => TerminalStatus::Failed(cause),
    }
}

/// The outcome of a task that did not run to its end: aborted if the scheduler
/// reports a cancellation, crashed with the given cause otherwise.
pub open spec fn failure_outcome(cancelled: bool, cause: Seq<char>) -> JoinOutcomeView {
    if cancelled {
        JoinOutcomeView::Aborted
    } else {
        JoinOutcomeView::Crashed(cause)
    }
}

} // verus!
