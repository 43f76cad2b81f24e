//! From tokio's account of a task's end to a [`JoinOutcome`].

use crate::status::{failure_outcome, JoinOutcome, JoinOutcomeView};
use tokio::task::JoinError;
use vstd::prelude::*;

verus! {

/// tokio's error for a task that did not run to its end. Nothing of its
/// inside is visible here.
#[verifier::external_type_specification]
#[verifier::external_body]
pub struct ExJoinError(tokio::task::JoinError);

/// Whether tokio reports the task behind `error` as cancelled.
pub uninterp spec fn reports_cancellation(error: JoinError) -> bool;

/// The text that tokio gives for `error` when it is formatted for debugging.
pub uninterp spec fn debug_text(error: JoinError) -> Seq<char>;

/// Calls `JoinError::is_cancelled`. Trusted: the answer is a function of the
/// error alone, which is all that the contract says; the method reads the
/// error's reason and nothing else.
#[verifier::external_body]
fn is_cancelled(error: &JoinError) -> (cancelled: bool)
    ensures
        cancelled == reports_cancellation(*error),
{
    error.is_cancelled()
}

/// Formats the error with its `Debug` implementation. Trusted: the text is a
/// function of the error alone, which is all that the contract says; the
/// implementation writes the task's id and, for a panic, its message.
#[verifier::external_body]
fn cause_of(error: &JoinError) -> (cause: String)
    ensures
        cause@ == debug_text(*error),
{
    format!("{:?}", error)
}

/// The outcome of a task that did not run to its end, from what the
/// scheduler says of it: aborted if it reports a cancellation, crashed with
/// the cause otherwise. The cause of a cancelled task is dropped.
pub fn outcome_of_failure(cancelled: bool, cause: String) -> (outcome: JoinOutcome)
    ensures
        outcome@ == failure_outcome(cancelled, cause@),
{
    if cancelled {
        JoinOutcome::Aborted
    } else {
        JoinOutcome::Crashed(cause)
    }
}

/// What awaiting a tokio handle yielded, as an outcome: a result is the
/// outcome of a task that finished; an error is that of a failure, with
/// tokio's word on whether it was a cancellation and tokio's text as cause.
pub open spec fn join_outcome(joined: Result<String, JoinError>) -> JoinOutcomeView {
    match joined {
        Ok(result) => JoinOutcomeView::Finished(result@),
        Err(error) => failure_outcome(reports_cancellation(error), debug_text(error)),
    }
}

/// Turns what awaiting a tokio handle yielded into an outcome.
pub fn outcome_of_join(joined: Result<String, JoinError>) -> (outcome: JoinOutcome)
    ensures
        outcome@ == join_outcome(joined),
        joined is Ok ==> outcome@ is Finished,
        joined is Err ==> !(outcome@ is Finished),
{
    match joined {
        Ok(result) => JoinOutcome::Finished(result),
        Err(error) => {
            let cancelled = is_cancelled(&error);
            let cause = cause_of(&error);
            outcome_of_failure(cancelled, cause)
        },
    }
}

} // verus!
