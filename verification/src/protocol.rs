//! The vocabulary between the supervisor and whoever drives it: the phases of
//! a run, the events that are reported to the supervisor, and the actions it
//! asks for in return.

use crate::job::{Job, JobView};
use crate::status::{JoinOutcome, JoinOutcomeView};
use crate::text::{decimal, push_decimal};
use vstd::prelude::*;
use vstd::string::*;

verus! {

/// Where a run stands. A run only ever moves forward through this list;
/// `Aborted` is reached from `Idle` alone.
#[derive(Debug, Clone, Copy, PartialEq, Eq, Structural)]
pub enum Phase {
    /// Nothing has happened yet.
    Idle,
    /// Jobs are being handed to the scheduler and entered in the registry.
    Spawning,
    /// Every job is registered; the registry is frozen from here on.
    Running,
    /// A shutdown was requested; cancellation is being issued to every handle.
    ShuttingDown,
    /// Handles are being awaited and classified, one by one.
    Collecting,
    /// Every job has its terminal status.
    Done,
    /// The run was given up at startup; no job was spawned.
    Aborted,
}

/// An external source of shutdown requests.
#[derive(Debug, Clone, Copy, PartialEq, Eq, Structural)]
pub enum ShutdownSource {
    /// An interactive interrupt.
    Interrupt,
    /// A termination request.
    Terminate,
}

/// Why a run could not start. This is the only fatal error of a run.
#[derive(Debug, Clone, Copy, PartialEq, Eq, Structural)]
pub enum StartupError {
    /// The host refused the subscription to this shutdown source.
    SubscriptionRefused(ShutdownSource),
    /// Two of the supplied jobs share this identity.
    DuplicateIdentity(u32),
}

/// The message of a startup error.
pub open spec fn startup_error_text(error: StartupError) -> Seq<char> {
    match error {
        StartupError::SubscriptionRefused(ShutdownSource::Interrupt) =>
            "Failed to register SIGINT handler"@,
        StartupError::SubscriptionRefused(ShutdownSource::Terminate) =>
            "Failed to register SIGTERM handler"@,
        StartupError::DuplicateIdentity(id) => "Two jobs share the identity "@ + decimal(
            id as nat,
        ),
    }
}

impl StartupError {
    /// The message of this error.
    pub fn describe(&self) -> (text: String)
        ensures
            text@ == startup_error_text(*self),
    {
        match self {
            StartupError::SubscriptionRefused(ShutdownSource::Interrupt) => String::from_str(
                "Failed to register SIGINT handler",
            ),
            StartupError::SubscriptionRefused(ShutdownSource::Terminate) => String::from_str(
                "Failed to register SIGTERM handler",
            ),
            StartupError::DuplicateIdentity(id) => {
                let mut text = String::from_str("Two jobs share the identity ");
                push_decimal(&mut text, *id);
                text
            },
        }
    }
}

/// What the driver reports to the supervisor.
#[derive(Debug, PartialEq, Eq)]
pub enum Event {
    /// Every shutdown source accepted its subscription.
    Subscribed,
    /// This shutdown source refused its subscription.
    SubscriptionFailed(ShutdownSource),
    /// The job of the last `Spawn` action is with the scheduler.
    Spawned,
    /// One more job came to its end while the run was waiting, in whatever
    /// way: with a result or by breaking.
    JobFinished,
    /// This source asked for a shutdown.
    ShutdownRequested(ShutdownSource),
    /// The cancellation of the last `Cancel` action has been requested.
    CancelIssued,
    /// The handle of the last `Join` action reached its end, like this.
    Joined(JoinOutcome),
}

/// The mathematical content of an [`Event`].
pub enum EventView {
    Subscribed,
    SubscriptionFailed(ShutdownSource),
    Spawned,
    JobFinished,
    ShutdownRequested(ShutdownSource),
    CancelIssued,
    Joined(JoinOutcomeView),
}

impl View for Event {
    type V = EventView;

    open spec fn view(&self) -> EventView {
        match self {
            Event::Subscribed => EventView::Subscribed,
            Event::SubscriptionFailed(source) => EventView::SubscriptionFailed(*source),
            Event::Spawned => EventView::Spawned,
            Event::JobFinished => EventView::JobFinished,
            Event::ShutdownRequested(source) => EventView::ShutdownRequested(*source),
            Event::CancelIssued => EventView::CancelIssued,
            Event::Joined(outcome) => EventView::Joined(outcome@),
        }
    }
}

impl Clone for Event {
    fn clone(&self) -> (copy: Event)
        ensures
            copy == *self,
    {
        match self {
            Event::Subscribed => Event::Subscribed,
            Event::SubscriptionFailed(source) => Event::SubscriptionFailed(*source),
            Event::Spawned => Event::Spawned,
            Event::JobFinished => Event::JobFinished,
            Event::ShutdownRequested(source) => Event::ShutdownRequested(*source),
            Event::CancelIssued => Event::CancelIssued,
            Event::Joined(outcome) => Event::Joined(outcome.clone()),
        }
    }
}

/// What the supervisor asks the driver to do next.
#[derive(Debug, PartialEq, Eq)]
pub enum Action {
    /// Hand this job to the scheduler and keep its handle under the job's
    /// identity; then report `Spawned`.
    Spawn(Job),
    /// Wait for whichever comes first, a shutdown request from any source or
    /// the end of a job, and report it.
    AwaitShutdown,
    /// Request the cancellation of the handle with this identity; then report
    /// `CancelIssued`.
    Cancel(u32),
    /// Await the handle with this identity, consuming it, and report how it
    /// ended with `Joined`.
    Join(u32),
    /// The run is over: every job has its record.
    Finish,
    /// The run is given up with this error.
    Abort(StartupError),
    /// The event does not belong to the current phase and changed nothing.
    Ignored,
}

/// The mathematical content of an [`Action`].
pub enum ActionView {
    Spawn(JobView),
    AwaitShutdown,
    Cancel(u32),
    Join(u32),
    Finish,
    Abort(StartupError),
    Ignored,
}

impl View for Action {
    type V = ActionView;

    open spec fn view(&self) -> ActionView {
        match self {
            Action::Spawn(job) => ActionView::Spawn(job@),
            Action::AwaitShutdown => ActionView::AwaitShutdown,
            Action::Cancel(id) => ActionView::Cancel(*id),
            Action::Join(id) => ActionView::Join(*id),
            Action::Finish => ActionView::Finish,
            Action::Abort(error) => ActionView::Abort(*error),
            Action::Ignored => ActionView::Ignored,
        }
    }
}

impl Clone for Action {
    fn clone(&self) -> (copy: Action)
        ensures
            copy == *self,
    {
        match self {
            Action::Spawn(job) => Action::Spawn(job.clone()),
            Action::AwaitShutdown => Action::AwaitShutdown,
            Action::Cancel(id) => Action::Cancel(*id),
            Action::Join(id) => Action::Join(*id),
            Action::Finish => Action::Finish,
            Action::Abort(error) => Action::Abort(*error),
            Action::Ignored => Action::Ignored,
        }
    }
}

} // verus!
