//! The supervisor as a state machine over mathematical values: its states,
//! the states that a run can reach, and its transition function.

use crate::job::JobView;
use crate::protocol::{ActionView, EventView, Phase, ShutdownSource, StartupError};
use crate::status::{classified, JoinOutcomeView, StatusRecordView};
use vstd::prelude::*;

verus! {

/// The identities of a sequence of jobs, in the same order.
pub open spec fn job_ids(jobs: Seq<JobView>) -> Seq<u32> {
    Seq::new(jobs.len(), |i: int| jobs[i].id)
}

/// No identity occurs twice.
pub open spec fn distinct(ids: Seq<u32>) -> bool {
    forall|i: int, j: int| 0 <= i < j < ids.len() ==> ids[i] != ids[j]
}

/// `j` is the first place whose identity occurred before it.
pub open spec fn first_repeat(ids: Seq<u32>, j: int) -> bool {
    &&& 0 <= j < ids.len()
    &&& distinct(ids.take(j))
    &&& exists|i: int| 0 <= i < j && ids[i] == ids[j]
}

/// The identities of a sequence of records, in the same order.
pub open spec fn record_ids(records: Seq<StatusRecordView>) -> Seq<u32> {
    Seq::new(records.len(), |i: int| records[i].id)
}

/// The place of a phase in the order in which a run passes through them.
pub open spec fn rank(phase: Phase) -> nat {
    match phase {
        Phase::Idle => 0,
        Phase::Spawning => 1,
        Phase::Running => 2,
        Phase::ShuttingDown => 3,
        Phase::Collecting => 4,
        Phase::Done => 5,
        Phase::Aborted => 6,
    }
}

/// The events that report these outcomes, one `Joined` for each.
pub open spec fn joined(outcomes: Seq<JoinOutcomeView>) -> Seq<EventView> {
    Seq::new(outcomes.len(), |i: int| EventView::Joined(outcomes[i]))
}

/// The state of a supervisor run.
pub struct SupervisorView {
    /// Where the run stands.
    pub phase: Phase,
    /// The jobs that are still to be spawned, next one first.
    pub pending: Seq<JobView>,
    /// The identities of the spawned jobs, in the order of their insertion.
    /// There is one handle for each of them.
    pub registry: Seq<u32>,
    /// How many ends of jobs were reported while the run was waiting.
    pub finished: nat,
    /// The source of the shutdown request that was observed first.
    pub shutdown: Option<ShutdownSource>,
    /// The cancellation of the first `cancelled` handles of the registry has
    /// been handed out.
    pub cancelled: nat,
    /// The terminal statuses so far: the one at `i` is that of `registry[i]`.
    pub records: Seq<StatusRecordView>,
    /// Why the run was given up, if it was.
    pub failure: Option<StartupError>,
}

impl SupervisorView {
    /// The state before anything happened, with the jobs to supervise.
    pub open spec fn init(jobs: Seq<JobView>) -> SupervisorView {
        SupervisorView {
            phase: Phase::Idle,
            pending: jobs,
            registry: Seq::empty(),
            finished: 0,
            shutdown: None,
            cancelled: 0,
            records: Seq::empty(),
            failure: None,
        }
    }

    /// The identities of all jobs of the run: those spawned, then those to come.
    pub open spec fn identities(self) -> Seq<u32> {
        self.registry + job_ids(self.pending)
    }

    /// No end of a job, shutdown, cancellation or status has been seen.
    pub open spec fn untouched(self) -> bool {
        &&& self.finished == 0
        &&& self.shutdown is None
        &&& self.cancelled == 0
        &&& self.records.len() == 0
    }

    /// Cancellation is over with: requested for every handle where a
    /// shutdown was observed, for none where every job came to its end by
    /// itself.
    pub open spec fn settled(self) -> bool {
        match self.shutdown {
            Some(_) => self.cancelled == self.registry.len(),
            None => self.cancelled == 0 && self.finished == self.registry.len(),
        }
    }

    /// What holds of every state that a run can reach.
    pub open spec fn wf(self) -> bool {
        &&& distinct(self.identities())
        &&& self.finished <= self.registry.len()
        &&& self.cancelled <= self.registry.len()
        &&& self.records.len() <= self.registry.len()
        &&& forall|i: int|
            0 <= i < self.records.len() ==> (#[trigger] self.records[i]).id == self.registry[i]
        &&& match self.phase {
            Phase::Idle => self.registry.len() == 0 && self.untouched() && self.failure is None,
            Phase::Spawning => self.registry.len() > 0 && self.untouched()
                && self.failure is None,
            Phase::Running => self.pending.len() == 0 && self.finished < self.registry.len()
                && self.shutdown is None && self.cancelled == 0 && self.records.len() == 0
                && self.failure is None,
            Phase::ShuttingDown => self.pending.len() == 0 && self.shutdown is Some
                && self.cancelled > 0 && self.records.len() == 0 && self.failure is None,
            Phase::Collecting => self.pending.len() == 0 && self.settled()
                && self.records.len() < self.registry.len() && self.failure is None,
            Phase::Done => self.pending.len() == 0 && self.settled()
                && self.records.len() == self.registry.len() && self.failure is None,
            Phase::Aborted => self.registry.len() == 0 && self.untouched()
                && self.failure is Some,
        }
    }

    /// Hands out the next pending job and registers its identity; once none
    /// is left, the registry is frozen and the run starts to wait.
    pub open spec fn spawn_next(self) -> (SupervisorView, ActionView) {
        if self.pending.len() > 0 {
            (
                SupervisorView {
                    phase: Phase::Spawning,
                    pending: self.pending.drop_first(),
                    registry: self.registry.push(self.pending[0].id),
                    ..self
                },
                ActionView::Spawn(self.pending[0]),
            )
        } else {
            self.watch()
        }
    }

    /// Waits while a job is still at work; goes on to collecting once every
    /// job has come to its end.
    pub open spec fn watch(self) -> (SupervisorView, ActionView) {
        if self.finished < self.registry.len() {
            (SupervisorView { phase: Phase::Running, ..self }, ActionView::AwaitShutdown)
        } else {
            self.collect_next()
        }
    }

    /// Hands out the cancellation of the next handle, in registry order; goes
    /// on to collecting once it has been requested for all of them.
    pub open spec fn cancel_next(self) -> (SupervisorView, ActionView) {
        if self.cancelled < self.registry.len() {
            (
                SupervisorView {
                    phase: Phase::ShuttingDown,
                    cancelled: self.cancelled + 1,
                    ..self
                },
                ActionView::Cancel(self.registry[self.cancelled as int]),
            )
        } else {
            self.collect_next()
        }
    }

    /// Asks for the next handle without a record, in registry order; the run
    /// is done once every identity has one.
    pub open spec fn collect_next(self) -> (SupervisorView, ActionView) {
        if self.records.len() < self.registry.len() {
            (
                SupervisorView { phase: Phase::Collecting, ..self },
                ActionView::Join(self.registry[self.records.len() as int]),
            )
        } else {
            (SupervisorView { phase: Phase::Done, ..self }, ActionView::Finish)
        }
    }

    /// Records the status of the handle that was awaited last.
    pub open spec fn record(self, outcome: JoinOutcomeView) -> SupervisorView {
        SupervisorView {
            records: self.records.push(
                StatusRecordView {
                    id: self.registry[self.records.len() as int],
                    status: classified(outcome),
                },
            ),
            ..self
        }
    }

    /// Gives the run up before any job is spawned.
    pub open spec fn abort(self, error: StartupError) -> (SupervisorView, ActionView) {
        (
            SupervisorView { phase: Phase::Aborted, failure: Some(error), ..self },
            ActionView::Abort(error),
        )
    }

    /// The transition function: the state after `event`, and the action that
    /// the supervisor asks for. An event that the phase does not expect
    /// changes nothing and is answered with `Ignored`.
    pub open spec fn step(self, event: EventView) -> (SupervisorView, ActionView) {
        match (self.phase, event) {
            (Phase::Idle, EventView::Subscribed) => self.spawn_next(),
            (Phase::Idle, EventView::SubscriptionFailed(source)) => self.abort(
                StartupError::SubscriptionRefused(source),
            ),
            (Phase::Spawning, EventView::Spawned) => self.spawn_next(),
            (Phase::Running, EventView::JobFinished) => (SupervisorView {
                finished: self.finished + 1,
                ..self
            }).watch(),
            (Phase::Running, EventView::ShutdownRequested(source)) => (SupervisorView {
                shutdown: Some(source),
                ..self
            }).cancel_next(),
            (Phase::ShuttingDown, EventView::CancelIssued) => self.cancel_next(),
            (Phase::Collecting, EventView::Joined(outcome)) => self.record(outcome).collect_next(),
            _ => (self, ActionView::Ignored),
        }
    }

    /// The actions that a sequence of events is answered with, one for each
    /// event, in the same order.
    pub open spec fn actions(self, events: Seq<EventView>) -> Seq<ActionView>
        decreases events.len(),
    {
        if events.len() == 0 {
            Seq::empty()
        } else {
            self.actions(events.drop_last()).push(
                self.run(events.drop_last()).step(events.last()).1,
            )
        }
    }

    /// The state after a sequence of events, first one first.
    pub open spec fn run(self, events: Seq<EventView>) -> SupervisorView
        decreases events.len(),
    {
        if events.len() == 0 {
            self
        } else {
            self.run(events.drop_last()).step(events.last()).0
        }
    }
}

} // verus!
