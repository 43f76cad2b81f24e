//! The executable supervisor: it owns the registry of a run, decides what is
//! to be done next, and keeps the terminal status of every job.

use crate::job::{job_views, Job};
use crate::laws::{lemma_done_has_one_record_each, lemma_init_wf, lemma_step_preserves_wf};
use crate::model::{distinct, first_repeat, job_ids, record_ids, SupervisorView};
use crate::protocol::{Action, Event, Phase, ShutdownSource, StartupError};
use crate::status::{classify, record_views, JoinOutcome, StatusRecord};
use vstd::prelude::*;

verus! {

/// The fields of a supervisor, in any state.
struct Core {
    phase: Phase,
    /// The pending jobs in reverse: the last one is the next to be spawned.
    queue: Vec<Job>,
    registry: Vec<u32>,
    finished: usize,
    shutdown: Option<ShutdownSource>,
    cancelled: usize,
    records: Vec<StatusRecord>,
    failure: Option<StartupError>,
}

impl View for Core {
    type V = SupervisorView;

    closed spec fn view(&self) -> SupervisorView {
        SupervisorView {
            phase: self.phase,
            pending: job_views(self.queue@.reverse()),
            registry: self.registry@,
            finished: self.finished as nat,
            shutdown: self.shutdown,
            cancelled: self.cancelled as nat,
            records: record_views(self.records@),
            failure: self.failure,
        }
    }
}

/// The supervisor of one run.
///
/// It is made from the jobs of the run and then driven by events: each call
/// of [`Supervisor::step`] takes what the driver reports and answers with
/// what the driver is to do next. The handles of the spawned tasks stay with
/// the driver, which keeps each under the identity of its job; the
/// supervisor's registry holds those identities, in the order of insertion,
/// and every action names the handle it is about by its identity.
///
/// Its state is always one that a run can reach: whoever holds a
/// `Supervisor` may rely on `self@.wf()`.
pub struct Supervisor {
    core: Core,
}

impl View for Supervisor {
    type V = SupervisorView;

    closed spec fn view(&self) -> SupervisorView {
        self.core@
    }
}

/// The first place in `jobs` whose identity occurred before it, if any.
fn first_repeated(jobs: &Vec<Job>) -> (found: Option<usize>)
    ensures
        match found {
            Some(j) => first_repeat(job_ids(job_views(jobs@)), j as int),
            None => distinct(job_ids(job_views(jobs@))),
        },
{
    let ghost ids = job_ids(job_views(jobs@));
    let mut j: usize = 0;
    while j < jobs.len()
        invariant
            j <= jobs.len(),
            ids == job_ids(job_views(jobs@)),
            distinct(ids.take(j as int)),
        decreases jobs.len() - j,
    {
        let mut i: usize = 0;
        while i < j
            invariant
                i <= j < jobs.len(),
                ids == job_ids(job_views(jobs@)),
                distinct(ids.take(j as int)),
                forall|a: int| 0 <= a < i ==> ids[a] != ids[j as int],
            decreases j - i,
        {
            if jobs[i].id == jobs[j].id {
                assert(ids[i as int] == ids[j as int]);
                return Some(j);
            }
            i = i + 1;
        }
        proof {
            let shorter = ids.take(j as int);
            let longer = ids.take(j + 1);
            assert forall|a: int, b: int| 0 <= a < b < longer.len() implies longer[a]
                != longer[b] by {
                if b < j {
                    assert(shorter[a] != shorter[b]);
                }
            }
        }
        j = j + 1;
    }
    assert(ids.take(j as int) =~= ids);
    None
}

/// The same jobs in reverse order.
fn reversed(jobs: Vec<Job>) -> (queue: Vec<Job>)
    ensures
        queue@ == jobs@.reverse(),
{
    let mut jobs = jobs;
    let ghost all = jobs@;
    let mut queue: Vec<Job> = Vec::new();
    while jobs.len() > 0
        invariant
            jobs@.len() + queue@.len() == all.len(),
            jobs@ == all.take(jobs@.len() as int),
            forall|k: int| 0 <= k < queue@.len() ==> queue@[k] == all[all.len() - 1 - k],
        decreases jobs@.len(),
    {
        let job = jobs.pop().unwrap();
        queue.push(job);
    }
    assert(queue@ =~= all.reverse());
    queue
}

impl Core {
    fn spawn_next(self) -> (next: (Core, Action))
        ensures
            next.0@ == self@.spawn_next().0,
            next.1@ == self@.spawn_next().1,
    {
        let mut core = self;
        let ghost before = core.queue@;
        match core.queue.pop() {
            Some(job) => {
                core.registry.push(job.id);
                core.phase = Phase::Spawning;
                proof {
                    assert(job_views(core.queue@.reverse()) =~= job_views(
                        before.reverse(),
                    ).drop_first());
                }
                (core, Action::Spawn(job))
            },
            None => core.watch(),
        }
    }

    fn watch(self) -> (next: (Core, Action))
        ensures
            next.0@ == self@.watch().0,
            next.1@ == self@.watch().1,
    {
        let mut core = self;
        if core.finished < core.registry.len() {
            core.phase = Phase::Running;
            (core, Action::AwaitShutdown)
        } else {
            core.collect_next()
        }
    }

    fn cancel_next(self) -> (next: (Core, Action))
        ensures
            next.0@ == self@.cancel_next().0,
            next.1@ == self@.cancel_next().1,
    {
        let mut core = self;
        if core.cancelled < core.registry.len() {
            let id = core.registry[core.cancelled];
            core.cancelled = core.cancelled + 1;
            core.phase = Phase::ShuttingDown;
            (core, Action::Cancel(id))
        } else {
            core.collect_next()
        }
    }

    fn collect_next(self) -> (next: (Core, Action))
        ensures
            next.0@ == self@.collect_next().0,
            next.1@ == self@.collect_next().1,
    {
        let mut core = self;
        if core.records.len() < core.registry.len() {
            let id = core.registry[core.records.len()];
            core.phase = Phase::Collecting;
            (core, Action::Join(id))
        } else {
            core.phase = Phase::Done;
            (core, Action::Finish)
        }
    }

    fn record(self, outcome: JoinOutcome) -> (next: Core)
        requires
            self@.records.len() < self@.registry.len(),
        ensures
            next@ == self@.record(outcome@),
    {
        let mut core = self;
        let ghost before = core.records@;
        let id = core.registry[core.records.len()];
        let entry = StatusRecord { id, status: classify(outcome) };
        core.records.push(entry);
        assert(record_views(core.records@) =~= record_views(before).push(entry@));
        core
    }

    fn abort(self, error: StartupError) -> (next: (Core, Action))
        ensures
            next.0@ == self@.abort(error).0,
            next.1@ == self@.abort(error).1,
    {
        let mut core = self;
        core.phase = Phase::Aborted;
        core.failure = Some(error);
        (core, Action::Abort(error))
    }

    fn step(self, event: Event) -> (next: (Core, Action))
        requires
            self@.wf(),
        ensures
            next.0@ == self@.step(event@).0,
            next.1@ == self@.step(event@).1,
    {
        let mut core = self;
        match event {
            Event::Subscribed => match core.phase {
                Phase::Idle => core.spawn_next(),
                _ => (core, Action::Ignored),
            },
            Event::SubscriptionFailed(source) => match core.phase {
                Phase::Idle => core.abort(StartupError::SubscriptionRefused(source)),
                _ => (core, Action::Ignored),
            },
            Event::Spawned => match core.phase {
                Phase::Spawning => core.spawn_next(),
                _ => (core, Action::Ignored),
            },
            Event::JobFinished => match core.phase {
                Phase::Running => {
                    assert(core.finished < core.registry.len());
                    core.finished = core.finished + 1;
                    core.watch()
                },
                _ => (core, Action::Ignored),
            },
            Event::ShutdownRequested(source) => match core.phase {
                Phase::Running => {
                    core.shutdown = Some(source);
                    core.cancel_next()
                },
                _ => (core, Action::Ignored),
            },
            Event::CancelIssued => match core.phase {
                Phase::ShuttingDown => core.cancel_next(),
                _ => (core, Action::Ignored),
            },
            Event::Joined(outcome) => match core.phase {
                Phase::Collecting => core.record(outcome).collect_next(),
                _ => (core, Action::Ignored),
            },
        }
    }
}

impl Supervisor {
    #[verifier::type_invariant]
    spec fn reachable(self) -> bool {
        self.core@.wf()
    }

    /// Takes the jobs of a run, in the order in which they are to be spawned.
    /// They are refused if two of them share an identity, with the identity
    /// at the first place that repeats an earlier one.
    pub fn new(jobs: Vec<Job>) -> (made: Result<Supervisor, StartupError>)
        ensures
            made is Ok <==> distinct(job_ids(job_views(jobs@))),
            match made {
                Ok(supervisor) => {
                    &&& supervisor@ == SupervisorView::init(job_views(jobs@))
                    &&& supervisor@.wf()
                },
                Err(error) => exists|j: int|
                    #![trigger first_repeat(job_ids(job_views(jobs@)), j)]
                    {
                        &&& first_repeat(job_ids(job_views(jobs@)), j)
                        &&& error == StartupError::DuplicateIdentity(jobs@[j].id)
                    },
            },
    {
        match first_repeated(&jobs) {
            Some(j) => Err(StartupError::DuplicateIdentity(jobs[j].id)),
            None => {
                let ghost given = jobs@;
                let queue = reversed(jobs);
                let core = Core {
                    phase: Phase::Idle,
                    queue,
                    registry: Vec::new(),
                    finished: 0,
                    shutdown: None,
                    cancelled: 0,
                    records: Vec::new(),
                    failure: None,
                };
                proof {
                    assert(given.reverse().reverse() =~= given);
                    assert(core@.records =~= Seq::empty());
                    lemma_init_wf(job_views(given));
                }
                Ok(Supervisor { core })
            },
        }
    }

    /// Takes one event and answers with the action to perform next, as the
    /// transition function of the model says:
    ///
    /// - idle, `Subscribed`: the first job is handed out with `Spawn`;
    ///   `SubscriptionFailed`: the run is given up with `Abort`;
    /// - spawning, `Spawned`: the next job is handed out; after the last one
    ///   the registry is frozen and the answer is `AwaitShutdown`;
    /// - running, `JobFinished`: `AwaitShutdown` again, or the first `Join`
    ///   once every job has come to its end; `ShutdownRequested`: the first
    ///   `Cancel`;
    /// - shutting down, `CancelIssued`: the next `Cancel`, in registry order;
    ///   after the last one the first `Join`;
    /// - collecting, `Joined`: the outcome is classified and recorded for the
    ///   handle that was awaited, and the next `Join` follows, in registry
    ///   order; after the last one the answer is `Finish`.
    ///
    /// Where a run has no jobs, or no job is left for a phase, that phase is
    /// passed over. Any other event changes nothing and is answered with
    /// `Ignored`.
    pub fn step(self, event: Event) -> (next: (Supervisor, Action))
        ensures
            next.0@ == self@.step(event@).0,
            next.1@ == self@.step(event@).1,
            self@.wf(),
            next.0@.wf(),
    {
        proof {
            use_type_invariant(&self);
            lemma_step_preserves_wf(self@, event@);
        }
        let Supervisor { core } = self;
        let (core, action) = core.step(event);
        (Supervisor { core }, action)
    }

    /// Where the run stands.
    pub fn phase(&self) -> (phase: Phase)
        ensures
            phase == self@.phase,
    {
        self.core.phase
    }

    /// The identities of the spawned jobs, in the order of their insertion.
    pub fn registry(&self) -> (ids: &Vec<u32>)
        ensures
            ids@ == self@.registry,
    {
        &self.core.registry
    }

    /// The terminal statuses recorded so far, in registry order. Once the run
    /// is done there is exactly one for each spawned job.
    pub fn report(&self) -> (records: &Vec<StatusRecord>)
        ensures
            record_views(records@) == self@.records,
            self@.wf(),
            self@.phase == Phase::Done ==> record_ids(self@.records) == self@.registry,
    {
        proof {
            use_type_invariant(self);
            if self@.phase == Phase::Done {
                lemma_done_has_one_record_each(self@);
            }
        }
        &self.core.records
    }

    /// The source of the shutdown request that was observed first, if any.
    pub fn shutdown_source(&self) -> (source: Option<ShutdownSource>)
        ensures
            source == self@.shutdown,
    {
        self.core.shutdown
    }

    /// Why the run was given up, if it was.
    pub fn failure(&self) -> (error: Option<StartupError>)
        ensures
            error == self@.failure,
    {
        self.core.failure
    }
}

} // verus!
