//! What holds of every run of the supervisor.

use crate::job::JobView;
use crate::model::{distinct, job_ids, joined, rank, record_ids, SupervisorView};
use crate::protocol::{ActionView, EventView, Phase, ShutdownSource};
use crate::status::{classified, JoinOutcomeView, StatusRecordView, TerminalStatusView};
use vstd::prelude::*;

verus! {

/// A run starts in a well-formed state exactly if no two of its jobs share
/// an identity.
pub proof fn lemma_init_wf(jobs: Seq<JobView>)
    ensures
        SupervisorView::init(jobs).wf() <==> distinct(job_ids(jobs)),
        SupervisorView::init(jobs).identities() == job_ids(jobs),
{
    let s = SupervisorView::init(jobs);
    assert(s.identities() =~= job_ids(jobs));
}

/// Every transition leads from a well-formed state to a well-formed state,
/// and keeps the identities of the run.
pub proof fn lemma_step_preserves_wf(s: SupervisorView, event: EventView)
    requires
        s.wf(),
    ensures
        s.step(event).0.wf(),
        s.step(event).0.identities() == s.identities(),
{
    let next = s.step(event).0;
    assert(next.identities() =~= s.identities());
}

/// Whatever events arrive, in whatever order, the state stays well-formed and
/// the run keeps its identities.
pub proof fn lemma_run_preserves_wf(s: SupervisorView, events: Seq<EventView>)
    requires
        s.wf(),
    ensures
        s.run(events).wf(),
        s.run(events).identities() == s.identities(),
    decreases events.len(),
{
    if events.len() > 0 {
        lemma_run_preserves_wf(s, events.drop_last());
        lemma_step_preserves_wf(s.run(events.drop_last()), events.last());
    }
}

/// Registry completeness, of a state: once a run is done, there is exactly
/// one record for each spawned job, in registry order, and no identity has
/// two.
pub proof fn lemma_done_has_one_record_each(s: SupervisorView)
    requires
        s.wf(),
        s.phase == Phase::Done,
    ensures
        s.records.len() == s.registry.len(),
        record_ids(s.records) == s.registry,
        s.registry == s.identities(),
        distinct(record_ids(s.records)),
{
    assert(record_ids(s.records) =~= s.registry);
    assert(s.identities() =~= s.registry);
}

/// Registry completeness, of a run: whatever events lead a run to its end,
/// its records are in bijection with the jobs it was given: one record for
/// each job, under the job's identity, none twice and none missing.
pub proof fn lemma_registry_completeness(jobs: Seq<JobView>, events: Seq<EventView>)
    requires
        distinct(job_ids(jobs)),
    ensures
        SupervisorView::init(jobs).run(events).phase == Phase::Done ==> {
            &&& SupervisorView::init(jobs).run(events).records.len() == jobs.len()
            &&& record_ids(SupervisorView::init(jobs).run(events).records) == job_ids(jobs)
            &&& distinct(record_ids(SupervisorView::init(jobs).run(events).records))
        },
{
    let start = SupervisorView::init(jobs);
    let end = start.run(events);
    lemma_init_wf(jobs);
    lemma_run_preserves_wf(start, events);
    if end.phase == Phase::Done {
        lemma_done_has_one_record_each(end);
    }
}

/// A recorded status is final: no event removes or changes a record, and the
/// registry only grows at its end.
pub proof fn lemma_records_are_final(s: SupervisorView, event: EventView)
    requires
        s.wf(),
    ensures
        s.records.len() <= s.step(event).0.records.len(),
        forall|i: int| 0 <= i < s.records.len() ==> s.step(event).0.records[i] == s.records[i],
        s.registry.len() <= s.step(event).0.registry.len(),
        forall|i: int| 0 <= i < s.registry.len() ==> s.step(event).0.registry[i] == s.registry[i],
{
}

/// No double cancel: a job that ran to its end is recorded as `Completed`
/// with its result, also where its cancellation had been requested before;
/// and neither a shutdown request nor an issued cancellation touches a
/// record.
pub proof fn lemma_completed_stays_completed(
    s: SupervisorView,
    result: Seq<char>,
    source: ShutdownSource,
)
    requires
        s.wf(),
    ensures
        s.phase == Phase::Collecting ==> s.step(
            EventView::Joined(JoinOutcomeView::Finished(result)),
        ).0.records == s.records.push(
            StatusRecordView {
                id: s.registry[s.records.len() as int],
                status: TerminalStatusView::Completed(result),
            },
        ),
        s.step(EventView::ShutdownRequested(source)).0.records == s.records,
        s.step(EventView::CancelIssued).0.records == s.records,
{
}

/// A run never goes back to an earlier phase.
pub proof fn lemma_phase_never_goes_back(s: SupervisorView, events: Seq<EventView>)
    ensures
        rank(s.phase) <= rank(s.run(events).phase),
    decreases events.len(),
{
    if events.len() > 0 {
        lemma_phase_never_goes_back(s, events.drop_last());
    }
}

/// First shutdown wins: of two shutdown requests in a row, in whatever state
/// the first one arrives, the second changes nothing and is answered with
/// `Ignored`. With the phases only moving forward, a run enters
/// `ShuttingDown` at most once.
pub proof fn lemma_first_shutdown_wins(
    s: SupervisorView,
    first: ShutdownSource,
    second: ShutdownSource,
)
    ensures
        ({
            let taken = s.step(EventView::ShutdownRequested(first)).0;
            &&& taken.step(EventView::ShutdownRequested(second)) == (taken, ActionView::Ignored)
            &&& s.phase == Phase::Running ==> taken.shutdown == Some(first)
            &&& s.phase != Phase::Running ==> taken == s
        }),
{
}

/// A late shutdown request has no effect: once a shutdown request was taken,
/// a later one from any source, however many events lie between the two,
/// changes nothing and is answered with `Ignored`; the source that was
/// observed first stays.
pub proof fn lemma_late_shutdown_has_no_effect(
    s: SupervisorView,
    first: ShutdownSource,
    between: Seq<EventView>,
    second: ShutdownSource,
)
    requires
        s.wf(),
        s.phase == Phase::Running,
    ensures
        ({
            let taken = s.step(EventView::ShutdownRequested(first)).0;
            let later = taken.run(between);
            &&& taken.shutdown == Some(first)
            &&& later.shutdown == Some(first)
            &&& later.step(EventView::ShutdownRequested(second)) == (later, ActionView::Ignored)
        }),
{
    let taken = s.step(EventView::ShutdownRequested(first)).0;
    lemma_step_preserves_wf(s, EventView::ShutdownRequested(first));
    lemma_shutdown_is_latched(taken, between);
}

/// Once a shutdown request was taken, its source is never replaced and the
/// run never waits for a shutdown again.
pub proof fn lemma_shutdown_is_latched(s: SupervisorView, events: Seq<EventView>)
    requires
        s.wf(),
        s.shutdown is Some,
    ensures
        s.run(events).shutdown == s.shutdown,
        s.run(events).phase != Phase::Running,
    decreases events.len(),
{
    if events.len() > 0 {
        lemma_shutdown_is_latched(s, events.drop_last());
        lemma_run_preserves_wf(s, events.drop_last());
    }
}

/// A shutdown request outside of `Running` changes nothing.
pub proof fn lemma_shutdown_only_counts_while_running(s: SupervisorView, source: ShutdownSource)
    requires
        s.phase != Phase::Running,
    ensures
        s.step(EventView::ShutdownRequested(source)) == (s, ActionView::Ignored),
{
}

/// Cancellation happens before collection, of a transition: whenever the
/// supervisor asks for a handle to be awaited after a shutdown was observed,
/// the cancellation of every handle of the registry has been handed out and
/// reported as issued; and whenever it asks for a cancellation, no status
/// has been read yet.
pub proof fn lemma_cancel_before_join(s: SupervisorView, event: EventView)
    requires
        s.wf(),
    ensures
        s.step(event).1 is Join && s.step(event).0.shutdown is Some ==> s.step(event).0.cancelled
            == s.step(event).0.registry.len() && s.cancelled == s.registry.len(),
        s.step(event).1 is Cancel ==> s.step(event).0.records.len() == 0,
{
}

/// Cancellations are handed out in registry order, one handle at a time, and
/// the count of them never falls: no handle is asked twice.
pub proof fn lemma_cancel_once_each(s: SupervisorView, event: EventView)
    requires
        s.wf(),
    ensures
        s.cancelled <= s.step(event).0.cancelled,
        s.step(event).1 matches ActionView::Cancel(id) ==> {
            &&& s.cancelled < s.registry.len()
            &&& id == s.registry[s.cancelled as int]
            &&& s.step(event).0.cancelled == s.cancelled + 1
        },
        !(s.step(event).1 is Cancel) ==> s.step(event).0.cancelled == s.cancelled,
{
}

/// A run ends in one of two ways. It is finished only once every spawned job
/// has its record, nothing is left to spawn, and, where a shutdown was
/// observed, every handle had its cancellation requested: there is no way
/// out with a part of the records. It is given up only from the start, before
/// any job is spawned and before any status exists.
pub proof fn lemma_how_a_run_ends(s: SupervisorView, event: EventView)
    requires
        s.wf(),
    ensures
        s.step(event).1 is Finish ==> {
            &&& s.step(event).0.phase == Phase::Done
            &&& s.step(event).0.pending.len() == 0
            &&& s.step(event).0.records.len() == s.step(event).0.registry.len()
            &&& s.step(event).0.shutdown is Some ==> s.step(event).0.cancelled == s.step(
                event,
            ).0.registry.len()
        },
        s.step(event).1 is Abort ==> {
            &&& s.phase == Phase::Idle
            &&& event is SubscriptionFailed
            &&& s.step(event).0.phase == Phase::Aborted
            &&& s.step(event).0.registry.len() == 0
            &&& s.step(event).0.records.len() == 0
        },
        s.step(event).0.phase == Phase::Done ==> s.step(event).1 is Finish || s.step(event).1
            is Ignored,
{
}

/// How many reports a run that has observed a shutdown still needs until it
/// is done: one for each cancellation and each handle that is still to come,
/// and one for the cancellation that is under way.
pub open spec fn reports_until_done(s: SupervisorView) -> int {
    2 * s.registry.len() - s.cancelled - s.records.len() + if s.phase == Phase::ShuttingDown {
        1int
    } else {
        0int
    }
}

/// A shutdown always ends the run. Once a shutdown was observed, the driver
/// is never asked to wait or to spawn again; the report that the supervisor
/// has asked for is always taken; and every report that is taken brings the
/// run one closer to its end, which it reaches after exactly
/// `reports_until_done` of them.
pub proof fn lemma_shutdown_ends_the_run(s: SupervisorView, event: EventView)
    requires
        s.wf(),
        s.shutdown is Some,
    ensures
        reports_until_done(s) >= 0,
        reports_until_done(s) == 0 <==> s.phase == Phase::Done,
        !(s.step(event).1 is AwaitShutdown) && !(s.step(event).1 is Spawn) && !(s.step(event).1
            is Abort),
        !(s.step(event).1 is Ignored) ==> reports_until_done(s.step(event).0)
            == reports_until_done(s) - 1,
        s.phase == Phase::ShuttingDown ==> !(s.step(EventView::CancelIssued).1 is Ignored),
        s.phase == Phase::Collecting ==> forall|outcome: JoinOutcomeView|
            !(#[trigger] s.step(EventView::Joined(outcome)).1 is Ignored),
{
}

/// What collecting does: the outcomes that are reported for the next handles
/// are recorded in registry order, each under the identity of its own handle
/// and classified by itself alone; the records that were there stay.
pub proof fn lemma_collected_records(s: SupervisorView, outcomes: Seq<JoinOutcomeView>)
    requires
        s.wf(),
        s.phase == Phase::Collecting,
        s.records.len() + outcomes.len() <= s.registry.len(),
    ensures
        s.run(joined(outcomes)).wf(),
        s.run(joined(outcomes)).registry == s.registry,
        s.run(joined(outcomes)).records.len() == s.records.len() + outcomes.len(),
        forall|i: int|
            0 <= i < s.records.len() ==> #[trigger] s.run(joined(outcomes)).records[i]
                == s.records[i],
        forall|i: int|
            s.records.len() <= i < s.records.len() + outcomes.len() ==> #[trigger] s.run(
                joined(outcomes),
            ).records[i] == (StatusRecordView {
                id: s.registry[i],
                status: classified(outcomes[i - s.records.len()]),
            }),
        s.records.len() + outcomes.len() < s.registry.len() ==> s.run(joined(outcomes)).phase
            == Phase::Collecting,
        s.records.len() + outcomes.len() == s.registry.len() ==> s.run(joined(outcomes)).phase
            == Phase::Done,
    decreases outcomes.len(),
{
    if outcomes.len() > 0 {
        let shorter = outcomes.drop_last();
        assert(joined(outcomes).drop_last() =~= joined(shorter));
        lemma_collected_records(s, shorter);
        let before = s.run(joined(shorter));
        lemma_step_preserves_wf(before, EventView::Joined(outcomes.last()));
    }
}

/// Failure isolation: the status of a job depends on how its own task ended
/// and on nothing else. If two collections differ in the outcome of one
/// handle only, say because that job failed in one of them, every other
/// record is the same in both.
pub proof fn lemma_failure_isolation(
    s: SupervisorView,
    outcomes: Seq<JoinOutcomeView>,
    others: Seq<JoinOutcomeView>,
    k: int,
)
    requires
        s.wf(),
        s.phase == Phase::Collecting,
        s.records.len() + outcomes.len() <= s.registry.len(),
        others.len() == outcomes.len(),
        forall|i: int| 0 <= i < outcomes.len() && i != k ==> others[i] == outcomes[i],
    ensures
        s.run(joined(others)).records.len() == s.run(joined(outcomes)).records.len(),
        forall|i: int|
            0 <= i < s.run(joined(outcomes)).records.len() && i != s.records.len() + k ==> s.run(
                joined(others),
            ).records[i] == s.run(joined(outcomes)).records[i],
{
    lemma_collected_records(s, outcomes);
    lemma_collected_records(s, others);
    let base = s.records.len() as int;
    let left = s.run(joined(outcomes)).records;
    let right = s.run(joined(others)).records;
    assert forall|i: int| 0 <= i < left.len() && i != base + k implies right[i] == left[i] by {
        if i >= base {
            assert(others[i - base] == outcomes[i - base]);
        }
    }
}

} // verus!
