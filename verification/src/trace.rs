//! What a driver gets to see of a run: the actions it is asked for, in
//! order. The laws here say which ones there are, how often, and in which
//! order they come.

use crate::job::JobView;
use crate::laws::{
    lemma_cancel_before_join, lemma_cancel_once_each, lemma_init_wf, lemma_phase_never_goes_back,
    lemma_records_are_final, lemma_run_preserves_wf, lemma_step_preserves_wf,
};
use crate::model::{distinct, job_ids, SupervisorView};
use crate::protocol::{ActionView, EventView, Phase};
use vstd::prelude::*;

verus! {

/// The jobs that the actions hand out for spawning, in order.
pub open spec fn spawned_jobs(actions: Seq<ActionView>) -> Seq<JobView>
    decreases actions.len(),
{
    if actions.len() == 0 {
        Seq::empty()
    } else {
        match actions.last() {
            ActionView::Spawn(job) => spawned_jobs(actions.drop_last()).push(job),
            _ => spawned_jobs(actions.drop_last()),
        }
    }
}

/// The identities whose cancellation the actions ask for, in order.
pub open spec fn cancelled_ids(actions: Seq<ActionView>) -> Seq<u32>
    decreases actions.len(),
{
    if actions.len() == 0 {
        Seq::empty()
    } else {
        match actions.last() {
            ActionView::Cancel(id) => cancelled_ids(actions.drop_last()).push(id),
            _ => cancelled_ids(actions.drop_last()),
        }
    }
}

/// The identities whose handles the actions ask to await, in order.
pub open spec fn joined_ids(actions: Seq<ActionView>) -> Seq<u32>
    decreases actions.len(),
{
    if actions.len() == 0 {
        Seq::empty()
    } else {
        match actions.last() {
            ActionView::Join(id) => joined_ids(actions.drop_last()).push(id),
            _ => joined_ids(actions.drop_last()),
        }
    }
}

/// How many handles have been asked for so far: those with a record, and the
/// one that is being awaited.
pub open spec fn joins_so_far(s: SupervisorView) -> nat {
    if s.phase == Phase::Collecting {
        s.records.len() + 1
    } else {
        s.records.len()
    }
}

/// There is one action for each event.
pub proof fn lemma_actions_len(s: SupervisorView, events: Seq<EventView>)
    ensures
        s.actions(events).len() == events.len(),
    decreases events.len(),
{
    if events.len() > 0 {
        lemma_actions_len(s, events.drop_last());
    }
}

/// The action at `n` answers the event at `n` in the state that the events
/// before it led to.
pub proof fn lemma_action_at(s: SupervisorView, events: Seq<EventView>, n: int)
    requires
        0 <= n < events.len(),
    ensures
        s.actions(events).len() == events.len(),
        s.actions(events)[n] == s.run(events.take(n)).step(events[n]).1,
        s.run(events.take(n + 1)) == s.run(events.take(n)).step(events[n]).0,
    decreases events.len(),
{
    let shorter = events.drop_last();
    lemma_actions_len(s, events);
    lemma_actions_len(s, shorter);
    assert(events.take(n + 1).drop_last() =~= events.take(n));
    assert(events.take(n + 1).last() == events[n]);
    if n < shorter.len() {
        lemma_action_at(s, shorter, n);
        assert(shorter.take(n) =~= events.take(n));
    } else {
        assert(events.take(n) =~= shorter);
    }
}

/// Running through `first` and then through `rest` is running through both
/// in one go.
pub proof fn lemma_run_append(s: SupervisorView, first: Seq<EventView>, rest: Seq<EventView>)
    ensures
        s.run(first + rest) == s.run(first).run(rest),
    decreases rest.len(),
{
    if rest.len() == 0 {
        assert(first + rest =~= first);
    } else {
        assert((first + rest).drop_last() =~= first + rest.drop_last());
        assert((first + rest).last() == rest.last());
        lemma_run_append(s, first, rest.drop_last());
    }
}

/// Only one shutdown is ever taken: of any two shutdown requests among the
/// events, from whatever sources and in whatever state the run starts, at
/// least one is answered with `Ignored`. So a run goes from `Running` to
/// `ShuttingDown` at most once.
pub proof fn lemma_shutdown_taken_at_most_once(
    s: SupervisorView,
    events: Seq<EventView>,
    a: int,
    b: int,
)
    requires
        0 <= a < b < events.len(),
        events[a] is ShutdownRequested,
        events[b] is ShutdownRequested,
    ensures
        s.actions(events)[a] == ActionView::Ignored || s.actions(events)[b]
            == ActionView::Ignored,
{
    lemma_action_at(s, events, a);
    lemma_action_at(s, events, b);
    let between = events.subrange(a + 1, b);
    assert(events.take(b) =~= events.take(a + 1) + between);
    lemma_run_append(s, events.take(a + 1), between);
    lemma_phase_never_goes_back(s.run(events.take(a + 1)), between);
}

/// The actions of a run, one by one: what was handed out for spawning are
/// the given jobs in their order, each once, as far as the registry goes;
/// cancellation was asked for the handles of the registry in its order, each
/// once, as far as the count of cancellations goes; and the handles were
/// asked to be awaited in registry order, each once, up to the one that is
/// being awaited.
pub proof fn lemma_actions_of_run(jobs: Seq<JobView>, events: Seq<EventView>)
    requires
        distinct(job_ids(jobs)),
    ensures
        ({
            let start = SupervisorView::init(jobs);
            let end = start.run(events);
            let actions = start.actions(events);
            &&& end.wf()
            &&& end.registry.len() + end.pending.len() == jobs.len()
            &&& end.pending == jobs.skip(end.registry.len() as int)
            &&& end.registry == job_ids(jobs).take(end.registry.len() as int)
            &&& spawned_jobs(actions) == jobs.take(end.registry.len() as int)
            &&& cancelled_ids(actions) == end.registry.take(end.cancelled as int)
            &&& joined_ids(actions) == end.registry.take(joins_so_far(end) as int)
        }),
    decreases events.len(),
{
    let start = SupervisorView::init(jobs);
    let end = start.run(events);
    let actions = start.actions(events);
    lemma_init_wf(jobs);
    lemma_run_preserves_wf(start, events);
    if events.len() == 0 {
        assert(end.pending =~= jobs.skip(0));
        assert(end.registry =~= job_ids(jobs).take(0));
        assert(spawned_jobs(actions) =~= jobs.take(0));
        assert(cancelled_ids(actions) =~= end.registry.take(0));
        assert(joined_ids(actions) =~= end.registry.take(0));
    } else {
        let shorter = events.drop_last();
        let before = start.run(shorter);
        let earlier = start.actions(shorter);
        lemma_actions_of_run(jobs, shorter);
        lemma_step_preserves_wf(before, events.last());
        assert(actions.drop_last() =~= earlier);
        let reg = before.registry.len() as int;
        if actions.last() is Spawn {
            assert(end.pending =~= jobs.skip(reg + 1));
            assert(end.registry =~= job_ids(jobs).take(reg + 1));
            assert(jobs.take(reg).push(jobs[reg]) =~= jobs.take(reg + 1));
        } else {
            assert(end.pending =~= before.pending);
            assert(end.registry =~= before.registry);
        }
        if actions.last() is Cancel {
            assert(before.registry.take(before.cancelled as int).push(
                before.registry[before.cancelled as int],
            ) =~= end.registry.take(end.cancelled as int));
        } else {
            assert(end.registry.take(end.cancelled as int) =~= before.registry.take(
                before.cancelled as int,
            ));
        }
        if actions.last() is Join {
            assert(before.registry.take(joins_so_far(before) as int).push(
                end.registry[end.records.len() as int],
            ) =~= end.registry.take(joins_so_far(end) as int));
        } else {
            assert(end.registry.take(joins_so_far(end) as int) =~= before.registry.take(
                joins_so_far(before) as int,
            ));
        }
    }
}

/// The actions of a run that is done: every given job was handed out for
/// spawning exactly once, in the order given; every handle was asked to be
/// awaited exactly once, in the same order; and cancellation was asked for
/// every handle exactly once, in the same order, if a shutdown was observed,
/// and for none if not.
pub proof fn lemma_actions_of_finished_run(jobs: Seq<JobView>, events: Seq<EventView>)
    requires
        distinct(job_ids(jobs)),
        SupervisorView::init(jobs).run(events).phase == Phase::Done,
    ensures
        spawned_jobs(SupervisorView::init(jobs).actions(events)) == jobs,
        joined_ids(SupervisorView::init(jobs).actions(events)) == job_ids(jobs),
        cancelled_ids(SupervisorView::init(jobs).actions(events)) == if SupervisorView::init(
            jobs,
        ).run(events).shutdown is Some {
            job_ids(jobs)
        } else {
            Seq::<u32>::empty()
        },
{
    let end = SupervisorView::init(jobs).run(events);
    lemma_actions_of_run(jobs, events);
    assert(jobs.take(jobs.len() as int) =~= jobs);
    assert(end.registry =~= job_ids(jobs));
    assert(end.registry.take(end.registry.len() as int) =~= end.registry);
    assert(end.registry.take(0) =~= Seq::<u32>::empty());
}

/// The action `Cancel(id)` is among the first `n` actions.
pub open spec fn cancel_asked_before(actions: Seq<ActionView>, n: int, id: u32) -> bool {
    exists|c: int| 0 <= c < n && c < actions.len() && actions[c] == ActionView::Cancel(id)
}

/// After the first `n` events of a run, the cancellation of each handle that
/// is counted as cancelled was asked for by one of the first `n` actions.
pub proof fn lemma_cancels_so_far(jobs: Seq<JobView>, events: Seq<EventView>, n: int)
    requires
        distinct(job_ids(jobs)),
        0 <= n <= events.len(),
    ensures
        ({
            let start = SupervisorView::init(jobs);
            let state = start.run(events.take(n));
            &&& state.wf()
            &&& forall|i: int|
                0 <= i < state.cancelled ==> cancel_asked_before(
                    start.actions(events),
                    n,
                    #[trigger] state.registry[i],
                )
        }),
    decreases n,
{
    let start = SupervisorView::init(jobs);
    let actions = start.actions(events);
    let state = start.run(events.take(n));
    lemma_init_wf(jobs);
    lemma_run_preserves_wf(start, events.take(n));
    if n > 0 {
        let before = start.run(events.take(n - 1));
        lemma_cancels_so_far(jobs, events, n - 1);
        lemma_action_at(start, events, n - 1);
        lemma_cancel_once_each(before, events[n - 1]);
        lemma_records_are_final(before, events[n - 1]);
        assert forall|i: int| 0 <= i < state.cancelled implies cancel_asked_before(
            actions,
            n,
            #[trigger] state.registry[i],
        ) by {
            if i < before.cancelled {
                assert(cancel_asked_before(actions, n - 1, before.registry[i]));
                let c = choose|c: int|
                    0 <= c < n - 1 && c < actions.len() && actions[c] == ActionView::Cancel(
                        before.registry[i],
                    );
                assert(0 <= c < n && c < actions.len() && actions[c] == ActionView::Cancel(
                    state.registry[i],
                ));
            } else {
                assert(actions[n - 1] == ActionView::Cancel(state.registry[i]));
            }
        }
    }
}

/// Cancellation happens before collection: if the action at `k` of a run
/// asks to await the handle of `id`, and a shutdown had been observed by
/// then, an earlier action of the run asked for the cancellation of that
/// same handle.
pub proof fn lemma_cancellation_happens_before_collection(
    jobs: Seq<JobView>,
    events: Seq<EventView>,
    k: int,
    id: u32,
)
    requires
        distinct(job_ids(jobs)),
        0 <= k < events.len(),
        SupervisorView::init(jobs).actions(events)[k] == ActionView::Join(id),
        SupervisorView::init(jobs).run(events.take(k + 1)).shutdown is Some,
    ensures
        exists|c: int|
            0 <= c < k && #[trigger] SupervisorView::init(jobs).actions(events)[c]
                == ActionView::Cancel(id),
{
    let start = SupervisorView::init(jobs);
    let actions = start.actions(events);
    let before = start.run(events.take(k));
    lemma_action_at(start, events, k);
    lemma_cancels_so_far(jobs, events, k);
    lemma_cancel_before_join(before, events[k]);
    lemma_records_are_final(before, events[k]);
    let at = before.step(events[k]).0.records.len() as int;
    assert(cancel_asked_before(actions, k, before.registry[at]));
    let c = choose|c: int|
        0 <= c < k && c < actions.len() && actions[c] == ActionView::Cancel(before.registry[at]);
    assert(0 <= c < k && actions[c] == ActionView::Cancel(id));
}

} // verus!
