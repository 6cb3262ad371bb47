//! What holds of every run of the pool.

use vstd::prelude::*;
use vstd::multiset::Multiset;
use crate::webserver::model::{
    Event, Message, PoolState, WorkerState, apply, blocked, broadcast_done, busy, dispatch,
    enabled, expected_queue, feasible, held, initial, inv, is_worker_step, live, pending, queued,
    run, running, state_after, stopped, submissions, torn_down, work_left,
};

verus! {

broadcast use {vstd::multiset::group_multiset_axioms, vstd::multiset::group_multiset_properties};

/// Replacing one worker's state changes the live count by that worker alone.
pub proof fn lemma_live_update(workers: Seq<WorkerState>, w: int, state: WorkerState)
    requires
        0 <= w < workers.len(),
    ensures
        live(workers.update(w, state)) + (if workers[w] is Stopped { 0int } else { 1int })
            == live(workers) + (if state is Stopped { 0int } else { 1int }),
    decreases workers.len(),
{
    let updated = workers.update(w, state);
    if w == workers.len() - 1 {
        assert(updated.drop_last() =~= workers.drop_last());
    } else {
        assert(updated.drop_last() =~= workers.drop_last().update(w, state));
        lemma_live_update(workers.drop_last(), w, state);
    }
}

/// Replacing one worker's state changes the busy count by that worker alone.
pub proof fn lemma_busy_update(workers: Seq<WorkerState>, w: int, state: WorkerState)
    requires
        0 <= w < workers.len(),
    ensures
        busy(workers.update(w, state)) + (if workers[w] is Executing { 1int } else { 0int })
            == busy(workers) + (if state is Executing { 1int } else { 0int }),
    decreases workers.len(),
{
    let updated = workers.update(w, state);
    if w == workers.len() - 1 {
        assert(updated.drop_last() =~= workers.drop_last());
    } else {
        assert(updated.drop_last() =~= workers.drop_last().update(w, state));
        lemma_busy_update(workers.drop_last(), w, state);
    }
}

/// Replacing one worker's state changes the running jobs by that worker's job alone.
pub proof fn lemma_running_update(workers: Seq<WorkerState>, w: int, state: WorkerState)
    requires
        0 <= w < workers.len(),
    ensures
        running(workers.update(w, state)).add(held(workers[w])) == running(workers).add(
            held(state),
        ),
        !(workers[w] is Executing) ==> running(workers.update(w, state)) == running(workers).add(
            held(state),
        ),
        !(state is Executing) ==> running(workers) == running(workers.update(w, state)).add(
            held(workers[w]),
        ),
    decreases workers.len(),
{
    let updated = workers.update(w, state);
    let front = workers.drop_last();
    if w == workers.len() - 1 {
        assert(updated.drop_last() =~= front);
    } else {
        assert(updated.drop_last() =~= front.update(w, state));
        lemma_running_update(front, w, state);
        assert(running(workers).add(held(state)) =~= running(front).add(held(state)).add(
            held(workers.last()),
        ));
    }
}

/// The live count never exceeds the number of workers, and it is zero exactly
/// when every worker has stopped; then no job is running.
pub proof fn lemma_live_bounds(workers: Seq<WorkerState>)
    ensures
        live(workers) <= workers.len(),
        busy(workers) <= live(workers),
        live(workers) == 0 <==> (forall|i: int| 0 <= i < workers.len() ==> workers[i] is Stopped),
        live(workers) == workers.len() <==> (forall|i: int|
            0 <= i < workers.len() ==> !(workers[i] is Stopped)),
        live(workers) == 0 ==> running(workers) == Multiset::<u64>::empty(),
    decreases workers.len(),
{
    if workers.len() > 0 {
        let front = workers.drop_last();
        lemma_live_bounds(front);
        assert forall|i: int| 0 <= i < front.len() implies front[i] == workers[i] by {}
    }
}

/// A fresh pool satisfies the invariant.
pub proof fn lemma_initial_inv(size: nat)
    requires
        size > 0,
    ensures
        inv(initial(size)),
        live(initial(size).workers) == size,
{
    let s = initial(size);
    lemma_live_bounds(s.workers);
    assert(s.started =~= s.submitted.take(0));
    assert(s.queue =~= expected_queue(s));
    assert(running(s.workers) =~= Multiset::<u64>::empty()) by {
        lemma_all_idle_running(s.workers);
    }
    assert(s.started.to_multiset() =~= s.finished.to_multiset().add(running(s.workers)));
}

/// Where no worker is running a job, the multiset of running jobs is empty.
pub proof fn lemma_all_idle_running(workers: Seq<WorkerState>)
    requires
        forall|i: int| 0 <= i < workers.len() ==> !(workers[i] is Executing),
    ensures
        running(workers) == Multiset::<u64>::empty(),
        busy(workers) == 0,
    decreases workers.len(),
{
    if workers.len() > 0 {
        let front = workers.drop_last();
        assert forall|i: int| 0 <= i < front.len() implies front[i] == workers[i] by {}
        lemma_all_idle_running(front);
    }
}

/// Every enabled step keeps the invariant.
pub proof fn lemma_step_preserves_inv(s: PoolState, event: Event)
    requires
        inv(s),
        enabled(s, event),
    ensures
        inv(apply(s, event)),
{
    let t = apply(s, event);
    lemma_live_bounds(s.workers);
    match event {
        Event::Submit(_) => {
            assert(t.started =~= t.submitted.take(t.started.len() as int));
            assert(t.queue =~= expected_queue(t));
        },
        Event::SendTerminate => {
            assert(t.queue =~= expected_queue(t));
        },
        Event::Receive(w) => {
            let next = state_after(s.queue[0]);
            lemma_live_update(s.workers, w, next);
            lemma_running_update(s.workers, w, next);
            match s.queue[0] {
                Message::NewJob(job) => {
                    assert(t.started =~= t.submitted.take(t.started.len() as int));
                    vstd::seq_lib::to_multiset_build(s.started, job);
                    assert(t.started.to_multiset() =~= t.finished.to_multiset().add(
                        running(t.workers),
                    ));
                },
                Message::Terminate => {},
            }
            assert(t.queue =~= expected_queue(t));
        },
        Event::Finish(w) => {
            let job = s.workers[w]->Executing_0;
            lemma_live_update(s.workers, w, WorkerState::Idle);
            lemma_running_update(s.workers, w, WorkerState::Idle);
            vstd::seq_lib::to_multiset_build(s.finished, job);
            assert(t.started.to_multiset() =~= t.finished.to_multiset().add(running(t.workers)));
        },
        Event::Join(_) => {},
    }
}

/// The invariant holds after any feasible history that starts where it holds.
/// The number of workers never changes.
pub proof fn lemma_run_preserves_inv(s: PoolState, history: Seq<Event>)
    requires
        inv(s),
        feasible(s, history),
    ensures
        inv(run(s, history)),
        run(s, history).workers.len() == s.workers.len(),
    decreases history.len(),
{
    if history.len() > 0 {
        lemma_run_preserves_inv(s, history.drop_last());
        lemma_step_preserves_inv(run(s, history.drop_last()), history.last());
    }
}

/// The pool's record of submitted jobs grows by the history's `Submit`
/// events and by nothing else.
pub proof fn lemma_run_submitted(s: PoolState, history: Seq<Event>)
    ensures
        run(s, history).submitted == s.submitted + submissions(history),
    decreases history.len(),
{
    if history.len() > 0 {
        lemma_run_submitted(s, history.drop_last());
    }
}

/// Every state that a pool of `size` workers can reach satisfies the
/// invariant, and has `size` workers: the pool never grows or shrinks.
pub proof fn lemma_reachable_inv(size: nat, history: Seq<Event>)
    requires
        size > 0,
        feasible(initial(size), history),
    ensures
        inv(run(initial(size), history)),
        run(initial(size), history).workers.len() == size,
        run(initial(size), history).submitted == submissions(history),
{
    lemma_initial_inv(size);
    lemma_run_preserves_inv(initial(size), history);
    lemma_run_submitted(initial(size), history);
}

/// At every instant each submitted job is in exactly one place: done, being
/// run by one worker, or waiting in the queue. None is lost, none is doubled.
/// Jobs leave the queue in the order in which they were submitted.
pub proof fn lemma_conservation(s: PoolState)
    requires
        inv(s),
    ensures
        s.submitted.to_multiset() == s.finished.to_multiset().add(running(s.workers)).add(
            queued(s).to_multiset(),
        ),
        s.submitted == s.started + queued(s),
{
    let k = s.started.len() as int;
    vstd::seq_lib::lemma_multiset_commutative(s.submitted.take(k), s.submitted.skip(k));
}

/// Every `Terminate` that was sent is still in the queue or has stopped a
/// worker, one each. In the queue the jobs come first, the `Terminate`
/// messages after them; once the broadcast is done there are as many of
/// these as there are workers that have not stopped.
pub proof fn lemma_terminate_accounting(s: PoolState)
    requires
        inv(s),
    ensures
        s.queue.len() == pending(s) + (s.terminates_sent - stopped(s.workers)),
        forall|i: int| 0 <= i < s.queue.len() ==> (s.queue[i] is Terminate <==> i >= pending(s)),
        broadcast_done(s) ==> s.queue.len() - pending(s) == live(s.workers),
{
}

/// A worker that has stopped stays stopped, whatever happens next.
pub proof fn lemma_stopped_is_final(s: PoolState, event: Event, w: int)
    requires
        0 <= w < s.workers.len(),
        s.workers[w] is Stopped,
        enabled(s, event),
    ensures
        apply(s, event).workers[w] is Stopped,
{
}

/// A worker runs one job at a time. It takes a message only while it waits,
/// and once it has taken a job it takes nothing more until that job is done.
pub proof fn lemma_one_job_at_a_time(s: PoolState, w: int)
    requires
        enabled(s, Event::Receive(w)),
    ensures
        s.workers[w] is Idle,
        !enabled(apply(s, Event::Receive(w)), Event::Receive(w)),
        s.queue[0] is NewJob ==> enabled(apply(s, Event::Receive(w)), Event::Finish(w)),
{
}

/// Once the pool has joined every worker, every worker has stopped, the
/// queue is empty, and the jobs that ran to completion are the jobs that were
/// submitted, each as often as it was submitted.
pub proof fn lemma_teardown_complete(s: PoolState)
    requires
        inv(s),
        torn_down(s),
    ensures
        forall|w: int| 0 <= w < s.workers.len() ==> s.workers[w] is Stopped,
        s.queue.len() == 0,
        s.started == s.submitted,
        s.finished.to_multiset() == s.submitted.to_multiset(),
{
    lemma_live_bounds(s.workers);
    assert(s.started =~= s.submitted);
}

/// After teardown nothing happens any more: no job is accepted, no message
/// sent, no worker moves. The record of completed jobs stays as it is.
pub proof fn lemma_torn_down_is_final(s: PoolState, event: Event)
    requires
        inv(s),
        torn_down(s),
    ensures
        broadcast_done(s),
        !enabled(s, event),
{
    lemma_live_bounds(s.workers);
}

/// The same, of whole runs: however the steps of a pool's workers interleave,
/// when teardown is over the completed jobs are exactly the submitted ones.
pub proof fn theorem_every_job_runs_once(size: nat, history: Seq<Event>)
    requires
        size > 0,
        feasible(initial(size), history),
        torn_down(run(initial(size), history)),
    ensures
        run(initial(size), history).finished.to_multiset() == submissions(history).to_multiset(),
{
    lemma_reachable_inv(size, history);
    lemma_teardown_complete(run(initial(size), history));
}

/// After the broadcast the pool cannot get stuck: as long as teardown is not
/// over, a worker can take a step or the next worker can be joined.
pub proof fn lemma_no_deadlock(s: PoolState)
    requires
        inv(s),
        broadcast_done(s),
        !torn_down(s),
    ensures
        !blocked(s),
        live(s.workers) > 0 ==> exists|w: int|
            enabled(s, Event::Receive(w)) || enabled(s, Event::Finish(w)),
        live(s.workers) == 0 ==> enabled(s, Event::Join(s.joined as int)),
{
    lemma_live_bounds(s.workers);
    if live(s.workers) > 0 {
        let w = choose|w: int| 0 <= w < s.workers.len() && !(s.workers[w] is Stopped);
        if s.workers[w] is Idle {
            assert(enabled(s, Event::Receive(w)));
        } else {
            assert(enabled(s, Event::Finish(w)));
        }
    } else {
        assert(enabled(s, Event::Join(s.joined as int)));
    }
}

/// Every step of a worker uses up work: it takes a message off the queue or
/// completes a job.
pub proof fn lemma_worker_step_decreases(s: PoolState, event: Event)
    requires
        enabled(s, event),
        is_worker_step(event),
    ensures
        work_left(apply(s, event)) < work_left(s),
{
    match event {
        Event::Receive(w) => {
            lemma_busy_update(s.workers, w, state_after(s.queue[0]));
        },
        Event::Finish(w) => {
            lemma_busy_update(s.workers, w, WorkerState::Idle);
        },
        _ => {},
    }
}

/// Teardown is bounded: after the broadcast no more steps can happen than
/// there is work left plus workers to join, whatever the interleaving.
pub proof fn theorem_teardown_bounded(s: PoolState, history: Seq<Event>)
    requires
        inv(s),
        broadcast_done(s),
        feasible(s, history),
    ensures
        broadcast_done(run(s, history)),
        history.len() + work_left(run(s, history)) + (s.workers.len() - run(s, history).joined)
            <= work_left(s) + (s.workers.len() - s.joined),
    decreases history.len(),
{
    if history.len() > 0 {
        let before = run(s, history.drop_last());
        theorem_teardown_bounded(s, history.drop_last());
        lemma_run_preserves_inv(s, history.drop_last());
        if is_worker_step(history.last()) {
            lemma_worker_step_decreases(before, history.last());
        }
    }
}

/// Teardown never deadlocks. After the broadcast, let the workers and the
/// joins interleave in any way until nothing more can happen: then teardown
/// is over, and every job that was submitted has run.
pub proof fn theorem_teardown_completes(s: PoolState, history: Seq<Event>)
    requires
        inv(s),
        broadcast_done(s),
        feasible(s, history),
        blocked(run(s, history)),
    ensures
        torn_down(run(s, history)),
        run(s, history).finished.to_multiset() == s.submitted.to_multiset(),
{
    let end = run(s, history);
    theorem_teardown_bounded(s, history);
    lemma_run_preserves_inv(s, history);
    if !torn_down(end) {
        lemma_no_deadlock(end);
    }
    lemma_teardown_complete(end);
    lemma_run_closed(s, history);
}

/// Once teardown has begun the pool accepts no more jobs: what was submitted
/// stays what it was.
pub proof fn lemma_run_closed(s: PoolState, history: Seq<Event>)
    requires
        s.terminates_sent > 0,
        feasible(s, history),
    ensures
        run(s, history).terminates_sent >= s.terminates_sent,
        run(s, history).submitted == s.submitted,
    decreases history.len(),
{
    if history.len() > 0 {
        lemma_run_closed(s, history.drop_last());
    }
}

/// Submitting `jobs` one by one to a fresh pool of `size` workers puts them
/// on the queue in that order and leaves every worker idle.
proof fn lemma_submit_all(size: nat, jobs: Seq<u64>, j: nat)
    requires
        j <= jobs.len(),
    ensures
        ({
            let history = Seq::new(j, |i: int| Event::Submit(jobs[i]));
            &&& feasible(initial(size), history)
            &&& run(initial(size), history) == PoolState {
                queue: Seq::new(j, |i: int| Message::NewJob(jobs[i])),
                submitted: jobs.take(j as int),
                ..initial(size)
            }
        }),
    decreases j,
{
    let history = Seq::new(j, |i: int| Event::Submit(jobs[i]));
    let s = run(initial(size), history);
    if j > 0 {
        let shorter = Seq::new((j - 1) as nat, |i: int| Event::Submit(jobs[i]));
        lemma_submit_all(size, jobs, (j - 1) as nat);
        assert(history.drop_last() =~= shorter);
        assert(s.queue =~= Seq::new(j, |i: int| Message::NewJob(jobs[i])));
        assert(s.submitted =~= jobs.take(j as int));
    } else {
        assert(s.queue =~= Seq::new(j, |i: int| Message::NewJob(jobs[i])));
        assert(s.submitted =~= jobs.take(j as int));
    }
}

/// After `dispatch(jobs, k)` the first `k` workers each run one job, the
/// others idle, and the rest of the jobs wait.
proof fn lemma_dispatch(jobs: Seq<u64>, k: nat)
    requires
        k <= jobs.len(),
    ensures
        ({
            let size = jobs.len();
            &&& feasible(initial(size), dispatch(jobs, k))
            &&& run(initial(size), dispatch(jobs, k)) == PoolState {
                workers: Seq::new(
                    size,
                    |w: int| if w < k { WorkerState::Executing(jobs[w]) } else { WorkerState::Idle },
                ),
                queue: Seq::new((size - k) as nat, |i: int| Message::NewJob(jobs[k + i])),
                submitted: jobs,
                started: jobs.take(k as int),
                ..initial(size)
            }
        }),
    decreases k,
{
    let size = jobs.len();
    let history = dispatch(jobs, k);
    let s = run(initial(size), history);
    let workers = Seq::new(
        size,
        |w: int| if w < k { WorkerState::Executing(jobs[w]) } else { WorkerState::Idle },
    );
    let queue = Seq::new((size - k) as nat, |i: int| Message::NewJob(jobs[k + i]));
    if k == 0 {
        lemma_submit_all(size, jobs, size);
        assert(s.workers =~= workers);
        assert(s.queue =~= queue);
        assert(s.submitted =~= jobs);
        assert(s.started =~= jobs.take(0));
    } else {
        lemma_dispatch(jobs, (k - 1) as nat);
        assert(history.drop_last() =~= dispatch(jobs, (k - 1) as nat));
        assert(s.workers =~= workers);
        assert(s.queue =~= queue);
        assert(s.started =~= jobs.take(k as int));
    }
}

/// A pool of N workers runs N jobs at once. When N jobs are submitted to a
/// fresh pool, nothing has to complete before the last one starts: in the run
/// where each worker takes one message, all N jobs are in progress together.
pub proof fn theorem_full_parallelism(jobs: Seq<u64>)
    requires
        jobs.len() > 0,
    ensures
        ({
            let size = jobs.len();
            let s = run(initial(size), dispatch(jobs, size));
            &&& feasible(initial(size), dispatch(jobs, size))
            &&& s.workers.len() == size
            &&& forall|w: int| 0 <= w < size ==> s.workers[w] == WorkerState::Executing(jobs[w])
            &&& s.finished.len() == 0
            &&& s.queue.len() == 0
        }),
{
    lemma_dispatch(jobs, jobs.len());
}

/// Why the pool broadcasts before it joins. In a pool of two workers that
/// has sent a single `Terminate` and now waits for worker 0, the other worker
/// may take that message: then worker 0 idles on an empty queue and never
/// stops, and the wait never ends.
pub proof fn lemma_partial_broadcast_can_block(job: u64)
    ensures
        ({
            let history = seq![
                Event::Submit(job),
                Event::Receive(0),
                Event::SendTerminate,
                Event::Receive(1),
                Event::Finish(0),
            ];
            let s = run(initial(2), history);
            &&& feasible(initial(2), history)
            &&& s.terminates_sent == 1
            &&& s.workers[0] is Idle
            &&& s.workers[1] is Stopped
            &&& blocked(s)
        }),
{
    let history = seq![
        Event::Submit(job),
        Event::Receive(0),
        Event::SendTerminate,
        Event::Receive(1),
        Event::Finish(0),
    ];
    let s0 = initial(2);
    let s1 = apply(s0, history[0]);
    let s2 = apply(s1, history[1]);
    let s3 = apply(s2, history[2]);
    let s4 = apply(s3, history[3]);
    let s5 = apply(s4, history[4]);
    assert(history.take(1).drop_last() =~= history.take(0));
    assert(history.take(2).drop_last() =~= history.take(1));
    assert(history.take(3).drop_last() =~= history.take(2));
    assert(history.take(4).drop_last() =~= history.take(3));
    assert(history.take(5) =~= history);
    assert(run(s0, history.take(0)) == s0);
    assert(run(s0, history.take(1)) == s1);
    assert(run(s0, history.take(2)) == s2);
    assert(run(s0, history.take(3)) == s3);
    assert(run(s0, history.take(4)) == s4);
    assert(feasible(s0, history.take(0)));
    assert(feasible(s0, history.take(1)));
    assert(feasible(s0, history.take(2)));
    assert(feasible(s0, history.take(3)));
    assert(feasible(s0, history.take(4)));
}

} // verus!
