//! The pool as a transition system over mathematical sequences.

use vstd::prelude::*;
use vstd::multiset::Multiset;

verus! {

/// What travels through the pool's queue: work, or the order to stop.
#[derive(Clone, Copy, Debug, PartialEq, Eq, Structural)]
pub enum Message {
    /// Run the job with this ticket.
    NewJob(u64),
    /// Leave the loop.
    Terminate,
}

/// Where a worker is in its loop.
#[derive(Clone, Copy, Debug, PartialEq, Eq, Structural)]
pub enum WorkerState {
    /// Blocked on the queue, waiting for the next message.
    Idle,
    /// Running the job with this ticket.
    Executing(u64),
    /// The loop has exited. Nothing leaves this state.
    Stopped,
}

/// What a worker does after taking a message off the queue.
#[derive(Clone, Copy, Debug, PartialEq, Eq, Structural)]
pub enum Action {
    /// Run the job, then come back for the next message.
    Run(u64),
    /// Exit the loop.
    Exit,
}

/// The state a worker enters when it takes `message` off the queue.
pub open spec fn state_after(message: Message) -> WorkerState {
    match message {
        Message::NewJob(job) => WorkerState::Executing(job),
        Message::Terminate => WorkerState::Stopped,
    }
}

/// The action a worker performs when it takes `message` off the queue.
pub open spec fn action_for(message: Message) -> Action {
    match message {
        Message::NewJob(job) => Action::Run(job),
        Message::Terminate => Action::Exit,
    }
}

/// Everything there is to know about a pool at one instant.
pub struct PoolState {
    /// One entry per worker, by worker id.
    pub workers: Seq<WorkerState>,
    /// The queue, head first.
    pub queue: Seq<Message>,
    /// Every job handed to the pool, in submission order.
    pub submitted: Seq<u64>,
    /// Every job a worker has picked up, in pick-up order.
    pub started: Seq<u64>,
    /// Every job that has run to completion, in completion order.
    pub finished: Seq<u64>,
    /// How many `Terminate` messages the pool has sent.
    pub terminates_sent: nat,
    /// How many workers the pool has joined; it joins them by ascending id.
    pub joined: nat,
}

/// One atomic step of the pool or of one of its workers.
pub enum Event {
    /// The owner hands a job to the pool.
    Submit(u64),
    /// The pool puts one `Terminate` on the queue.
    SendTerminate,
    /// The worker with this id takes the head of the queue.
    Receive(int),
    /// The worker with this id completes the job it is running.
    Finish(int),
    /// The pool takes the thread handle of the worker with this id.
    Join(int),
}

/// A fresh pool of `size` idle workers.
pub open spec fn initial(size: nat) -> PoolState {
    PoolState {
        workers: Seq::new(size, |i: int| WorkerState::Idle),
        queue: Seq::empty(),
        submitted: Seq::empty(),
        started: Seq::empty(),
        finished: Seq::empty(),
        terminates_sent: 0,
        joined: 0,
    }
}

/// The number of workers that have not stopped.
pub open spec fn live(workers: Seq<WorkerState>) -> nat
    decreases workers.len(),
{
    if workers.len() == 0 {
        0
    } else {
        live(workers.drop_last()) + if workers.last() is Stopped { 0nat } else { 1nat }
    }
}

/// The number of workers that are running a job.
pub open spec fn busy(workers: Seq<WorkerState>) -> nat
    decreases workers.len(),
{
    if workers.len() == 0 {
        0
    } else {
        busy(workers.drop_last()) + if workers.last() is Executing { 1nat } else { 0nat }
    }
}

/// The job a worker in `state` holds, as a multiset of at most one ticket.
pub open spec fn held(state: WorkerState) -> Multiset<u64> {
    match state {
        WorkerState::Executing(job) => Multiset::singleton(job),
        _ => Multiset::empty(),
    }
}

/// The jobs that are being run right now.
pub open spec fn running(workers: Seq<WorkerState>) -> Multiset<u64>
    decreases workers.len(),
{
    if workers.len() == 0 {
        Multiset::empty()
    } else {
        running(workers.drop_last()).add(held(workers.last()))
    }
}

/// The number of workers that have stopped.
pub open spec fn stopped(workers: Seq<WorkerState>) -> int {
    workers.len() - live(workers)
}

/// The number of submitted jobs that no worker has picked up yet.
pub open spec fn pending(s: PoolState) -> int {
    s.submitted.len() - s.started.len()
}

/// What the queue must hold: the pending jobs in submission order, then the
/// `Terminate` messages that no worker has consumed yet.
pub open spec fn expected_queue(s: PoolState) -> Seq<Message> {
    Seq::new(
        (pending(s) + s.terminates_sent - stopped(s.workers)) as nat,
        |i: int|
            if i < pending(s) {
                Message::NewJob(s.submitted[s.started.len() + i])
            } else {
                Message::Terminate
            },
    )
}

/// What holds of every state a pool can reach.
pub open spec fn inv(s: PoolState) -> bool {
    &&& s.workers.len() > 0
    &&& s.terminates_sent <= s.workers.len()
    &&& s.started.len() <= s.submitted.len()
    &&& s.started == s.submitted.take(s.started.len() as int)
    &&& stopped(s.workers) <= s.terminates_sent
    &&& stopped(s.workers) > 0 ==> pending(s) == 0
    &&& s.queue == expected_queue(s)
    &&& s.started.to_multiset() == s.finished.to_multiset().add(running(s.workers))
    &&& s.joined <= s.workers.len()
    &&& forall|i: int| 0 <= i < s.joined ==> s.workers[i] is Stopped
}

/// Whether `event` can happen in state `s`.
pub open spec fn enabled(s: PoolState, event: Event) -> bool {
    match event {
        Event::Submit(_) => s.terminates_sent == 0,
        Event::SendTerminate => s.terminates_sent < s.workers.len(),
        Event::Receive(w) => 0 <= w < s.workers.len() && s.workers[w] is Idle && s.queue.len() > 0,
        Event::Finish(w) => 0 <= w < s.workers.len() && s.workers[w] is Executing,
        Event::Join(w) => w == s.joined && w < s.workers.len() && s.workers[w] is Stopped,
    }
}

/// The state after `event` happens in state `s`.
pub open spec fn apply(s: PoolState, event: Event) -> PoolState {
    match event {
        Event::Submit(job) => PoolState {
            queue: s.queue.push(Message::NewJob(job)),
            submitted: s.submitted.push(job),
            ..s
        },
        Event::SendTerminate => PoolState {
            queue: s.queue.push(Message::Terminate),
            terminates_sent: s.terminates_sent + 1,
            ..s
        },
        Event::Receive(w) => PoolState {
            workers: s.workers.update(w, state_after(s.queue[0])),
            queue: s.queue.drop_first(),
            started: match s.queue[0] {
                Message::NewJob(job) => s.started.push(job),
                Message::Terminate => s.started,
            },
            ..s
        },
        Event::Finish(w) => PoolState {
            workers: s.workers.update(w, WorkerState::Idle),
            finished: s.finished.push(s.workers[w]->Executing_0),
            ..s
        },
        Event::Join(_) => PoolState { joined: s.joined + 1, ..s },
    }
}

/// The state after the events of `history` happen one by one, starting in `s`.
pub open spec fn run(s: PoolState, history: Seq<Event>) -> PoolState
    decreases history.len(),
{
    if history.len() == 0 {
        s
    } else {
        apply(run(s, history.drop_last()), history.last())
    }
}

/// Whether each event of `history` is enabled when its turn comes.
pub open spec fn feasible(s: PoolState, history: Seq<Event>) -> bool
    decreases history.len(),
{
    history.len() == 0 || (feasible(s, history.drop_last()) && enabled(
        run(s, history.drop_last()),
        history.last(),
    ))
}

/// The jobs that the `Submit` events of `history` hand over, in order.
pub open spec fn submissions(history: Seq<Event>) -> Seq<u64>
    decreases history.len(),
{
    if history.len() == 0 {
        Seq::empty()
    } else {
        match history.last() {
            Event::Submit(job) => submissions(history.drop_last()).push(job),
            _ => submissions(history.drop_last()),
        }
    }
}

/// Whether `event` is a step of a worker, as opposed to one of the pool.
pub open spec fn is_worker_step(event: Event) -> bool {
    event is Receive || event is Finish
}

/// An upper bound on the worker steps that can still happen once the pool
/// has stopped accepting jobs: every message costs its receipt, and every
/// job its completion.
pub open spec fn work_left(s: PoolState) -> nat {
    2 * s.queue.len() + busy(s.workers)
}

/// Whether the pool has sent one `Terminate` for each worker.
pub open spec fn broadcast_done(s: PoolState) -> bool {
    s.terminates_sent == s.workers.len()
}

/// Whether the pool has joined every worker: teardown is over.
pub open spec fn torn_down(s: PoolState) -> bool {
    s.joined == s.workers.len()
}

/// Whether nothing but another message could make the pool move: no worker
/// can take a step, and the next worker to join has not stopped.
pub open spec fn blocked(s: PoolState) -> bool {
    &&& forall|w: int| !#[trigger] enabled(s, Event::Receive(w))
    &&& forall|w: int| !#[trigger] enabled(s, Event::Finish(w))
    &&& forall|w: int| !#[trigger] enabled(s, Event::Join(w))
}

/// The history in which the owner submits `jobs` to a fresh pool and then,
/// for each of the first `k` workers in turn, worker `i` takes a message.
pub open spec fn dispatch(jobs: Seq<u64>, k: nat) -> Seq<Event> {
    Seq::new(jobs.len(), |i: int| Event::Submit(jobs[i])) + Seq::new(
        k,
        |w: int| Event::Receive(w),
    )
}

/// The submitted jobs that are still in the queue, in order.
pub open spec fn queued(s: PoolState) -> Seq<u64> {
    s.submitted.skip(s.started.len() as int)
}

} // verus!
