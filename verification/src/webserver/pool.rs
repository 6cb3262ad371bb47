//! The pool: the queue, the workers, and the order of teardown.

use std::collections::VecDeque;
use vstd::prelude::*;
use crate::webserver::laws::{
    lemma_initial_inv, lemma_live_bounds, lemma_step_preserves_inv, lemma_teardown_complete,
    lemma_torn_down_is_final, lemma_worker_step_decreases,
};
use crate::webserver::model::{
    Action, Event, Message, PoolState, WorkerState, action_for, apply, broadcast_done, enabled,
    initial, inv, torn_down, work_left,
};
use crate::webserver::worker::{Handle, Worker, WorkerView};

verus! {

/// One step of teardown.
#[derive(Clone, Copy, Debug, PartialEq, Eq, Structural)]
pub enum TeardownStep {
    /// Put one `Terminate` on the queue.
    SendTerminate,
    /// Wait for the thread of the worker with this id to end.
    Join(usize),
}

/// The steps of teardown for a pool of `size` workers, in order: the whole
/// broadcast first, then the joins by ascending id.
pub open spec fn teardown_steps(size: nat) -> Seq<TeardownStep> {
    Seq::new(size, |i: int| TeardownStep::SendTerminate) + Seq::new(
        size,
        |i: int| TeardownStep::Join(i as usize),
    )
}

/// The steps by which a pool of `size` workers is torn down. All the
/// `Terminate` messages go out before the first join: a pool that joined
/// worker 0 after a single message could wait forever, because some other
/// worker may take that message.
pub fn teardown_plan(size: usize) -> (plan: Vec<TeardownStep>)
    ensures
        plan@ == teardown_steps(size as nat),
{
    let mut plan: Vec<TeardownStep> = Vec::new();
    let mut sent: usize = 0;
    while sent < size
        invariant
            sent <= size,
            plan@ == Seq::new(sent as nat, |i: int| TeardownStep::SendTerminate),
        decreases size - sent,
    {
        plan.push(TeardownStep::SendTerminate);
        sent += 1;
    }
    let mut worker: usize = 0;
    while worker < size
        invariant
            worker <= size,
            plan@ == Seq::new(size as nat, |i: int| TeardownStep::SendTerminate) + Seq::new(
                worker as nat,
                |i: int| TeardownStep::Join(i as usize),
            ),
        decreases size - worker,
    {
        plan.push(TeardownStep::Join(worker));
        worker += 1;
    }
    plan
}

/// A pool of a fixed number of workers that share one queue.
pub struct ThreadPool {
    workers: Vec<Worker>,
    queue: VecDeque<Message>,
    submitted: Vec<u64>,
    started: Vec<u64>,
    finished: Vec<u64>,
    terminates_sent: usize,
    joined: usize,
}

impl View for ThreadPool {
    type V = PoolState;

    closed spec fn view(&self) -> PoolState {
        PoolState {
            workers: Seq::new(self.workers.len() as nat, |i: int| self.workers[i]@.state),
            queue: self.queue@,
            submitted: self.submitted@,
            started: self.started@,
            finished: self.finished@,
            terminates_sent: self.terminates_sent as nat,
            joined: self.joined as nat,
        }
    }
}

impl ThreadPool {
    /// Whether worker `i` has its own id and holds its handle until joined.
    closed spec fn worker_ok(&self, i: int) -> bool {
        &&& self.workers[i].wf()
        &&& self.workers[i]@.id == i
        &&& self.workers[i]@.joinable == (i >= self.joined)
    }

    /// What holds of every pool: the invariant of the model, and each worker
    /// in its place.
    pub closed spec fn wf(&self) -> bool {
        &&& inv(self@)
        &&& forall|i: int| 0 <= i < self.workers.len() ==> self.worker_ok(i)
    }

    /// A well-formed pool satisfies the model's invariant.
    pub proof fn lemma_wf(&self)
        requires
            self.wf(),
        ensures
            inv(self@),
    {
    }

    /// A pool of `size` workers, all waiting, with an empty queue. A pool
    /// without workers could never run a job, so `size` must not be zero.
    pub fn new(size: usize) -> (pool: ThreadPool)
        requires
            size > 0,
        ensures
            pool.wf(),
            pool@ == initial(size as nat),
    {
        let mut workers: Vec<Worker> = Vec::with_capacity(size);
        let mut id: usize = 0;
        while id < size
            invariant
                id <= size,
                workers.len() == id,
                forall|i: int|
                    0 <= i < id ==> (#[trigger] workers[i]).wf() && workers[i]@ == (WorkerView {
                        id: i as usize,
                        state: WorkerState::Idle,
                        joinable: true,
                    }),
            decreases size - id,
        {
            workers.push(Worker::new(id));
            id += 1;
        }
        let pool = ThreadPool {
            workers,
            queue: VecDeque::new(),
            submitted: Vec::new(),
            started: Vec::new(),
            finished: Vec::new(),
            terminates_sent: 0,
            joined: 0,
        };
        proof {
            lemma_initial_inv(size as nat);
            assert(pool@.workers =~= initial(size as nat).workers);
        }
        pool
    }

    /// The number of workers. It never changes.
    pub fn size(&self) -> (size: usize)
        ensures
            size == self@.workers.len(),
    {
        self.workers.len()
    }

    /// Whether the pool still accepts jobs: it does until teardown begins.
    pub fn is_open(&self) -> (open: bool)
        ensures
            open == (self@.terminates_sent == 0),
    {
        self.terminates_sent == 0
    }

    /// The number of messages that wait in the queue.
    pub fn pending(&self) -> (count: usize)
        ensures
            count == self@.queue.len(),
    {
        self.queue.len()
    }

    /// Where the worker with id `worker` is in its loop, if there is such a worker.
    pub fn state(&self, worker: usize) -> (state: Option<WorkerState>)
        ensures
            worker < self@.workers.len() ==> state == Some(self@.workers[worker as int]),
            worker >= self@.workers.len() ==> state is None,
    {
        if worker < self.workers.len() {
            Some(self.workers[worker].state())
        } else {
            None
        }
    }

    /// The jobs handed to the pool so far, in submission order.
    pub fn submitted(&self) -> (jobs: &Vec<u64>)
        ensures
            jobs@ == self@.submitted,
    {
        &self.submitted
    }

    /// The jobs that workers have picked up so far, in pick-up order.
    pub fn started(&self) -> (jobs: &Vec<u64>)
        ensures
            jobs@ == self@.started,
    {
        &self.started
    }

    /// The jobs that have run to completion so far, in completion order.
    pub fn finished(&self) -> (jobs: &Vec<u64>)
        ensures
            jobs@ == self@.finished,
    {
        &self.finished
    }

    /// How many `Terminate` messages the pool has sent.
    pub fn terminates_sent(&self) -> (count: usize)
        ensures
            count == self@.terminates_sent,
    {
        self.terminates_sent
    }

    /// How many workers the pool has joined.
    pub fn joined(&self) -> (count: usize)
        ensures
            count == self@.joined,
    {
        self.joined
    }

    /// Hands `job` to the pool: it goes to the back of the queue and the call
    /// returns at once. The pool accepts jobs until teardown begins.
    pub fn execute(&mut self, job: u64)
        requires
            old(self).wf(),
            old(self)@.terminates_sent == 0,
        ensures
            final(self).wf(),
            final(self)@ == apply(old(self)@, Event::Submit(job)),
    {
        self.queue.push_back(Message::NewJob(job));
        self.submitted.push(job);
        proof {
            lemma_step_preserves_inv(old(self)@, Event::Submit(job));
            assert forall|i: int| 0 <= i < self.workers.len() implies self.worker_ok(i) by {
                assert(old(self).worker_ok(i));
            }
        }
    }

    /// The worker with id `worker` takes the head of the queue, if it is
    /// waiting and the queue is not empty; else nothing happens.
    pub fn receive(&mut self, worker: usize) -> (action: Option<Action>)
        requires
            old(self).wf(),
        ensures
            final(self).wf(),
            enabled(old(self)@, Event::Receive(worker as int)) ==> final(self)@ == apply(
                old(self)@,
                Event::Receive(worker as int),
            ) && action == Some(action_for(old(self)@.queue[0])),
            !enabled(old(self)@, Event::Receive(worker as int)) ==> final(self)@ == old(self)@
                && action is None,
    {
        if worker >= self.workers.len() {
            return None;
        }
        assert(self.worker_ok(worker as int));
        if !self.workers[worker].is_idle() || self.queue.len() == 0 {
            return None;
        }
        let message = self.queue.pop_front().unwrap();
        let action = self.workers[worker].receive(message);
        match message {
            Message::NewJob(job) => {
                self.started.push(job);
            },
            Message::Terminate => {},
        }
        proof {
            let event = Event::Receive(worker as int);
            lemma_step_preserves_inv(old(self)@, event);
            assert(self@.workers =~= apply(old(self)@, event).workers);
            assert forall|i: int| 0 <= i < self.workers.len() implies self.worker_ok(i) by {
                assert(old(self).worker_ok(i));
            }
        }
        Some(action)
    }

    /// The worker with id `worker` completes the job it is running and goes
    /// back to waiting; the job's ticket is added to the record and returned.
    /// Nothing happens if that worker is not running a job.
    pub fn finish(&mut self, worker: usize) -> (job: Option<u64>)
        requires
            old(self).wf(),
        ensures
            final(self).wf(),
            enabled(old(self)@, Event::Finish(worker as int)) ==> final(self)@ == apply(
                old(self)@,
                Event::Finish(worker as int),
            ) && old(self)@.workers[worker as int] == WorkerState::Executing(job->0) && job is Some,
            !enabled(old(self)@, Event::Finish(worker as int)) ==> final(self)@ == old(self)@
                && job is None,
    {
        if worker >= self.workers.len() {
            return None;
        }
        assert(self.worker_ok(worker as int));
        match self.workers[worker].state() {
            WorkerState::Executing(_) => {},
            _ => {
                return None;
            },
        }
        let job = self.workers[worker].finish();
        self.finished.push(job);
        proof {
            let event = Event::Finish(worker as int);
            lemma_step_preserves_inv(old(self)@, event);
            assert(self@.workers =~= apply(old(self)@, event).workers);
            assert forall|i: int| 0 <= i < self.workers.len() implies self.worker_ok(i) by {
                assert(old(self).worker_ok(i));
            }
        }
        Some(job)
    }

    /// Puts one `Terminate` on the queue, unless the pool has already sent
    /// one for each worker. Says whether it sent one.
    pub fn send_terminate(&mut self) -> (sent: bool)
        requires
            old(self).wf(),
        ensures
            final(self).wf(),
            sent == enabled(old(self)@, Event::SendTerminate),
            sent ==> final(self)@ == apply(old(self)@, Event::SendTerminate),
            !sent ==> final(self)@ == old(self)@,
    {
        if self.terminates_sent >= self.workers.len() {
            return false;
        }
        self.queue.push_back(Message::Terminate);
        self.terminates_sent += 1;
        proof {
            lemma_step_preserves_inv(old(self)@, Event::SendTerminate);
            assert forall|i: int| 0 <= i < self.workers.len() implies self.worker_ok(i) by {
                assert(old(self).worker_ok(i));
            }
        }
        true
    }

    /// Takes the thread handle of the worker with id `worker`, if that
    /// worker is the next in line and its loop has exited. The pool joins its
    /// workers by ascending id, each once; where the worker is still running,
    /// a real join would block, and here nothing happens.
    pub fn join(&mut self, worker: usize) -> (handle: Option<Handle>)
        requires
            old(self).wf(),
        ensures
            final(self).wf(),
            handle is Some == enabled(old(self)@, Event::Join(worker as int)),
            handle matches Some(h) ==> h.worker == worker && final(self)@ == apply(
                old(self)@,
                Event::Join(worker as int),
            ),
            handle is None ==> final(self)@ == old(self)@,
    {
        if worker != self.joined || worker >= self.workers.len() {
            return None;
        }
        assert(self.worker_ok(worker as int));
        if !self.workers[worker].is_stopped() {
            return None;
        }
        let handle = self.workers[worker].take_thread();
        self.joined += 1;
        proof {
            lemma_step_preserves_inv(old(self)@, Event::Join(worker as int));
            assert(self@.workers =~= old(self)@.workers);
            assert forall|i: int| 0 <= i < self.workers.len() implies self.worker_ok(i) by {
                assert(old(self).worker_ok(i));
            }
        }
        handle
    }

    /// Lets the worker with id `worker` work until its loop exits: it
    /// completes its job if it has one, and takes messages off the queue
    /// until one of them is a `Terminate`. This is what a join waits for.
    /// The broadcast must be over, or there might be no `Terminate` to take.
    fn run_to_stop(&mut self, worker: usize)
        requires
            old(self).wf(),
            broadcast_done(old(self)@),
            worker < old(self)@.workers.len(),
        ensures
            final(self).wf(),
            broadcast_done(final(self)@),
            final(self)@.workers.len() == old(self)@.workers.len(),
            final(self)@.workers[worker as int] is Stopped,
            final(self)@.submitted == old(self)@.submitted,
            final(self)@.joined == old(self)@.joined,
            old(self)@.finished.is_prefix_of(final(self)@.finished),
            old(self)@.workers[worker as int] is Stopped ==> final(self)@ == old(self)@,
    {
        loop
            invariant
                self.wf(),
                broadcast_done(self@),
                worker < self@.workers.len(),
                self@.workers.len() == old(self)@.workers.len(),
                self@.submitted == old(self)@.submitted,
                self@.joined == old(self)@.joined,
                old(self)@.finished.is_prefix_of(self@.finished),
                old(self)@.workers[worker as int] is Stopped ==> self@ == old(self)@,
            ensures
                self@.workers[worker as int] is Stopped,
            decreases work_left(self@),
        {
            let ghost before = self@;
            match self.workers[worker].state() {
                WorkerState::Stopped => {
                    break;
                },
                WorkerState::Executing(_) => {
                    proof {
                        lemma_worker_step_decreases(before, Event::Finish(worker as int));
                    }
                    self.finish(worker);
                },
                WorkerState::Idle => {
                    proof {
                        lemma_live_bounds(before.workers);
                        lemma_worker_step_decreases(before, Event::Receive(worker as int));
                    }
                    self.receive(worker);
                },
            }
        }
    }

    /// Tears the pool down, step by step as `teardown_plan` has it: first one
    /// `Terminate` per worker, and only then the joins, by ascending id. To
    /// join a worker is to wait until its loop has exited; meanwhile it runs
    /// whatever is still queued. When the call returns every worker has
    /// stopped and been joined, the queue is empty, and each job ever
    /// submitted has run to completion exactly once; what had been recorded
    /// before is still there, in the same order. On a pool that is torn down
    /// already the call changes nothing.
    pub fn shutdown(&mut self)
        requires
            old(self).wf(),
        ensures
            final(self).wf(),
            broadcast_done(final(self)@),
            torn_down(final(self)@),
            final(self)@.workers.len() == old(self)@.workers.len(),
            forall|w: int|
                0 <= w < final(self)@.workers.len() ==> final(self)@.workers[w] is Stopped,
            final(self)@.queue.len() == 0,
            final(self)@.submitted == old(self)@.submitted,
            final(self)@.started == old(self)@.submitted,
            final(self)@.finished.to_multiset() == old(self)@.submitted.to_multiset(),
            old(self)@.finished.is_prefix_of(final(self)@.finished),
            torn_down(old(self)@) ==> final(self)@ == old(self)@,
    {
        let size = self.workers.len();
        let plan = teardown_plan(size);
        let mut at: usize = 0;
        while at < plan.len()
            invariant
                self.wf(),
                plan@ == teardown_steps(size as nat),
                at <= plan.len(),
                size == self@.workers.len(),
                self@.workers.len() == old(self)@.workers.len(),
                self@.submitted == old(self)@.submitted,
                old(self)@.finished.is_prefix_of(self@.finished),
                at < size ==> self@.terminates_sent >= at,
                at >= size ==> broadcast_done(self@) && self@.joined >= at - size,
                torn_down(old(self)@) ==> self@ == old(self)@,
            decreases plan.len() - at,
        {
            proof {
                if torn_down(self@) {
                    lemma_torn_down_is_final(self@, Event::SendTerminate);
                }
            }
            match plan[at] {
                TeardownStep::SendTerminate => {
                    self.send_terminate();
                },
                TeardownStep::Join(id) => {
                    self.run_to_stop(id);
                    self.join(id);
                },
            }
            at += 1;
        }
        proof {
            lemma_teardown_complete(self@);
        }
    }
}

} // verus!
