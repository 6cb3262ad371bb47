//! One worker of the pool: its state machine and the slot for its thread.

use vstd::prelude::*;
use crate::webserver::model::{Action, Message, WorkerState, action_for, state_after};

verus! {

/// Stands for the handle of a worker's thread. Whoever holds it may wait for
/// that thread to end, once.
#[derive(Debug, PartialEq, Eq, Structural)]
pub struct Handle {
    /// The id of the worker whose thread this is.
    pub worker: usize,
}

/// A worker: an id for diagnostics, the state of its loop, and a slot that
/// holds the handle of its thread until the pool takes it.
pub struct Worker {
    id: usize,
    state: WorkerState,
    thread: Option<Handle>,
}

/// What a worker is, to the contracts.
pub struct WorkerView {
    /// The worker's id.
    pub id: usize,
    /// Where the worker is in its loop.
    pub state: WorkerState,
    /// Whether the slot still holds the thread's handle.
    pub joinable: bool,
}

impl View for Worker {
    type V = WorkerView;

    closed spec fn view(&self) -> WorkerView {
        WorkerView { id: self.id, state: self.state, joinable: self.thread is Some }
    }
}

impl Worker {
    /// What holds of every worker: the handle in the slot is its own.
    pub closed spec fn wf(&self) -> bool {
        self.thread matches Some(handle) ==> handle.worker == self.id
    }

    /// A worker that has just entered its loop: idle, its thread running.
    pub fn new(id: usize) -> (worker: Worker)
        ensures
            worker.wf(),
            worker@ == (WorkerView { id, state: WorkerState::Idle, joinable: true }),
    {
        Worker { id, state: WorkerState::Idle, thread: Some(Handle { worker: id }) }
    }

    /// The worker's id.
    pub fn id(&self) -> (id: usize)
        ensures
            id == self@.id,
    {
        self.id
    }

    /// Where the worker is in its loop.
    pub fn state(&self) -> (state: WorkerState)
        ensures
            state == self@.state,
    {
        self.state
    }

    /// Whether the worker is waiting for a message.
    pub fn is_idle(&self) -> (idle: bool)
        ensures
            idle == (self@.state is Idle),
    {
        match self.state {
            WorkerState::Idle => true,
            _ => false,
        }
    }

    /// Whether the worker's loop has exited.
    pub fn is_stopped(&self) -> (stopped: bool)
        ensures
            stopped == (self@.state is Stopped),
    {
        match self.state {
            WorkerState::Stopped => true,
            _ => false,
        }
    }

    /// The worker takes `message` off the queue. A job puts it to work, a
    /// `Terminate` ends its loop. Only a waiting worker receives: one that
    /// runs a job is not at the queue, and one that stopped never returns.
    pub fn receive(&mut self, message: Message) -> (action: Action)
        requires
            old(self).wf(),
            old(self)@.state is Idle,
        ensures
            final(self).wf(),
            final(self)@ == (WorkerView { state: state_after(message), ..old(self)@ }),
            action == action_for(message),
    {
        match message {
            Message::NewJob(job) => {
                self.state = WorkerState::Executing(job);
                Action::Run(job)
            },
            Message::Terminate => {
                self.state = WorkerState::Stopped;
                Action::Exit
            },
        }
    }

    /// The job that the worker was running is done: the worker goes back to
    /// waiting and the job's ticket is returned.
    pub fn finish(&mut self) -> (job: u64)
        requires
            old(self).wf(),
            old(self)@.state is Executing,
        ensures
            final(self).wf(),
            final(self)@ == (WorkerView { state: WorkerState::Idle, ..old(self)@ }),
            old(self)@.state == WorkerState::Executing(job),
    {
        match self.state {
            WorkerState::Executing(job) => {
                self.state = WorkerState::Idle;
                job
            },
            _ => 0,
        }
    }

    /// Empties the slot: the handle the first time, nothing ever after.
    pub fn take_thread(&mut self) -> (handle: Option<Handle>)
        requires
            old(self).wf(),
        ensures
            final(self).wf(),
            final(self)@ == (WorkerView { joinable: false, ..old(self)@ }),
            handle is Some == old(self)@.joinable,
            handle matches Some(h) ==> h.worker == old(self)@.id,
    {
        self.thread.take()
    }
}

} // verus!
