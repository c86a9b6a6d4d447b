//! One worker of the pool: an identity and the state of its loop.

use vstd::prelude::*;

verus! {

/// Where a worker stands in its loop.
///
/// A worker starts `Running` (waiting on the queue). Claiming a job moves it
/// to `Executing`; finishing the job moves it back to `Running`. Observing
/// the closed queue moves it to `Stopped`, from which it never leaves.
#[derive(Clone, Copy, Debug, PartialEq, Eq, Structural)]
pub enum WorkerState {
    Running,
    Executing,
    Stopped,
}

/// What a worker finds when it asks the queue for work.
#[derive(Debug, PartialEq, Eq)]
pub enum Received<J> {
    /// The oldest pending job, now owned by the asking worker.
    Job(J),
    /// The queue is open but holds nothing: the worker keeps waiting.
    Empty,
    /// The queue has been closed: the worker leaves its loop.
    Closed,
}

/// A worker: its small integer id and the state of its loop.
#[derive(Clone, Copy, Debug, PartialEq, Eq, Structural)]
pub struct Worker {
    pub id: usize,
    pub state: WorkerState,
    /// Whether teardown has already waited for this worker's exit.
    pub joined: bool,
}

impl Worker {
    /// A worker is consistent when it was only joined after it stopped.
    pub open spec fn wf(self) -> bool {
        self.joined ==> self.state == WorkerState::Stopped
    }

    /// The worker as it is right after creation: waiting for work.
    pub open spec fn fresh(id: usize) -> Worker {
        Worker { id, state: WorkerState::Running, joined: false }
    }

    /// The state after the worker has asked the queue and got `answer`.
    pub open spec fn after_receive<J>(self, answer: Received<J>) -> Worker {
        match answer {
            Received::Job(_) => Worker { state: WorkerState::Executing, ..self },
            Received::Empty => self,
            Received::Closed => Worker { state: WorkerState::Stopped, ..self },
        }
    }

    /// Creates worker `id`, waiting for work.
    pub fn new(id: usize) -> (worker: Worker)
        ensures
            worker == Worker::fresh(id),
            worker.wf(),
    {
        Worker { id, state: WorkerState::Running, joined: false }
    }

    /// Whether the worker is still in its loop (waiting or executing).
    pub fn is_live(&self) -> (live: bool)
        ensures
            live == (self.state != WorkerState::Stopped),
    {
        match self.state {
            WorkerState::Stopped => false,
            _ => true,
        }
    }
}

} // verus!
