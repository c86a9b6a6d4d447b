//! The pool as a mathematical state machine.
//!
//! A [`PoolModel`] records the workers, the pending jobs in submission order,
//! whether the write side of the queue is still held, and the history of
//! every job the pool has ever accepted. The executable pool is a refinement
//! of this model: each of its operations is specified as one transition here.

use vstd::prelude::*;
use crate::worker::{Received, Worker, WorkerState};

verus! {

/// The abstract state of a pool whose jobs have type `J`.
pub struct PoolModel<J> {
    /// The workers, in creation order; worker `i` has id `i`.
    pub workers: Seq<Worker>,
    /// Jobs accepted but not yet claimed, oldest first.
    pub pending: Seq<J>,
    /// Whether the write side of the queue is still held by the pool.
    pub open: bool,
    /// Every job ever accepted, in submission order.
    pub submitted: Seq<J>,
    /// Every job ever handed to a worker, in claiming order.
    pub claimed: Seq<J>,
    /// The jobs that were still unclaimed when the queue was closed.
    pub dropped: Seq<J>,
    /// How many claimed jobs have run to completion.
    pub completed: nat,
}

/// How many of the workers are executing a job.
pub open spec fn count_executing(workers: Seq<Worker>) -> nat
    decreases workers.len(),
{
    if workers.len() == 0 {
        0
    } else {
        let rest = count_executing(workers.drop_last());
        if workers.last().state == WorkerState::Executing {
            rest + 1
        } else {
            rest
        }
    }
}

/// How many of the workers have not stopped.
pub open spec fn count_live(workers: Seq<Worker>) -> nat
    decreases workers.len(),
{
    if workers.len() == 0 {
        0
    } else {
        let rest = count_live(workers.drop_last());
        if workers.last().state != WorkerState::Stopped {
            rest + 1
        } else {
            rest
        }
    }
}

/// One thing that can happen to a pool.
pub enum Event<J> {
    /// A caller submits a job.
    Execute(J),
    /// The worker with this id asks the queue for work.
    Receive(int),
    /// The worker with this id finishes the job it was executing.
    Finish(int),
    /// Teardown releases the write side of the queue.
    Close,
    /// Teardown has waited for the worker with this id.
    Join(int),
}

impl<J> PoolModel<J> {
    /// The state of a pool right after construction with `size` workers.
    pub open spec fn fresh(size: nat) -> PoolModel<J> {
        PoolModel {
            workers: Seq::new(size, |i: int| Worker::fresh(i as usize)),
            pending: Seq::empty(),
            open: true,
            submitted: Seq::empty(),
            claimed: Seq::empty(),
            dropped: Seq::empty(),
            completed: 0,
        }
    }

    /// The number of workers.
    pub open spec fn size(self) -> nat {
        self.workers.len()
    }

    /// Whether `id` names a worker of this pool.
    pub open spec fn has_worker(self, id: int) -> bool {
        0 <= id < self.workers.len()
    }

    /// Whether worker `id` is waiting for work.
    pub open spec fn is_idle(self, id: int) -> bool {
        self.has_worker(id) && self.workers[id].state == WorkerState::Running
    }

    /// Whether worker `id` is executing a job.
    pub open spec fn is_executing(self, id: int) -> bool {
        self.has_worker(id) && self.workers[id].state == WorkerState::Executing
    }

    /// Whether teardown has waited for every worker.
    pub open spec fn all_joined(self) -> bool {
        forall|i: int| 0 <= i < self.workers.len() ==> (#[trigger] self.workers[i]).joined
    }

    /// Whether teardown is complete: the queue is closed and every worker
    /// has been waited for.
    pub open spec fn torn_down(self) -> bool {
        !self.open && self.all_joined()
    }

    /// Whether `id` is the worker that teardown has to wait for next: the
    /// queue is closed, `id` has not been waited for, and every worker
    /// created before it has.
    pub open spec fn joins_next(self, id: int) -> bool {
        &&& !self.open
        &&& self.has_worker(id)
        &&& !self.workers[id].joined
        &&& forall|i: int| 0 <= i < id ==> (#[trigger] self.workers[i]).joined
    }

    /// The invariant of every reachable pool state.
    pub open spec fn wf(self) -> bool {
        // a pool has at least one worker, and ids follow creation order
        &&& self.workers.len() > 0
        &&& forall|i: int|
            0 <= i < self.workers.len() ==> {
                &&& (#[trigger] self.workers[i]).id == i
                &&& self.workers[i].wf()
            }
        // every accepted job is claimed, pending or dropped: once, in order
        &&& self.submitted == self.claimed + self.pending + self.dropped
        // every claimed job has completed or is being executed right now
        &&& self.claimed.len() == self.completed + count_executing(self.workers)
        // while the queue is open no job is dropped and no worker has stopped
        &&& self.open ==> self.dropped.len() == 0
        &&& self.open ==> forall|i: int|
            0 <= i < self.workers.len() ==> (#[trigger] self.workers[i]).state
                != WorkerState::Stopped
        // closing discards what is pending
        &&& !self.open ==> self.pending.len() == 0
        // workers are waited for in creation order
        &&& forall|i: int, j: int|
            0 <= i <= j < self.workers.len() && (#[trigger] self.workers[j]).joined ==> (
            #[trigger] self.workers[i]).joined
    }

    /// The state after `job` has been accepted. Enabled while the queue is open.
    pub open spec fn after_execute(self, job: J) -> PoolModel<J> {
        PoolModel {
            pending: self.pending.push(job),
            submitted: self.submitted.push(job),
            ..self
        }
    }

    /// What a worker that asks the queue for work is told.
    pub open spec fn answer(self) -> Received<J> {
        if !self.open {
            Received::Closed
        } else if self.pending.len() == 0 {
            Received::Empty
        } else {
            Received::Job(self.pending[0])
        }
    }

    /// The state after worker `id` has asked the queue for work. Enabled
    /// while worker `id` is idle.
    pub open spec fn after_receive(self, id: int) -> PoolModel<J> {
        let workers = self.workers.update(id, self.workers[id].after_receive(self.answer()));
        match self.answer() {
            Received::Job(job) => PoolModel {
                workers,
                pending: self.pending.drop_first(),
                claimed: self.claimed.push(job),
                ..self
            },
            Received::Empty => self,
            Received::Closed => PoolModel { workers, ..self },
        }
    }

    /// The state after worker `id` has run its job to completion. Enabled
    /// while worker `id` is executing.
    pub open spec fn after_finish(self, id: int) -> PoolModel<J> {
        PoolModel {
            workers: self.workers.update(
                id,
                Worker { state: WorkerState::Running, ..self.workers[id] },
            ),
            completed: self.completed + 1,
            ..self
        }
    }

    /// The state after the write side of the queue has been released: the
    /// queue is closed and whatever was pending is dropped, unrun.
    pub open spec fn after_close(self) -> PoolModel<J> {
        PoolModel {
            open: false,
            pending: Seq::empty(),
            dropped: self.dropped + self.pending,
            ..self
        }
    }

    /// The state after teardown has waited for worker `id`. Enabled when
    /// `id` is next in line and its loop has stopped.
    pub open spec fn after_join(self, id: int) -> PoolModel<J> {
        PoolModel {
            workers: self.workers.update(id, Worker { joined: true, ..self.workers[id] }),
            ..self
        }
    }

    /// Whether `event` can happen in this state.
    pub open spec fn enabled(self, event: Event<J>) -> bool {
        match event {
            Event::Execute(_) => self.open,
            Event::Receive(id) => self.is_idle(id),
            Event::Finish(id) => self.is_executing(id),
            Event::Close => true,
            Event::Join(id) => self.joins_next(id) && self.workers[id].state
                == WorkerState::Stopped,
        }
    }

    /// The state after `event` has happened.
    pub open spec fn after(self, event: Event<J>) -> PoolModel<J> {
        match event {
            Event::Execute(job) => self.after_execute(job),
            Event::Receive(id) => self.after_receive(id),
            Event::Finish(id) => self.after_finish(id),
            Event::Close => self.after_close(),
            Event::Join(id) => self.after_join(id),
        }
    }

    /// Whether `events` can happen one after the other, starting here.
    pub open spec fn admits(self, events: Seq<Event<J>>) -> bool
        decreases events.len(),
    {
        events.len() == 0 || (self.enabled(events[0]) && self.after(events[0]).admits(
            events.drop_first(),
        ))
    }

    /// The state after `events` have happened one after the other.
    pub open spec fn after_all(self, events: Seq<Event<J>>) -> PoolModel<J>
        decreases events.len(),
    {
        if events.len() == 0 {
            self
        } else {
            self.after(events[0]).after_all(events.drop_first())
        }
    }
}

} // verus!
