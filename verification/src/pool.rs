//! The pool itself: a fixed set of workers fed from one FIFO queue.
//!
//! [`ThreadPool`] keeps the books of a pool: who waits, who executes, what is
//! queued, whether the queue is still open, and how far teardown has come.
//! Every operation is one transition of [`PoolModel`]. The caller owns the
//! threads: it asks the pool what to do next, does it, and reports back.

use vstd::prelude::*;
use vstd::string::*;
use std::collections::VecDeque;
use crate::error::PoolCreationError;
use crate::laws::{
    lemma_close_keeps_valid, lemma_count_bounds, lemma_execute_keeps_valid,
    lemma_finish_keeps_valid, lemma_fresh_is_valid, lemma_join_keeps_valid,
    lemma_receive_keeps_valid,
};
use crate::model::{count_executing, count_live, PoolModel};
use crate::worker::{Received, Worker, WorkerState};

verus! {

/// A pool of a fixed number of workers that share one unbounded FIFO queue
/// of jobs of type `J`.
pub struct ThreadPool<J> {
    workers: Vec<Worker>,
    queue: VecDeque<J>,
    open: bool,
    submitted: Ghost<Seq<J>>,
    claimed: Ghost<Seq<J>>,
    dropped: Ghost<Seq<J>>,
    completed: Ghost<nat>,
}

impl<J> View for ThreadPool<J> {
    type V = PoolModel<J>;

    closed spec fn view(&self) -> PoolModel<J> {
        PoolModel {
            workers: self.workers@,
            pending: self.queue@,
            open: self.open,
            submitted: self.submitted@,
            claimed: self.claimed@,
            dropped: self.dropped@,
            completed: self.completed@,
        }
    }
}

impl<J> ThreadPool<J> {
    /// The pool is in a valid state of its model.
    pub open spec fn wf(&self) -> bool {
        self@.wf()
    }

    /// The reason reported when a pool of no workers is asked for.
    pub open spec fn zero_size_reason() -> Seq<char> {
        "pool size must be greater than zero"@
    }

    /// Creates a pool of `size` workers, all waiting on an empty, open queue.
    ///
    /// A pool needs at least one worker.
    pub fn new(size: usize) -> (pool: ThreadPool<J>)
        requires
            size > 0,
        ensures
            pool.wf(),
            pool@ == PoolModel::<J>::fresh(size as nat),
            pool@.size() == size,
            count_live(pool@.workers) == size,
    {
        let mut workers: Vec<Worker> = Vec::new();
        let mut id: usize = 0;
        while id < size
            invariant
                id <= size,
                workers@.len() == id,
                forall|i: int| 0 <= i < id ==> workers@[i] == Worker::fresh(i as usize),
            decreases size - id,
        {
            workers.push(Worker::new(id));
            id = id + 1;
        }
        let pool = ThreadPool {
            workers,
            queue: VecDeque::new(),
            open: true,
            submitted: Ghost(Seq::empty()),
            claimed: Ghost(Seq::empty()),
            dropped: Ghost(Seq::empty()),
            completed: Ghost(0),
        };
        proof {
            assert(pool@.workers =~= PoolModel::<J>::fresh(size as nat).workers);
            lemma_fresh_is_valid::<J>(size as nat);
        }
        pool
    }

    /// Creates a pool of `size` workers, or reports why it cannot: a pool of
    /// no workers is refused before any worker exists.
    pub fn build(size: usize) -> (result: Result<ThreadPool<J>, PoolCreationError>)
        ensures
            size == 0 <==> result is Err,
            result matches Ok(pool) ==> pool.wf() && pool@ == PoolModel::<J>::fresh(size as nat),
            result matches Err(error) ==> error.reason() == Self::zero_size_reason(),
    {
        if size == 0 {
            Err(PoolCreationError(String::from_str("pool size must be greater than zero")))
        } else {
            Ok(ThreadPool::new(size))
        }
    }

    /// Accepts `job`: it joins the queue behind every job accepted before.
    ///
    /// The call returns as soon as the job is queued. Jobs can only be
    /// handed to a pool whose queue is still open.
    pub fn execute(&mut self, job: J)
        requires
            old(self).wf(),
            old(self)@.open,
        ensures
            final(self).wf(),
            final(self)@ == old(self)@.after_execute(job),
    {
        proof {
            lemma_execute_keeps_valid(self@, job);
        }
        self.queue.push_back(job);
        self.submitted = Ghost(self.submitted@.push(job));
    }

    /// Worker `id`, waiting for work, asks the queue.
    ///
    /// On a closed queue the worker is told so and stops. On an open queue
    /// it claims the oldest pending job and starts executing, or, if nothing
    /// is pending, keeps waiting.
    pub fn receive(&mut self, id: usize) -> (answer: Received<J>)
        requires
            old(self).wf(),
            old(self)@.is_idle(id as int),
        ensures
            final(self).wf(),
            answer == old(self)@.answer(),
            final(self)@ == old(self)@.after_receive(id as int),
    {
        proof {
            lemma_receive_keeps_valid(self@, id as int);
        }
        let mut worker = self.workers[id];
        if !self.open {
            worker.state = WorkerState::Stopped;
            self.workers.set(id, worker);
            return Received::Closed;
        }
        match self.queue.pop_front() {
            Some(job) => {
                worker.state = WorkerState::Executing;
                self.workers.set(id, worker);
                self.claimed = Ghost(self.claimed@.push(job));
                assert(self.queue@ =~= old(self)@.pending.drop_first());
                Received::Job(job)
            },
            None => Received::Empty,
        }
    }

    /// Worker `id` reports that the job it was executing has run to
    /// completion; it goes back to waiting.
    pub fn finish(&mut self, id: usize)
        requires
            old(self).wf(),
            old(self)@.is_executing(id as int),
        ensures
            final(self).wf(),
            final(self)@ == old(self)@.after_finish(id as int),
    {
        proof {
            lemma_finish_keeps_valid(self@, id as int);
        }
        let mut worker = self.workers[id];
        worker.state = WorkerState::Running;
        self.workers.set(id, worker);
        self.completed = Ghost(self.completed@ + 1);
    }

    /// First step of teardown: releases the write side of the queue.
    ///
    /// From now on every worker that asks is told the queue is closed. The
    /// jobs that nobody had claimed are dropped without running; their
    /// number is returned. Closing a closed queue changes nothing.
    pub fn close(&mut self) -> (lost: usize)
        requires
            old(self).wf(),
        ensures
            final(self).wf(),
            final(self)@ == old(self)@.after_close(),
            lost == old(self)@.pending.len(),
    {
        proof {
            lemma_close_keeps_valid(self@);
        }
        let lost = self.queue.len();
        self.dropped = Ghost(self.dropped@ + self.queue@);
        self.queue.clear();
        self.open = false;
        lost
    }

    /// Second step of teardown: the worker to wait for next, in creation
    /// order, or `None` when there is none, because the queue is still open
    /// or every worker has been waited for.
    pub fn next_join(&self) -> (next: Option<usize>)
        requires
            self.wf(),
        ensures
            match next {
                Some(id) => self@.joins_next(id as int),
                None => self@.open || self@.all_joined(),
            },
    {
        if self.open {
            return None;
        }
        let mut id: usize = 0;
        while id < self.workers.len()
            invariant
                !self.open,
                id <= self.workers@.len(),
                forall|i: int| 0 <= i < id ==> (#[trigger] self.workers@[i]).joined,
            decreases self.workers@.len() - id,
        {
            if !self.workers[id].joined {
                return Some(id);
            }
            id = id + 1;
        }
        None
    }

    /// Teardown has waited for worker `id`, whose loop had stopped: the
    /// worker is marked as joined.
    pub fn joined(&mut self, id: usize)
        requires
            old(self).wf(),
            old(self)@.joins_next(id as int),
            old(self)@.workers[id as int].state == WorkerState::Stopped,
        ensures
            final(self).wf(),
            final(self)@ == old(self)@.after_join(id as int),
    {
        proof {
            lemma_join_keeps_valid(self@, id as int);
        }
        let mut worker = self.workers[id];
        worker.joined = true;
        self.workers.set(id, worker);
    }

    /// The number of workers.
    pub fn size(&self) -> (size: usize)
        ensures
            size == self@.size(),
    {
        self.workers.len()
    }

    /// Whether the queue still accepts jobs.
    pub fn is_open(&self) -> (open: bool)
        ensures
            open == self@.open,
    {
        self.open
    }

    /// The number of jobs accepted and not yet claimed.
    pub fn pending(&self) -> (count: usize)
        ensures
            count == self@.pending.len(),
    {
        self.queue.len()
    }

    /// Worker `id`, if the pool has one of that id.
    pub fn worker(&self, id: usize) -> (worker: Option<Worker>)
        ensures
            worker == (if self@.has_worker(id as int) {
                Some(self@.workers[id as int])
            } else {
                None
            }),
    {
        if id < self.workers.len() {
            Some(self.workers[id])
        } else {
            None
        }
    }

    /// The number of workers that have not stopped.
    pub fn live_workers(&self) -> (count: usize)
        ensures
            count == count_live(self@.workers),
    {
        let mut count: usize = 0;
        let mut id: usize = 0;
        while id < self.workers.len()
            invariant
                id <= self.workers@.len(),
                count == count_live(self.workers@.subrange(0, id as int)),
            decreases self.workers@.len() - id,
        {
            proof {
                let upto = self.workers@.subrange(0, id as int + 1);
                assert(upto.drop_last() =~= self.workers@.subrange(0, id as int));
                lemma_count_bounds(upto);
            }
            if self.workers[id].is_live() {
                count = count + 1;
            }
            id = id + 1;
        }
        assert(self.workers@.subrange(0, id as int) =~= self.workers@);
        count
    }

    /// The number of workers that are executing a job.
    pub fn executing(&self) -> (count: usize)
        ensures
            count == count_executing(self@.workers),
    {
        let mut count: usize = 0;
        let mut id: usize = 0;
        while id < self.workers.len()
            invariant
                id <= self.workers@.len(),
                count == count_executing(self.workers@.subrange(0, id as int)),
            decreases self.workers@.len() - id,
        {
            proof {
                let upto = self.workers@.subrange(0, id as int + 1);
                assert(upto.drop_last() =~= self.workers@.subrange(0, id as int));
                lemma_count_bounds(upto);
            }
            match self.workers[id].state {
                WorkerState::Executing => {
                    count = count + 1;
                },
                _ => {},
            }
            id = id + 1;
        }
        assert(self.workers@.subrange(0, id as int) =~= self.workers@);
        count
    }

    /// Whether teardown is complete: the queue is closed and every worker
    /// has been waited for.
    pub fn is_torn_down(&self) -> (done: bool)
        requires
            self.wf(),
        ensures
            done == self@.torn_down(),
    {
        if self.open {
            false
        } else {
            self.next_join().is_none()
        }
    }
}

} // verus!
