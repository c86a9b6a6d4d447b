//! What holds of every pool state, proved over the model.

use vstd::prelude::*;
use crate::model::{count_executing, count_live, Event, PoolModel};
use crate::worker::{Received, Worker, WorkerState};

verus! {

/// Replacing one worker changes the number of executing workers by exactly
/// what that worker contributes before and after.
pub proof fn lemma_count_executing_update(workers: Seq<Worker>, id: int, worker: Worker)
    requires
        0 <= id < workers.len(),
    ensures
        count_executing(workers.update(id, worker)) + (if workers[id].state
            == WorkerState::Executing {
            1nat
        } else {
            0nat
        }) == count_executing(workers) + (if worker.state == WorkerState::Executing {
            1nat
        } else {
            0nat
        }),
    decreases workers.len(),
{
    let updated = workers.update(id, worker);
    if id == workers.len() - 1 {
        assert(updated.drop_last() =~= workers.drop_last());
    } else {
        assert(updated.drop_last() =~= workers.drop_last().update(id, worker));
        lemma_count_executing_update(workers.drop_last(), id, worker);
    }
}

/// Replacing one worker changes the number of live workers by exactly what
/// that worker contributes before and after.
pub proof fn lemma_count_live_update(workers: Seq<Worker>, id: int, worker: Worker)
    requires
        0 <= id < workers.len(),
    ensures
        count_live(workers.update(id, worker)) + (if workers[id].state != WorkerState::Stopped {
            1nat
        } else {
            0nat
        }) == count_live(workers) + (if worker.state != WorkerState::Stopped {
            1nat
        } else {
            0nat
        }),
    decreases workers.len(),
{
    let updated = workers.update(id, worker);
    if id == workers.len() - 1 {
        assert(updated.drop_last() =~= workers.drop_last());
    } else {
        assert(updated.drop_last() =~= workers.drop_last().update(id, worker));
        lemma_count_live_update(workers.drop_last(), id, worker);
    }
}

/// Workers of which none is executing count zero executing; workers of
/// which none has stopped all count as live; workers that have all stopped
/// count zero of either.
pub proof fn lemma_count_uniform(workers: Seq<Worker>)
    ensures
        (forall|i: int|
            0 <= i < workers.len() ==> (#[trigger] workers[i]).state != WorkerState::Executing)
            ==> count_executing(workers) == 0,
        (forall|i: int|
            0 <= i < workers.len() ==> (#[trigger] workers[i]).state != WorkerState::Stopped)
            ==> count_live(workers) == workers.len(),
        (forall|i: int|
            0 <= i < workers.len() ==> (#[trigger] workers[i]).state == WorkerState::Stopped)
            ==> count_live(workers) == 0,
    decreases workers.len(),
{
    if workers.len() > 0 {
        let rest = workers.drop_last();
        lemma_count_uniform(rest);
        assert(forall|i: int| 0 <= i < rest.len() ==> rest[i] == workers[i]);
        assert(workers.last() == workers[workers.len() - 1]);
    }
}

/// The executing workers are live, and the live workers are workers.
pub proof fn lemma_count_bounds(workers: Seq<Worker>)
    ensures
        count_executing(workers) <= count_live(workers) <= workers.len(),
    decreases workers.len(),
{
    if workers.len() > 0 {
        lemma_count_bounds(workers.drop_last());
    }
}

/// A pool built with a positive number of workers starts in a valid state
/// in which every worker is live.
pub proof fn lemma_fresh_is_valid<J>(size: nat)
    requires
        0 < size <= usize::MAX,
    ensures
        PoolModel::<J>::fresh(size).wf(),
        PoolModel::<J>::fresh(size).size() == size,
        count_live(PoolModel::<J>::fresh(size).workers) == size,
{
    let fresh = PoolModel::<J>::fresh(size);
    lemma_count_uniform(fresh.workers);
    assert(fresh.submitted =~= fresh.claimed + fresh.pending + fresh.dropped);
}

/// Accepting a job keeps the pool valid.
pub proof fn lemma_execute_keeps_valid<J>(pool: PoolModel<J>, job: J)
    requires
        pool.wf(),
        pool.open,
    ensures
        pool.after_execute(job).wf(),
{
    let next = pool.after_execute(job);
    assert(pool.dropped =~= Seq::<J>::empty());
    assert(next.submitted =~= next.claimed + next.pending + next.dropped);
}

/// A worker asking for work keeps the pool valid.
pub proof fn lemma_receive_keeps_valid<J>(pool: PoolModel<J>, id: int)
    requires
        pool.wf(),
        pool.is_idle(id),
    ensures
        pool.after_receive(id).wf(),
{
    let next = pool.after_receive(id);
    let worker = pool.workers[id].after_receive(pool.answer());
    lemma_count_executing_update(pool.workers, id, worker);
    match pool.answer() {
        Received::Job(job) => {
            assert(pool.dropped =~= Seq::<J>::empty());
            assert(next.submitted =~= next.claimed + next.pending + next.dropped);
        },
        Received::Empty => {},
        Received::Closed => {},
    }
}

/// A worker finishing its job keeps the pool valid.
pub proof fn lemma_finish_keeps_valid<J>(pool: PoolModel<J>, id: int)
    requires
        pool.wf(),
        pool.is_executing(id),
    ensures
        pool.after_finish(id).wf(),
{
    let worker = Worker { state: WorkerState::Running, ..pool.workers[id] };
    lemma_count_executing_update(pool.workers, id, worker);
}

/// Closing the queue keeps the pool valid.
pub proof fn lemma_close_keeps_valid<J>(pool: PoolModel<J>)
    requires
        pool.wf(),
    ensures
        pool.after_close().wf(),
{
    let next = pool.after_close();
    assert(next.submitted =~= next.claimed + next.pending + next.dropped);
}

/// Waiting for the next worker in line, once it has stopped, keeps the pool
/// valid.
pub proof fn lemma_join_keeps_valid<J>(pool: PoolModel<J>, id: int)
    requires
        pool.wf(),
        pool.joins_next(id),
        pool.workers[id].state == WorkerState::Stopped,
    ensures
        pool.after_join(id).wf(),
{
    let worker = Worker { joined: true, ..pool.workers[id] };
    lemma_count_executing_update(pool.workers, id, worker);
    let next = pool.after_join(id);
    assert forall|i: int, j: int|
        0 <= i <= j < next.workers.len() && (#[trigger] next.workers[j]).joined implies (
    #[trigger] next.workers[i]).joined by {
        if j != id {
            assert(pool.workers[j].joined);
            assert(pool.workers[i].joined || i == id);
        }
    }
}

/// Whatever single thing happens to a valid pool, the pool stays valid.
pub proof fn lemma_event_keeps_valid<J>(pool: PoolModel<J>, event: Event<J>)
    requires
        pool.wf(),
        pool.enabled(event),
    ensures
        pool.after(event).wf(),
{
    match event {
        Event::Execute(job) => lemma_execute_keeps_valid(pool, job),
        Event::Receive(id) => lemma_receive_keeps_valid(pool, id),
        Event::Finish(id) => lemma_finish_keeps_valid(pool, id),
        Event::Close => lemma_close_keeps_valid(pool),
        Event::Join(id) => lemma_join_keeps_valid(pool, id),
    }
}

/// Whatever happens to a valid pool, in whatever order the callers and the
/// workers take their turns, the pool stays valid.
pub proof fn lemma_every_run_keeps_valid<J>(pool: PoolModel<J>, events: Seq<Event<J>>)
    requires
        pool.wf(),
        pool.admits(events),
    ensures
        pool.after_all(events).wf(),
    decreases events.len(),
{
    if events.len() > 0 {
        lemma_event_keeps_valid(pool, events[0]);
        lemma_every_run_keeps_valid(pool.after(events[0]), events.drop_first());
    }
}

/// The histories record what happened and nothing else: the list of
/// submitted jobs grows by a job exactly when that job is accepted, the list
/// of claimed jobs grows by a job exactly when a worker is handed that job,
/// and the count of completed jobs grows by one exactly when a worker
/// finishes.
pub proof fn lemma_history_records_events<J>(pool: PoolModel<J>, event: Event<J>)
    requires
        pool.wf(),
        pool.enabled(event),
    ensures
        pool.after(event).submitted == (match event {
            Event::Execute(job) => pool.submitted.push(job),
            _ => pool.submitted,
        }),
        pool.after(event).claimed == (match event {
            Event::Receive(_) => match pool.answer() {
                Received::Job(job) => pool.claimed.push(job),
                _ => pool.claimed,
            },
            _ => pool.claimed,
        }),
        pool.after(event).completed == (match event {
            Event::Finish(_) => pool.completed + 1,
            _ => pool.completed,
        }),
{
}

/// Every job the pool has accepted is in exactly one place: it was handed
/// to a worker, it is still pending, or it was dropped at closing. The
/// three groups follow one another in submission order, so no job is
/// handed out twice and none is skipped.
pub proof fn lemma_every_job_accounted_once<J>(pool: PoolModel<J>)
    requires
        pool.wf(),
    ensures
        pool.submitted.len() == pool.claimed.len() + pool.pending.len() + pool.dropped.len(),
        forall|k: int|
            0 <= k < pool.claimed.len() ==> #[trigger] pool.submitted[k] == pool.claimed[k],
        forall|k: int|
            0 <= k < pool.pending.len() ==> #[trigger] pool.submitted[pool.claimed.len() + k]
                == pool.pending[k],
        forall|k: int|
            0 <= k < pool.dropped.len() ==> #[trigger] pool.submitted[pool.claimed.len()
                + pool.pending.len() + k] == pool.dropped[k],
{
}

/// Jobs are claimed in the order in which they were submitted: the k-th
/// job handed to a worker is the k-th job that was accepted.
pub proof fn lemma_claimed_in_submission_order<J>(pool: PoolModel<J>)
    requires
        pool.wf(),
    ensures
        pool.claimed.len() <= pool.submitted.len(),
        pool.claimed == pool.submitted.subrange(0, pool.claimed.len() as int),
{
    assert(pool.claimed =~= pool.submitted.subrange(0, pool.claimed.len() as int));
}

/// While the queue is open and nothing is pending, every job ever
/// submitted has been handed to a worker, once and in submission order.
/// If moreover no worker is executing, every one of them has completed.
pub proof fn lemma_drained_pool_claimed_everything<J>(pool: PoolModel<J>)
    requires
        pool.wf(),
        pool.open,
        pool.pending.len() == 0,
    ensures
        pool.claimed == pool.submitted,
        count_executing(pool.workers) == 0 ==> pool.completed == pool.submitted.len(),
{
    assert(pool.claimed =~= pool.submitted);
}

/// A worker that asks an open queue with pending work is handed the job
/// that was submitted first among those not yet claimed.
pub proof fn lemma_receive_hands_out_oldest<J>(pool: PoolModel<J>, id: int)
    requires
        pool.wf(),
        pool.open,
        pool.pending.len() > 0,
        pool.is_idle(id),
    ensures
        pool.answer() == Received::Job(pool.submitted[pool.claimed.len() as int]),
        pool.after_receive(id).claimed == pool.submitted.subrange(0, pool.claimed.len() as int + 1),
        pool.after_receive(id).is_executing(id),
{
    lemma_every_job_accounted_once(pool);
    lemma_receive_keeps_valid(pool, id);
    lemma_claimed_in_submission_order(pool.after_receive(id));
}

/// At no time are more jobs being executed than the pool has workers: the
/// jobs claimed and not yet completed are those of the executing workers.
pub proof fn lemma_concurrency_is_bounded<J>(pool: PoolModel<J>)
    requires
        pool.wf(),
    ensures
        pool.completed <= pool.claimed.len(),
        pool.claimed.len() - pool.completed == count_executing(pool.workers),
        count_executing(pool.workers) <= pool.size(),
{
    lemma_count_bounds(pool.workers);
}

/// While the queue is open no worker is stuck: each one is either waiting,
/// and may ask for work, or executing, and may finish. So pending work
/// never waits on a worker that cannot move.
pub proof fn lemma_open_pool_never_stuck<J>(pool: PoolModel<J>, id: int)
    requires
        pool.wf(),
        pool.open,
        pool.has_worker(id),
    ensures
        pool.enabled(Event::Receive(id)) != pool.enabled(Event::Finish(id)),
        pool.enabled(Event::Receive(id)) && pool.pending.len() > 0 ==> pool.after(
            Event::Receive(id),
        ).pending.len() == pool.pending.len() - 1,
{
}

/// While the queue is open every worker is live.
pub proof fn lemma_open_pool_all_live<J>(pool: PoolModel<J>)
    requires
        pool.wf(),
        pool.open,
    ensures
        count_live(pool.workers) == pool.size(),
{
    lemma_count_uniform(pool.workers);
}

/// Closing drops exactly what was pending and hands out nothing: the jobs
/// claimed so far stay as they are, every later request for work is told
/// the queue is closed, and closing again changes nothing.
pub proof fn lemma_close_drops_pending<J>(pool: PoolModel<J>)
    requires
        pool.wf(),
    ensures
        pool.after_close().claimed == pool.claimed,
        pool.after_close().dropped == pool.submitted.subrange(
            pool.claimed.len() as int,
            pool.submitted.len() as int,
        ),
        pool.after_close().answer() == Received::<J>::Closed,
        pool.after_close().after_close() == pool.after_close(),
        !pool.open ==> pool.after_close() == pool,
{
    let closed = pool.after_close();
    assert(closed.dropped =~= pool.submitted.subrange(
        pool.claimed.len() as int,
        pool.submitted.len() as int,
    ));
    assert(closed.dropped + closed.pending =~= closed.dropped);
    if !pool.open {
        assert(pool.pending =~= Seq::<J>::empty());
        assert(pool.dropped + pool.pending =~= pool.dropped);
    }
}

/// Once the queue is closed it stays closed, nothing more is submitted and
/// nothing more is claimed: a job that was dropped at closing never runs.
pub proof fn lemma_closed_pool_hands_out_nothing<J>(pool: PoolModel<J>, events: Seq<Event<J>>)
    requires
        pool.wf(),
        !pool.open,
        pool.admits(events),
    ensures
        !pool.after_all(events).open,
        pool.after_all(events).submitted == pool.submitted,
        pool.after_all(events).claimed == pool.claimed,
        pool.after_all(events).dropped == pool.dropped,
    decreases events.len(),
{
    if events.len() > 0 {
        let next = pool.after(events[0]);
        lemma_event_keeps_valid(pool, events[0]);
        lemma_close_drops_pending(pool);
        lemma_closed_pool_hands_out_nothing(next, events.drop_first());
    }
}

/// On a closed queue each request for work stops exactly the worker that
/// asked: one live worker fewer, and everyone else as before.
pub proof fn lemma_closed_answer_stops_one_worker<J>(pool: PoolModel<J>, id: int)
    requires
        pool.wf(),
        !pool.open,
        pool.is_idle(id),
    ensures
        pool.after_receive(id).workers[id].state == WorkerState::Stopped,
        count_live(pool.after_receive(id).workers) + 1 == count_live(pool.workers),
        forall|other: int|
            pool.has_worker(other) && other != id ==> pool.after_receive(id).workers[other]
                == pool.workers[other],
{
    lemma_count_live_update(pool.workers, id, pool.workers[id].after_receive(pool.answer()));
}

/// Teardown cannot complete while a worker is still in its loop: when the
/// queue is closed and every worker has been waited for, every worker has
/// stopped, none is executing, and every job that was claimed has run to
/// completion.
pub proof fn lemma_torn_down_pool_is_quiet<J>(pool: PoolModel<J>)
    requires
        pool.wf(),
        pool.torn_down(),
    ensures
        forall|i: int|
            0 <= i < pool.workers.len() ==> (#[trigger] pool.workers[i]).state
                == WorkerState::Stopped,
        count_live(pool.workers) == 0,
        count_executing(pool.workers) == 0,
        pool.completed == pool.claimed.len(),
{
    assert forall|i: int| 0 <= i < pool.workers.len() implies (#[trigger] pool.workers[i]).state
        == WorkerState::Stopped by {
        assert(pool.workers[i].joined);
        assert(pool.workers[i].wf());
    }
    lemma_count_uniform(pool.workers);
}

/// Until teardown is complete there is exactly one worker to wait for
/// next, and it is the first in creation order not yet waited for.
pub proof fn lemma_join_order_is_creation_order<J>(pool: PoolModel<J>, id: int, other: int)
    requires
        pool.wf(),
        pool.joins_next(id),
        pool.joins_next(other),
    ensures
        id == other,
        !pool.torn_down(),
{
    if id < other {
        assert(pool.workers[id].joined);
    } else if other < id {
        assert(pool.workers[other].joined);
    }
}

} // verus!
