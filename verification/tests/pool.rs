use rust_web_server::error::PoolCreationError;
use rust_web_server::pool::ThreadPool;
use rust_web_server::worker::{Received, Worker, WorkerState};

fn claim(pool: &mut ThreadPool<u32>, id: usize) -> u32 {
    match pool.receive(id) {
        Received::Job(job) => job,
        Received::Empty => panic!("worker {} found the queue empty", id),
        Received::Closed => panic!("worker {} found the queue closed", id),
    }
}

#[test]
fn new_pool_has_exactly_size_live_workers() {
    for size in [1usize, 2, 3, 4, 17, 100] {
        let pool: ThreadPool<u32> = ThreadPool::new(size);
        assert_eq!(pool.size(), size);
        assert_eq!(pool.live_workers(), size);
        assert_eq!(pool.executing(), 0);
        assert_eq!(pool.pending(), 0);
        assert!(pool.is_open());
        assert!(!pool.is_torn_down());
        for id in 0..size {
            assert_eq!(
                pool.worker(id),
                Some(Worker { id, state: WorkerState::Running, joined: false })
            );
        }
        assert_eq!(pool.worker(size), None);
    }
}

#[test]
fn worker_ids_follow_creation_order() {
    let pool: ThreadPool<u32> = ThreadPool::new(4);
    let ids: Vec<usize> = (0..4).map(|id| pool.worker(id).unwrap().id).collect();
    assert_eq!(ids, vec![0, 1, 2, 3]);
}

#[test]
fn build_refuses_zero_workers() {
    let result: Result<ThreadPool<u32>, PoolCreationError> = ThreadPool::build(0);
    match result {
        Ok(_) => panic!("a pool of no workers was built"),
        Err(error) => {
            assert_eq!(error.0, "pool size must be greater than zero");
            assert_eq!(
                error.message(),
                "Error occured: pool size must be greater than zero"
            );
        }
    }
}

#[test]
fn build_accepts_positive_sizes() {
    for size in [1usize, 2, 8] {
        let result: Result<ThreadPool<u32>, PoolCreationError> = ThreadPool::build(size);
        match result {
            Ok(pool) => {
                assert_eq!(pool.size(), size);
                assert_eq!(pool.live_workers(), size);
                assert!(pool.is_open());
            }
            Err(_) => panic!("a pool of {} workers was refused", size),
        }
    }
}

#[test]
fn error_message_has_fixed_prefix() {
    let error = PoolCreationError(String::from("boom"));
    assert_eq!(error.message(), "Error occured: boom");
    let empty = PoolCreationError(String::new());
    assert_eq!(empty.message(), "Error occured: ");
}

#[test]
fn execute_queues_without_running() {
    let mut pool: ThreadPool<u32> = ThreadPool::new(2);
    pool.execute(10);
    assert_eq!(pool.pending(), 1);
    assert_eq!(pool.executing(), 0);
    pool.execute(11);
    assert_eq!(pool.pending(), 2);
    assert_eq!(pool.executing(), 0);
    assert_eq!(pool.live_workers(), 2);
}

#[test]
fn sequential_jobs_each_claimed_exactly_once() {
    let mut pool: ThreadPool<u32> = ThreadPool::new(3);
    let n: u32 = 50;
    for job in 0..n {
        pool.execute(job);
    }
    let mut seen = vec![0u32; n as usize];
    let mut turn = 0usize;
    while pool.pending() > 0 {
        let id = turn % 3;
        let job = claim(&mut pool, id);
        seen[job as usize] += 1;
        pool.finish(id);
        turn += 1;
    }
    assert_eq!(turn as u32, n);
    assert!(seen.iter().all(|&count| count == 1));
    assert_eq!(pool.receive(0), Received::Empty);
}

#[test]
fn jobs_are_claimed_in_submission_order() {
    let mut pool: ThreadPool<&'static str> = ThreadPool::new(3);
    pool.execute("J1");
    pool.execute("J2");
    pool.execute("J3");
    assert_eq!(pool.receive(2), Received::Job("J1"));
    assert_eq!(pool.receive(0), Received::Job("J2"));
    assert_eq!(pool.receive(1), Received::Job("J3"));
    assert_eq!(pool.pending(), 0);
    assert_eq!(pool.executing(), 3);
}

#[test]
fn order_holds_when_submitting_and_claiming_alternate() {
    let mut pool: ThreadPool<u32> = ThreadPool::new(2);
    pool.execute(1);
    pool.execute(2);
    assert_eq!(claim(&mut pool, 0), 1);
    pool.execute(3);
    assert_eq!(claim(&mut pool, 1), 2);
    pool.finish(0);
    pool.execute(4);
    assert_eq!(claim(&mut pool, 0), 3);
    pool.finish(1);
    assert_eq!(claim(&mut pool, 1), 4);
    assert_eq!(pool.pending(), 0);
}

#[test]
fn idle_worker_on_empty_open_queue_keeps_waiting() {
    let mut pool: ThreadPool<u32> = ThreadPool::new(1);
    assert_eq!(pool.receive(0), Received::Empty);
    assert_eq!(pool.worker(0).unwrap().state, WorkerState::Running);
    assert_eq!(pool.live_workers(), 1);
}

#[test]
fn worker_cycles_between_running_and_executing() {
    let mut pool: ThreadPool<u32> = ThreadPool::new(1);
    pool.execute(5);
    assert_eq!(pool.worker(0).unwrap().state, WorkerState::Running);
    assert_eq!(pool.receive(0), Received::Job(5));
    assert_eq!(pool.worker(0).unwrap().state, WorkerState::Executing);
    assert_eq!(pool.executing(), 1);
    pool.finish(0);
    assert_eq!(pool.worker(0).unwrap().state, WorkerState::Running);
    assert_eq!(pool.executing(), 0);
}

#[test]
fn closed_queue_stops_the_asking_worker() {
    let mut pool: ThreadPool<u32> = ThreadPool::new(2);
    assert_eq!(pool.close(), 0);
    assert!(!pool.is_open());
    assert_eq!(pool.receive(1), Received::Closed);
    assert_eq!(pool.worker(1).unwrap().state, WorkerState::Stopped);
    assert_eq!(pool.worker(0).unwrap().state, WorkerState::Running);
    assert_eq!(pool.live_workers(), 1);
    assert!(!pool.worker(1).unwrap().is_live());
    assert!(pool.worker(0).unwrap().is_live());
}

#[test]
fn unclaimed_jobs_are_dropped_at_close() {
    let mut pool: ThreadPool<u32> = ThreadPool::new(1);
    pool.execute(1);
    pool.execute(2);
    pool.execute(3);
    assert_eq!(claim(&mut pool, 0), 1);
    // two jobs are still queued when teardown begins: losing them is accepted
    assert_eq!(pool.close(), 2);
    assert_eq!(pool.pending(), 0);
    // the claimed job still runs to completion
    assert_eq!(pool.executing(), 1);
    pool.finish(0);
    // and nothing is handed out afterwards
    assert_eq!(pool.receive(0), Received::Closed);
    assert_eq!(pool.executing(), 0);
}

#[test]
fn closing_twice_changes_nothing() {
    let mut pool: ThreadPool<u32> = ThreadPool::new(2);
    pool.execute(9);
    assert_eq!(pool.close(), 1);
    assert_eq!(pool.close(), 0);
    assert!(!pool.is_open());
    assert_eq!(pool.pending(), 0);
    assert_eq!(pool.live_workers(), 2);
}

#[test]
fn nothing_is_joined_while_the_queue_is_open() {
    let pool: ThreadPool<u32> = ThreadPool::new(3);
    assert_eq!(pool.next_join(), None);
    assert!(!pool.is_torn_down());
}

#[test]
fn teardown_waits_for_workers_in_creation_order() {
    let mut pool: ThreadPool<u32> = ThreadPool::new(3);
    pool.execute(1);
    assert_eq!(claim(&mut pool, 2), 1);
    pool.close();
    let mut order = Vec::new();
    // workers stop in some other order than they are joined
    pool.finish(2);
    assert_eq!(pool.receive(2), Received::Closed);
    assert_eq!(pool.receive(1), Received::Closed);
    assert_eq!(pool.receive(0), Received::Closed);
    while let Some(id) = pool.next_join() {
        assert!(!pool.is_torn_down());
        assert_eq!(pool.worker(id).unwrap().state, WorkerState::Stopped);
        pool.joined(id);
        assert!(pool.worker(id).unwrap().joined);
        order.push(id);
    }
    assert_eq!(order, vec![0, 1, 2]);
    assert!(pool.is_torn_down());
    assert_eq!(pool.live_workers(), 0);
    assert_eq!(pool.executing(), 0);
    assert_eq!(pool.next_join(), None);
}

#[test]
fn teardown_is_not_complete_while_a_worker_executes() {
    let mut pool: ThreadPool<u32> = ThreadPool::new(2);
    pool.execute(1);
    assert_eq!(claim(&mut pool, 1), 1);
    pool.close();
    assert_eq!(pool.receive(0), Received::Closed);
    assert_eq!(pool.next_join(), Some(0));
    pool.joined(0);
    // worker 1 is still executing: teardown has to wait for it
    assert_eq!(pool.next_join(), Some(1));
    assert_eq!(pool.worker(1).unwrap().state, WorkerState::Executing);
    assert!(!pool.is_torn_down());
    assert_eq!(pool.live_workers(), 1);
    pool.finish(1);
    assert_eq!(pool.receive(1), Received::Closed);
    pool.joined(1);
    assert!(pool.is_torn_down());
    assert_eq!(pool.live_workers(), 0);
}

#[test]
fn at_most_size_jobs_execute_at_once() {
    let mut pool: ThreadPool<u32> = ThreadPool::new(2);
    for job in 0..4 {
        pool.execute(job);
    }
    let mut counter = 0u32;
    let mut peak = 0usize;
    assert_eq!(claim(&mut pool, 0), 0);
    peak = peak.max(pool.executing());
    assert_eq!(claim(&mut pool, 1), 1);
    peak = peak.max(pool.executing());
    // both workers are busy: the other two jobs wait
    assert_eq!(pool.pending(), 2);
    pool.finish(1);
    counter += 1;
    assert_eq!(claim(&mut pool, 1), 2);
    peak = peak.max(pool.executing());
    pool.finish(0);
    counter += 1;
    assert_eq!(claim(&mut pool, 0), 3);
    peak = peak.max(pool.executing());
    pool.finish(0);
    counter += 1;
    pool.finish(1);
    counter += 1;
    assert_eq!(counter, 4);
    assert_eq!(peak, 2);
    assert_eq!(pool.executing(), 0);
    assert_eq!(pool.pending(), 0);
}
