use std::time::Duration;
use sync_serve::pool::{Dispatch, Next, WorkerPool, DEFAULT_KEEP_ALIVE_NANOS};

#[test]
fn defaults_follow_parallelism_and_six_seconds() {
    let pool = WorkerPool::new(None, None, 4);
    assert_eq!(pool.max_workers(), 40);
    assert_eq!(pool.keep_alive_nanos(), 6_000_000_000);
    assert_eq!(DEFAULT_KEEP_ALIVE_NANOS, 6_000_000_000);
    assert_eq!(pool.worker_count(), 0);
    assert_eq!(pool.queued_count(), 0);
}

#[test]
fn default_limit_is_capped_at_the_largest_count() {
    let pool = WorkerPool::new(None, None, usize::MAX);
    assert_eq!(pool.max_workers(), usize::MAX);
    let pool = WorkerPool::new(None, None, usize::MAX / 10);
    assert_eq!(pool.max_workers(), (usize::MAX / 10) * 10);
}

#[test]
fn configured_values_are_taken() {
    let pool = WorkerPool::new(Some(8), Some(Duration::from_millis(50)), 4);
    assert_eq!(pool.max_workers(), 8);
    assert_eq!(pool.keep_alive_nanos(), 50_000_000);
    let pool = WorkerPool::new(Some(1), Some(Duration::new(2, 7)), 4);
    assert_eq!(pool.keep_alive_nanos(), 2_000_000_007);
}

#[test]
fn burst_within_capacity_starts_every_task() {
    let mut pool = WorkerPool::new(Some(8), None, 1);
    for task in 0..8u64 {
        assert!(pool.can_spawn());
        assert_eq!(pool.spawn(task), Dispatch::Start { worker: task });
    }
    assert_eq!(pool.busy_count(), 8);
    assert_eq!(pool.queued_count(), 0);
    assert_eq!(pool.worker_count(), 8);
}

#[test]
fn excess_tasks_wait_and_run_oldest_first() {
    let mut pool = WorkerPool::new(Some(2), None, 1);
    assert_eq!(pool.spawn(10), Dispatch::Start { worker: 0 });
    assert_eq!(pool.spawn(11), Dispatch::Start { worker: 1 });
    assert_eq!(pool.spawn(12), Dispatch::Queued);
    assert_eq!(pool.spawn(13), Dispatch::Queued);
    assert_eq!(pool.spawn(14), Dispatch::Queued);
    assert_eq!(pool.busy_count(), 2);
    assert_eq!(pool.queued_count(), 3);
    assert_eq!(pool.complete(1, 100), Next::Run { task: 12 });
    assert_eq!(pool.complete(0, 110), Next::Run { task: 13 });
    assert_eq!(pool.complete(0, 120), Next::Run { task: 14 });
    assert_eq!(pool.queued_count(), 0);
    assert_eq!(pool.busy_count(), 2);
    assert_eq!(pool.complete(0, 130), Next::Park);
    assert_eq!(pool.complete(1, 140), Next::Park);
    assert_eq!(pool.busy_count(), 0);
    assert_eq!(pool.idle_count(), 2);
}

#[test]
fn idle_worker_is_reused_before_a_new_one_starts() {
    let mut pool = WorkerPool::new(Some(4), None, 1);
    assert_eq!(pool.spawn(1), Dispatch::Start { worker: 0 });
    assert_eq!(pool.spawn(2), Dispatch::Start { worker: 1 });
    assert_eq!(pool.complete(0, 5), Next::Park);
    assert_eq!(pool.complete(1, 6), Next::Park);
    assert_eq!(pool.spawn(3), Dispatch::Resume { worker: 1 });
    assert_eq!(pool.spawn(4), Dispatch::Resume { worker: 0 });
    assert_eq!(pool.spawn(5), Dispatch::Start { worker: 2 });
    assert_eq!(pool.worker_count(), 3);
}

#[test]
fn unknown_worker_changes_nothing() {
    let mut pool = WorkerPool::new(Some(2), None, 1);
    assert_eq!(pool.spawn(1), Dispatch::Start { worker: 0 });
    assert_eq!(pool.complete(9, 5), Next::Unknown);
    assert_eq!(pool.busy_count(), 1);
    assert_eq!(pool.complete(0, 5), Next::Park);
    assert_eq!(pool.complete(0, 6), Next::Unknown);
    assert_eq!(pool.idle_count(), 1);
}

#[test]
fn idle_worker_retires_once_keep_alive_has_passed() {
    let mut pool = WorkerPool::new(Some(2), Some(Duration::from_millis(50)), 1);
    assert_eq!(pool.spawn(1), Dispatch::Start { worker: 0 });
    assert!(!pool.expire(0, 1_000_000_000));
    assert_eq!(pool.complete(0, 1_000), Next::Park);
    assert!(!pool.expire(0, 1_000));
    assert!(!pool.expire(0, 50_000_999));
    assert!(!pool.expire(0, 999));
    assert_eq!(pool.worker_count(), 1);
    assert!(pool.expire(0, 50_001_000));
    assert_eq!(pool.worker_count(), 0);
    assert!(!pool.expire(0, 60_000_000));
    assert_eq!(pool.spawn(2), Dispatch::Start { worker: 1 });
    assert_eq!(pool.worker_count(), 1);
}

#[test]
fn reused_worker_restarts_its_timer() {
    let mut pool = WorkerPool::new(Some(1), Some(Duration::from_nanos(100)), 1);
    assert_eq!(pool.spawn(1), Dispatch::Start { worker: 0 });
    assert_eq!(pool.complete(0, 10), Next::Park);
    assert_eq!(pool.spawn(2), Dispatch::Resume { worker: 0 });
    assert!(!pool.expire(0, 500));
    assert_eq!(pool.complete(0, 450), Next::Park);
    assert!(!pool.expire(0, 500));
    assert!(pool.expire(0, 550));
}

#[test]
fn pool_without_workers_queues_everything() {
    let mut pool = WorkerPool::new(Some(0), None, 1);
    assert_eq!(pool.spawn(1), Dispatch::Queued);
    assert_eq!(pool.spawn(2), Dispatch::Queued);
    assert_eq!(pool.queued_count(), 2);
    assert_eq!(pool.worker_count(), 0);
}

#[test]
fn fifty_tasks_on_eight_workers_run_in_seven_rounds() {
    let mut pool = WorkerPool::new(Some(8), None, 1);
    let mut running: Vec<(u64, u64)> = Vec::new();
    let mut served: Vec<u64> = Vec::new();
    for task in 0..50u64 {
        match pool.spawn(task) {
            Dispatch::Start { worker } | Dispatch::Resume { worker } => running.push((worker, task)),
            Dispatch::Queued => {}
        }
        assert!(pool.busy_count() <= 8);
    }
    assert_eq!(running.len(), 8);
    assert_eq!(pool.queued_count(), 42);
    let mut rounds = 0u64;
    while !running.is_empty() {
        rounds += 1;
        let mut next_round: Vec<(u64, u64)> = Vec::new();
        for (worker, task) in running {
            served.push(task);
            match pool.complete(worker, u128::from(rounds)) {
                Next::Run { task } => next_round.push((worker, task)),
                Next::Park => {}
                Next::Unknown => panic!("worker {} was busy", worker),
            }
            assert!(pool.busy_count() <= 8);
        }
        running = next_round;
    }
    assert_eq!(rounds, 7);
    assert_eq!(served, (0..50u64).collect::<Vec<u64>>());
    assert_eq!(pool.queued_count(), 0);
    assert_eq!(pool.idle_count(), 8);
}

#[test]
fn pool_decays_to_zero_after_a_burst() {
    let keep_alive = Duration::from_millis(50);
    let mut pool = WorkerPool::new(Some(4), Some(keep_alive), 1);
    for task in 0..4u64 {
        assert_eq!(pool.spawn(task), Dispatch::Start { worker: task });
    }
    for worker in 0..4u64 {
        assert_eq!(pool.complete(worker, 1_000_000 + u128::from(worker)), Next::Park);
    }
    assert_eq!(pool.worker_count(), 4);
    let later = 1_000_000 + 2 * keep_alive.as_nanos();
    for worker in 0..4u64 {
        assert!(pool.expire(worker, later));
    }
    assert_eq!(pool.worker_count(), 0);
    assert_eq!(pool.spawn(9), Dispatch::Start { worker: 4 });
}
