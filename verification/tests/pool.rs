use reacher_backend::pool::{next_backoff, WorkerPool, BACKOFF_CAP_MS, BACKOFF_START_MS};

#[test]
fn default_pool_keeps_ten_to_twenty_tasks_running() {
    let pool = WorkerPool::default();
    assert_eq!((pool.min_concurrency, pool.max_fetch_concurrency), (10, 20));
    assert_eq!(pool.tasks_to_fetch(0), 20);
    assert_eq!(pool.tasks_to_fetch(9), 11);
    assert_eq!(pool.tasks_to_fetch(10), 0);
    assert_eq!(pool.tasks_to_fetch(25), 0);
}

#[test]
fn pool_with_crossed_tunables_never_asks_past_its_limit() {
    let pool = WorkerPool::new(50, 20);
    assert_eq!(pool.tasks_to_fetch(5), 15);
    assert_eq!(pool.tasks_to_fetch(20), 0);
    assert_eq!(pool.tasks_to_fetch(30), 0);
    assert_eq!(WorkerPool::new(0, 0).tasks_to_fetch(0), 0);
}

#[test]
fn backoff_doubles_up_to_its_cap() {
    assert_eq!((BACKOFF_START_MS, BACKOFF_CAP_MS), (100, 5000));
    let mut wait = 0;
    let mut waits = Vec::new();
    for _ in 0..8 {
        wait = next_backoff(wait);
        waits.push(wait);
    }
    assert_eq!(waits, vec![100, 200, 400, 800, 1600, 3200, 5000, 5000]);
    assert_eq!(next_backoff(1), 100);
    assert_eq!(next_backoff(49), 100);
    assert_eq!(next_backoff(50), 100);
    assert_eq!(next_backoff(51), 102);
    assert_eq!(next_backoff(2500), 5000);
    assert_eq!(next_backoff(2501), 5000);
    assert_eq!(next_backoff(u64::MAX), 5000);
}
