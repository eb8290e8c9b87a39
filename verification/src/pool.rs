//! What the worker pool decides: how many tasks to ask the queue for, and
//! how long to wait after the queue had none.

use vstd::prelude::*;

verus! {

/// The number of running tasks below which the pool asks for more, where the
/// deployment names none.
pub const DEFAULT_MIN_CONCURRENCY: usize = 10;

/// The number of tasks that the pool fills itself up to, where the
/// deployment names none.
pub const DEFAULT_MAX_FETCH_CONCURRENCY: usize = 20;

/// The first wait after the queue had no task, in milliseconds.
pub const BACKOFF_START_MS: u64 = 100;

/// The longest wait after the queue had no task, in milliseconds.
pub const BACKOFF_CAP_MS: u64 = 5000;

/// The two tunables of the worker pool.
#[derive(Clone, Copy, Debug, PartialEq, Eq, Structural)]
pub struct WorkerPool {
    /// The pool asks for more tasks while fewer than this many run.
    pub min_concurrency: usize,
    /// When the pool asks, it asks for as many tasks as bring it up to this
    /// many.
    pub max_fetch_concurrency: usize,
}

/// The number of tasks that a pool asks the queue for while `running` tasks
/// run: none while at least `min_concurrency` run, and else as many as bring
/// it up to `max_fetch_concurrency`.
pub open spec fn fetch_count(pool: WorkerPool, running: usize) -> usize {
    if running < pool.min_concurrency && running < pool.max_fetch_concurrency {
        (pool.max_fetch_concurrency - running) as usize
    } else {
        0
    }
}

/// The wait after the queue had no task again: twice the wait before, no
/// less than `BACKOFF_START_MS` and no more than `BACKOFF_CAP_MS`.
pub open spec fn backoff_after(waited_ms: u64) -> u64 {
    if 2 * waited_ms < BACKOFF_START_MS {
        BACKOFF_START_MS
    } else if 2 * waited_ms <= BACKOFF_CAP_MS {
        (2 * waited_ms) as u64
    } else {
        BACKOFF_CAP_MS
    }
}

impl Default for WorkerPool {
    fn default() -> (pool: WorkerPool)
        ensures
            pool == (WorkerPool {
                min_concurrency: DEFAULT_MIN_CONCURRENCY,
                max_fetch_concurrency: DEFAULT_MAX_FETCH_CONCURRENCY,
            }),
    {
        WorkerPool {
            min_concurrency: DEFAULT_MIN_CONCURRENCY,
            max_fetch_concurrency: DEFAULT_MAX_FETCH_CONCURRENCY,
        }
    }
}

impl WorkerPool {
    /// The pool with the given tunables.
    pub fn new(min_concurrency: usize, max_fetch_concurrency: usize) -> (pool: WorkerPool)
        ensures
            pool == (WorkerPool { min_concurrency, max_fetch_concurrency }),
    {
        WorkerPool { min_concurrency, max_fetch_concurrency }
    }

    /// The number of tasks to ask the queue for while `running` tasks run.
    pub fn tasks_to_fetch(&self, running: usize) -> (count: usize)
        ensures
            count == fetch_count(*self, running),
            running + count <= self.max_fetch_concurrency || count == 0,
    {
        if running < self.min_concurrency && running < self.max_fetch_concurrency {
            self.max_fetch_concurrency - running
        } else {
            0
        }
    }
}

/// The wait, in milliseconds, after the queue had no task, given the wait
/// before; zero stands for no wait before.
pub fn next_backoff(waited_ms: u64) -> (wait_ms: u64)
    ensures
        wait_ms == backoff_after(waited_ms),
        BACKOFF_START_MS <= wait_ms <= BACKOFF_CAP_MS,
        waited_ms <= BACKOFF_CAP_MS ==> wait_ms >= waited_ms,
{
    if waited_ms < BACKOFF_START_MS / 2 {
        BACKOFF_START_MS
    } else if waited_ms <= BACKOFF_CAP_MS / 2 {
        2 * waited_ms
    } else {
        BACKOFF_CAP_MS
    }
}

} // verus!
