//! The job store and the task queue over it, held in memory.
//!
//! A job owns its tasks and a task owns its result, so a task has at most
//! one result and a job never has more results than records. The queue is
//! at-least-once: a task whose lease has run out is handed out again, and a
//! result that comes in for a task that already has one is dropped.

use crate::bulk::{
    check_bulk_request, status_of, task_of, BulkError, BulkRequestView, CreateBulkRequestBody, CreateBulkResponseBody,
    JobRecord, JobStatusResponseBody, JobStatusSummaryResponseBody, TaskInput, TaskInputView,
    ValidStatus,
};
use crate::output::{output_view, CheckEmailOutput, OutputView, Reachable};
use vstd::prelude::*;

verus! {

/// Where a task stands in the queue.
#[derive(Clone, Copy, Debug, PartialEq, Eq, Structural)]
pub enum TaskState {
    /// The task waits for a worker.
    Queued,
    /// A worker holds the task until the lease runs out.
    Leased { worker: u64, expires_at: u64 },
    /// The task was completed.
    Done,
}

/// A task: one element of the queue.
#[derive(Debug)]
pub struct Task {
    id: u64,
    input: TaskInput,
    state: TaskState,
    attempt_count: u32,
    result: Option<CheckEmailOutput>,
}

/// The model of a task.
pub struct TaskView {
    /// The task's identifier.
    pub id: u64,
    /// What the task checks.
    pub input: TaskInputView,
    /// Where the task stands in the queue.
    pub state: TaskState,
    /// The number of times the task was leased.
    pub attempt_count: u32,
    /// The task's result, once one has come in.
    pub result: Option<OutputView>,
}

impl View for Task {
    type V = TaskView;

    closed spec fn view(&self) -> TaskView {
        TaskView {
            id: self.id,
            input: self.input@,
            state: self.state,
            attempt_count: self.attempt_count,
            result: output_view(self.result),
        }
    }
}

/// A job with its tasks.
#[derive(Debug)]
pub struct Job {
    record: JobRecord,
    tasks: Vec<Task>,
}

/// The model of a job.
pub struct JobView {
    /// The job's record.
    pub record: JobRecord,
    /// The job's tasks, in the order they were enqueued in.
    pub tasks: Seq<TaskView>,
}

/// The models of a list of tasks.
pub open spec fn tasks_view(tasks: Seq<Task>) -> Seq<TaskView> {
    Seq::new(tasks.len(), |k: int| tasks[k]@)
}

impl View for Job {
    type V = JobView;

    closed spec fn view(&self) -> JobView {
        JobView { record: self.record, tasks: tasks_view(self.tasks@) }
    }
}

/// The models of a list of jobs.
pub open spec fn jobs_view(jobs: Seq<Job>) -> Seq<JobView> {
    Seq::new(jobs.len(), |j: int| jobs[j]@)
}

/// The model of the store.
pub struct StoreView {
    /// The jobs, in the order they were created in.
    pub jobs: Seq<JobView>,
    /// The identifier of the next job.
    pub next_job_id: i32,
    /// The identifier of the next task.
    pub next_task_id: u64,
}

impl StoreView {
    /// The task at position `k` of the job at position `j`.
    pub open spec fn task(self, j: int, k: int) -> TaskView {
        self.jobs[j].tasks[k]
    }

    /// Is there a task at position `k` of a job at position `j`?
    pub open spec fn has(self, j: int, k: int) -> bool {
        0 <= j < self.jobs.len() && 0 <= k < self.jobs[j].tasks.len()
    }

    /// Is there a job with this identifier?
    pub open spec fn has_job(self, job_id: i32) -> bool {
        exists|j: int| 0 <= j < self.jobs.len() && (#[trigger] self.jobs[j]).record.id == job_id
    }

    /// Is there a task with this identifier?
    pub open spec fn has_task(self, task_id: u64) -> bool {
        exists|j: int, k: int| self.has(j, k) && (#[trigger] self.task(j, k)).id == task_id
    }
}

/// What holds of the store at all times: identifiers are handed out once and
/// in rising order, and no job has more tasks than records.
pub open spec fn store_consistent(s: StoreView) -> bool {
    &&& 1 <= s.next_job_id
    &&& forall|j: int| 0 <= j < s.jobs.len() ==> (#[trigger] s.jobs[j]).record.id < s.next_job_id
    &&& forall|i: int, j: int|
        0 <= i < j < s.jobs.len() ==> (#[trigger] s.jobs[i]).record.id < (
        #[trigger] s.jobs[j]).record.id
    &&& forall|j: int|
        0 <= j < s.jobs.len() ==> (#[trigger] s.jobs[j]).tasks.len()
            <= s.jobs[j].record.total_records
    &&& forall|j: int, k: int| s.has(j, k) ==> (#[trigger] s.task(j, k)).id < s.next_task_id
    &&& forall|j: int, k: int, j2: int, k2: int|
        s.has(j, k) && s.has(j2, k2) && (#[trigger] s.task(j, k)).id == (#[trigger] s.task(
            j2,
            k2,
        )).id ==> j == j2 && k == k2
}

/// The store with `f` applied to each of its tasks.
pub open spec fn map_tasks(s: StoreView, f: spec_fn(TaskView) -> TaskView) -> StoreView {
    StoreView {
        jobs: Seq::new(
            s.jobs.len(),
            |j: int|
                JobView {
                    record: s.jobs[j].record,
                    tasks: Seq::new(s.jobs[j].tasks.len(), |k: int| f(s.jobs[j].tasks[k])),
                },
        ),
        next_job_id: s.next_job_id,
        next_task_id: s.next_task_id,
    }
}

/// The empty store.
pub open spec fn empty_store() -> StoreView {
    StoreView { jobs: Seq::empty(), next_job_id: 1, next_task_id: 1 }
}

/// The store with one more job, which has no task yet.
pub open spec fn with_job(s: StoreView, total_records: i32, created_at: i64) -> StoreView {
    StoreView {
        jobs: s.jobs.push(
            JobView {
                record: JobRecord { id: s.next_job_id, created_at, total_records },
                tasks: Seq::empty(),
            },
        ),
        next_job_id: (s.next_job_id + 1) as i32,
        next_task_id: s.next_task_id,
    }
}

/// A task as it is enqueued.
pub open spec fn fresh_task(id: u64, input: TaskInputView) -> TaskView {
    TaskView { id, input, state: TaskState::Queued, attempt_count: 0, result: None }
}

/// The store with one more task at the end of the job at position `j`.
pub open spec fn with_task(s: StoreView, j: int, input: TaskInputView) -> StoreView {
    StoreView {
        jobs: s.jobs.update(
            j,
            JobView {
                record: s.jobs[j].record,
                tasks: s.jobs[j].tasks.push(fresh_task(s.next_task_id, input)),
            },
        ),
        next_job_id: s.next_job_id,
        next_task_id: (s.next_task_id + 1) as u64,
    }
}

/// A new job keeps the store consistent.
pub proof fn lemma_with_job_consistent(s: StoreView, total_records: i32, created_at: i64)
    requires
        store_consistent(s),
        total_records >= 0,
        s.next_job_id < i32::MAX,
    ensures
        store_consistent(with_job(s, total_records, created_at)),
{
    let w = with_job(s, total_records, created_at);
    assert forall|j: int, k: int| w.has(j, k) implies s.has(j, k) && w.task(j, k) == s.task(j, k) by {
        if j == s.jobs.len() {
            assert(w.jobs[j].tasks.len() == 0);
        }
    }
    assert forall|j: int| 0 <= j < w.jobs.len() implies (#[trigger] w.jobs[j]).tasks.len()
        <= w.jobs[j].record.total_records by {
        if j < s.jobs.len() {
            assert(w.jobs[j] == s.jobs[j]);
        }
    }
}

/// Two stores with the same counters, the same job records and, place by
/// place, the same tasks are the same store.
pub proof fn lemma_store_ext(a: StoreView, b: StoreView)
    requires
        a.next_job_id == b.next_job_id,
        a.next_task_id == b.next_task_id,
        a.jobs.len() == b.jobs.len(),
        forall|j: int|
            0 <= j < a.jobs.len() ==> (#[trigger] a.jobs[j]).record == b.jobs[j].record
                && a.jobs[j].tasks.len() == b.jobs[j].tasks.len(),
        forall|j: int, k: int| a.has(j, k) ==> #[trigger] a.task(j, k) == b.task(j, k),
    ensures
        a == b,
{
    assert forall|j: int| 0 <= j < a.jobs.len() implies a.jobs[j] == b.jobs[j] by {
        assert forall|k: int| 0 <= k < a.jobs[j].tasks.len() implies a.jobs[j].tasks[k]
            == b.jobs[j].tasks[k] by {
            assert(a.has(j, k));
            assert(a.task(j, k) == b.task(j, k));
        }
        assert(a.jobs[j].tasks =~= b.jobs[j].tasks);
    }
    assert(a.jobs =~= b.jobs);
}

/// A change of tasks that keeps their identifiers keeps the store
/// consistent.
pub proof fn lemma_map_tasks_consistent(s: StoreView, f: spec_fn(TaskView) -> TaskView)
    requires
        store_consistent(s),
        forall|t: TaskView| (#[trigger] f(t)).id == t.id,
    ensures
        store_consistent(map_tasks(s, f)),
{
    let m = map_tasks(s, f);
    assert forall|j: int, k: int| m.has(j, k) implies s.has(j, k) && #[trigger] m.task(j, k) == f(
        s.task(j, k),
    ) by {}
    assert forall|j: int, k: int, j2: int, k2: int|
        m.has(j, k) && m.has(j2, k2) && (#[trigger] m.task(j, k)).id == (#[trigger] m.task(
            j2,
            k2,
        )).id implies j == j2 && k == k2 by {
        assert(s.task(j, k).id == s.task(j2, k2).id);
    }
}

/// The change that completes the task with the given identifier.
pub open spec fn mark_done(task_id: u64) -> spec_fn(TaskView) -> TaskView {
    |t: TaskView|
        if t.id == task_id {
            TaskView { state: TaskState::Done, ..t }
        } else {
            t
        }
}

/// The store after the task with the given identifier was completed.
pub open spec fn completed(s: StoreView, task_id: u64) -> StoreView {
    map_tasks(s, mark_done(task_id))
}

/// The change that gives the task with the given identifier a result, unless
/// it has one.
pub open spec fn set_result(task_id: u64, output: OutputView) -> spec_fn(TaskView) -> TaskView {
    |t: TaskView|
        if t.id == task_id && t.result is None {
            TaskView { result: Some(output), ..t }
        } else {
            t
        }
}

/// The store after a result came in for the task with the given identifier.
pub open spec fn with_result(s: StoreView, task_id: u64, output: OutputView) -> StoreView {
    map_tasks(s, set_result(task_id, output))
}

/// A new task keeps the store consistent.
pub proof fn lemma_with_task_consistent(s: StoreView, j: int, input: TaskInputView)
    requires
        store_consistent(s),
        0 <= j < s.jobs.len(),
        s.jobs[j].tasks.len() < s.jobs[j].record.total_records,
        s.next_task_id < u64::MAX,
    ensures
        store_consistent(with_task(s, j, input)),
{
    let w = with_task(s, j, input);
    let last = s.jobs[j].tasks.len() as int;
    assert forall|a: int, b: int| w.has(a, b) implies if a == j && b == last {
        w.task(a, b).id == s.next_task_id
    } else {
        s.has(a, b) && w.task(a, b) == s.task(a, b)
    } by {}
    assert forall|a: int, b: int| w.has(a, b) implies (#[trigger] w.task(a, b)).id
        < w.next_task_id by {
        if !(a == j && b == last) {
            assert(w.task(a, b) == s.task(a, b));
        }
    }
    assert forall|a: int, b: int, a2: int, b2: int|
        w.has(a, b) && w.has(a2, b2) && (#[trigger] w.task(a, b)).id == (#[trigger] w.task(
            a2,
            b2,
        )).id implies a == a2 && b == b2 by {
        if !(a == j && b == last) {
            assert(w.task(a, b) == s.task(a, b));
        }
        if !(a2 == j && b2 == last) {
            assert(w.task(a2, b2) == s.task(a2, b2));
        }
    }
    assert forall|a: int| 0 <= a < w.jobs.len() implies (#[trigger] w.jobs[a]).record
        == s.jobs[a].record by {}
}

/// Can the task be leased at the time `now`? A queued task can, and so can
/// a leased one whose lease has run out; a completed one cannot.
pub open spec fn visible(t: TaskView, now: u64) -> bool {
    match t.state {
        TaskState::Queued => true,
        TaskState::Leased { worker, expires_at } => expires_at <= now,
        TaskState::Done => false,
    }
}

/// Is the task at the given place the next to be leased: the one with the
/// least identifier among those that can be?
pub open spec fn next_up(s: StoreView, now: u64, j: int, k: int) -> bool {
    &&& s.has(j, k)
    &&& visible(s.task(j, k), now)
    &&& forall|a: int, b: int|
        s.has(a, b) && visible(#[trigger] s.task(a, b), now) ==> s.task(j, k).id <= s.task(a, b).id
}

/// The time at which a lease that is taken at `now` for `duration` runs out.
pub open spec fn lease_end(now: u64, duration: u64) -> u64 {
    if now + duration <= u64::MAX {
        (now + duration) as u64
    } else {
        u64::MAX
    }
}

/// The change that leases the task with the given identifier.
pub open spec fn lease_task(task_id: u64, worker: u64, expires_at: u64) -> spec_fn(
    TaskView,
) -> TaskView {
    |t: TaskView|
        if t.id == task_id {
            TaskView {
                state: TaskState::Leased { worker, expires_at },
                attempt_count: if t.attempt_count < u32::MAX {
                    (t.attempt_count + 1) as u32
                } else {
                    t.attempt_count
                },
                ..t
            }
        } else {
            t
        }
}

/// The store after the task with the given identifier was leased.
pub open spec fn leased(s: StoreView, task_id: u64, worker: u64, expires_at: u64) -> StoreView {
    map_tasks(s, lease_task(task_id, worker, expires_at))
}

/// A task that a worker holds.
#[derive(Debug)]
pub struct Lease {
    /// The task's identifier.
    pub task_id: u64,
    /// The identifier of the task's job.
    pub job_id: i32,
    /// What the task checks.
    pub input: TaskInput,
    /// The time at which the lease runs out.
    pub expires_at: u64,
}

/// Does the task have a result with the given verdict?
pub open spec fn has_verdict(t: TaskView, verdict: Reachable) -> bool {
    t.result matches Some(o) && o.is_reachable == verdict
}

/// The number of tasks that have a result with the given verdict.
pub open spec fn count_verdict(tasks: Seq<TaskView>, verdict: Reachable) -> nat
    decreases tasks.len(),
{
    if tasks.len() == 0 {
        0
    } else {
        count_verdict(tasks.drop_last(), verdict) + if has_verdict(tasks.last(), verdict) {
            1nat
        } else {
            0nat
        }
    }
}

/// The number of tasks that have a result.
pub open spec fn processed(tasks: Seq<TaskView>) -> nat
    decreases tasks.len(),
{
    if tasks.len() == 0 {
        0
    } else {
        processed(tasks.drop_last()) + if tasks.last().result is Some {
            1nat
        } else {
            0nat
        }
    }
}

/// Every result has one of the four verdicts, and no more tasks have a
/// result than there are tasks.
pub proof fn lemma_processed_by_verdict(tasks: Seq<TaskView>)
    ensures
        processed(tasks) == count_verdict(tasks, Reachable::Safe) + count_verdict(
            tasks,
            Reachable::Risky,
        ) + count_verdict(tasks, Reachable::Invalid) + count_verdict(tasks, Reachable::Unknown),
        processed(tasks) <= tasks.len(),
    decreases tasks.len(),
{
    if tasks.len() > 0 {
        lemma_processed_by_verdict(tasks.drop_last());
    }
}

/// The status body of a job: its record, the number of its results, their
/// number by verdict, and the status that follows from them.
pub open spec fn job_status_of(job: JobView) -> JobStatusResponseBody {
    JobStatusResponseBody {
        job_id: job.record.id,
        created_at: job.record.created_at,
        total_records: job.record.total_records,
        total_processed: processed(job.tasks) as i32,
        summary: JobStatusSummaryResponseBody {
            total_safe: count_verdict(job.tasks, Reachable::Safe) as i32,
            total_risky: count_verdict(job.tasks, Reachable::Risky) as i32,
            total_invalid: count_verdict(job.tasks, Reachable::Invalid) as i32,
            total_unknown: count_verdict(job.tasks, Reachable::Unknown) as i32,
        },
        job_status: status_of(processed(job.tasks) as int, job.record.total_records as int),
    }
}

/// A job never has more results than records, and a job that is completed
/// has exactly as many.
pub proof fn lemma_job_progress(s: StoreView, j: int)
    requires
        store_consistent(s),
        0 <= j < s.jobs.len(),
    ensures
        processed(s.jobs[j].tasks) <= s.jobs[j].record.total_records,
        job_status_of(s.jobs[j]).total_processed == processed(s.jobs[j].tasks),
        job_status_of(s.jobs[j]).total_processed <= job_status_of(s.jobs[j]).total_records,
        job_status_of(s.jobs[j]).job_status == ValidStatus::Completed ==> job_status_of(
            s.jobs[j],
        ).total_processed == job_status_of(s.jobs[j]).total_records,
        job_status_of(s.jobs[j]).summary.total_safe + job_status_of(s.jobs[j]).summary.total_risky
            + job_status_of(s.jobs[j]).summary.total_invalid + job_status_of(
            s.jobs[j],
        ).summary.total_unknown == job_status_of(s.jobs[j]).total_processed,
{
    lemma_processed_by_verdict(s.jobs[j].tasks);
}

/// Completing a task twice leaves the store as completing it once does.
pub proof fn lemma_complete_is_idempotent(s: StoreView, task_id: u64)
    ensures
        completed(completed(s, task_id), task_id) == completed(s, task_id),
{
    let once = completed(s, task_id);
    let twice = completed(once, task_id);
    assert forall|j: int, k: int| twice.has(j, k) implies #[trigger] twice.task(j, k) == once.task(
        j,
        k,
    ) by {}
    lemma_store_ext(twice, once);
}

/// A result that comes in for a task that has one changes nothing: after a
/// first result, a second leaves the store as it is.
pub proof fn lemma_insert_is_idempotent(s: StoreView, task_id: u64, first: OutputView, second: OutputView)
    ensures
        with_result(with_result(s, task_id, first), task_id, second) == with_result(
            s,
            task_id,
            first,
        ),
{
    let once = with_result(s, task_id, first);
    let twice = with_result(once, task_id, second);
    assert forall|j: int, k: int| twice.has(j, k) implies #[trigger] twice.task(j, k) == once.task(
        j,
        k,
    ) by {}
    lemma_store_ext(twice, once);
}

/// A job that is created gets an identifier that no job of the store has,
/// so two jobs, however they were asked for, have two identifiers.
pub proof fn lemma_new_job_id_is_fresh(s: StoreView, total_records: i32, created_at: i64)
    requires
        store_consistent(s),
        total_records >= 0,
        s.next_job_id < i32::MAX,
    ensures
        !s.has_job(s.next_job_id),
        with_job(s, total_records, created_at).has_job(s.next_job_id),
        with_job(s, total_records, created_at).next_job_id > s.next_job_id,
{
    let w = with_job(s, total_records, created_at);
    assert(w.jobs[s.jobs.len() as int].record.id == s.next_job_id);
}

/// The results of two jobs are independent: a result that comes in for a
/// task touches the job of that task and no other job.
pub proof fn lemma_result_touches_one_job(
    s: StoreView,
    task_id: u64,
    output: OutputView,
    j: int,
    k: int,
    other: int,
)
    requires
        store_consistent(s),
        s.has(j, k),
        s.task(j, k).id == task_id,
        0 <= other < s.jobs.len(),
        other != j,
    ensures
        with_result(s, task_id, output).jobs[other] == s.jobs[other],
{
    let w = with_result(s, task_id, output);
    assert forall|b: int| 0 <= b < s.jobs[other].tasks.len() implies w.jobs[other].tasks[b]
        == s.jobs[other].tasks[b] by {
        assert(s.has(other, b));
        assert(s.task(other, b).id != task_id);
    }
    assert(w.jobs[other].tasks =~= s.jobs[other].tasks);
}

/// The first `count` tasks of a bulk request, as they are enqueued: task `i`
/// checks address `i` and has the identifier `first_id + i`.
pub open spec fn bulk_tasks(body: BulkRequestView, first_id: u64, count: int) -> Seq<TaskView> {
    Seq::new(count as nat, |i: int| fresh_task((first_id + i) as u64, task_of(body, i, i + 1)))
}

/// The store with a new job for a bulk request, of which the first `count`
/// tasks are enqueued.
pub open spec fn with_bulk_prefix(
    s: StoreView,
    body: BulkRequestView,
    created_at: i64,
    count: int,
) -> StoreView {
    StoreView {
        jobs: s.jobs.push(
            JobView {
                record: JobRecord {
                    id: s.next_job_id,
                    created_at,
                    total_records: body.input.len() as i32,
                },
                tasks: bulk_tasks(body, s.next_task_id, count),
            },
        ),
        next_job_id: (s.next_job_id + 1) as i32,
        next_task_id: (s.next_task_id + count) as u64,
    }
}

/// The store with a new job for a bulk request: one record and one task for
/// each address.
pub open spec fn with_bulk_job(s: StoreView, body: BulkRequestView, created_at: i64) -> StoreView {
    with_bulk_prefix(s, body, created_at, body.input.len() as int)
}

/// Does the store have room for the job of a bulk request?
pub open spec fn bulk_fits(s: StoreView, body: BulkRequestView) -> bool {
    &&& body.input.len() <= i32::MAX
    &&& s.next_job_id < i32::MAX
    &&& s.next_task_id + body.input.len() <= u64::MAX
}

/// Enqueueing the next task of a bulk request takes the store from one
/// prefix to the next.
proof fn lemma_bulk_prefix_step(s: StoreView, body: BulkRequestView, created_at: i64, count: int)
    requires
        bulk_fits(s, body),
        0 <= count < body.input.len(),
    ensures
        with_task(
            with_bulk_prefix(s, body, created_at, count),
            s.jobs.len() as int,
            task_of(body, count, count + 1),
        ) == with_bulk_prefix(s, body, created_at, count + 1),
{
    let before = with_bulk_prefix(s, body, created_at, count);
    let j = s.jobs.len() as int;
    let got = with_task(before, j, task_of(body, count, count + 1));
    let want = with_bulk_prefix(s, body, created_at, count + 1);
    assert(got.jobs[j].tasks =~= want.jobs[j].tasks);
    assert(got.jobs =~= want.jobs);
}

/// The results of a list of tasks, in the order of the tasks.
pub open spec fn results_of(tasks: Seq<TaskView>) -> Seq<OutputView>
    decreases tasks.len(),
{
    if tasks.len() == 0 {
        Seq::empty()
    } else {
        match tasks.last().result {
            Some(o) => results_of(tasks.drop_last()).push(o),
            None => results_of(tasks.drop_last()),
        }
    }
}

/// A page of a list: what is left after the first `offset` elements, cut
/// after `limit` elements.
pub open spec fn page<T>(all: Seq<T>, offset: int, limit: int) -> Seq<T> {
    let from = if offset <= all.len() {
        offset
    } else {
        all.len() as int
    };
    let to = if from + limit <= all.len() {
        from + limit
    } else {
        all.len() as int
    };
    all.subrange(from, to)
}

/// The models of a list of outputs.
pub open spec fn outputs_view(outputs: Seq<&CheckEmailOutput>) -> Seq<OutputView> {
    Seq::new(outputs.len(), |i: int| outputs[i]@)
}

/// The store without the job at position `j`. The job's tasks and their
/// results go with it.
pub open spec fn without_job(s: StoreView, j: int) -> StoreView {
    StoreView { jobs: s.jobs.remove(j), next_job_id: s.next_job_id, next_task_id: s.next_task_id }
}

/// Deleting a job keeps the store consistent and takes the job's tasks and
/// results with it: the job is gone, and every task that is left is a task
/// of a job that is left, as it was.
pub proof fn lemma_delete_cascades(s: StoreView, j: int)
    requires
        store_consistent(s),
        0 <= j < s.jobs.len(),
    ensures
        store_consistent(without_job(s, j)),
        !without_job(s, j).has_job(s.jobs[j].record.id),
        forall|k: int|
            0 <= k < s.jobs[j].tasks.len() ==> !without_job(s, j).has_task(
                (#[trigger] s.jobs[j].tasks[k]).id,
            ),
        forall|a: int|
            0 <= a < without_job(s, j).jobs.len() ==> #[trigger] without_job(s, j).jobs[a] == s.jobs[if a
                < j {
                a
            } else {
                a + 1
            }],
{
    let w = without_job(s, j);
    let shift = |a: int|
        if a < j {
            a
        } else {
            a + 1
        };
    assert forall|a: int| 0 <= a < w.jobs.len() implies #[trigger] w.jobs[a] == s.jobs[shift(a)] by {}
    assert forall|a: int, b: int| w.has(a, b) implies s.has(shift(a), b) && #[trigger] w.task(a, b)
        == s.task(shift(a), b) by {
        assert(w.jobs[a] == s.jobs[shift(a)]);
    }
    assert forall|a: int, b: int| 0 <= a < b < w.jobs.len() implies (#[trigger] w.jobs[a]).record.id
        < (#[trigger] w.jobs[b]).record.id by {
        assert(w.jobs[a] == s.jobs[shift(a)]);
        assert(w.jobs[b] == s.jobs[shift(b)]);
    }
    assert forall|a: int, b: int, a2: int, b2: int|
        w.has(a, b) && w.has(a2, b2) && (#[trigger] w.task(a, b)).id == (#[trigger] w.task(
            a2,
            b2,
        )).id implies a == a2 && b == b2 by {
        assert(s.task(shift(a), b).id == s.task(shift(a2), b2).id);
    }
    assert forall|a: int| 0 <= a < w.jobs.len() implies (#[trigger] w.jobs[a]).record.id
        != s.jobs[j].record.id by {
        assert(w.jobs[a] == s.jobs[shift(a)]);
        if shift(a) < j {
            assert(s.jobs[shift(a)].record.id < s.jobs[j].record.id);
        } else {
            assert(s.jobs[j].record.id < s.jobs[shift(a)].record.id);
        }
    }
    assert forall|k: int| 0 <= k < s.jobs[j].tasks.len() implies !w.has_task(
        (#[trigger] s.jobs[j].tasks[k]).id,
    ) by {
        assert(s.has(j, k));
        assert forall|a: int, b: int| w.has(a, b) implies (#[trigger] w.task(a, b)).id
            != s.jobs[j].tasks[k].id by {
            assert(s.has(shift(a), b));
            assert(w.task(a, b) == s.task(shift(a), b));
            assert(s.task(j, k).id == s.jobs[j].tasks[k].id);
        }
    }
}

/// What the store refuses.
#[derive(Clone, Copy, Debug, PartialEq, Eq, Structural)]
pub enum StoreError {
    /// A job cannot have a negative number of records.
    NegativeTotal,
    /// There is no job with the given identifier.
    NoSuchJob,
    /// The job already has as many tasks as records.
    JobFull,
    /// The identifiers have run out.
    Exhausted,
}

/// The job store.
#[derive(Debug)]
pub struct JobStore {
    jobs: Vec<Job>,
    next_job_id: i32,
    next_task_id: u64,
}

impl View for JobStore {
    type V = StoreView;

    closed spec fn view(&self) -> StoreView {
        StoreView {
            jobs: jobs_view(self.jobs@),
            next_job_id: self.next_job_id,
            next_task_id: self.next_task_id,
        }
    }
}

impl JobStore {
    /// The empty store.
    pub fn new() -> (store: JobStore)
        ensures
            store@ == empty_store(),
            store_consistent(store@),
    {
        let store = JobStore { jobs: Vec::new(), next_job_id: 1, next_task_id: 1 };
        assert(store@.jobs =~= Seq::<JobView>::empty());
        store
    }

    /// The position of the job with the given identifier.
    fn find_job(&self, job_id: i32) -> (found: Option<usize>)
        ensures
            match found {
                Some(j) => j < self@.jobs.len() && self@.jobs[j as int].record.id == job_id,
                None => !self@.has_job(job_id),
            },
    {
        let mut j: usize = 0;
        while j < self.jobs.len()
            invariant
                j <= self.jobs.len(),
                forall|i: int| 0 <= i < j ==> (#[trigger] self@.jobs[i]).record.id != job_id,
            decreases self.jobs.len() - j,
        {
            if self.jobs[j].record.id == job_id {
                return Some(j);
            }
            j += 1;
        }
        None
    }

    /// Creates a job with the given number of records and creation time, and
    /// returns its identifier.
    pub fn create_job(&mut self, total_records: i32, created_at: i64) -> (created: Result<
        i32,
        StoreError,
    >)
        requires
            store_consistent(old(self)@),
        ensures
            store_consistent(final(self)@),
            match created {
                Ok(id) => {
                    &&& total_records >= 0
                    &&& old(self)@.next_job_id < i32::MAX
                    &&& id == old(self)@.next_job_id
                    &&& final(self)@ == with_job(old(self)@, total_records, created_at)
                },
                Err(e) => {
                    &&& final(self)@ == old(self)@
                    &&& e == StoreError::NegativeTotal <==> total_records < 0
                    &&& e == StoreError::Exhausted <==> total_records >= 0
                        && old(self)@.next_job_id == i32::MAX
                    &&& e == StoreError::NegativeTotal || e == StoreError::Exhausted
                },
            },
    {
        if total_records < 0 {
            return Err(StoreError::NegativeTotal);
        }
        if self.next_job_id == i32::MAX {
            return Err(StoreError::Exhausted);
        }
        let id = self.next_job_id;
        self.next_job_id = id + 1;
        self.jobs.push(Job { record: JobRecord { id, created_at, total_records }, tasks: Vec::new() });
        proof {
            let now = self@;
            let want = with_job(old(self)@, total_records, created_at);
            assert(now.jobs[old(self)@.jobs.len() as int].tasks =~= Seq::<TaskView>::empty());
            assert(now.jobs =~= want.jobs);
            lemma_with_job_consistent(old(self)@, total_records, created_at);
        }
        Ok(id)
    }

    /// The place of the task with the given identifier.
    fn find_task(&self, task_id: u64) -> (found: Option<(usize, usize)>)
        ensures
            match found {
                Some((j, k)) => self@.has(j as int, k as int) && self@.task(j as int, k as int).id
                    == task_id,
                None => !self@.has_task(task_id),
            },
    {
        let mut j: usize = 0;
        while j < self.jobs.len()
            invariant
                j <= self.jobs.len(),
                forall|a: int, b: int|
                    self@.has(a, b) && a < j ==> (#[trigger] self@.task(a, b)).id != task_id,
            decreases self.jobs.len() - j,
        {
            let mut k: usize = 0;
            while k < self.jobs[j].tasks.len()
                invariant
                    j < self.jobs.len(),
                    k <= self.jobs[j as int].tasks.len(),
                    forall|a: int, b: int|
                        self@.has(a, b) && a < j ==> (#[trigger] self@.task(a, b)).id != task_id,
                    forall|b: int| 0 <= b < k ==> (#[trigger] self@.task(j as int, b)).id != task_id,
                decreases self.jobs[j as int].tasks.len() - k,
            {
                if self.jobs[j].tasks[k].id == task_id {
                    return Some((j, k));
                }
                k += 1;
            }
            j += 1;
        }
        None
    }

    /// Completes the task with the given identifier, and says whether there
    /// is such a task. Completing a task again changes nothing.
    pub fn complete_task(&mut self, task_id: u64) -> (found: bool)
        requires
            store_consistent(old(self)@),
        ensures
            store_consistent(final(self)@),
            final(self)@ == completed(old(self)@, task_id),
            found == old(self)@.has_task(task_id),
    {
        match self.find_task(task_id) {
            Some((j, k)) => {
                self.jobs[j].tasks[k].state = TaskState::Done;
                proof {
                    let want = completed(old(self)@, task_id);
                    lemma_map_tasks_consistent(old(self)@, mark_done(task_id));
                    assert forall|a: int, b: int| self@.has(a, b) implies #[trigger] self@.task(a, b)
                        == want.task(a, b) by {
                        assert(old(self)@.has(a, b));
                        if a == j && b == k {
                        } else {
                            assert(self@.task(a, b) == old(self)@.task(a, b));
                        }
                    }
                    lemma_store_ext(self@, want);
                }
                true
            },
            None => {
                proof {
                    let want = completed(old(self)@, task_id);
                    assert forall|a: int, b: int| self@.has(a, b) implies #[trigger] self@.task(a, b)
                        == want.task(a, b) by {}
                    lemma_store_ext(self@, want);
                }
                false
            },
        }
    }

    /// Enqueues a task for the job with the given identifier, and returns
    /// the task's identifier. A job takes as many tasks as it has records.
    pub fn enqueue_task(&mut self, job_id: i32, input: TaskInput) -> (enqueued: Result<
        u64,
        StoreError,
    >)
        requires
            store_consistent(old(self)@),
        ensures
            store_consistent(final(self)@),
            match enqueued {
                Ok(id) => exists|j: int|
                    {
                        &&& 0 <= j < old(self)@.jobs.len()
                        &&& (#[trigger] old(self)@.jobs[j]).record.id == job_id
                        &&& old(self)@.jobs[j].tasks.len() < old(self)@.jobs[j].record.total_records
                        &&& old(self)@.next_task_id < u64::MAX
                        &&& id == old(self)@.next_task_id
                        &&& final(self)@ == with_task(old(self)@, j, input@)
                    },
                Err(e) => {
                    &&& final(self)@ == old(self)@
                    &&& match e {
                        StoreError::NoSuchJob => !old(self)@.has_job(job_id),
                        StoreError::JobFull => exists|j: int|
                            0 <= j < old(self)@.jobs.len() && (#[trigger] old(self)@.jobs[j]).record.id
                                == job_id && old(self)@.jobs[j].tasks.len()
                                >= old(self)@.jobs[j].record.total_records,
                        StoreError::Exhausted => old(self)@.has_job(job_id)
                            && old(self)@.next_task_id == u64::MAX,
                        StoreError::NegativeTotal => false,
                    }
                },
            },
    {
        let j = match self.find_job(job_id) {
            Some(j) => j,
            None => {
                return Err(StoreError::NoSuchJob);
            },
        };
        let total = self.jobs[j].record.total_records;
        if total < 0 || self.jobs[j].tasks.len() >= total as usize {
            return Err(StoreError::JobFull);
        }
        if self.next_task_id == u64::MAX {
            return Err(StoreError::Exhausted);
        }
        let id = self.next_task_id;
        self.next_task_id = id + 1;
        self.jobs[j].tasks.push(
            Task { id, input, state: TaskState::Queued, attempt_count: 0, result: None },
        );
        proof {
            let want = with_task(old(self)@, j as int, input@);
            lemma_with_task_consistent(old(self)@, j as int, input@);
            assert forall|a: int| 0 <= a < self@.jobs.len() implies (#[trigger] self@.jobs[a]).record
                == want.jobs[a].record && self@.jobs[a].tasks.len()
                == want.jobs[a].tasks.len() by {
                if a != j {
                    assert(self.jobs@[a] == old(self).jobs@[a]);
                }
            }
            assert forall|a: int, b: int| self@.has(a, b) implies #[trigger] self@.task(a, b)
                == want.task(a, b) by {
                if a != j {
                    assert(self.jobs@[a] == old(self).jobs@[a]);
                }
            }
            lemma_store_ext(self@, want);
        }
        Ok(id)
    }

    /// Stores the result of the task with the given identifier, and says
    /// whether it was stored. A task keeps the first result that comes in for
    /// it: a second one, as a redelivered task gives, is dropped.
    pub fn insert_result(&mut self, task_id: u64, output: CheckEmailOutput) -> (stored: bool)
        requires
            store_consistent(old(self)@),
        ensures
            store_consistent(final(self)@),
            final(self)@ == with_result(old(self)@, task_id, output@),
            stored == (exists|j: int, k: int|
                old(self)@.has(j, k) && (#[trigger] old(self)@.task(j, k)).id == task_id
                    && old(self)@.task(j, k).result is None),
    {
        proof {
            lemma_map_tasks_consistent(old(self)@, set_result(task_id, output@));
        }
        match self.find_task(task_id) {
            Some((j, k)) => {
                if self.jobs[j].tasks[k].result.is_some() {
                    proof {
                        let want = with_result(old(self)@, task_id, output@);
                        assert forall|a: int, b: int| self@.has(a, b) implies #[trigger] self@.task(
                            a,
                            b,
                        ) == want.task(a, b) by {}
                        lemma_store_ext(self@, want);
                        assert forall|a: int, b: int|
                            old(self)@.has(a, b) && (#[trigger] old(self)@.task(a, b)).id
                                == task_id implies old(self)@.task(a, b).result is Some by {
                            assert(a == j && b == k);
                        }
                    }
                    return false;
                }
                self.jobs[j].tasks[k].result = Some(output);
                proof {
                    let want = with_result(old(self)@, task_id, output@);
                    assert forall|a: int, b: int| self@.has(a, b) implies #[trigger] self@.task(a, b)
                        == want.task(a, b) by {
                        assert(old(self)@.has(a, b));
                        if a == j && b == k {
                        } else {
                            assert(self@.task(a, b) == old(self)@.task(a, b));
                        }
                    }
                    lemma_store_ext(self@, want);
                    assert(old(self)@.has(j as int, k as int));
                }
                true
            },
            None => {
                proof {
                    let want = with_result(old(self)@, task_id, output@);
                    assert forall|a: int, b: int| self@.has(a, b) implies #[trigger] self@.task(a, b)
                        == want.task(a, b) by {}
                    lemma_store_ext(self@, want);
                }
                false
            },
        }
    }

    /// Can the task at the given place be leased at the time `now`?
    fn is_visible(&self, j: usize, k: usize, now: u64) -> (can: bool)
        requires
            self@.has(j as int, k as int),
        ensures
            can == visible(self@.task(j as int, k as int), now),
    {
        match self.jobs[j].tasks[k].state {
            TaskState::Queued => true,
            TaskState::Leased { worker, expires_at } => expires_at <= now,
            TaskState::Done => false,
        }
    }

    /// The place of the next task to be leased at the time `now`.
    fn find_next(&self, now: u64) -> (found: Option<(usize, usize)>)
        ensures
            match found {
                Some((j, k)) => next_up(self@, now, j as int, k as int),
                None => forall|a: int, b: int|
                    self@.has(a, b) ==> !visible(#[trigger] self@.task(a, b), now),
            },
    {
        let mut best: Option<(usize, usize)> = None;
        let mut j: usize = 0;
        while j < self.jobs.len()
            invariant
                j <= self.jobs.len(),
                match best {
                    Some((bj, bk)) => {
                        &&& self@.has(bj as int, bk as int)
                        &&& visible(self@.task(bj as int, bk as int), now)
                        &&& forall|a: int, b: int|
                            self@.has(a, b) && a < j && visible(#[trigger] self@.task(a, b), now)
                                ==> self@.task(bj as int, bk as int).id <= self@.task(a, b).id
                    },
                    None => forall|a: int, b: int|
                        self@.has(a, b) && a < j ==> !visible(#[trigger] self@.task(a, b), now),
                },
            decreases self.jobs.len() - j,
        {
            let mut k: usize = 0;
            while k < self.jobs[j].tasks.len()
                invariant
                    j < self.jobs.len(),
                    k <= self.jobs[j as int].tasks.len(),
                    match best {
                        Some((bj, bk)) => {
                            &&& self@.has(bj as int, bk as int)
                            &&& visible(self@.task(bj as int, bk as int), now)
                            &&& forall|a: int, b: int|
                                self@.has(a, b) && (a < j || (a == j && b < k)) && visible(
                                    #[trigger] self@.task(a, b),
                                    now,
                                ) ==> self@.task(bj as int, bk as int).id <= self@.task(a, b).id
                        },
                        None => forall|a: int, b: int|
                            self@.has(a, b) && (a < j || (a == j && b < k)) ==> !visible(
                                #[trigger] self@.task(a, b),
                                now,
                            ),
                    },
                decreases self.jobs[j as int].tasks.len() - k,
            {
                if self.is_visible(j, k, now) {
                    let better = match best {
                        Some((bj, bk)) => self.jobs[j].tasks[k].id < self.jobs[bj].tasks[bk].id,
                        None => true,
                    };
                    if better {
                        best = Some((j, k));
                    }
                }
                k += 1;
            }
            j += 1;
        }
        best
    }

    /// Leases the next task to the worker, for `lease_duration` from the
    /// time `now`, if a task can be leased. Tasks are handed out in the order
    /// of their identifiers.
    pub fn lease_next(&mut self, worker_id: u64, now: u64, lease_duration: u64) -> (lease: Option<
        Lease,
    >)
        requires
            store_consistent(old(self)@),
        ensures
            store_consistent(final(self)@),
            match lease {
                Some(l) => exists|j: int, k: int|
                    {
                        &&& #[trigger] next_up(old(self)@, now, j, k)
                        &&& l.task_id == old(self)@.task(j, k).id
                        &&& l.job_id == old(self)@.jobs[j].record.id
                        &&& l.input@ == old(self)@.task(j, k).input
                        &&& l.expires_at == lease_end(now, lease_duration)
                        &&& final(self)@ == leased(old(self)@, l.task_id, worker_id, l.expires_at)
                    },
                None => {
                    &&& final(self)@ == old(self)@
                    &&& forall|a: int, b: int|
                        old(self)@.has(a, b) ==> !visible(#[trigger] old(self)@.task(a, b), now)
                },
            },
    {
        let (j, k) = match self.find_next(now) {
            Some(place) => place,
            None => {
                return None;
            },
        };
        let expires_at = if lease_duration <= u64::MAX - now {
            now + lease_duration
        } else {
            u64::MAX
        };
        let task_id = self.jobs[j].tasks[k].id;
        let job_id = self.jobs[j].record.id;
        let input = self.jobs[j].tasks[k].input.duplicate();
        let attempts = self.jobs[j].tasks[k].attempt_count;
        self.jobs[j].tasks[k].state = TaskState::Leased { worker: worker_id, expires_at };
        if attempts < u32::MAX {
            self.jobs[j].tasks[k].attempt_count = attempts + 1;
        }
        proof {
            let want = leased(old(self)@, task_id, worker_id, expires_at);
            lemma_map_tasks_consistent(old(self)@, lease_task(task_id, worker_id, expires_at));
            assert forall|a: int, b: int| self@.has(a, b) implies #[trigger] self@.task(a, b)
                == want.task(a, b) by {
                assert(old(self)@.has(a, b));
                if a == j && b == k {
                } else {
                    assert(self@.task(a, b) == old(self)@.task(a, b));
                }
            }
            lemma_store_ext(self@, want);
            assert(next_up(old(self)@, now, j as int, k as int));
        }
        Some(Lease { task_id, job_id, input, expires_at })
    }

    /// The status of the job with the given identifier, if there is such a
    /// job. The status is derived from the job's results, not stored.
    pub fn job_status(&self, job_id: i32) -> (status: Option<JobStatusResponseBody>)
        requires
            store_consistent(self@),
        ensures
            match status {
                Some(body) => exists|j: int|
                    0 <= j < self@.jobs.len() && (#[trigger] self@.jobs[j]).record.id == job_id
                        && body == job_status_of(self@.jobs[j]),
                None => !self@.has_job(job_id),
            },
    {
        let j = match self.find_job(job_id) {
            Some(j) => j,
            None => {
                return None;
            },
        };
        let record = self.jobs[j].record;
        let ghost tasks = self@.jobs[j as int].tasks;
        let mut safe: i32 = 0;
        let mut risky: i32 = 0;
        let mut invalid: i32 = 0;
        let mut unknown: i32 = 0;
        let mut k: usize = 0;
        proof {
            assert(tasks.take(0) =~= Seq::<TaskView>::empty());
        }
        while k < self.jobs[j].tasks.len()
            invariant
                j < self.jobs.len(),
                tasks == self@.jobs[j as int].tasks,
                k <= tasks.len(),
                tasks.len() <= i32::MAX,
                safe == count_verdict(tasks.take(k as int), Reachable::Safe),
                risky == count_verdict(tasks.take(k as int), Reachable::Risky),
                invalid == count_verdict(tasks.take(k as int), Reachable::Invalid),
                unknown == count_verdict(tasks.take(k as int), Reachable::Unknown),
                safe + risky + invalid + unknown <= k,
            decreases tasks.len() - k,
        {
            proof {
                assert(tasks.take(k + 1).drop_last() =~= tasks.take(k as int));
                assert(tasks.take(k + 1).last() == tasks[k as int]);
                lemma_processed_by_verdict(tasks.take(k + 1));
            }
            match &self.jobs[j].tasks[k].result {
                Some(output) => match output.is_reachable() {
                    Reachable::Safe => {
                        safe += 1;
                    },
                    Reachable::Risky => {
                        risky += 1;
                    },
                    Reachable::Invalid => {
                        invalid += 1;
                    },
                    Reachable::Unknown => {
                        unknown += 1;
                    },
                },
                None => {},
            }
            k += 1;
        }
        proof {
            assert(tasks.take(k as int) =~= tasks);
            lemma_processed_by_verdict(tasks);
        }
        let total_processed = safe + risky + invalid + unknown;
        let summary = JobStatusSummaryResponseBody {
            total_safe: safe,
            total_risky: risky,
            total_invalid: invalid,
            total_unknown: unknown,
        };
        Some(crate::bulk::job_status(record, total_processed, summary))
    }

    /// Creates the job of a bulk request, with one task for each address,
    /// and returns the job's identifier. A request without addresses is
    /// refused, and so is one that the store has no room for; the store is
    /// then as it was.
    pub fn create_bulk_job(&mut self, body: CreateBulkRequestBody, created_at: i64) -> (created:
        Result<CreateBulkResponseBody, BulkError>)
        requires
            store_consistent(old(self)@),
        ensures
            store_consistent(final(self)@),
            created is Ok <==> body@.input.len() > 0 && bulk_fits(old(self)@, body@),
            match created {
                Ok(response) => {
                    &&& response.job_id == old(self)@.next_job_id
                    &&& final(self)@ == with_bulk_job(old(self)@, body@, created_at)
                },
                Err(e) => {
                    &&& final(self)@ == old(self)@
                    &&& e is EmptyInput <==> body@.input.len() == 0
                    &&& e is Db <==> body@.input.len() > 0 && !bulk_fits(old(self)@, body@)
                },
            },
    {
        let total_records = match check_bulk_request(&body) {
            Ok(total_records) => total_records,
            Err(e) => {
                return Err(e);
            },
        };
        if self.next_job_id == i32::MAX || total_records as u64 > u64::MAX - self.next_task_id {
            return Err(BulkError::Db("the store has no room for the job".to_string()));
        }
        let job_id = match self.create_job(total_records, created_at) {
            Ok(id) => id,
            Err(_) => {
                return Err(BulkError::Db("the store has no room for the job".to_string()));
            },
        };
        let ghost start = old(self)@;
        let ghost request = body@;
        proof {
            assert(bulk_tasks(request, start.next_task_id, 0) =~= Seq::<TaskView>::empty());
            assert(self@ == with_bulk_prefix(start, request, created_at, 0));
        }
        let mut walk = body.into_iter();
        let mut count: usize = 0;
        loop
            invariant
                bulk_fits(start, request),
                store_consistent(start),
                store_consistent(self@),
                walk@.body == request,
                walk@.batch_size == 1,
                walk@.index == count,
                count <= request.input.len(),
                job_id == start.next_job_id,
                self@ == with_bulk_prefix(start, request, created_at, count as int),
            ensures
                count == request.input.len(),
                self@ == with_bulk_prefix(start, request, created_at, count as int),
                store_consistent(self@),
            decreases request.input.len() - count,
        {
            let task = match walk.next() {
                Some(task) => task,
                None => {
                    break ;
                },
            };
            let ghost before = self@;
            proof {
                lemma_bulk_prefix_step(start, request, created_at, count as int);
                assert(before.jobs[start.jobs.len() as int].record.id == job_id);
            }
            match self.enqueue_task(job_id, task) {
                Ok(_) => {
                    proof {
                        let j = choose|j: int|
                            0 <= j < before.jobs.len() && (#[trigger] before.jobs[j]).record.id
                                == job_id && self@ == with_task(before, j, task@);
                        assert(j == start.jobs.len());
                    }
                },
                Err(e) => {
                    proof {
                        let j = start.jobs.len() as int;
                        assert(before.jobs[j].record.id == job_id);
                        assert(before.has_job(job_id));
                        assert(before.jobs[j].tasks.len() < before.jobs[j].record.total_records);
                        if e == StoreError::JobFull {
                            let full = choose|i: int|
                                0 <= i < before.jobs.len() && (#[trigger] before.jobs[i]).record.id
                                    == job_id && before.jobs[i].tasks.len()
                                    >= before.jobs[i].record.total_records;
                            assert(full == j);
                        }
                        assert(false);
                    }
                },
            }
            count += 1;
        }
        Ok(CreateBulkResponseBody { job_id })
    }

    /// Ends a task: its result is stored, unless it has one, and the task is
    /// completed, in one step. Says whether there is such a task.
    pub fn finish_task(&mut self, task_id: u64, output: CheckEmailOutput) -> (found: bool)
        requires
            store_consistent(old(self)@),
        ensures
            store_consistent(final(self)@),
            final(self)@ == completed(with_result(old(self)@, task_id, output@), task_id),
            found == old(self)@.has_task(task_id),
    {
        let _ = self.insert_result(task_id, output);
        let ghost middle = self@;
        let found = self.complete_task(task_id);
        proof {
            if middle.has_task(task_id) {
                let (j, k) = choose|j: int, k: int|
                    middle.has(j, k) && (#[trigger] middle.task(j, k)).id == task_id;
                assert(old(self)@.has(j, k) && old(self)@.task(j, k).id == task_id);
            }
            if old(self)@.has_task(task_id) {
                let (j, k) = choose|j: int, k: int|
                    old(self)@.has(j, k) && (#[trigger] old(self)@.task(j, k)).id == task_id;
                assert(middle.has(j, k) && middle.task(j, k).id == task_id);
            }
        }
        found
    }

    /// A page of the results of the job with the given identifier, if there
    /// is such a job: the results in the order of the job's tasks, without
    /// the first `offset`, and no more than `limit` of them.
    pub fn job_results(&self, job_id: i32, limit: usize, offset: usize) -> (results: Option<
        Vec<&CheckEmailOutput>,
    >)
        ensures
            match results {
                Some(rows) => exists|j: int|
                    0 <= j < self@.jobs.len() && (#[trigger] self@.jobs[j]).record.id == job_id
                        && outputs_view(rows@) == page(
                        results_of(self@.jobs[j].tasks),
                        offset as int,
                        limit as int,
                    ),
                None => !self@.has_job(job_id),
            },
    {
        let j = match self.find_job(job_id) {
            Some(j) => j,
            None => {
                return None;
            },
        };
        let ghost tasks = self@.jobs[j as int].tasks;
        let mut all: Vec<&CheckEmailOutput> = Vec::new();
        let mut k: usize = 0;
        proof {
            assert(tasks.take(0) =~= Seq::<TaskView>::empty());
            assert(outputs_view(all@) =~= results_of(tasks.take(0)));
        }
        while k < self.jobs[j].tasks.len()
            invariant
                j < self.jobs.len(),
                tasks == self@.jobs[j as int].tasks,
                k <= tasks.len(),
                outputs_view(all@) == results_of(tasks.take(k as int)),
            decreases tasks.len() - k,
        {
            proof {
                assert(tasks.take(k + 1).drop_last() =~= tasks.take(k as int));
                assert(tasks.take(k + 1).last() == tasks[k as int]);
            }
            let ghost before = all@;
            match &self.jobs[j].tasks[k].result {
                Some(output) => {
                    all.push(output);
                    proof {
                        assert(outputs_view(all@) =~= outputs_view(before).push(output@));
                    }
                },
                None => {},
            }
            k += 1;
        }
        proof {
            assert(tasks.take(k as int) =~= tasks);
        }
        let from = if offset <= all.len() {
            offset
        } else {
            all.len()
        };
        let to = if limit <= all.len() - from {
            from + limit
        } else {
            all.len()
        };
        let mut rows: Vec<&CheckEmailOutput> = Vec::new();
        let mut i: usize = from;
        while i < to
            invariant
                from <= i <= to,
                to <= all.len(),
                rows.len() == i - from,
                forall|r: int| 0 <= r < rows.len() ==> #[trigger] rows@[r] == all@[from + r],
            decreases to - i,
        {
            rows.push(all[i]);
            i += 1;
        }
        proof {
            assert(outputs_view(rows@) =~= page(
                results_of(tasks),
                offset as int,
                limit as int,
            ));
        }
        Some(rows)
    }

    /// Deletes the job with the given identifier, with its tasks and their
    /// results, and says whether there was such a job.
    pub fn delete_job(&mut self, job_id: i32) -> (deleted: bool)
        requires
            store_consistent(old(self)@),
        ensures
            store_consistent(final(self)@),
            deleted == old(self)@.has_job(job_id),
            !final(self)@.has_job(job_id),
            match deleted {
                true => exists|j: int|
                    0 <= j < old(self)@.jobs.len() && (#[trigger] old(self)@.jobs[j]).record.id
                        == job_id && final(self)@ == without_job(old(self)@, j),
                false => final(self)@ == old(self)@,
            },
    {
        match self.find_job(job_id) {
            Some(j) => {
                let _ = self.jobs.remove(j);
                proof {
                    lemma_delete_cascades(old(self)@, j as int);
                    assert(self@.jobs =~= without_job(old(self)@, j as int).jobs);
                }
                true
            },
            None => false,
        }
    }
}

} // verus!
