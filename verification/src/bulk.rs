//! The bodies of the bulk endpoints, and how a bulk request is cut into
//! tasks of one address each.

use crate::input::{
    copy_proxy, copy_text, default_from_email, default_hello_name, proxy_view, text_view,
    CheckEmailInput, CheckEmailInputProxy, InputView, ProxyView, DEFAULT_SMTP_PORT,
    DEFAULT_SMTP_TIMEOUT_SECS,
};
use crate::text::text_lines;
use vstd::prelude::*;

verus! {

/// The number of addresses that one task checks. The result of a task is
/// stored in one step, which holds one output: the size stays at one.
pub const EMAIL_TASK_BATCH_SIZE: usize = 1;

/// The body of a request to create a bulk job.
#[derive(Debug)]
pub struct CreateBulkRequestBody {
    pub input_type: String,
    pub input: Vec<String>,
    pub proxy: Option<CheckEmailInputProxy>,
    pub hello_name: Option<String>,
    pub from_email: Option<String>,
    pub smtp_ports: Option<Vec<u16>>,
}

/// The model of a request to create a bulk job.
pub struct BulkRequestView {
    pub input_type: Seq<char>,
    pub input: Seq<Seq<char>>,
    pub proxy: Option<ProxyView>,
    pub hello_name: Option<Seq<char>>,
    pub from_email: Option<Seq<char>>,
    pub smtp_ports: Option<Seq<u16>>,
}

/// The model of an optional list of ports.
pub open spec fn ports_view(ports: Option<Vec<u16>>) -> Option<Seq<u16>> {
    match ports {
        Some(p) => Some(p@),
        None => None,
    }
}

impl View for CreateBulkRequestBody {
    type V = BulkRequestView;

    open spec fn view(&self) -> BulkRequestView {
        BulkRequestView {
            input_type: self.input_type@,
            input: text_lines(self.input@),
            proxy: proxy_view(self.proxy),
            hello_name: text_view(self.hello_name),
            from_email: text_view(self.from_email),
            smtp_ports: ports_view(self.smtp_ports),
        }
    }
}

/// The input of one task: the addresses it checks and the settings of the
/// bulk request it came from.
#[derive(Debug)]
pub struct TaskInput {
    pub to_emails: Vec<String>,
    pub smtp_ports: Vec<u16>,
    pub proxy: Option<CheckEmailInputProxy>,
    pub hello_name: Option<String>,
    pub from_email: Option<String>,
}

/// The model of a task's input.
pub struct TaskInputView {
    pub to_emails: Seq<Seq<char>>,
    pub smtp_ports: Seq<u16>,
    pub proxy: Option<ProxyView>,
    pub hello_name: Option<Seq<char>>,
    pub from_email: Option<Seq<char>>,
}

impl View for TaskInput {
    type V = TaskInputView;

    open spec fn view(&self) -> TaskInputView {
        TaskInputView {
            to_emails: text_lines(self.to_emails@),
            smtp_ports: self.smtp_ports@,
            proxy: proxy_view(self.proxy),
            hello_name: text_view(self.hello_name),
            from_email: text_view(self.from_email),
        }
    }
}

/// The ports that a task tries: those of the request, or port 25 where the
/// request names none.
pub open spec fn task_ports(ports: Option<Seq<u16>>) -> Seq<u16> {
    match ports {
        Some(p) => p,
        None => seq![DEFAULT_SMTP_PORT],
    }
}

/// The task that checks the addresses of a request from index `from` up to,
/// and not including, index `to`.
pub open spec fn task_of(body: BulkRequestView, from: int, to: int) -> TaskInputView {
    TaskInputView {
        to_emails: body.input.subrange(from, to),
        smtp_ports: task_ports(body.smtp_ports),
        proxy: body.proxy,
        hello_name: body.hello_name,
        from_email: body.from_email,
    }
}

/// The index at which the batch that starts at `index` ends.
pub open spec fn batch_end(index: nat, batch_size: nat, len: nat) -> nat {
    if index + batch_size <= len {
        index + batch_size
    } else {
        len
    }
}

/// The input of the check that a task asks for, if the task holds an
/// address: the task's first address, on its first port, with the defaults
/// for what the task leaves out.
pub open spec fn task_check_input(task: TaskInputView) -> Option<InputView> {
    if task.to_emails.len() == 0 {
        None
    } else {
        Some(
            InputView {
                to_email: task.to_emails[0],
                from_email: match task.from_email {
                    Some(from) => from,
                    None => default_from_email(),
                },
                hello_name: match task.hello_name {
                    Some(name) => name,
                    None => default_hello_name(),
                },
                proxy: task.proxy,
                smtp_port: if task.smtp_ports.len() > 0 {
                    task.smtp_ports[0]
                } else {
                    DEFAULT_SMTP_PORT
                },
                smtp_timeout: DEFAULT_SMTP_TIMEOUT_SECS,
            },
        )
    }
}

/// A copy of the texts from index `from` up to, and not including, `to`.
pub fn copy_lines(lines: &Vec<String>, from: usize, to: usize) -> (copy: Vec<String>)
    requires
        from <= to <= lines.len(),
    ensures
        text_lines(copy@) == text_lines(lines@).subrange(from as int, to as int),
{
    let mut copy: Vec<String> = Vec::new();
    let mut i: usize = from;
    while i < to
        invariant
            from <= i <= to,
            to <= lines.len(),
            copy.len() == i - from,
            forall|j: int| 0 <= j < copy.len() ==> (#[trigger] copy@[j])@ == lines@[from + j]@,
        decreases to - i,
    {
        copy.push(lines[i].clone());
        i += 1;
    }
    assert(text_lines(copy@) =~= text_lines(lines@).subrange(from as int, to as int));
    copy
}

/// A copy of a list of ports.
pub fn copy_ports(ports: &Vec<u16>) -> (copy: Vec<u16>)
    ensures
        copy@ == ports@,
{
    let mut copy: Vec<u16> = Vec::new();
    let mut i: usize = 0;
    while i < ports.len()
        invariant
            i <= ports.len(),
            copy@ == ports@.take(i as int),
        decreases ports.len() - i,
    {
        copy.push(ports[i]);
        i += 1;
    }
    assert(ports@.take(i as int) =~= ports@);
    copy
}

impl TaskInput {
    /// A copy of this input.
    pub fn duplicate(&self) -> (copy: TaskInput)
        ensures
            copy@ == self@,
    {
        let to_emails = copy_lines(&self.to_emails, 0, self.to_emails.len());
        assert(text_lines(self.to_emails@).subrange(0, self.to_emails.len() as int) =~= text_lines(
            self.to_emails@,
        ));
        TaskInput {
            to_emails,
            smtp_ports: copy_ports(&self.smtp_ports),
            proxy: copy_proxy(&self.proxy),
            hello_name: copy_text(&self.hello_name),
            from_email: copy_text(&self.from_email),
        }
    }

    /// The input of the check that the task asks for, if the task holds an
    /// address.
    pub fn check_input(&self) -> (input: Option<CheckEmailInput>)
        ensures
            match input {
                Some(i) => task_check_input(self@) == Some(i@),
                None => task_check_input(self@) is None,
            },
    {
        if self.to_emails.len() == 0 {
            return None;
        }
        let from_email = match &self.from_email {
            Some(from) => from.clone(),
            None => "user@example.org".to_string(),
        };
        let hello_name = match &self.hello_name {
            Some(name) => name.clone(),
            None => "gmail.com".to_string(),
        };
        let smtp_port = if self.smtp_ports.len() > 0 {
            self.smtp_ports[0]
        } else {
            DEFAULT_SMTP_PORT
        };
        Some(
            CheckEmailInput {
                to_email: self.to_emails[0].clone(),
                from_email,
                hello_name,
                proxy: copy_proxy(&self.proxy),
                smtp_port,
                smtp_timeout: DEFAULT_SMTP_TIMEOUT_SECS,
            },
        )
    }
}

/// The model of the walk over a bulk request, batch by batch.
pub struct BulkIteratorView {
    pub body: BulkRequestView,
    pub index: nat,
    pub batch_size: nat,
}

/// The walk over a bulk request, batch by batch.
#[derive(Debug)]
pub struct CreateBulkRequestBodyIterator {
    body: CreateBulkRequestBody,
    index: usize,
    batch_size: usize,
}

impl View for CreateBulkRequestBodyIterator {
    type V = BulkIteratorView;

    closed spec fn view(&self) -> BulkIteratorView {
        BulkIteratorView {
            body: self.body@,
            index: self.index as nat,
            batch_size: self.batch_size as nat,
        }
    }
}

/// What holds of every walk: a batch holds at least one address, and the
/// walk has not gone past the end of the request.
pub open spec fn walk_consistent(walk: BulkIteratorView) -> bool {
    &&& walk.batch_size >= 1
    &&& walk.index <= walk.body.input.len()
}

/// Can a job be made of a request with this many addresses? It has at
/// least one, and their number fits the count that a job's record holds.
pub open spec fn bulk_count_fits(len: nat) -> bool {
    0 < len <= i32::MAX
}

/// Checks a bulk request before anything is stored, and gives the number of
/// its addresses, which is the number of records of its job. A request
/// without addresses is refused as empty; one with more addresses than a
/// job's record can count is refused as an error of the store.
pub fn check_bulk_request(body: &CreateBulkRequestBody) -> (checked: Result<i32, BulkError>)
    ensures
        checked is Ok <==> bulk_count_fits(body@.input.len()),
        match checked {
            Ok(total_records) => total_records == body@.input.len(),
            Err(e) => {
                &&& e is EmptyInput <==> body@.input.len() == 0
                &&& e is Db <==> body@.input.len() > i32::MAX
            },
        },
{
    let len = body.input.len();
    if len == 0 {
        return Err(BulkError::EmptyInput);
    }
    if len > i32::MAX as usize {
        return Err(BulkError::Db("the job has more records than can be counted".to_string()));
    }
    Ok(len as i32)
}

impl CreateBulkRequestBody {
    /// The walk over this request in batches of `EMAIL_TASK_BATCH_SIZE`
    /// addresses, from its first address.
    pub fn into_iter(self) -> (walk: CreateBulkRequestBodyIterator)
        ensures
            walk@ == (BulkIteratorView {
                body: self@,
                index: 0,
                batch_size: EMAIL_TASK_BATCH_SIZE as nat,
            }),
    {
        CreateBulkRequestBodyIterator { body: self, index: 0, batch_size: EMAIL_TASK_BATCH_SIZE }
    }

    /// The tasks of this request, in the order of its addresses: one task
    /// for each address.
    pub fn into_tasks(self) -> (tasks: Vec<TaskInput>)
        ensures
            tasks.len() == self@.input.len(),
            forall|i: int|
                0 <= i < tasks.len() ==> (#[trigger] tasks@[i])@ == task_of(self@, i, i + 1),
    {
        let mut walk = self.into_iter();
        let mut tasks: Vec<TaskInput> = Vec::new();
        loop
            invariant
                walk@.body == self@,
                walk@.batch_size == 1,
                walk@.index == tasks.len(),
                walk_consistent(walk@),
                forall|i: int|
                    0 <= i < tasks.len() ==> (#[trigger] tasks@[i])@ == task_of(self@, i, i + 1),
            ensures
                tasks.len() == self@.input.len(),
            decreases self@.input.len() - walk@.index,
        {
            match walk.next() {
                Some(task) => {
                    tasks.push(task);
                },
                None => {
                    break ;
                },
            }
        }
        tasks
    }
}

impl CreateBulkRequestBodyIterator {
    #[verifier::type_invariant]
    spec fn inv(self) -> bool {
        walk_consistent(self@)
    }

    /// The next task, if an address is left: the task of the batch that
    /// starts where the walk stands. The walk then stands where that batch
    /// ends.
    pub fn next(&mut self) -> (task: Option<TaskInput>)
        ensures
            walk_consistent(old(self)@),
            walk_consistent(final(self)@),
            final(self)@.body == old(self)@.body,
            final(self)@.batch_size == old(self)@.batch_size,
            match task {
                Some(t) => {
                    &&& old(self)@.index < old(self)@.body.input.len()
                    &&& final(self)@.index == batch_end(
                        old(self)@.index,
                        old(self)@.batch_size,
                        old(self)@.body.input.len(),
                    )
                    &&& t@ == task_of(
                        old(self)@.body,
                        old(self)@.index as int,
                        final(self)@.index as int,
                    )
                },
                None => {
                    &&& old(self)@.index >= old(self)@.body.input.len()
                    &&& final(self)@.index == old(self)@.index
                },
            },
    {
        proof {
            use_type_invariant(&*self);
        }
        let len = self.body.input.len();
        if self.index < len {
            let bounded_index = if self.batch_size <= len - self.index {
                self.index + self.batch_size
            } else {
                len
            };
            let to_emails = copy_lines(&self.body.input, self.index, bounded_index);
            let smtp_ports = match &self.body.smtp_ports {
                Some(ports) => copy_ports(ports),
                None => {
                    let mut ports: Vec<u16> = Vec::new();
                    ports.push(DEFAULT_SMTP_PORT);
                    assert(ports@ =~= seq![DEFAULT_SMTP_PORT]);
                    ports
                },
            };
            let item = TaskInput {
                to_emails,
                smtp_ports,
                proxy: copy_proxy(&self.body.proxy),
                hello_name: copy_text(&self.body.hello_name),
                from_email: copy_text(&self.body.from_email),
            };
            self.index = bounded_index;
            Some(item)
        } else {
            None
        }
    }
}

/// The body of the response to a request that created a bulk job.
#[derive(Clone, Copy, Debug, PartialEq, Eq, Structural)]
pub struct CreateBulkResponseBody {
    pub job_id: i32,
}

/// Whether a job still waits for results.
#[derive(Clone, Copy, Debug, PartialEq, Eq, Structural)]
pub enum ValidStatus {
    Running,
    Completed,
}

/// A job: its identifier, the time it was created at, in seconds since the
/// epoch, and the number of addresses it was created with.
#[derive(Clone, Copy, Debug, PartialEq, Eq, Structural)]
pub struct JobRecord {
    pub id: i32,
    pub created_at: i64,
    pub total_records: i32,
}

/// The number of results of a job by verdict.
#[derive(Clone, Copy, Debug, PartialEq, Eq, Structural)]
pub struct JobStatusSummaryResponseBody {
    pub total_safe: i32,
    pub total_risky: i32,
    pub total_invalid: i32,
    pub total_unknown: i32,
}

/// The body of the response to a request for the status of a job.
#[derive(Clone, Copy, Debug, PartialEq, Eq, Structural)]
pub struct JobStatusResponseBody {
    pub job_id: i32,
    pub created_at: i64,
    pub total_records: i32,
    pub total_processed: i32,
    pub summary: JobStatusSummaryResponseBody,
    pub job_status: ValidStatus,
}

/// The status of a job: it runs while it has fewer results than records.
pub open spec fn status_of(total_processed: int, total_records: int) -> ValidStatus {
    if total_processed < total_records {
        ValidStatus::Running
    } else {
        ValidStatus::Completed
    }
}

/// The status body of a job with the given number of results and their
/// number by verdict.
pub open spec fn status_body(
    job: JobRecord,
    total_processed: i32,
    summary: JobStatusSummaryResponseBody,
) -> JobStatusResponseBody {
    JobStatusResponseBody {
        job_id: job.id,
        created_at: job.created_at,
        total_records: job.total_records,
        total_processed,
        summary,
        job_status: status_of(total_processed as int, job.total_records as int),
    }
}

/// The status body of a job with the given number of results and their
/// number by verdict. The status is derived, not stored.
pub fn job_status(job: JobRecord, total_processed: i32, summary: JobStatusSummaryResponseBody) -> (body:
    JobStatusResponseBody)
    ensures
        body == status_body(job, total_processed, summary),
{
    let job_status = if total_processed < job.total_records {
        ValidStatus::Running
    } else {
        ValidStatus::Completed
    };
    JobStatusResponseBody {
        job_id: job.id,
        created_at: job.created_at,
        total_records: job.total_records,
        total_processed,
        summary,
        job_status,
    }
}

/// What can go wrong at a bulk endpoint.
#[derive(Debug)]
pub enum BulkError {
    /// The request names no address.
    EmptyInput,
    /// The store failed; the text says how.
    Db(String),
    /// The results could not be written as CSV.
    Csv,
    /// The results could not be written as JSON.
    Json,
}

} // verus!
