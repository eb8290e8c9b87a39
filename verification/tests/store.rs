use reacher_backend::bulk::{BulkError, CreateBulkRequestBody, TaskInput, ValidStatus};
use reacher_backend::classifier::SmtpError;
use reacher_backend::output::{
    CheckEmailOutput, MiscDetails, MxDetails, Reachable, SmtpDetails, SyntaxDetails,
};
use reacher_backend::store::{JobStore, StoreError};

fn task(address: &str) -> TaskInput {
    TaskInput {
        to_emails: vec![address.to_string()],
        smtp_ports: vec![25],
        proxy: None,
        hello_name: None,
        from_email: None,
    }
}

fn bulk(input: &[&str]) -> CreateBulkRequestBody {
    CreateBulkRequestBody {
        input_type: "array".into(),
        input: input.iter().map(|a| a.to_string()).collect(),
        proxy: None,
        hello_name: None,
        from_email: None,
        smtp_ports: None,
    }
}

fn result(address: &str, smtp: Result<SmtpDetails, SmtpError>) -> CheckEmailOutput {
    CheckEmailOutput::new(
        address.to_string(),
        SyntaxDetails::valid(address.to_string(), "u".into(), "d.e".into()),
        Ok(MxDetails::new(vec!["mx.d.e".into()])),
        Ok(MiscDetails::default()),
        smtp,
    )
}

fn safe(address: &str) -> CheckEmailOutput {
    result(address, Ok(SmtpDetails { can_connect_smtp: true, is_deliverable: true, ..SmtpDetails::default() }))
}

fn risky(address: &str) -> CheckEmailOutput {
    result(
        address,
        Ok(SmtpDetails { can_connect_smtp: true, is_deliverable: true, is_catch_all: true, ..SmtpDetails::default() }),
    )
}

fn unknown(address: &str) -> CheckEmailOutput {
    result(address, Err(SmtpError::Timeout))
}

fn invalid(address: &str) -> CheckEmailOutput {
    CheckEmailOutput::invalid_syntax(address.to_string())
}

#[test]
fn job_ids_and_task_ids_rise_from_one() {
    let mut store = JobStore::new();
    assert_eq!(store.create_job(2, 100), Ok(1));
    assert_eq!(store.create_job(0, 101), Ok(2));
    assert_eq!(store.enqueue_task(1, task("a@d.e")), Ok(1));
    assert_eq!(store.enqueue_task(1, task("b@d.e")), Ok(2));
}

#[test]
fn store_refuses_what_it_cannot_hold() {
    let mut store = JobStore::new();
    assert_eq!(store.create_job(-1, 0), Err(StoreError::NegativeTotal));
    assert_eq!(store.enqueue_task(1, task("a@d.e")), Err(StoreError::NoSuchJob));
    assert_eq!(store.create_job(1, 0), Ok(1));
    assert_eq!(store.enqueue_task(2, task("a@d.e")), Err(StoreError::NoSuchJob));
    assert_eq!(store.enqueue_task(1, task("a@d.e")), Ok(1));
    assert_eq!(store.enqueue_task(1, task("b@d.e")), Err(StoreError::JobFull));
    assert!(store.job_status(9).is_none());
    assert!(store.job_results(9, 10, 0).is_none());
}

#[test]
fn empty_bulk_request_is_refused() {
    let mut store = JobStore::new();
    assert!(matches!(store.create_bulk_job(bulk(&[]), 0), Err(BulkError::EmptyInput)));
    assert_eq!(store.create_job(0, 0), Ok(1));
}

#[test]
fn same_bulk_request_twice_gives_two_jobs_with_their_own_results() {
    let mut store = JobStore::new();
    let first = store.create_bulk_job(bulk(&["a@d.e", "b@d.e"]), 10).unwrap().job_id;
    let second = store.create_bulk_job(bulk(&["a@d.e", "b@d.e"]), 11).unwrap().job_id;
    assert_ne!(first, second);
    assert_eq!((first, second), (1, 2));
    let lease = store.lease_next(1, 0, 30).unwrap();
    assert_eq!(lease.job_id, first);
    assert!(store.finish_task(lease.task_id, safe("a@d.e")));
    assert_eq!(store.job_status(first).unwrap().total_processed, 1);
    assert_eq!(store.job_status(second).unwrap().total_processed, 0);
    assert_eq!(store.job_results(second, 10, 0).unwrap().len(), 0);
    assert_eq!(store.job_status(second).unwrap().created_at, 11);
}

#[test]
fn bulk_job_is_completed_when_both_addresses_have_results() {
    let mut store = JobStore::new();
    let job = store.create_bulk_job(bulk(&["a@d.e", "b@d.e"]), 0).unwrap().job_id;
    let status = store.job_status(job).unwrap();
    assert_eq!(status.job_status, ValidStatus::Running);
    assert_eq!((status.total_records, status.total_processed), (2, 0));
    let mut checked = Vec::new();
    while let Some(lease) = store.lease_next(7, 0, 60) {
        assert_eq!(lease.job_id, job);
        assert_eq!(lease.expires_at, 60);
        let address = lease.input.check_input().unwrap().to_email;
        assert!(store.finish_task(lease.task_id, safe(&address)));
        checked.push(address);
    }
    assert_eq!(checked, vec!["a@d.e", "b@d.e"]);
    let status = store.job_status(job).unwrap();
    assert_eq!(status.job_status, ValidStatus::Completed);
    assert_eq!(status.total_processed, 2);
    let s = status.summary;
    assert_eq!(s.total_safe + s.total_risky + s.total_invalid + s.total_unknown, 2);
    assert_eq!(s.total_safe, 2);
}

#[test]
fn summary_counts_results_by_verdict() {
    let mut store = JobStore::new();
    let job = store.create_bulk_job(bulk(&["a@d.e", "b@d.e", "c@d.e", "d", "e@d.e"]), 0).unwrap().job_id;
    assert!(store.insert_result(1, safe("a@d.e")));
    assert!(store.insert_result(2, risky("b@d.e")));
    assert!(store.insert_result(3, unknown("c@d.e")));
    assert!(store.insert_result(4, invalid("d")));
    let status = store.job_status(job).unwrap();
    assert_eq!(status.total_processed, 4);
    assert_eq!(status.job_status, ValidStatus::Running);
    let s = status.summary;
    assert_eq!((s.total_safe, s.total_risky, s.total_invalid, s.total_unknown), (1, 1, 1, 1));
}

#[test]
fn tasks_are_leased_in_the_order_of_their_identifiers() {
    let mut store = JobStore::new();
    store.create_job(2, 0).unwrap();
    store.create_job(2, 0).unwrap();
    assert_eq!(store.enqueue_task(2, task("first@d.e")), Ok(1));
    assert_eq!(store.enqueue_task(1, task("second@d.e")), Ok(2));
    assert_eq!(store.enqueue_task(2, task("third@d.e")), Ok(3));
    let order: Vec<(u64, i32)> = (0..3).map(|_| {
        let lease = store.lease_next(1, 0, 10).unwrap();
        (lease.task_id, lease.job_id)
    }).collect();
    assert_eq!(order, vec![(1, 2), (2, 1), (3, 2)]);
    assert!(store.lease_next(1, 0, 10).is_none());
}

#[test]
fn leased_task_is_handed_out_again_once_its_lease_has_run_out() {
    let mut store = JobStore::new();
    store.create_job(1, 0).unwrap();
    store.enqueue_task(1, task("a@d.e")).unwrap();
    let lease = store.lease_next(1, 100, 30).unwrap();
    assert_eq!(lease.expires_at, 130);
    assert!(store.lease_next(2, 129, 30).is_none());
    let again = store.lease_next(2, 130, 30).unwrap();
    assert_eq!(again.task_id, lease.task_id);
    assert_eq!(again.expires_at, 160);
    assert_eq!(again.input.to_emails, vec!["a@d.e"]);
}

#[test]
fn lease_end_stops_at_the_largest_time() {
    let mut store = JobStore::new();
    store.create_job(1, 0).unwrap();
    store.enqueue_task(1, task("a@d.e")).unwrap();
    let lease = store.lease_next(1, u64::MAX - 5, 30).unwrap();
    assert_eq!(lease.expires_at, u64::MAX);
}

#[test]
fn completed_task_is_not_leased_again_and_completing_twice_is_once() {
    let mut store = JobStore::new();
    store.create_job(1, 0).unwrap();
    store.enqueue_task(1, task("a@d.e")).unwrap();
    assert!(store.complete_task(1));
    let once = format!("{:?}", store);
    assert!(store.complete_task(1));
    assert_eq!(format!("{:?}", store), once);
    assert!(store.lease_next(1, 1000, 30).is_none());
    assert!(!store.complete_task(2));
    assert_eq!(format!("{:?}", store), once);
}

#[test]
fn redelivered_task_cannot_add_a_second_result() {
    let mut store = JobStore::new();
    store.create_job(1, 0).unwrap();
    store.enqueue_task(1, task("a@d.e")).unwrap();
    let first = store.lease_next(1, 0, 10).unwrap();
    let second = store.lease_next(2, 10, 10).unwrap();
    assert_eq!(first.task_id, second.task_id);
    assert!(store.insert_result(first.task_id, safe("a@d.e")));
    assert!(!store.insert_result(second.task_id, unknown("a@d.e")));
    assert!(store.complete_task(second.task_id));
    let status = store.job_status(1).unwrap();
    assert_eq!((status.total_processed, status.total_records), (1, 1));
    assert_eq!(status.summary.total_safe, 1);
    assert_eq!(status.summary.total_unknown, 0);
    assert_eq!(status.job_status, ValidStatus::Completed);
    assert!(!store.insert_result(99, safe("x@d.e")));
}

#[test]
fn results_never_outnumber_records() {
    let mut store = JobStore::new();
    let job = store.create_bulk_job(bulk(&["a@d.e", "b@d.e"]), 0).unwrap().job_id;
    for round in 0..3 {
        for id in 0..5 {
            store.insert_result(id, safe("a@d.e"));
            store.finish_task(id, unknown("a@d.e"));
            let status = store.job_status(job).unwrap();
            assert!(status.total_processed <= status.total_records, "round {}", round);
        }
    }
    assert_eq!(store.job_status(job).unwrap().total_processed, 2);
}

#[test]
fn results_come_in_pages() {
    let mut store = JobStore::new();
    let job = store.create_bulk_job(bulk(&["a@d.e", "b@d.e", "c@d.e", "d@d.e"]), 0).unwrap().job_id;
    store.insert_result(4, safe("d@d.e"));
    store.insert_result(1, safe("a@d.e"));
    store.insert_result(3, unknown("c@d.e"));
    let inputs = |store: &JobStore, limit, offset| -> Vec<String> {
        store.job_results(job, limit, offset).unwrap().iter().map(|o| o.input().clone()).collect()
    };
    assert_eq!(inputs(&store, 10, 0), vec!["a@d.e", "c@d.e", "d@d.e"]);
    assert_eq!(inputs(&store, 2, 0), vec!["a@d.e", "c@d.e"]);
    assert_eq!(inputs(&store, 2, 1), vec!["c@d.e", "d@d.e"]);
    assert_eq!(inputs(&store, 2, 2), vec!["d@d.e"]);
    assert!(inputs(&store, 2, 3).is_empty());
    assert!(inputs(&store, 0, 0).is_empty());
    assert!(inputs(&store, usize::MAX, usize::MAX).is_empty());
    assert_eq!(store.job_results(job, 1, 0).unwrap()[0].is_reachable(), Reachable::Safe);
}

#[test]
fn deleting_a_job_takes_its_tasks_and_results_with_it() {
    let mut store = JobStore::new();
    let first = store.create_bulk_job(bulk(&["a@d.e", "b@d.e"]), 0).unwrap().job_id;
    let second = store.create_bulk_job(bulk(&["c@d.e"]), 0).unwrap().job_id;
    assert!(store.insert_result(1, safe("a@d.e")));
    assert!(store.delete_job(first));
    assert!(!store.delete_job(first));
    assert!(store.job_status(first).is_none());
    assert!(store.job_results(first, 10, 0).is_none());
    assert!(!store.insert_result(2, safe("b@d.e")));
    assert!(!store.complete_task(1));
    let lease = store.lease_next(1, 0, 10).unwrap();
    assert_eq!((lease.task_id, lease.job_id), (3, second));
    assert!(store.lease_next(1, 0, 10).is_none());
    assert_eq!(store.create_job(1, 0), Ok(3));
}
