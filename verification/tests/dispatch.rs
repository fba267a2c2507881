use pubsub_pipeline::dispatcher::{
    collect_outcomes, count_confirmed, make_message, payload_for_index, AwaitResult,
    PublishOutcome,
};
use pubsub_pipeline::errors::{AwaitError, PublishError};

fn confirmed(id: &str) -> AwaitResult {
    AwaitResult::Resolved(PublishOutcome::Confirmed(String::from(id)))
}

fn rejected(detail: &str) -> AwaitResult {
    AwaitResult::Resolved(PublishOutcome::Rejected(PublishError {
        detail: String::from(detail),
    }))
}

fn unresolved(detail: &str) -> AwaitResult {
    AwaitResult::Unresolved(AwaitError { detail: String::from(detail) })
}

#[test]
fn five_messages_one_rejected() {
    let results = vec![
        confirmed("id-0"),
        confirmed("id-1"),
        confirmed("id-2"),
        rejected("transport said no"),
        confirmed("id-4"),
    ];
    let report = collect_outcomes(results).expect("no await failed, so the run must finish");
    assert_eq!(report.len(), 5);
    assert_eq!(count_confirmed(&report), 4);
    match &report[3] {
        PublishOutcome::Rejected(e) => assert_eq!(e.detail, "transport said no"),
        PublishOutcome::Confirmed(_) => panic!("index 3 must be the rejected one"),
    }
}

#[test]
fn every_submission_is_reported_once() {
    let results = vec![confirmed("a"), rejected("b"), confirmed("c")];
    let report = collect_outcomes(results).unwrap();
    assert_eq!(report.len(), 3);
    match &report[0] {
        PublishOutcome::Confirmed(id) => assert_eq!(id, "a"),
        _ => panic!("index 0 must be confirmed"),
    }
    match &report[2] {
        PublishOutcome::Confirmed(id) => assert_eq!(id, "c"),
        _ => panic!("index 2 must be confirmed"),
    }
}

#[test]
fn empty_run_reports_nothing() {
    let report = collect_outcomes(Vec::new()).unwrap();
    assert_eq!(report.len(), 0);
    assert_eq!(count_confirmed(&report), 0);
}

#[test]
fn await_failure_aborts_the_run() {
    let results = vec![confirmed("a"), unresolved("join failed"), confirmed("c")];
    let err = collect_outcomes(results).expect_err("an unresolved await is fatal");
    assert_eq!(err.detail, "join failed");
}

#[test]
fn first_await_failure_wins() {
    let results = vec![unresolved("first"), unresolved("second")];
    let err = collect_outcomes(results).expect_err("an unresolved await is fatal");
    assert_eq!(err.detail, "first");
}

#[test]
fn count_confirmed_counts_exactly() {
    let all_rejected = collect_outcomes(vec![rejected("x"), rejected("y")]).unwrap();
    assert_eq!(count_confirmed(&all_rejected), 0);
    let mixed = collect_outcomes(vec![rejected("x"), confirmed("a"), confirmed("b")]).unwrap();
    assert_eq!(count_confirmed(&mixed), 2);
}

#[test]
fn payload_is_derived_from_the_index() {
    assert_eq!(payload_for_index(0), b"some-0".to_vec());
    assert_eq!(payload_for_index(1), b"some-1".to_vec());
    assert_eq!(payload_for_index(10), b"some-10".to_vec());
    assert_eq!(payload_for_index(9999), b"some-9999".to_vec());
    assert_eq!(payload_for_index(18446744073709551615), b"some-18446744073709551615".to_vec());
}

#[test]
fn fresh_message_has_no_identifier() {
    let m = make_message(42);
    assert_eq!(m.payload, b"some-42".to_vec());
    assert!(m.id.is_none());
}
