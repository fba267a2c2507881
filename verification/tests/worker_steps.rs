use pubsub_pipeline::batch::Message;
use pubsub_pipeline::errors::PullError;
use pubsub_pipeline::worker::{failed_ack_indices, worker_step, WorkerDecision};

fn msg(byte: u8) -> Message {
    Message { payload: vec![byte], id: Some(String::from("pulled")) }
}

#[test]
fn pulled_batch_is_forwarded_whole() {
    let pulled = vec![msg(1), msg(2), msg(3)];
    match worker_step(2, Ok(pulled)) {
        WorkerDecision::Forward(tb) => {
            assert_eq!(tb.worker_id, 2);
            assert_eq!(tb.batch.len(), 3);
            assert_eq!(tb.batch[0].payload, vec![1]);
            assert_eq!(tb.batch[2].payload, vec![3]);
        }
        WorkerDecision::Report(_) => panic!("a successful pull must be forwarded"),
    }
}

#[test]
fn empty_pull_is_still_forwarded() {
    match worker_step(0, Ok(Vec::new())) {
        WorkerDecision::Forward(tb) => {
            assert_eq!(tb.worker_id, 0);
            assert_eq!(tb.batch.len(), 0);
        }
        WorkerDecision::Report(_) => panic!("an empty pull must still be forwarded"),
    }
}

#[test]
fn pull_failure_is_reported_not_forwarded() {
    let err = PullError { detail: String::from("transport down") };
    match worker_step(1, Err(err)) {
        WorkerDecision::Report(e) => assert_eq!(e.detail, "transport down"),
        WorkerDecision::Forward(_) => panic!("a failed pull must not forward"),
    }
}

#[test]
fn no_acks_no_reports() {
    assert_eq!(failed_ack_indices(&Vec::new()), Vec::<usize>::new());
    assert_eq!(failed_ack_indices(&vec![true, true, true]), Vec::<usize>::new());
}

#[test]
fn every_failed_ack_is_reported_in_order() {
    assert_eq!(failed_ack_indices(&vec![false, true, false, false]), vec![0, 2, 3]);
    assert_eq!(failed_ack_indices(&vec![false]), vec![0]);
}
