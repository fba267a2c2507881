use vstd::prelude::*;
use crate::batch::{Message, TaggedBatch};
use crate::errors::PullError;

verus! {

/// What one worker iteration does next, given the outcome of its pull.
#[derive(Debug)]
pub enum WorkerDecision {
    /// Ack every message, then forward this batch to the aggregator.
    Forward(TaggedBatch),
    /// Report the pull failure and retry; nothing is forwarded.
    Report(PullError),
}

/// The indices of `s` that hold `false`, in increasing order.
pub open spec fn failed_positions(s: Seq<bool>) -> Seq<int>
    decreases s.len(),
{
    if s.len() == 0 {
        Seq::empty()
    } else if !s.last() {
        failed_positions(s.drop_last()).push(s.len() - 1)
    } else {
        failed_positions(s.drop_last())
    }
}

/// The batch a worker forwards: the pulled messages, whole and in pull
/// order, under the worker's own tag.
pub fn tag_batch(worker_id: u8, batch: Vec<Message>) -> (tb: TaggedBatch)
    ensures
        tb.worker_id == worker_id,
        tb.batch@ == batch@,
{
    TaggedBatch { worker_id, batch }
}

/// One worker iteration's decision from the pull outcome. A pulled batch —
/// empty or not — is forwarded whole under the worker's tag; a pull failure
/// is only reported, and nothing is forwarded.
pub fn worker_step(worker_id: u8, pulled: Result<Vec<Message>, PullError>) -> (d: WorkerDecision)
    ensures
        (pulled matches Ok(b) ==> d matches WorkerDecision::Forward(tb) && tb.worker_id
            == worker_id && tb.batch@ == b@),
        (pulled matches Err(e) ==> d matches WorkerDecision::Report(e2) && e2 == e),
{
    match pulled {
        Ok(batch) => WorkerDecision::Forward(tag_batch(worker_id, batch)),
        Err(e) => WorkerDecision::Report(e),
    }
}

/// Which acks of a batch failed and must be reported: exactly the positions
/// whose ack came back `false`, in order. A failed ack is reported and
/// nothing more — it never removes the message from the forwarded batch.
pub fn failed_ack_indices(ack_ok: &Vec<bool>) -> (v: Vec<usize>)
    ensures
        v@.map_values(|i: usize| i as int) == failed_positions(ack_ok@),
{
    let mut v: Vec<usize> = Vec::new();
    let mut i: usize = 0;
    while i < ack_ok.len()
        invariant
            i <= ack_ok@.len(),
            v@.map_values(|k: usize| k as int) == failed_positions(ack_ok@.take(i as int)),
        decreases ack_ok@.len() - i,
    {
        if !ack_ok[i] {
            v.push(i);
        }
        proof {
            let pre = ack_ok@.take(i as int);
            let post = ack_ok@.take(i + 1 as int);
            assert(post.drop_last() =~= pre);
            assert(post.last() == ack_ok@[i as int]);
            assert(v@.map_values(|k: usize| k as int) =~= failed_positions(post));
        }
        i += 1;
    }
    proof {
        assert(ack_ok@.take(ack_ok@.len() as int) =~= ack_ok@);
    }
    v
}

} // verus!
