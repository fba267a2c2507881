use vstd::prelude::*;

verus! {

/// One message as the transport hands it over: an opaque payload and, where
/// the transport has already assigned one, an identifier.
#[derive(Debug)]
pub struct Message {
    pub payload: Vec<u8>,
    pub id: Option<String>,
}

/// A pulled batch tagged with the identity of the worker that pulled it.
/// Produced by exactly one worker; ownership moves to the aggregator whole.
#[derive(Debug)]
pub struct TaggedBatch {
    pub worker_id: u8,
    pub batch: Vec<Message>,
}

impl TaggedBatch {
    /// The number of messages this batch carries.
    pub open spec fn size(self) -> int {
        self.batch@.len() as int
    }
}

} // verus!
