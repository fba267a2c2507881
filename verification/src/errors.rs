use vstd::prelude::*;

verus! {

/// A transport failure while pulling a batch. Recovered locally: the worker
/// reports it and retries; nothing reaches the aggregator.
#[derive(Debug)]
pub struct PullError {
    pub detail: String,
}

/// A transport failure while acknowledging one pulled message. Reported,
/// never fatal: the message stays in the forwarded batch.
#[derive(Debug)]
pub struct AckError {
    pub detail: String,
}

/// An application-level rejection of one published message. Recorded in the
/// dispatch report; it touches no sibling publish.
#[derive(Debug)]
pub struct PublishError {
    pub detail: String,
}

/// A failure to resolve a publish's awaitable at all — as opposed to its
/// resolving to a rejection. Fatal for the whole dispatch run.
#[derive(Debug)]
pub struct AwaitError {
    pub detail: String,
}

/// A failure to provision the topic or the subscription. Fatal: it aborts
/// startup before any worker or dispatcher runs.
#[derive(Debug)]
pub struct ProvisioningError {
    pub detail: String,
}

} // verus!
