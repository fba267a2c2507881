//! The verified core of a minimal message-queue client pair: workers pull,
//! ack and forward tagged batches; a single aggregator tracks per-worker
//! throughput; a dispatcher fans out publishes and collects per-message
//! outcomes. The transport itself is an external collaborator driven by the
//! accompanying application code.

pub mod aggregator;
pub mod batch;
pub mod dispatcher;
pub mod errors;
pub mod worker;
