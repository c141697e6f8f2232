//! Verified core of a sensor-logging pipeline.
//!
//! Streams of sensor readings (temperature batches, single turbidity
//! readings) are forwarded through a bounded queue into an accumulator that
//! builds fixed-schema row batches and drives the open/flush/rotate
//! lifecycle of one output segment at a time.  This crate holds the decision
//! logic of that pipeline — message validation, batch construction, the
//! flush/rotation policy, the bounded queue, the cancellation-first task
//! decisions and the supervisor outcome — each with a proved contract.  The
//! asynchronous runtime, the columnar encoding and the storage backend live
//! outside the crate and act only on the decisions made here.

pub mod batch;
pub mod errors;
pub mod laws;
pub mod message;
pub mod queue;
pub mod segment;
pub mod supervisor;
pub mod tasks;
