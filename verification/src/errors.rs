//! Error taxonomy of the pipeline.

use vstd::prelude::*;

verus! {

/// A fatal condition that ends the task in which it arises and becomes the
/// pipeline's reported outcome.  Cancellation is not listed here: it is a
/// graceful shutdown, not an error.
#[derive(Clone, Copy, Debug, PartialEq, Eq, Structural)]
pub enum PipelineError {
    /// The fan-out source closed, or this subscriber fell behind and missed
    /// messages.
    SourceClosedOrLagged,
    /// The bounded queue's consumer is gone, so a received message could not
    /// be forwarded.
    QueueUnavailable,
    /// A message's identifier column and value column differ in length, so
    /// no row batch can be built from it.
    SchemaMismatch,
    /// Opening, writing, flushing or finishing a segment failed.
    SegmentIo,
}

} // verus!
