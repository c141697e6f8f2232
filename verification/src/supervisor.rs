//! The pipeline supervisor's verdicts.
//!
//! One reader and one writer run per sensor kind, joined by a bounded queue
//! of fixed capacity.  The pairing is fail-fast: the pipeline ends as soon
//! as either task ends, for any reason, and reports the first error either
//! side produced — or success when both ended gracefully.  The racing of
//! the two tasks happens outside the crate; the verdicts are decided here.

use vstd::prelude::*;

use crate::errors::PipelineError;
use crate::tasks::TaskExit;

verus! {

/// The default number of in-flight messages the bounded queue accepts.
pub const DEFAULT_QUEUE_CAPACITY: usize = 64;

/// How one task's exit counts towards the pipeline's outcome: cancellation
/// and a drained upstream are clean ends, only a failure is an error.
pub fn exit_outcome(exit: &TaskExit) -> (r: Result<(), PipelineError>)
    ensures
        exit matches TaskExit::Failed(e) ==> r == Err::<(), PipelineError>(*e),
        !(exit is Failed) ==> r is Ok,
{
    match exit {
        TaskExit::Cancelled => Ok(()),
        TaskExit::Drained => Ok(()),
        TaskExit::Failed(e) => Err(*e),
    }
}

/// The pipeline's outcome from its tasks' results: the first task to end
/// decides if it failed; otherwise the second's result counts, if it ended
/// at all — a clean first exit with the other side still parked is itself a
/// clean pipeline end.
pub fn pipeline_outcome(
    first: Result<(), PipelineError>,
    second: Option<Result<(), PipelineError>>,
) -> (r: Result<(), PipelineError>)
    ensures
        first matches Err(e) ==> r == Err::<(), PipelineError>(e),
        first is Ok ==> (second matches Some(s) ==> r == s),
        first is Ok && second is None ==> r is Ok,
{
    match first {
        Err(e) => Err(e),
        Ok(()) => match second {
            Some(s) => s,
            None => Ok(()),
        },
    }
}

} // verus!
