//! The two tasks' decisions at their suspension points.
//!
//! The reader and the writer each wake up with two things in hand: whether
//! cancellation has been signalled, and what their wait produced.  The
//! functions here decide what happens next; cancellation always wins, so
//! that shutdown latency is bounded no matter how fast messages arrive.
//! The asynchronous waits themselves live outside the crate: the loop that
//! drives these decisions performs them and hands back what it observed.

use vstd::prelude::*;

use crate::errors::PipelineError;
use crate::message::Message;
use crate::queue::{BoundedQueue, SendRejected};

verus! {

/// Why a task ended.  Only `Failed` carries an error: cancellation and a
/// drained upstream are graceful ends.
#[derive(Clone, Debug, PartialEq)]
pub enum TaskExit {
    /// The shared cancellation signal was observed.
    Cancelled,
    /// The upstream closed and every accepted message was handed on.
    Drained,
    /// A fatal error; it becomes the pipeline's outcome.
    Failed(PipelineError),
}

/// What the reader's wait on the fan-out source produced.
#[derive(Clone, Debug, PartialEq)]
pub enum SourceEvent {
    /// One message arrived.
    Received(Message),
    /// The source closed: no publisher is left.
    Closed,
    /// This subscriber fell behind and missed messages.
    Lagged,
}

/// The reader's next move.
#[derive(Clone, Debug, PartialEq)]
pub enum ReaderStep {
    /// The message went to the back of the queue.
    Forwarded,
    /// The queue is at capacity: suspend, keep the message, offer it again
    /// once the writer has taken one.  Only the reader waits; nothing is
    /// dropped.
    WouldWait(Message),
    /// The task is over.
    Stopped(TaskExit),
}

/// One turn of the reader against the queue: cancellation first, then the
/// source's event.  A received message is forwarded, kept for a retry, or
/// turned into a reported failure — never silently dropped.  A closed or
/// lagged source is fatal.
pub fn reader_step(cancelled: bool, event: SourceEvent, queue: &mut BoundedQueue) -> (d:
    ReaderStep)
    requires
        old(queue).inv(),
    ensures
        final(queue).inv(),
        final(queue).capacity_spec() == old(queue).capacity_spec(),
        final(queue).is_closed_spec() == old(queue).is_closed_spec(),
        cancelled ==> d == ReaderStep::Stopped(TaskExit::Cancelled) && final(queue).contents()
            == old(queue).contents(),
        !cancelled && (event is Closed || event is Lagged) ==> d == ReaderStep::Stopped(
            TaskExit::Failed(PipelineError::SourceClosedOrLagged),
        ) && final(queue).contents() == old(queue).contents(),
        !cancelled ==> (event matches SourceEvent::Received(m) ==> {
            &&& old(queue).is_closed_spec() ==> d == ReaderStep::Stopped(
                TaskExit::Failed(PipelineError::QueueUnavailable),
            ) && final(queue).contents() == old(queue).contents()
            &&& !old(queue).is_closed_spec() && old(queue).contents().len() >= old(
                queue,
            ).capacity_spec() ==> d == ReaderStep::WouldWait(m) && final(queue).contents()
                == old(queue).contents()
            &&& !old(queue).is_closed_spec() && old(queue).contents().len() < old(
                queue,
            ).capacity_spec() ==> d == ReaderStep::Forwarded && final(queue).contents() == old(
                queue,
            ).contents().push(m)
        }),
{
    if cancelled {
        return ReaderStep::Stopped(TaskExit::Cancelled);
    }
    match event {
        SourceEvent::Received(m) => match queue.try_send(m) {
            Ok(()) => ReaderStep::Forwarded,
            Err(SendRejected::Full(m)) => ReaderStep::WouldWait(m),
            Err(SendRejected::Closed(_)) => ReaderStep::Stopped(
                TaskExit::Failed(PipelineError::QueueUnavailable),
            ),
        },
        SourceEvent::Closed => ReaderStep::Stopped(
            TaskExit::Failed(PipelineError::SourceClosedOrLagged),
        ),
        SourceEvent::Lagged => ReaderStep::Stopped(
            TaskExit::Failed(PipelineError::SourceClosedOrLagged),
        ),
    }
}

/// The writer's next move.
#[derive(Clone, Debug, PartialEq)]
pub enum WriterStep {
    /// Handle this message: write, maybe flush, maybe rotate.
    Process(Message),
    /// The task is over.
    Stopped(TaskExit),
}

/// The writer's decision at its wait on the queue: cancellation first —
/// even with a message ready, a signalled writer processes nothing further
/// — then the dequeued message, if the upstream still lives.
pub fn writer_decision(cancelled: bool, next: Option<Message>) -> (d: WriterStep)
    ensures
        cancelled ==> d == WriterStep::Stopped(TaskExit::Cancelled),
        !cancelled ==> (next matches Some(m) ==> d == WriterStep::Process(m)),
        !cancelled && next is None ==> d == WriterStep::Stopped(TaskExit::Drained),
{
    if cancelled {
        return WriterStep::Stopped(TaskExit::Cancelled);
    }
    match next {
        Some(m) => WriterStep::Process(m),
        None => WriterStep::Stopped(TaskExit::Drained),
    }
}

} // verus!
