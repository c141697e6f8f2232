//! The segment lifecycle: the pipeline's state machine.
//!
//! The writer side of the pipeline is either holding no segment or holding
//! one open segment.  On every message, in this fixed order: a missing
//! segment is opened keyed by the message's timestamp; one row batch is
//! written; if the in-progress row count has reached the flush threshold the
//! rows are flushed into a sealed row group; if the flushed row-group count
//! has reached the finish threshold the segment is finished and the handle
//! cleared, so the next message opens a brand-new segment.
//!
//! The exec side ([`Accumulator`], [`process_messages`]) decides; the
//! actions it emits are performed outside the crate by the segment-writer
//! collaborator.  The spec side (`step_events`, `run_events`, `step_view`,
//! `run_view`) is the mathematical model those decisions are proved against.
//!
//! When a run ends — the upstream drained, cancellation, or a fatal error —
//! no implicit final flush or finish is performed: rows written but never
//! flushed are lost, and only previously flushed or finished data is
//! durable.

use vstd::prelude::*;

use crate::batch::{build_batch, RowBatch};
use crate::errors::PipelineError;
use crate::message::Message;

verus! {

/// The two thresholds of the flush/rotation policy, constant for the life
/// of a pipeline: `flush` is the in-progress row count that forces a flush,
/// `finish` the flushed row-group count that forces a rotation.
#[derive(Clone, Copy, Debug, PartialEq, Eq, Structural)]
pub struct Thresholds {
    pub flush: usize,
    pub finish: usize,
}

/// The writer's record of the one open segment: when it was opened, how
/// many rows have been written but not yet flushed, and how many row groups
/// have been flushed.
#[derive(Clone, Copy, Debug, PartialEq, Eq, Structural)]
pub struct OpenSegment {
    pub opened_at_millis: i64,
    pub in_progress_rows: usize,
    pub flushed_groups: usize,
}

/// The mathematical image of an open segment, with unbounded counters.
pub struct SegView {
    pub opened_at_millis: i64,
    pub in_progress: nat,
    pub groups: nat,
}

impl OpenSegment {
    /// The mathematical image of this open segment.
    pub open spec fn view_spec(&self) -> SegView {
        SegView {
            opened_at_millis: self.opened_at_millis,
            in_progress: self.in_progress_rows as nat,
            groups: self.flushed_groups as nat,
        }
    }
}

/// One effect the writer asks its collaborator to perform.  A step emits
/// its actions in policy order: open first, then the write, then a flush,
/// then a finish.
#[derive(Clone, Debug, PartialEq)]
pub enum Action {
    /// Open a new segment keyed by this timestamp.
    Open(i64),
    /// Append this batch to the open segment.
    Write(RowBatch),
    /// Seal the in-progress rows into a row group; the segment stays open.
    Flush,
    /// Finish the segment irreversibly; the handle is cleared.
    Finish,
}

/// The mathematical image of an action: what happened, with a write reduced
/// to its row count.
pub enum Event {
    Opened(i64),
    Wrote(nat),
    Flushed,
    Finished,
}

impl Action {
    /// The event this action amounts to.
    pub open spec fn to_event(self) -> Event {
        match self {
            Action::Open(ts) => Event::Opened(ts),
            Action::Write(b) => Event::Wrote(b.rows_spec()),
            Action::Flush => Event::Flushed,
            Action::Finish => Event::Finished,
        }
    }
}

/// The events of a sequence of actions.
pub open spec fn events_of(actions: Seq<Action>) -> Seq<Event> {
    actions.map_values(|a: Action| a.to_event())
}

/// The batches of the write actions, in order.
pub open spec fn written_batches(actions: Seq<Action>) -> Seq<RowBatch>
    decreases actions.len(),
{
    if actions.len() == 0 {
        Seq::empty()
    } else {
        (match actions[0] {
            Action::Write(b) => seq![b],
            _ => Seq::<RowBatch>::empty(),
        }) + written_batches(actions.drop_first())
    }
}

proof fn lemma_written_batches_add(a: Seq<Action>, b: Seq<Action>)
    ensures
        written_batches(a + b) == written_batches(a) + written_batches(b),
    decreases a.len(),
{
    if a.len() == 0 {
        assert(a + b =~= b);
        assert(written_batches(a) + written_batches(b) =~= written_batches(b));
    } else {
        assert((a + b).drop_first() =~= a.drop_first() + b);
        lemma_written_batches_add(a.drop_first(), b);
        assert((a + b)[0] == a[0]);
        assert(written_batches(a + b) =~= written_batches(a) + written_batches(b));
    }
}

/// In-progress rows before a step: none when no segment is open.
pub open spec fn ip_before(v: Option<SegView>) -> nat {
    match v {
        Option::None => 0,
        Option::Some(o) => o.in_progress,
    }
}

/// Flushed row groups before a step: none when no segment is open.
pub open spec fn groups_before(v: Option<SegView>) -> nat {
    match v {
        Option::None => 0,
        Option::Some(o) => o.groups,
    }
}

/// The timestamp the segment of a step is keyed by: the already-open
/// segment's key, or the incoming message's timestamp when the step opens
/// one.
pub open spec fn opened_key(v: Option<SegView>, ts: i64) -> i64 {
    match v {
        Option::None => ts,
        Option::Some(o) => o.opened_at_millis,
    }
}

/// Whether a step over `n` incoming rows flushes: exactly when the
/// in-progress row count, after the write, reaches or exceeds the flush
/// threshold.
pub open spec fn flush_fires(v: Option<SegView>, n: nat, t: Thresholds) -> bool {
    ip_before(v) + n >= t.flush
}

/// Flushed row groups after the step's write and possible flush.
pub open spec fn groups_after(v: Option<SegView>, n: nat, t: Thresholds) -> nat {
    groups_before(v) + if flush_fires(v, n, t) {
        1nat
    } else {
        0nat
    }
}

/// Whether a step rotates: exactly when the flushed row-group count, after
/// the possible flush, reaches or exceeds the finish threshold.
pub open spec fn finish_fires(v: Option<SegView>, n: nat, t: Thresholds) -> bool {
    groups_after(v, n, t) >= t.finish
}

/// The events of one step over a message yielding `n` rows at timestamp
/// `ts`: open if no segment was held, the write, then flush and finish as
/// the thresholds demand, never reordered.
pub open spec fn step_events(v: Option<SegView>, n: nat, ts: i64, t: Thresholds) -> Seq<Event> {
    let w = Event::Wrote(n);
    if v is None {
        let o = Event::Opened(ts);
        if flush_fires(v, n, t) {
            if finish_fires(v, n, t) {
                seq![o, w, Event::Flushed, Event::Finished]
            } else {
                seq![o, w, Event::Flushed]
            }
        } else {
            if finish_fires(v, n, t) {
                seq![o, w, Event::Finished]
            } else {
                seq![o, w]
            }
        }
    } else {
        if flush_fires(v, n, t) {
            if finish_fires(v, n, t) {
                seq![w, Event::Flushed, Event::Finished]
            } else {
                seq![w, Event::Flushed]
            }
        } else {
            if finish_fires(v, n, t) {
                seq![w, Event::Finished]
            } else {
                seq![w]
            }
        }
    }
}

/// The segment held after one step: none when the step finished the
/// segment, otherwise the open segment with its counters advanced.
pub open spec fn step_view(v: Option<SegView>, n: nat, ts: i64, t: Thresholds) -> Option<
    SegView,
> {
    if finish_fires(v, n, t) {
        Option::None
    } else {
        Option::Some(
            SegView {
                opened_at_millis: opened_key(v, ts),
                in_progress: if flush_fires(v, n, t) {
                    0nat
                } else {
                    ip_before(v) + n
                },
                groups: groups_after(v, n, t),
            },
        )
    }
}

/// The segment held after a run over `msgs`, message by message.
pub open spec fn run_view(v: Option<SegView>, msgs: Seq<Message>, t: Thresholds) -> Option<
    SegView,
>
    decreases msgs.len(),
{
    if msgs.len() == 0 {
        v
    } else {
        run_view(
            step_view(v, msgs[0].rows_spec(), msgs[0].timestamp_millis, t),
            msgs.drop_first(),
            t,
        )
    }
}

/// The events of a run over `msgs`, message by message, in arrival order.
pub open spec fn run_events(v: Option<SegView>, msgs: Seq<Message>, t: Thresholds) -> Seq<
    Event,
>
    decreases msgs.len(),
{
    if msgs.len() == 0 {
        Seq::empty()
    } else {
        step_events(v, msgs[0].rows_spec(), msgs[0].timestamp_millis, t) + run_events(
            step_view(v, msgs[0].rows_spec(), msgs[0].timestamp_millis, t),
            msgs.drop_first(),
            t,
        )
    }
}

/// Appending one message to a run advances the run's final state by one
/// step and appends that step's events.
pub proof fn lemma_run_snoc(v: Option<SegView>, msgs: Seq<Message>, m: Message, t: Thresholds)
    ensures
        run_view(v, msgs.push(m), t) == step_view(
            run_view(v, msgs, t),
            m.rows_spec(),
            m.timestamp_millis,
            t,
        ),
        run_events(v, msgs.push(m), t) == run_events(v, msgs, t) + step_events(
            run_view(v, msgs, t),
            m.rows_spec(),
            m.timestamp_millis,
            t,
        ),
    decreases msgs.len(),
{
    if msgs.len() == 0 {
        reveal_with_fuel(run_view, 2);
        reveal_with_fuel(run_events, 2);
        assert(msgs.push(m)[0] == m);
        assert(msgs.push(m).drop_first() =~= Seq::<Message>::empty());
        assert(run_events(v, msgs, t) + step_events(
            run_view(v, msgs, t),
            m.rows_spec(),
            m.timestamp_millis,
            t,
        ) =~= step_events(v, m.rows_spec(), m.timestamp_millis, t));
        assert(run_events(
            step_view(v, m.rows_spec(), m.timestamp_millis, t),
            Seq::<Message>::empty(),
            t,
        ) =~= Seq::<Event>::empty());
        assert(run_events(v, msgs.push(m), t) =~= step_events(
            v,
            m.rows_spec(),
            m.timestamp_millis,
            t,
        ));
    } else {
        let m0 = msgs[0];
        let v1 = step_view(v, m0.rows_spec(), m0.timestamp_millis, t);
        assert(msgs.push(m)[0] == m0);
        assert(msgs.push(m).drop_first() =~= msgs.drop_first().push(m));
        lemma_run_snoc(v1, msgs.drop_first(), m, t);
        assert(run_events(v, msgs.push(m), t) =~= run_events(v, msgs, t) + step_events(
            run_view(v, msgs, t),
            m.rows_spec(),
            m.timestamp_millis,
            t,
        ));
    }
}

/// The writer's state between messages: the thresholds and the optional
/// segment handle.  `seg` is `None` before the first message of an output
/// epoch and immediately after a rotation, `Some` while a segment is open.
pub struct Accumulator {
    seg: Option<OpenSegment>,
    thresholds: Thresholds,
}

impl Accumulator {
    /// The mathematical image of the held segment.
    pub closed spec fn seg_view(&self) -> Option<SegView> {
        match self.seg {
            Option::None => Option::None,
            Option::Some(o) => Option::Some(o.view_spec()),
        }
    }

    /// The thresholds this accumulator was built with.
    pub closed spec fn thresholds_spec(&self) -> Thresholds {
        self.thresholds
    }

    /// Between messages an open segment has flushed fewer row groups than
    /// the finish threshold — otherwise it would have been finished — and
    /// holds fewer in-progress rows than the flush threshold, or none.
    pub closed spec fn inv(&self) -> bool {
        match self.seg {
            Option::None => true,
            Option::Some(o) => {
                &&& (o.flushed_groups as nat) < (self.thresholds.finish as nat)
                &&& (o.in_progress_rows == 0 || (o.in_progress_rows as nat)
                    < (self.thresholds.flush as nat))
            },
        }
    }

    /// A fresh accumulator: no segment held.
    pub fn new(thresholds: Thresholds) -> (a: Accumulator)
        ensures
            a.seg_view() is None,
            a.thresholds_spec() == thresholds,
            a.inv(),
    {
        Accumulator { seg: Option::None, thresholds }
    }

    /// Rows written to the open segment and not yet flushed.
    pub fn in_progress_rows(&self) -> (n: usize)
        ensures
            n == ip_before(self.seg_view()),
    {
        match &self.seg {
            Option::None => 0,
            Option::Some(o) => o.in_progress_rows,
        }
    }

    /// Row groups flushed in the open segment.
    pub fn flushed_groups(&self) -> (n: usize)
        ensures
            n == groups_before(self.seg_view()),
    {
        match &self.seg {
            Option::None => 0,
            Option::Some(o) => o.flushed_groups,
        }
    }

    /// Whether a segment is currently open.
    pub fn has_open_segment(&self) -> (b: bool)
        ensures
            b == (self.seg_view() is Some),
    {
        match &self.seg {
            Option::None => false,
            Option::Some(_) => true,
        }
    }

    /// Handles one message: builds its batch and advances the segment
    /// lifecycle, returning the actions for the collaborator to perform, in
    /// policy order.  A malformed message is rejected before the lifecycle
    /// advances, and is fatal to the writer task.
    pub fn on_message(&mut self, msg: &Message) -> (r: Result<Vec<Action>, PipelineError>)
        requires
            old(self).inv(),
            ip_before(old(self).seg_view()) + msg.rows_spec() <= usize::MAX,
        ensures
            final(self).inv(),
            final(self).thresholds_spec() == old(self).thresholds_spec(),
            msg.wf() <==> r is Ok,
            r matches Ok(acts) ==> {
                &&& events_of(acts@) == step_events(
                    old(self).seg_view(),
                    msg.rows_spec(),
                    msg.timestamp_millis,
                    old(self).thresholds_spec(),
                )
                &&& final(self).seg_view() == step_view(
                    old(self).seg_view(),
                    msg.rows_spec(),
                    msg.timestamp_millis,
                    old(self).thresholds_spec(),
                )
                &&& written_batches(acts@).len() == 1
                &&& written_batches(acts@)[0].encodes(*msg)
            },
            r matches Err(e) ==> e == PipelineError::SchemaMismatch && *final(self) == *old(
                self,
            ),
    {
        let ghost v0 = self.seg_view();
        let ghost n_spec = msg.rows_spec();
        let ghost t = self.thresholds;
        let batch = match build_batch(msg) {
            Ok(b) => b,
            Err(e) => {
                return Err(e);
            },
        };
        let ghost batch_ghost = batch;
        let n: usize = batch.row_count();
        let mut acts: Vec<Action> = Vec::new();
        let (opened_at, ip0, g0): (i64, usize, usize) = match &self.seg {
            Option::None => {
                acts.push(Action::Open(msg.timestamp_millis));
                (msg.timestamp_millis, 0, 0)
            },
            Option::Some(o) => (o.opened_at_millis, o.in_progress_rows, o.flushed_groups),
        };
        acts.push(Action::Write(batch));
        let ip1: usize = ip0 + n;
        let flushing = ip1 >= self.thresholds.flush;
        let (ip2, g1): (usize, usize) = if flushing {
            acts.push(Action::Flush);
            (0, g0 + 1)
        } else {
            (ip1, g0)
        };
        let finishing = g1 >= self.thresholds.finish;
        if finishing {
            acts.push(Action::Finish);
            self.seg = Option::None;
        } else {
            self.seg = Option::Some(
                OpenSegment {
                    opened_at_millis: opened_at,
                    in_progress_rows: ip2,
                    flushed_groups: g1,
                },
            );
        }
        proof {
            assert(flushing == flush_fires(v0, n_spec, t));
            assert(g1 as nat == groups_after(v0, n_spec, t));
            assert(finishing == finish_fires(v0, n_spec, t));
            assert(events_of(acts@) =~= step_events(v0, n_spec, msg.timestamp_millis, t));
            reveal_with_fuel(written_batches, 6);
            assert(written_batches(acts@) =~= seq![batch_ghost]);
        }
        Ok(acts)
    }
}

/// Runs one whole writer epoch over a queue's worth of messages, starting
/// with no segment held — what the writer task does when it drains its
/// queue until the upstream closes.  Returns the actions of the run in
/// order, or the schema mismatch that aborts the task at its first
/// malformed message.
pub fn process_messages(msgs: &Vec<Message>, thresholds: Thresholds) -> (r: Result<
    Vec<Action>,
    PipelineError,
>)
    requires
        forall|i: int|
            0 <= i < msgs@.len() ==> #[trigger] msgs@[i].rows_spec() <= usize::MAX as nat
                && thresholds.flush as nat + msgs@[i].rows_spec() <= usize::MAX as nat + 1,
    ensures
        (forall|i: int| 0 <= i < msgs@.len() ==> #[trigger] msgs@[i].wf()) <==> r is Ok,
        r matches Ok(acts) ==> events_of(acts@) == run_events(Option::None, msgs@, thresholds)
            && written_batches(acts@).len() == msgs@.len() && (forall|k: int|
            0 <= k < msgs@.len() ==> (#[trigger] written_batches(acts@)[k]).encodes(msgs@[k])),
        r matches Err(e) ==> e == PipelineError::SchemaMismatch && exists|i: int|
            0 <= i < msgs@.len() && !(#[trigger] msgs@[i].wf()),
{
    let mut acc = Accumulator::new(thresholds);
    let mut out: Vec<Action> = Vec::new();
    let mut i: usize = 0;
    proof {
        assert(msgs@.take(0) =~= Seq::<Message>::empty());
    }
    while i < msgs.len()
        invariant
            i <= msgs@.len(),
            acc.inv(),
            acc.thresholds_spec() == thresholds,
            acc.seg_view() == run_view(Option::None, msgs@.take(i as int), thresholds),
            events_of(out@) == run_events(Option::None, msgs@.take(i as int), thresholds),
            written_batches(out@).len() == i,
            forall|k: int|
                0 <= k < i ==> (#[trigger] written_batches(out@)[k]).encodes(msgs@[k]),
            forall|j: int| 0 <= j < i ==> #[trigger] msgs@[j].wf(),
            forall|j: int|
                0 <= j < msgs@.len() ==> #[trigger] msgs@[j].rows_spec() <= usize::MAX as nat
                    && thresholds.flush as nat + msgs@[j].rows_spec() <= usize::MAX as nat + 1,
        decreases msgs@.len() - i,
    {
        let ghost prefix = msgs@.take(i as int);
        let msg = &msgs[i];
        proof {
            assert(msgs@[i as int].rows_spec() <= usize::MAX as nat);
        }
        match acc.on_message(msg) {
            Ok(mut acts) => {
                proof {
                    lemma_run_snoc(Option::None, prefix, msgs@[i as int], thresholds);
                    assert(msgs@.take(i as int + 1) =~= prefix.push(msgs@[i as int]));
                }
                let ghost old_out = out@;
                let ghost acts_view = acts@;
                out.append(&mut acts);
                proof {
                    assert(events_of(out@) =~= events_of(old_out) + events_of(acts_view));
                    lemma_written_batches_add(old_out, acts_view);
                }
            },
            Err(e) => {
                return Err(e);
            },
        }
        i = i + 1;
    }
    proof {
        assert(msgs@.take(msgs@.len() as int) =~= msgs@);
    }
    Ok(out)
}

} // verus!
