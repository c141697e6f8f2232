//! Laws of the flush/rotation policy, proved over whole runs.
//!
//! A run is `run_events(v, msgs, t)`: the events the writer emits when it
//! handles `msgs` in arrival order starting from segment state `v` under
//! thresholds `t`.  The laws here pin down every write, every flush and
//! every rotation of such a run.

use vstd::prelude::*;

use crate::message::Message;
use crate::segment::{
    finish_fires, flush_fires, groups_after, ip_before, run_events, step_events, step_view,
    Event, SegView, Thresholds,
};

verus! {

/// The row counts of the writes in an event sequence, in order.
pub open spec fn wrote_counts(es: Seq<Event>) -> Seq<nat>
    decreases es.len(),
{
    if es.len() == 0 {
        Seq::empty()
    } else {
        (match es[0] {
            Event::Wrote(n) => seq![n],
            _ => Seq::<nat>::empty(),
        }) + wrote_counts(es.drop_first())
    }
}

/// The row counts of the messages, in arrival order.
pub open spec fn rows_of(msgs: Seq<Message>) -> Seq<nat> {
    msgs.map_values(|m: Message| m.rows_spec())
}

/// The sum of a sequence of counts.
pub open spec fn sum_of(s: Seq<nat>) -> nat
    decreases s.len(),
{
    if s.len() == 0 {
        0
    } else {
        s[0] + sum_of(s.drop_first())
    }
}

/// Every flush in the sequence comes immediately after a write — so no two
/// flushes occur without an intervening write.
pub open spec fn flush_preceded_by_write(es: Seq<Event>) -> bool {
    forall|i: int| 0 <= i < es.len() && (#[trigger] es[i]) is Flushed ==> i > 0 && es[i - 1]
        is Wrote
}

proof fn lemma_wrote_counts_add(a: Seq<Event>, b: Seq<Event>)
    ensures
        wrote_counts(a + b) == wrote_counts(a) + wrote_counts(b),
    decreases a.len(),
{
    if a.len() == 0 {
        assert(a + b =~= b);
        assert(wrote_counts(a) + wrote_counts(b) =~= wrote_counts(b));
    } else {
        assert((a + b).drop_first() =~= a.drop_first() + b);
        lemma_wrote_counts_add(a.drop_first(), b);
        assert((a + b)[0] == a[0]);
        assert(wrote_counts(a + b) =~= wrote_counts(a) + wrote_counts(b));
    }
}

proof fn lemma_step_wrote_counts(v: Option<SegView>, n: nat, ts: i64, t: Thresholds)
    ensures
        wrote_counts(step_events(v, n, ts, t)) == seq![n],
{
    reveal_with_fuel(wrote_counts, 6);
    assert(wrote_counts(step_events(v, n, ts, t)) =~= seq![n]);
}

/// Total rows written over a run, in arrival order: the sequence of write
/// row counts equals the sequence of per-message row counts.
pub proof fn lemma_rows_written_in_order(v: Option<SegView>, msgs: Seq<Message>, t: Thresholds)
    ensures
        wrote_counts(run_events(v, msgs, t)) == rows_of(msgs),
    decreases msgs.len(),
{
    if msgs.len() == 0 {
        assert(wrote_counts(run_events(v, msgs, t)) =~= rows_of(msgs));
    } else {
        let m0 = msgs[0];
        let v1 = step_view(v, m0.rows_spec(), m0.timestamp_millis, t);
        lemma_step_wrote_counts(v, m0.rows_spec(), m0.timestamp_millis, t);
        lemma_wrote_counts_add(
            step_events(v, m0.rows_spec(), m0.timestamp_millis, t),
            run_events(v1, msgs.drop_first(), t),
        );
        lemma_rows_written_in_order(v1, msgs.drop_first(), t);
        assert(wrote_counts(run_events(v, msgs, t)) =~= rows_of(msgs));
    }
}

/// Total rows written over a run equal the sum of per-message row counts.
pub proof fn lemma_total_rows_written(v: Option<SegView>, msgs: Seq<Message>, t: Thresholds)
    ensures
        sum_of(wrote_counts(run_events(v, msgs, t))) == sum_of(rows_of(msgs)),
{
    lemma_rows_written_in_order(v, msgs, t);
}

/// One step flushes exactly when the in-progress row count, after the
/// step's write, reaches or exceeds the flush threshold.
pub proof fn lemma_flush_exactly_at_threshold(v: Option<SegView>, n: nat, ts: i64, t: Thresholds)
    ensures
        step_events(v, n, ts, t).contains(Event::Flushed) <==> ip_before(v) + n >= t.flush,
{
    let es = step_events(v, n, ts, t);
    if flush_fires(v, n, t) {
        let i: int = if v is None {
            2
        } else {
            1
        };
        assert(es[i] == Event::Flushed);
        assert(es.contains(Event::Flushed));
    } else {
        assert(forall|i: int| 0 <= i < es.len() ==> !(es[i] is Flushed));
    }
}

/// One step rotates exactly when the flushed row-group count, after the
/// step's possible flush, reaches or exceeds the finish threshold — and a
/// rotation clears the segment handle.
pub proof fn lemma_rotation_exactly_at_threshold(
    v: Option<SegView>,
    n: nat,
    ts: i64,
    t: Thresholds,
)
    ensures
        step_events(v, n, ts, t).contains(Event::Finished) <==> groups_after(v, n, t)
            >= t.finish,
        step_events(v, n, ts, t).contains(Event::Finished) <==> step_view(v, n, ts, t) is None,
{
    let es = step_events(v, n, ts, t);
    if finish_fires(v, n, t) {
        assert(es[es.len() - 1] == Event::Finished);
        assert(es.contains(Event::Finished));
    } else {
        assert(forall|i: int| 0 <= i < es.len() ==> !(es[i] is Finished));
    }
}

/// The message immediately following a rotation opens a brand-new segment,
/// keyed by that message's own timestamp: none of the prior segment's rows
/// or row groups carry over, so the fresh segment's counters derive from
/// the new message alone.
pub proof fn lemma_rotation_opens_fresh(
    v: Option<SegView>,
    n: nat,
    ts: i64,
    t: Thresholds,
    n2: nat,
    ts2: i64,
)
    requires
        finish_fires(v, n, t),
    ensures
        step_view(v, n, ts, t) is None,
        step_events(step_view(v, n, ts, t), n2, ts2, t)[0] == Event::Opened(ts2),
        step_view(step_view(v, n, ts, t), n2, ts2, t) matches Some(o) ==> o.opened_at_millis
            == ts2 && o.in_progress <= n2 && o.groups <= 1,
{
}

proof fn lemma_step_flush_shape(v: Option<SegView>, n: nat, ts: i64, t: Thresholds)
    ensures
        flush_preceded_by_write(step_events(v, n, ts, t)),
        step_events(v, n, ts, t).len() > 0,
        !(step_events(v, n, ts, t)[0] is Flushed),
{
    let es = step_events(v, n, ts, t);
    assert forall|i: int| 0 <= i < es.len() && (#[trigger] es[i]) is Flushed implies i > 0
        && es[i - 1] is Wrote by {
        if v is None {
            assert(i == 2);
        } else {
            assert(i == 1);
        }
    }
}

proof fn lemma_flush_preceded_add(a: Seq<Event>, b: Seq<Event>)
    requires
        flush_preceded_by_write(a),
        flush_preceded_by_write(b),
        b.len() > 0 ==> !(b[0] is Flushed),
    ensures
        flush_preceded_by_write(a + b),
{
    let es = a + b;
    assert forall|i: int| 0 <= i < es.len() && (#[trigger] es[i]) is Flushed implies i > 0
        && es[i - 1] is Wrote by {
        if i < a.len() {
            assert(es[i] == a[i]);
            assert(es[i - 1] == a[i - 1]);
        } else {
            let j: int = i - a.len();
            assert(es[i] == b[j]);
            assert(j > 0);
            assert(es[i - 1] == b[j - 1]);
        }
    }
}

/// Over any run, a flush comes only immediately after a write: never two
/// flushes without an intervening write.
pub proof fn lemma_flush_follows_write(v: Option<SegView>, msgs: Seq<Message>, t: Thresholds)
    ensures
        flush_preceded_by_write(run_events(v, msgs, t)),
    decreases msgs.len(),
{
    if msgs.len() == 0 {
    } else {
        let m0 = msgs[0];
        let v1 = step_view(v, m0.rows_spec(), m0.timestamp_millis, t);
        lemma_step_flush_shape(v, m0.rows_spec(), m0.timestamp_millis, t);
        lemma_flush_follows_write(v1, msgs.drop_first(), t);
        lemma_run_events_head(v1, msgs.drop_first(), t);
        lemma_flush_preceded_add(
            step_events(v, m0.rows_spec(), m0.timestamp_millis, t),
            run_events(v1, msgs.drop_first(), t),
        );
    }
}

proof fn lemma_run_events_head(v: Option<SegView>, msgs: Seq<Message>, t: Thresholds)
    ensures
        run_events(v, msgs, t).len() > 0 ==> !(run_events(v, msgs, t)[0] is Flushed),
    decreases msgs.len(),
{
    if msgs.len() == 0 {
    } else {
        let m0 = msgs[0];
        let es0 = step_events(v, m0.rows_spec(), m0.timestamp_millis, t);
        assert(run_events(v, msgs, t)[0] == es0[0]);
    }
}

} // verus!
