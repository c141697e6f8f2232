use aqualog::batch::{build_batch, RowBatch, ValueColumn};
use aqualog::errors::PipelineError;
use aqualog::message::{Message, Payload};
use aqualog::segment::{process_messages, Accumulator, Action, Thresholds};

fn temperature(ts: i64, pairs: &[(u64, u32)]) -> Message {
    Message {
        timestamp_millis: ts,
        payload: Payload::Temperature {
            identifiers: pairs.iter().map(|p| p.0).collect(),
            readings: pairs.iter().map(|p| p.1).collect(),
        },
    }
}

fn turbidity(ts: i64, identifier: u64, reading: u16) -> Message {
    Message { timestamp_millis: ts, payload: Payload::Turbidity { identifier, reading } }
}

fn write_rows(actions: &[Action]) -> Vec<usize> {
    actions
        .iter()
        .filter_map(|a| match a {
            Action::Write(b) => Some(b.row_count()),
            _ => None,
        })
        .collect()
}

#[test]
fn temperature_batch_has_three_equal_columns() {
    let msg = temperature(1_700_000_000_123, &[(7, 21), (8, 22), (9, 23)]);
    let batch = build_batch(&msg).unwrap();
    assert_eq!(batch.identifiers, vec![7, 8, 9]);
    assert_eq!(
        batch.timestamps,
        vec![1_700_000_000_123, 1_700_000_000_123, 1_700_000_000_123]
    );
    assert_eq!(batch.values, ValueColumn::Temperature(vec![21, 22, 23]));
    assert_eq!(batch.row_count(), 3);
}

#[test]
fn turbidity_batch_is_one_row() {
    let msg = turbidity(42, 5, 900);
    let batch = build_batch(&msg).unwrap();
    assert_eq!(batch.identifiers, vec![5]);
    assert_eq!(batch.timestamps, vec![42]);
    assert_eq!(batch.values, ValueColumn::Turbidity(vec![900]));
    assert_eq!(batch.row_count(), 1);
}

#[test]
fn mismatched_columns_are_a_schema_mismatch() {
    let msg = Message {
        timestamp_millis: 10,
        payload: Payload::Temperature { identifiers: vec![1, 2], readings: vec![30] },
    };
    assert_eq!(build_batch(&msg), Err(PipelineError::SchemaMismatch));
}

#[test]
fn empty_temperature_batch_is_valid() {
    let msg = temperature(10, &[]);
    let batch = build_batch(&msg).unwrap();
    assert_eq!(batch.row_count(), 0);
    assert_eq!(batch.timestamps, Vec::<i64>::new());
}

#[test]
fn first_message_opens_segment_keyed_by_its_timestamp() {
    let mut acc = Accumulator::new(Thresholds { flush: 100, finish: 100 });
    let acts = acc.on_message(&turbidity(77, 1, 2)).unwrap();
    assert_eq!(acts.len(), 2);
    assert_eq!(acts[0], Action::Open(77));
    assert!(matches!(acts[1], Action::Write(_)));
    assert!(acc.has_open_segment());
    assert_eq!(acc.in_progress_rows(), 1);
    assert_eq!(acc.flushed_groups(), 0);
}

#[test]
fn flush_fires_exactly_when_threshold_reached() {
    let mut acc = Accumulator::new(Thresholds { flush: 3, finish: 100 });
    // two rows: below the threshold, no flush
    let acts = acc.on_message(&temperature(1, &[(1, 10), (2, 11)])).unwrap();
    assert!(!acts.contains(&Action::Flush));
    assert_eq!(acc.in_progress_rows(), 2);
    // one more row reaches three: flush, and the counter resets
    let acts = acc.on_message(&turbidity(2, 3, 30)).unwrap();
    assert!(acts.contains(&Action::Flush));
    assert_eq!(acc.in_progress_rows(), 0);
    assert_eq!(acc.flushed_groups(), 1);
}

#[test]
fn no_second_flush_without_an_intervening_write() {
    let mut acc = Accumulator::new(Thresholds { flush: 2, finish: 100 });
    let acts = acc.on_message(&temperature(1, &[(1, 10), (2, 11), (3, 12)])).unwrap();
    // one oversized message still flushes exactly once
    assert_eq!(acts.iter().filter(|a| **a == Action::Flush).count(), 1);
    // and the next one-row message does not flush again
    let acts = acc.on_message(&turbidity(2, 4, 40)).unwrap();
    assert!(!acts.contains(&Action::Flush));
}

#[test]
fn rotation_fires_exactly_at_group_threshold() {
    let mut acc = Accumulator::new(Thresholds { flush: 1, finish: 2 });
    // every one-row message flushes; the second flush reaches the finish threshold
    let acts = acc.on_message(&turbidity(1, 1, 10)).unwrap();
    assert!(acts.contains(&Action::Flush));
    assert!(!acts.contains(&Action::Finish));
    let acts = acc.on_message(&turbidity(2, 2, 20)).unwrap();
    assert_eq!(acts, vec![Action::Write(build_batch(&turbidity(2, 2, 20)).unwrap()),
        Action::Flush, Action::Finish]);
    assert!(!acc.has_open_segment());
}

#[test]
fn message_after_rotation_opens_fresh_segment() {
    let mut acc = Accumulator::new(Thresholds { flush: 1, finish: 1 });
    let _ = acc.on_message(&turbidity(5, 1, 10)).unwrap();
    assert!(!acc.has_open_segment());
    // the next message opens a brand-new segment keyed by its own timestamp,
    // holding none of the prior segment's rows or groups
    let acts = acc.on_message(&temperature(9, &[(1, 10), (2, 20)])).unwrap();
    assert_eq!(acts[0], Action::Open(9));
    assert_eq!(acc.flushed_groups(), 0);
}

#[test]
fn two_single_row_messages_flush_then_finish() {
    // flush threshold 2, finish threshold 1: two single-row messages give
    // exactly one flush then exactly one finish, and a third message opens a
    // new segment
    let t = Thresholds { flush: 2, finish: 1 };
    let mut acc = Accumulator::new(t);
    let first = acc.on_message(&turbidity(100, 1, 11)).unwrap();
    assert_eq!(first[0], Action::Open(100));
    assert!(matches!(first[1], Action::Write(_)));
    assert_eq!(first.len(), 2);
    let second = acc.on_message(&turbidity(101, 2, 22)).unwrap();
    assert!(matches!(second[0], Action::Write(_)));
    assert_eq!(second[1], Action::Flush);
    assert_eq!(second[2], Action::Finish);
    assert_eq!(second.len(), 3);
    let third = acc.on_message(&turbidity(102, 3, 33)).unwrap();
    assert_eq!(third[0], Action::Open(102));
    assert!(matches!(third[1], Action::Write(_)));
}

#[test]
fn rows_are_written_in_arrival_order() {
    let msgs = vec![
        temperature(1, &[(1, 10), (2, 20)]),
        turbidity(2, 3, 30),
        temperature(3, &[(4, 40), (5, 50), (6, 60)]),
    ];
    let acts = process_messages(&msgs, Thresholds { flush: 4, finish: 2 }).unwrap();
    assert_eq!(write_rows(&acts), vec![2, 1, 3]);
    assert_eq!(write_rows(&acts).iter().sum::<usize>(), 6);
}

#[test]
fn one_malformed_message_aborts_the_run() {
    let msgs = vec![
        turbidity(1, 1, 10),
        Message {
            timestamp_millis: 2,
            payload: Payload::Temperature { identifiers: vec![1], readings: vec![] },
        },
        turbidity(3, 3, 30),
    ];
    assert_eq!(
        process_messages(&msgs, Thresholds { flush: 10, finish: 10 }),
        Err(PipelineError::SchemaMismatch)
    );
}

#[test]
fn malformed_message_leaves_accumulator_unchanged() {
    let mut acc = Accumulator::new(Thresholds { flush: 10, finish: 10 });
    let _ = acc.on_message(&turbidity(1, 1, 10)).unwrap();
    let bad = Message {
        timestamp_millis: 2,
        payload: Payload::Temperature { identifiers: vec![1, 2], readings: vec![9] },
    };
    assert_eq!(acc.on_message(&bad), Err(PipelineError::SchemaMismatch));
    assert!(acc.has_open_segment());
    assert_eq!(acc.in_progress_rows(), 1);
}

#[test]
fn full_run_interleaves_opens_flushes_and_rotations() {
    // flush after 2 rows, rotate after 2 groups: four single-row messages
    // fill exactly one segment, and a fifth starts the next one
    let msgs = vec![
        turbidity(10, 1, 100),
        turbidity(11, 2, 200),
        turbidity(12, 3, 300),
        turbidity(13, 4, 400),
        turbidity(14, 5, 500),
    ];
    let acts = process_messages(&msgs, Thresholds { flush: 2, finish: 2 }).unwrap();
    let shape: Vec<&str> = acts
        .iter()
        .map(|a| match a {
            Action::Open(_) => "open",
            Action::Write(_) => "write",
            Action::Flush => "flush",
            Action::Finish => "finish",
        })
        .collect();
    assert_eq!(
        shape,
        vec![
            "open", "write", "write", "flush", "write", "write", "flush", "finish", "open",
            "write",
        ]
    );
    assert_eq!(acts[0], Action::Open(10));
    // the segment after the rotation is keyed by the fifth message
    assert_eq!(acts[8], Action::Open(14));
}

#[test]
fn written_batch_carries_the_message_content() {
    let mut acc = Accumulator::new(Thresholds { flush: 10, finish: 10 });
    let acts = acc.on_message(&temperature(8, &[(41, 1000), (42, 2000)])).unwrap();
    let expected = RowBatch {
        identifiers: vec![41, 42],
        timestamps: vec![8, 8],
        values: ValueColumn::Temperature(vec![1000, 2000]),
    };
    assert_eq!(acts[1], Action::Write(expected));
}
