//! Row batches: the fixed three-column shape written into a segment.
//!
//! Every message is turned into one batch with an `identifier` column, a
//! `timestamp` column holding the message's single timestamp replicated
//! across all rows, and a sensor-kind-specific `value` column.  Building a
//! batch is the one place a malformed message is caught: a temperature
//! message whose identifier and reading columns differ in length yields no
//! batch.

use vstd::prelude::*;

use crate::errors::PipelineError;
use crate::message::{Message, Payload};

verus! {

/// The value column of a row batch, one variant per sensor kind.
#[derive(Clone, Debug, PartialEq)]
pub enum ValueColumn {
    /// Raw 32-bit encodings of temperature readings.
    Temperature(Vec<u32>),
    /// Turbidity counts.
    Turbidity(Vec<u16>),
}

impl ValueColumn {
    /// How many values the column holds.
    pub open spec fn len_spec(&self) -> nat {
        match self {
            ValueColumn::Temperature(v) => v@.len(),
            ValueColumn::Turbidity(v) => v@.len(),
        }
    }
}

/// One column batch under the fixed schema: `identifier` (64-bit unsigned),
/// `timestamp` (milliseconds, one value replicated across all rows),
/// `value` (sensor-kind specific).
#[derive(Clone, Debug, PartialEq)]
pub struct RowBatch {
    pub identifiers: Vec<u64>,
    pub timestamps: Vec<i64>,
    pub values: ValueColumn,
}

impl RowBatch {
    /// How many rows the batch holds, counted on the identifier column.
    pub open spec fn rows_spec(&self) -> nat {
        self.identifiers@.len()
    }

    /// The three columns are equally long and the timestamp column is
    /// constant.
    pub open spec fn wf(&self) -> bool {
        &&& self.timestamps@.len() == self.rows_spec()
        &&& self.values.len_spec() == self.rows_spec()
        &&& forall|i: int, j: int|
            0 <= i < self.timestamps@.len() && 0 <= j < self.timestamps@.len()
                ==> self.timestamps@[i] == self.timestamps@[j]
    }

    /// The batch is exactly the three-column encoding of `m`: the
    /// identifiers and readings of `m`'s payload in payload order, and
    /// `m`'s timestamp in every row.
    pub open spec fn encodes(&self, m: Message) -> bool {
        &&& self.timestamps@.len() == m.rows_spec()
        &&& (forall|i: int|
            0 <= i < self.timestamps@.len() ==> self.timestamps@[i] == m.timestamp_millis)
        &&& match m.payload {
            Payload::Temperature { identifiers, readings } => {
                &&& self.identifiers@ == identifiers@
                &&& (self.values matches ValueColumn::Temperature(r) && r@ == readings@)
            },
            Payload::Turbidity { identifier, reading } => {
                &&& self.identifiers@ == seq![identifier]
                &&& (self.values matches ValueColumn::Turbidity(r) && r@ == seq![reading])
            },
        }
    }

    /// The number of rows in the batch.
    pub fn row_count(&self) -> (n: usize)
        ensures
            n == self.rows_spec(),
    {
        self.identifiers.len()
    }
}

/// Replicates `value` into a column of `count` rows.
fn replicate_timestamp(value: i64, count: usize) -> (r: Vec<i64>)
    ensures
        r@.len() == count,
        forall|i: int| 0 <= i < count ==> r@[i] == value,
{
    let mut column: Vec<i64> = Vec::new();
    let mut i: usize = 0;
    while i < count
        invariant
            i <= count,
            column@.len() == i,
            forall|j: int| 0 <= j < i ==> column@[j] == value,
        decreases count - i,
    {
        column.push(value);
        i = i + 1;
    }
    column
}

/// Builds the row batch for one message: succeeds exactly on well-formed
/// messages, and a failure is a schema mismatch.
pub fn build_batch(msg: &Message) -> (r: Result<RowBatch, PipelineError>)
    ensures
        msg.wf() <==> r is Ok,
        r matches Ok(b) ==> b.encodes(*msg) && b.wf(),
        r matches Err(e) ==> e == PipelineError::SchemaMismatch,
{
    match &msg.payload {
        Payload::Temperature { identifiers, readings } => {
            if identifiers.len() != readings.len() {
                return Err(PipelineError::SchemaMismatch);
            }
            let timestamps = replicate_timestamp(msg.timestamp_millis, identifiers.len());
            Ok(RowBatch {
                identifiers: identifiers.clone(),
                timestamps,
                values: ValueColumn::Temperature(readings.clone()),
            })
        },
        Payload::Turbidity { identifier, reading } => {
            let mut identifiers: Vec<u64> = Vec::new();
            identifiers.push(*identifier);
            let mut readings: Vec<u16> = Vec::new();
            readings.push(*reading);
            let timestamps = replicate_timestamp(msg.timestamp_millis, 1);
            let batch = RowBatch {
                identifiers,
                timestamps,
                values: ValueColumn::Turbidity(readings),
            };
            proof {
                assert(batch.identifiers@ =~= seq![*identifier]);
                assert(batch.values matches ValueColumn::Turbidity(r) && r@ =~= seq![*reading]);
            }
            Ok(batch)
        },
    }
}

} // verus!
