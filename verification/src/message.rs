//! Messages entering the pipeline.
//!
//! A message carries one timestamp and a payload whose shape depends on the
//! sensor kind: temperature readings arrive as a batch of
//! (identifier, reading) pairs, turbidity readings one at a time.  The crate
//! never interprets a reading numerically; a temperature reading is carried
//! as its raw 32-bit encoding and decoded into the storage value type
//! outside the library, a turbidity reading is a 16-bit count.

use vstd::prelude::*;

verus! {

/// The sensor-kind-specific part of a message.
#[derive(Clone, Debug, PartialEq)]
pub enum Payload {
    /// A batch of temperature readings: `identifiers[i]` produced the
    /// reading whose raw 32-bit encoding is `readings[i]`.
    Temperature { identifiers: Vec<u64>, readings: Vec<u32> },
    /// A single turbidity reading from one sensor.
    Turbidity { identifier: u64, reading: u16 },
}

/// One message from the fan-out source: a single timestamp, in milliseconds,
/// shared by every row the message yields, plus the payload.
#[derive(Clone, Debug, PartialEq)]
pub struct Message {
    pub timestamp_millis: i64,
    pub payload: Payload,
}

impl Payload {
    /// A payload is well formed when it yields rows: each identifier is
    /// paired with exactly one reading.
    pub open spec fn wf(&self) -> bool {
        match self {
            Payload::Temperature { identifiers, readings } => {
                identifiers@.len() == readings@.len()
            },
            Payload::Turbidity { .. } => true,
        }
    }

    /// How many rows this payload yields.
    pub open spec fn rows_spec(&self) -> nat {
        match self {
            Payload::Temperature { identifiers, .. } => identifiers@.len(),
            Payload::Turbidity { .. } => 1,
        }
    }
}

impl Message {
    /// A message is well formed when its payload is.
    pub open spec fn wf(&self) -> bool {
        self.payload.wf()
    }

    /// How many rows this message yields.
    pub open spec fn rows_spec(&self) -> nat {
        self.payload.rows_spec()
    }

    /// The number of rows this message yields, counted on the identifier
    /// column.
    pub fn row_count(&self) -> (n: usize)
        ensures
            n == self.rows_spec(),
    {
        match &self.payload {
            Payload::Temperature { identifiers, .. } => identifiers.len(),
            Payload::Turbidity { .. } => 1,
        }
    }
}

} // verus!
