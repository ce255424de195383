//! The consensus data that this core fingerprints, orders and classifies.
use vstd::prelude::*;

verus! {

/// A 256-bit digest held as four 64-bit words, word 0 the most significant.
#[derive(Clone, Copy, Debug, PartialEq, Eq, Structural, Hash, Ord)]
pub struct Hash256 {
    pub bytes0_through7: u64,
    pub bytes8_through15: u64,
    pub bytes16_through23: u64,
    pub bytes24_through31: u64,
}

/// A point in time: whole seconds and the nanoseconds past them.
#[derive(Clone, Copy, Debug, PartialEq, Eq, Structural, Hash)]
pub struct Timestamp {
    pub seconds: i64,
    pub nanos: i32,
}

/// A dated proposal: an optional timestamp and the fingerprint of the proposed value.
#[derive(Clone, Copy, Debug, PartialEq, Eq, Structural, Hash)]
pub struct Ballot {
    pub timestamp: Option<Timestamp>,
    pub value_hash: Option<Hash256>,
}

/// The payload that a consensus message carries.
#[derive(Clone, Copy, Debug, PartialEq, Eq, Structural, Hash)]
pub enum MessageOneof {
    Ballot(Ballot),
    /// A message of any other kind of the consensus schema.
    Other,
}

/// A consensus message, possibly empty.
#[derive(Clone, Copy, Debug, PartialEq, Eq, Structural, Hash)]
pub struct ConsensusMessage {
    pub message_oneof: Option<MessageOneof>,
}

/// The bytes of a digital signature.
#[derive(Clone, Debug, PartialEq, Eq, Hash)]
pub struct Signature {
    pub bytes: Vec<u8>,
}

/// A message starts phase 1 (a "1a") when it carries a ballot with both a
/// timestamp and a value fingerprint.
pub open spec fn spec_is_one_a(m: ConsensusMessage) -> bool {
    match m.message_oneof {
        Some(MessageOneof::Ballot(b)) => b.timestamp.is_some() && b.value_hash.is_some(),
        Some(MessageOneof::Other) => false,
        None => false,
    }
}

impl ConsensusMessage {
    /// Does this message carry a ballot with a timestamp and a value fingerprint?
    pub fn is_one_a(&self) -> (r: bool)
        ensures
            r == spec_is_one_a(*self),
    {
        match &self.message_oneof {
            Some(MessageOneof::Ballot(b)) => b.timestamp.is_some() && b.value_hash.is_some(),
            Some(MessageOneof::Other) => false,
            None => false,
        }
    }
}

} // verus!
