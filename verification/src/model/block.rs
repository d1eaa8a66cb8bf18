//! Blocks, as far as the statistics over the tangle read them.

use vstd::prelude::*;
use crate::model::ids::BlockId;
use crate::model::metadata::BlockMetadata;

verus! {

/// The kinds of payload that a block can carry.
#[derive(Clone, Copy, Debug, PartialEq, Eq, Structural)]
pub enum PayloadKind {
    Transaction,
    Milestone,
    TreasuryTransaction,
    TaggedData,
}

/// The payload of a block: its kind and its serialized bytes.
#[derive(Clone, Debug, PartialEq, Eq)]
pub struct Payload {
    pub kind: PayloadKind,
    pub raw: Vec<u8>,
}

/// A block with its identifier, its serialized bytes and its metadata.
#[derive(Clone, Debug, PartialEq, Eq)]
pub struct BlockData {
    pub block_id: BlockId,
    pub payload: Option<Payload>,
    pub raw: Vec<u8>,
    pub metadata: BlockMetadata,
}

impl BlockData {
    /// The kind of the block's payload, if it carries one.
    pub open spec fn payload_kind(self) -> Option<PayloadKind> {
        match self.payload {
            Some(payload) => Some(payload.kind),
            None => None,
        }
    }

    /// The length of the block's serialized payload; zero without a payload.
    pub open spec fn payload_len(self) -> nat {
        match self.payload {
            Some(payload) => payload.raw@.len(),
            None => 0,
        }
    }

    /// The length of the serialized block.
    pub open spec fn raw_len(self) -> nat {
        self.raw@.len()
    }
}

} // verus!
