//! The answers of the core API, as plain values.

use vstd::prelude::*;
use crate::model::ids::{BlockId, OutputId};
use crate::model::metadata::{LedgerInclusionState, SpentMetadata};
use crate::model::node::RentStructure;
use crate::model::tangle::MilestoneIndexTimestamp;

verus! {

/// The metadata of an output as the store hands it out.
#[derive(Clone, Copy, Debug, PartialEq, Eq)]
pub struct OutputMetadataResult {
    pub output_id: OutputId,
    pub block_id: BlockId,
    pub booked: MilestoneIndexTimestamp,
    pub spent_metadata: Option<SpentMetadata>,
}

/// The changes that a milestone made to the ledger, as the store hands them
/// out.
#[derive(Clone, Debug, PartialEq, Eq)]
pub struct UtxoChangesResult {
    pub created_outputs: Vec<OutputId>,
    pub consumed_outputs: Vec<OutputId>,
}

/// The answer to a question about the metadata of a block.
#[derive(Clone, Debug, PartialEq, Eq)]
pub struct BlockMetadataResponse {
    pub block_id: String,
    pub parents: Vec<String>,
    pub is_solid: bool,
    pub referenced_by_milestone_index: Option<u32>,
    pub milestone_index: Option<u32>,
    pub ledger_inclusion_state: Option<LedgerInclusionState>,
    pub conflict_reason: Option<u8>,
    pub should_promote: Option<bool>,
    pub should_reattach: Option<bool>,
    pub white_flag_index: Option<u32>,
}

/// The answer to a question about the metadata of an output.
#[derive(Clone, Debug, PartialEq, Eq)]
pub struct OutputMetadataResponse {
    pub block_id: String,
    pub transaction_id: String,
    pub output_index: u16,
    pub is_spent: bool,
    pub milestone_index_spent: Option<u32>,
    pub milestone_timestamp_spent: Option<u32>,
    pub transaction_id_spent: Option<String>,
    pub milestone_index_booked: u32,
    pub milestone_timestamp_booked: u32,
    pub ledger_index: u32,
}

/// The answer to a question about the changes that a milestone made to the
/// ledger.
#[derive(Clone, Debug, PartialEq, Eq)]
pub struct UtxoChangesResponse {
    pub index: u32,
    pub created_outputs: Vec<String>,
    pub consumed_outputs: Vec<String>,
}

/// The answer to a question about the treasury.
#[derive(Clone, Debug, PartialEq, Eq)]
pub struct TreasuryResponse {
    pub milestone_id: String,
    pub amount: u64,
}

/// A milestone as the node's status names it.
#[derive(Clone, Debug, PartialEq, Eq)]
pub struct MilestoneResponse {
    pub index: u32,
    pub timestamp: Option<u32>,
    pub milestone_id: Option<String>,
}

/// The status of the node.
#[derive(Clone, Debug, PartialEq, Eq)]
pub struct StatusResponse {
    pub is_healthy: bool,
    pub latest_milestone: MilestoneResponse,
    pub confirmed_milestone: MilestoneResponse,
    pub pruning_index: u32,
}

/// The parameters of the protocol as the node reports them.
#[derive(Clone, Debug, PartialEq, Eq)]
pub struct ProtocolResponse {
    pub protocol_version: u8,
    pub network_name: String,
    pub below_max_depth: u8,
    pub bech32_hrp: String,
    pub min_pow_score: u32,
    pub rent_structure: RentStructure,
    pub token_supply: u64,
}

/// The token of the network as the node reports it.
#[derive(Clone, Debug, PartialEq, Eq)]
pub struct BaseTokenResponse {
    pub name: String,
    pub ticker_symbol: String,
    pub decimals: u8,
    pub unit: String,
    pub subunit: Option<String>,
    pub use_metric_prefix: bool,
}

/// What the node reports about itself.
#[derive(Clone, Debug, PartialEq, Eq)]
pub struct InfoResponse {
    pub name: String,
    pub version: String,
    pub status: StatusResponse,
    pub protocol: ProtocolResponse,
    pub base_token: BaseTokenResponse,
}

} // verus!
