//! The answers of the core API's routes, each built from what the route read
//! from the store.

use vstd::prelude::*;
use crate::api::responses::{
    BaseTokenResponse,
    BlockMetadataResponse,
    InfoResponse,
    MilestoneResponse,
    OutputMetadataResponse,
    OutputMetadataResult,
    ProtocolResponse,
    StatusResponse,
    TreasuryResponse,
    UtxoChangesResponse,
    UtxoChangesResult,
};
use crate::model::hex::prefixed_hex;
use crate::model::ids::{BlockId, MilestoneId, OutputId};
use crate::model::metadata::{BlockMetadata, ConflictReason};
use crate::model::node::{BaseToken, ProtocolParameters};
use crate::model::tangle::{MilestoneIndex, MilestoneIndexTimestamp};

verus! {

/// The value of the `Accept` header with which a caller asks for the bytes
/// of an object in place of its description.
pub open spec fn byte_content_header() -> Seq<char> {
    "application/vnd.iota.serializer-v1"@
}

/// The value of the `Accept` header with which a caller asks for the bytes
/// of an object in place of its description.
pub fn byte_content() -> (header: &'static str)
    ensures
        header@ == byte_content_header(),
{
    "application/vnd.iota.serializer-v1"
}

impl ConflictReason {
    /// The number that stands for the reason in an answer.
    pub open spec fn code_spec(self) -> u8 {
        match self {
            ConflictReason::NoConflict => 0,
            ConflictReason::InputUtxoAlreadySpent => 1,
            ConflictReason::InputUtxoAlreadySpentInThisMilestone => 2,
            ConflictReason::InputUtxoNotFound => 3,
            ConflictReason::CreatedConsumedAmountMismatch => 4,
            ConflictReason::InvalidSignature => 5,
            ConflictReason::TimelockNotExpired => 6,
            ConflictReason::InvalidNativeTokens => 7,
            ConflictReason::StorageDepositReturnUnfulfilled => 8,
            ConflictReason::InvalidUnlock => 9,
            ConflictReason::InputsCommitmentsMismatch => 10,
            ConflictReason::UnverifiedSender => 11,
            ConflictReason::InvalidChainStateTransition => 12,
            ConflictReason::SemanticValidationFailed => 255,
        }
    }

    /// The number that stands for the reason in an answer.
    pub fn code(&self) -> (code: u8)
        ensures
            code == self.code_spec(),
    {
        match self {
            ConflictReason::NoConflict => 0,
            ConflictReason::InputUtxoAlreadySpent => 1,
            ConflictReason::InputUtxoAlreadySpentInThisMilestone => 2,
            ConflictReason::InputUtxoNotFound => 3,
            ConflictReason::CreatedConsumedAmountMismatch => 4,
            ConflictReason::InvalidSignature => 5,
            ConflictReason::TimelockNotExpired => 6,
            ConflictReason::InvalidNativeTokens => 7,
            ConflictReason::StorageDepositReturnUnfulfilled => 8,
            ConflictReason::InvalidUnlock => 9,
            ConflictReason::InputsCommitmentsMismatch => 10,
            ConflictReason::UnverifiedSender => 11,
            ConflictReason::InvalidChainStateTransition => 12,
            ConflictReason::SemanticValidationFailed => 255,
        }
    }
}

/// The hexadecimal forms of block identifiers, in their order.
pub fn block_ids_to_hex(ids: &Vec<BlockId>) -> (texts: Vec<String>)
    ensures
        texts@.len() == ids@.len(),
        forall|i: int| 0 <= i < ids@.len() ==> (#[trigger] texts@[i])@ == prefixed_hex(ids@[i]@),
{
    let mut texts: Vec<String> = Vec::new();
    let mut i: usize = 0;
    while i < ids.len()
        invariant
            i <= ids@.len(),
            texts@.len() == i,
            forall|j: int| 0 <= j < i ==> (#[trigger] texts@[j])@ == prefixed_hex(ids@[j]@),
        decreases ids@.len() - i,
    {
        texts.push(ids[i].to_hex());
        i += 1;
    }
    texts
}

/// The hexadecimal forms of output identifiers, in their order.
pub fn output_ids_to_hex(ids: &Vec<OutputId>) -> (texts: Vec<String>)
    ensures
        texts@.len() == ids@.len(),
        forall|i: int| 0 <= i < ids@.len() ==> (#[trigger] texts@[i])@ == prefixed_hex(ids@[i]@),
{
    let mut texts: Vec<String> = Vec::new();
    let mut i: usize = 0;
    while i < ids.len()
        invariant
            i <= ids@.len(),
            texts@.len() == i,
            forall|j: int| 0 <= j < i ==> (#[trigger] texts@[j])@ == prefixed_hex(ids@[j]@),
        decreases ids@.len() - i,
    {
        texts.push(ids[i].to_hex());
        i += 1;
    }
    texts
}

/// The answer to a question about the metadata of a block.
pub fn create_block_metadata_response(block_id: BlockId, metadata: &BlockMetadata) -> (response:
    BlockMetadataResponse)
    ensures
        response.block_id@ == prefixed_hex(block_id@),
        response.parents@.len() == metadata.parents@.len(),
        forall|i: int|
            0 <= i < metadata.parents@.len() ==> (#[trigger] response.parents@[i])@ == prefixed_hex(
                metadata.parents@[i]@,
            ),
        response.is_solid == metadata.is_solid,
        response.referenced_by_milestone_index == Some(metadata.referenced_by_milestone_index.0),
        response.milestone_index == Some(metadata.milestone_index.0),
        response.ledger_inclusion_state == Some(metadata.inclusion_state),
        response.conflict_reason == Some(metadata.conflict_reason.code_spec()),
        response.should_promote == Some(metadata.should_promote),
        response.should_reattach == Some(metadata.should_reattach),
        response.white_flag_index == Some(metadata.white_flag_index),
{
    BlockMetadataResponse {
        block_id: block_id.to_hex(),
        parents: block_ids_to_hex(&metadata.parents),
        is_solid: metadata.is_solid,
        referenced_by_milestone_index: Some(metadata.referenced_by_milestone_index.0),
        milestone_index: Some(metadata.milestone_index.0),
        ledger_inclusion_state: Some(metadata.inclusion_state),
        conflict_reason: Some(metadata.conflict_reason.code()),
        should_promote: Some(metadata.should_promote),
        should_reattach: Some(metadata.should_reattach),
        white_flag_index: Some(metadata.white_flag_index),
    }
}

/// The answer to a question about the metadata of an output, asked as of
/// `ledger_index`.
pub fn create_output_metadata_response(metadata: &OutputMetadataResult, ledger_index: MilestoneIndex) -> (response:
    OutputMetadataResponse)
    ensures
        response.block_id@ == prefixed_hex(metadata.block_id@),
        response.transaction_id@ == prefixed_hex(metadata.output_id.transaction_bytes()),
        response.output_index == metadata.output_id.index_spec(),
        response.is_spent == metadata.spent_metadata.is_some(),
        response.milestone_index_booked == metadata.booked.milestone_index.0,
        response.milestone_timestamp_booked == metadata.booked.milestone_timestamp.0,
        response.ledger_index == ledger_index.0,
        match metadata.spent_metadata {
            Some(spent_metadata) => {
                &&& response.milestone_index_spent == Some(spent_metadata.spent.milestone_index.0)
                &&& response.milestone_timestamp_spent == Some(
                    spent_metadata.spent.milestone_timestamp.0,
                )
                &&& response.transaction_id_spent matches Some(text) && text@ == prefixed_hex(
                    spent_metadata.transaction_id@,
                )
            },
            None => {
                &&& response.milestone_index_spent is None
                &&& response.milestone_timestamp_spent is None
                &&& response.transaction_id_spent is None
            },
        },
{
    let (milestone_index_spent, milestone_timestamp_spent, transaction_id_spent) =
        match &metadata.spent_metadata {
        Some(spent_metadata) => (
            Some(spent_metadata.spent.milestone_index.0),
            Some(spent_metadata.spent.milestone_timestamp.0),
            Some(spent_metadata.transaction_id.to_hex()),
        ),
        None => (None, None, None),
    };
    OutputMetadataResponse {
        block_id: metadata.block_id.to_hex(),
        transaction_id: metadata.output_id.transaction_id().to_hex(),
        output_index: metadata.output_id.index(),
        is_spent: metadata.spent_metadata.is_some(),
        milestone_index_spent,
        milestone_timestamp_spent,
        transaction_id_spent,
        milestone_index_booked: metadata.booked.milestone_index.0,
        milestone_timestamp_booked: metadata.booked.milestone_timestamp.0,
        ledger_index: ledger_index.0,
    }
}

/// The answer to a question about the changes that the milestone at
/// `milestone_index` made to the ledger.
pub fn create_utxo_changes_response(milestone_index: MilestoneIndex, changes: &UtxoChangesResult) -> (response:
    UtxoChangesResponse)
    ensures
        response.index == milestone_index.0,
        response.created_outputs@.len() == changes.created_outputs@.len(),
        forall|i: int|
            0 <= i < changes.created_outputs@.len() ==> (#[trigger] response.created_outputs@[i])@
                == prefixed_hex(changes.created_outputs@[i]@),
        response.consumed_outputs@.len() == changes.consumed_outputs@.len(),
        forall|i: int|
            0 <= i < changes.consumed_outputs@.len() ==> (#[trigger] response.consumed_outputs@[i])@
                == prefixed_hex(changes.consumed_outputs@[i]@),
{
    UtxoChangesResponse {
        index: milestone_index.0,
        created_outputs: output_ids_to_hex(&changes.created_outputs),
        consumed_outputs: output_ids_to_hex(&changes.consumed_outputs),
    }
}

/// The answer to a question about the treasury.
pub fn create_treasury_response(milestone_id: MilestoneId, amount: u64) -> (response: TreasuryResponse)
    ensures
        response.milestone_id@ == prefixed_hex(milestone_id@),
        response.amount == amount,
{
    TreasuryResponse { milestone_id: milestone_id.to_hex(), amount }
}

/// What the node reports about itself: its name and version, the newest
/// milestone as both the latest and the confirmed one, the milestone before
/// the oldest one as the last that was pruned, and the protocol parameters
/// and base token in effect.
pub fn create_info_response(
    name: String,
    version: String,
    is_healthy: bool,
    protocol: ProtocolParameters,
    newest_milestone: MilestoneIndexTimestamp,
    newest_milestone_id: MilestoneId,
    oldest_milestone: MilestoneIndexTimestamp,
    base_token: BaseToken,
) -> (response: InfoResponse)
    requires
        oldest_milestone.milestone_index.0 >= 1,
    ensures
        response.name@ == name@,
        response.version@ == version@,
        response.status.is_healthy == is_healthy,
        response.status.latest_milestone.index == newest_milestone.milestone_index.0,
        response.status.latest_milestone.timestamp == Some(newest_milestone.milestone_timestamp.0),
        response.status.latest_milestone.milestone_id matches Some(text) && text@ == prefixed_hex(
            newest_milestone_id@,
        ),
        response.status.confirmed_milestone.index == newest_milestone.milestone_index.0,
        response.status.confirmed_milestone.timestamp == Some(
            newest_milestone.milestone_timestamp.0,
        ),
        response.status.confirmed_milestone.milestone_id matches Some(text) && text@
            == prefixed_hex(newest_milestone_id@),
        response.status.pruning_index == oldest_milestone.milestone_index.0 - 1,
        response.protocol.protocol_version == protocol.version,
        response.protocol.network_name@ == protocol.network_name@,
        response.protocol.below_max_depth == protocol.below_max_depth,
        response.protocol.bech32_hrp@ == protocol.bech32_hrp@,
        response.protocol.min_pow_score == protocol.min_pow_score,
        response.protocol.rent_structure == protocol.rent_structure,
        response.protocol.token_supply == protocol.token_supply,
        response.base_token.name@ == base_token.name@,
        response.base_token.ticker_symbol@ == base_token.ticker_symbol@,
        response.base_token.decimals == base_token.decimals % 256,
        response.base_token.unit@ == base_token.unit@,
        response.base_token.subunit matches Some(text) && text@ == base_token.subunit@,
        response.base_token.use_metric_prefix == base_token.use_metric_prefix,
{
    let latest_milestone = MilestoneResponse {
        index: newest_milestone.milestone_index.0,
        timestamp: Some(newest_milestone.milestone_timestamp.0),
        milestone_id: Some(newest_milestone_id.to_hex()),
    };
    let confirmed_milestone = MilestoneResponse {
        index: newest_milestone.milestone_index.0,
        timestamp: Some(newest_milestone.milestone_timestamp.0),
        milestone_id: Some(newest_milestone_id.to_hex()),
    };
    InfoResponse {
        name,
        version,
        status: StatusResponse {
            is_healthy,
            latest_milestone,
            confirmed_milestone,
            pruning_index: oldest_milestone.milestone_index.0 - 1,
        },
        protocol: ProtocolResponse {
            protocol_version: protocol.version,
            network_name: protocol.network_name,
            below_max_depth: protocol.below_max_depth,
            bech32_hrp: protocol.bech32_hrp,
            min_pow_score: protocol.min_pow_score,
            rent_structure: protocol.rent_structure,
            token_supply: protocol.token_supply,
        },
        base_token: BaseTokenResponse {
            name: base_token.name,
            ticker_symbol: base_token.ticker_symbol,
            decimals: (base_token.decimals % 256) as u8,
            unit: base_token.unit,
            subunit: Some(base_token.subunit),
            use_metric_prefix: base_token.use_metric_prefix,
        },
    }
}

} // verus!
