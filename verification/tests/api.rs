use chronicle::api::responses::{OutputMetadataResult, UtxoChangesResult};
use chronicle::api::routes::{
    block_ids_to_hex, byte_content, create_block_metadata_response, create_info_response,
    create_output_metadata_response, create_treasury_response, create_utxo_changes_response, output_ids_to_hex,
};
use chronicle::model::hex::{from_hex, to_hex, HexError};
use chronicle::model::ids::{BlockId, MilestoneId, OutputId, TransactionId};
use chronicle::model::metadata::{BlockMetadata, ConflictReason, LedgerInclusionState, SpentMetadata};
use chronicle::model::node::{BaseToken, ProtocolParameters, RentStructure};
use chronicle::model::tangle::{MilestoneIndex, MilestoneTimestamp};

fn counting<const N: usize>() -> [u8; N] {
    let mut bytes = [0u8; N];
    for (i, byte) in bytes.iter_mut().enumerate() {
        *byte = (i * 7 + 1) as u8;
    }
    bytes
}

const COUNTING_32: &str = "0x01080f161d242b323940474e555c636a71787f868d949ba2a9b0b7bec5ccd3da";

#[test]
fn bytes_are_written_as_prefixed_lower_case_digits() {
    assert_eq!(to_hex(&[]), "0x");
    assert_eq!(to_hex(&[0]), "0x00");
    assert_eq!(to_hex(&[0x0f, 0xf0, 0xab, 0x09, 0xff]), "0x0ff0ab09ff");
    assert_eq!(to_hex(&counting::<32>()), COUNTING_32);
    assert_eq!(BlockId(counting::<32>()).to_hex(), COUNTING_32);
    assert_eq!(TransactionId(counting::<32>()).to_hex(), COUNTING_32);
    assert_eq!(MilestoneId(counting::<32>()).to_hex(), COUNTING_32);
    assert_eq!(OutputId(counting::<34>()).to_hex(), format!("{}e1e8", COUNTING_32));
}

#[test]
fn digits_are_read_in_either_case() {
    assert_eq!(from_hex("0x", 0), Ok(vec![]));
    assert_eq!(from_hex("0x0ff0ab09ff", 5), Ok(vec![0x0f, 0xf0, 0xab, 0x09, 0xff]));
    assert_eq!(from_hex("0x0FF0Ab09fF", 5), Ok(vec![0x0f, 0xf0, 0xab, 0x09, 0xff]));
    assert_eq!(from_hex("0x0123456789abcdef", 8), Ok(vec![0x01, 0x23, 0x45, 0x67, 0x89, 0xab, 0xcd, 0xef]));
    assert_eq!(from_hex("0xABCDEF", 3), Ok(vec![0xab, 0xcd, 0xef]));
}

#[test]
fn text_without_the_prefix_is_refused() {
    assert_eq!(from_hex("", 0), Err(HexError::InvalidPrefix));
    assert_eq!(from_hex("0", 0), Err(HexError::InvalidPrefix));
    assert_eq!(from_hex("00ff", 1), Err(HexError::InvalidPrefix));
    assert_eq!(from_hex("0Xff", 1), Err(HexError::InvalidPrefix));
    assert_eq!(from_hex("x0ff", 1), Err(HexError::InvalidPrefix));
    assert_eq!(BlockId::from_hex(&COUNTING_32[2..]), Err(HexError::InvalidPrefix));
}

#[test]
fn text_of_another_length_is_refused() {
    assert_eq!(from_hex("0x", 1), Err(HexError::InvalidLength));
    assert_eq!(from_hex("0xf", 1), Err(HexError::InvalidLength));
    assert_eq!(from_hex("0xfff", 1), Err(HexError::InvalidLength));
    assert_eq!(from_hex("0xffff", 1), Err(HexError::InvalidLength));
    assert_eq!(from_hex("0xzz", 2), Err(HexError::InvalidLength));
    assert_eq!(BlockId::from_hex(&COUNTING_32[..64]), Err(HexError::InvalidLength));
    assert_eq!(OutputId::from_hex(COUNTING_32), Err(HexError::InvalidLength));
}

#[test]
fn text_with_another_character_is_refused() {
    assert_eq!(from_hex("0xfg", 1), Err(HexError::InvalidCharacter));
    assert_eq!(from_hex("0xg0", 1), Err(HexError::InvalidCharacter));
    assert_eq!(from_hex("0x0 ", 1), Err(HexError::InvalidCharacter));
    assert_eq!(from_hex("0x/0", 1), Err(HexError::InvalidCharacter));
    assert_eq!(from_hex("0x:0", 1), Err(HexError::InvalidCharacter));
    assert_eq!(from_hex("0x@0", 1), Err(HexError::InvalidCharacter));
    assert_eq!(from_hex("0xG0", 1), Err(HexError::InvalidCharacter));
    assert_eq!(from_hex("0x`0", 1), Err(HexError::InvalidCharacter));
    assert_eq!(from_hex("0x\u{e9}", 1), Err(HexError::InvalidCharacter));
    let mut text = COUNTING_32.to_string();
    text.replace_range(40..41, "x");
    assert_eq!(TransactionId::from_hex(&text), Err(HexError::InvalidCharacter));
}

#[test]
fn identifiers_are_read_back_from_their_text() {
    assert_eq!(BlockId::from_hex(COUNTING_32), Ok(BlockId(counting::<32>())));
    assert_eq!(TransactionId::from_hex(COUNTING_32), Ok(TransactionId(counting::<32>())));
    assert_eq!(MilestoneId::from_hex(&COUNTING_32.to_uppercase().replace("0X", "0x")), Ok(MilestoneId(counting::<32>())));
    let id = OutputId(counting::<34>());
    assert_eq!(OutputId::from_hex(&id.to_hex()), Ok(id));
    for seed in 0..=255u8 {
        let id = BlockId([seed; 32]);
        assert_eq!(BlockId::from_hex(&id.to_hex()), Ok(id));
    }
}

#[test]
fn output_id_is_the_transaction_id_and_the_index() {
    let id = OutputId::new(TransactionId(counting::<32>()), 0x1234);
    assert_eq!(id.0[..32], counting::<32>());
    assert_eq!(id.0[32], 0x34);
    assert_eq!(id.0[33], 0x12);
    assert_eq!(id.transaction_id(), TransactionId(counting::<32>()));
    assert_eq!(id.index(), 0x1234);
    assert_eq!(OutputId::new(TransactionId([0; 32]), u16::MAX).index(), u16::MAX);
    assert_eq!(OutputId::new(TransactionId([0; 32]), 0).index(), 0);
    assert_eq!(OutputId::new(TransactionId([0; 32]), 255).0[32..], [255, 0]);
    assert_eq!(OutputId::new(TransactionId([0; 32]), 256).0[32..], [0, 1]);
}

fn block_metadata() -> BlockMetadata {
    BlockMetadata {
        parents: vec![BlockId([0x11; 32]), BlockId([0x22; 32])],
        is_solid: true,
        should_promote: false,
        should_reattach: true,
        referenced_by_milestone_index: MilestoneIndex(42),
        milestone_index: MilestoneIndex(0),
        inclusion_state: LedgerInclusionState::Conflicting,
        conflict_reason: ConflictReason::InputUtxoNotFound,
        white_flag_index: 7,
    }
}

#[test]
fn block_metadata_is_answered_field_by_field() {
    let response = create_block_metadata_response(BlockId(counting::<32>()), &block_metadata());
    assert_eq!(response.block_id, COUNTING_32);
    assert_eq!(response.parents, vec![format!("0x{}", "11".repeat(32)), format!("0x{}", "22".repeat(32))]);
    assert!(response.is_solid);
    assert_eq!(response.referenced_by_milestone_index, Some(42));
    assert_eq!(response.milestone_index, Some(0));
    assert_eq!(response.ledger_inclusion_state, Some(LedgerInclusionState::Conflicting));
    assert_eq!(response.conflict_reason, Some(3));
    assert_eq!(response.should_promote, Some(false));
    assert_eq!(response.should_reattach, Some(true));
    assert_eq!(response.white_flag_index, Some(7));
}

#[test]
fn conflict_reasons_have_their_codes() {
    let codes: Vec<u8> = [
        ConflictReason::NoConflict,
        ConflictReason::InputUtxoAlreadySpent,
        ConflictReason::InputUtxoAlreadySpentInThisMilestone,
        ConflictReason::InputUtxoNotFound,
        ConflictReason::CreatedConsumedAmountMismatch,
        ConflictReason::InvalidSignature,
        ConflictReason::TimelockNotExpired,
        ConflictReason::InvalidNativeTokens,
        ConflictReason::StorageDepositReturnUnfulfilled,
        ConflictReason::InvalidUnlock,
        ConflictReason::InputsCommitmentsMismatch,
        ConflictReason::UnverifiedSender,
        ConflictReason::InvalidChainStateTransition,
        ConflictReason::SemanticValidationFailed,
    ]
    .iter()
    .map(|reason| reason.code())
    .collect();
    assert_eq!(codes, vec![0, 1, 2, 3, 4, 5, 6, 7, 8, 9, 10, 11, 12, 255]);
}

#[test]
fn metadata_of_an_unspent_output_is_answered() {
    let metadata = OutputMetadataResult {
        output_id: OutputId::new(TransactionId(counting::<32>()), 3),
        block_id: BlockId([0x11; 32]),
        booked: MilestoneIndex(5).with_timestamp(MilestoneTimestamp(50)),
        spent_metadata: None,
    };
    let response = create_output_metadata_response(&metadata, MilestoneIndex(9));
    assert_eq!(response.block_id, format!("0x{}", "11".repeat(32)));
    assert_eq!(response.transaction_id, COUNTING_32);
    assert_eq!(response.output_index, 3);
    assert!(!response.is_spent);
    assert_eq!(response.milestone_index_spent, None);
    assert_eq!(response.milestone_timestamp_spent, None);
    assert_eq!(response.transaction_id_spent, None);
    assert_eq!(response.milestone_index_booked, 5);
    assert_eq!(response.milestone_timestamp_booked, 50);
    assert_eq!(response.ledger_index, 9);
}

#[test]
fn metadata_of_a_spent_output_is_answered() {
    let metadata = OutputMetadataResult {
        output_id: OutputId::new(TransactionId([0xaa; 32]), 258),
        block_id: BlockId([0x11; 32]),
        booked: MilestoneIndex(5).with_timestamp(MilestoneTimestamp(50)),
        spent_metadata: Some(SpentMetadata {
            transaction_id: TransactionId([0xbb; 32]),
            spent: MilestoneIndex(8).with_timestamp(MilestoneTimestamp(80)),
        }),
    };
    let response = create_output_metadata_response(&metadata, MilestoneIndex(9));
    assert_eq!(response.transaction_id, format!("0x{}", "aa".repeat(32)));
    assert_eq!(response.output_index, 258);
    assert!(response.is_spent);
    assert_eq!(response.milestone_index_spent, Some(8));
    assert_eq!(response.milestone_timestamp_spent, Some(80));
    assert_eq!(response.transaction_id_spent, Some(format!("0x{}", "bb".repeat(32))));
}

#[test]
fn utxo_changes_are_answered_in_their_order() {
    let changes = UtxoChangesResult {
        created_outputs: vec![OutputId([2; 34]), OutputId([1; 34])],
        consumed_outputs: vec![OutputId([3; 34])],
    };
    let response = create_utxo_changes_response(MilestoneIndex(17), &changes);
    assert_eq!(response.index, 17);
    assert_eq!(response.created_outputs, vec![format!("0x{}", "02".repeat(34)), format!("0x{}", "01".repeat(34))]);
    assert_eq!(response.consumed_outputs, vec![format!("0x{}", "03".repeat(34))]);
    let none = create_utxo_changes_response(
        MilestoneIndex(0),
        &UtxoChangesResult { created_outputs: vec![], consumed_outputs: vec![] },
    );
    assert!(none.created_outputs.is_empty());
    assert!(none.consumed_outputs.is_empty());
    assert_eq!(output_ids_to_hex(&vec![OutputId([4; 34])]), vec![format!("0x{}", "04".repeat(34))]);
    assert_eq!(block_ids_to_hex(&vec![BlockId([5; 32])]), vec![format!("0x{}", "05".repeat(32))]);
}

#[test]
fn treasury_is_answered() {
    let response = create_treasury_response(MilestoneId(counting::<32>()), 1_000_000);
    assert_eq!(response.milestone_id, COUNTING_32);
    assert_eq!(response.amount, 1_000_000);
}

fn info(oldest: u32, decimals: u32) -> chronicle::api::responses::InfoResponse {
    create_info_response(
        "Chronicle".to_string(),
        "1.0.0".to_string(),
        true,
        ProtocolParameters {
            version: 2,
            network_name: "shimmer".to_string(),
            below_max_depth: 15,
            bech32_hrp: "smr".to_string(),
            min_pow_score: 1500,
            rent_structure: RentStructure { v_byte_cost: 100, v_byte_factor_data: 1, v_byte_factor_key: 10 },
            token_supply: 1_813_620_509_061_365,
        },
        MilestoneIndex(777).with_timestamp(MilestoneTimestamp(1_700_000_000)),
        MilestoneId(counting::<32>()),
        MilestoneIndex(oldest).with_timestamp(MilestoneTimestamp(1_600_000_000)),
        BaseToken {
            name: "Shimmer".to_string(),
            ticker_symbol: "SMR".to_string(),
            unit: "SMR".to_string(),
            subunit: "glow".to_string(),
            decimals,
            use_metric_prefix: false,
        },
    )
}

#[test]
fn info_is_answered() {
    let response = info(100, 6);
    assert_eq!(response.name, "Chronicle");
    assert_eq!(response.version, "1.0.0");
    assert!(response.status.is_healthy);
    assert_eq!(response.status.latest_milestone.index, 777);
    assert_eq!(response.status.latest_milestone.timestamp, Some(1_700_000_000));
    assert_eq!(response.status.latest_milestone.milestone_id.as_deref(), Some(COUNTING_32));
    assert_eq!(response.status.confirmed_milestone, response.status.latest_milestone);
    assert_eq!(response.status.pruning_index, 99);
    assert_eq!(response.protocol.protocol_version, 2);
    assert_eq!(response.protocol.network_name, "shimmer");
    assert_eq!(response.protocol.below_max_depth, 15);
    assert_eq!(response.protocol.bech32_hrp, "smr");
    assert_eq!(response.protocol.min_pow_score, 1500);
    assert_eq!(
        response.protocol.rent_structure,
        RentStructure { v_byte_cost: 100, v_byte_factor_data: 1, v_byte_factor_key: 10 }
    );
    assert_eq!(response.protocol.token_supply, 1_813_620_509_061_365);
    assert_eq!(response.base_token.name, "Shimmer");
    assert_eq!(response.base_token.ticker_symbol, "SMR");
    assert_eq!(response.base_token.decimals, 6);
    assert_eq!(response.base_token.unit, "SMR");
    assert_eq!(response.base_token.subunit.as_deref(), Some("glow"));
    assert!(!response.base_token.use_metric_prefix);
}

#[test]
fn pruning_index_is_the_milestone_before_the_oldest() {
    assert_eq!(info(1, 6).status.pruning_index, 0);
    assert_eq!(info(u32::MAX, 6).status.pruning_index, u32::MAX - 1);
}

#[test]
fn decimals_keep_their_lowest_byte() {
    assert_eq!(info(1, 255).base_token.decimals, 255);
    assert_eq!(info(1, 256).base_token.decimals, 0);
    assert_eq!(info(1, 262).base_token.decimals, 6);
}

#[test]
fn byte_content_header_is_named() {
    assert_eq!(byte_content(), "application/vnd.iota.serializer-v1");
}
