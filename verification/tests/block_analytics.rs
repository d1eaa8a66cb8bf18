use chronicle::analytics::tangle::block_activity::BlockActivityAnalytics;
use chronicle::analytics::tangle::milestone_size::MilestoneSizeAnalytics;
use chronicle::analytics::tangle::protocol_params::ProtocolParamsAnalytics;
use chronicle::analytics::{AnalyticsContext, AnalyticsError};
use chronicle::model::block::{BlockData, Payload, PayloadKind};
use chronicle::model::ids::BlockId;
use chronicle::model::metadata::{BlockMetadata, ConflictReason, LedgerInclusionState};
use chronicle::model::node::{ProtocolParameters, RentStructure};
use chronicle::model::tangle::MilestoneIndex;

fn protocol_parameters() -> ProtocolParameters {
    ProtocolParameters {
        version: 2,
        network_name: "testnet".to_string(),
        below_max_depth: 15,
        bech32_hrp: "rms".to_string(),
        min_pow_score: 1500,
        rent_structure: RentStructure { v_byte_cost: 100, v_byte_factor_data: 1, v_byte_factor_key: 10 },
        token_supply: 1_813_620_509_061_365,
    }
}

fn context(index: u32, timestamp: u32) -> AnalyticsContext {
    AnalyticsContext { at: MilestoneIndex(index).with_timestamp(timestamp.into()), params: protocol_parameters() }
}

fn block(i: usize, kind: Option<PayloadKind>) -> BlockData {
    let len = (i + 1) * 100;
    BlockData {
        block_id: BlockId([i as u8; 32]),
        payload: kind.map(|kind| Payload { kind, raw: vec![0xab; len] }),
        raw: vec![0xcd; len],
        metadata: BlockMetadata {
            parents: vec![BlockId([0xff; 32])],
            is_solid: true,
            should_promote: false,
            should_reattach: false,
            referenced_by_milestone_index: 1.into(),
            milestone_index: 0.into(),
            inclusion_state: match i {
                0 => LedgerInclusionState::Included,
                1 => LedgerInclusionState::Conflicting,
                _ => LedgerInclusionState::NoTransaction,
            },
            conflict_reason: match i {
                0 => ConflictReason::NoConflict,
                1 => ConflictReason::InputUtxoNotFound,
                _ => ConflictReason::NoConflict,
            },
            white_flag_index: i as u32,
        },
    }
}

fn blocks() -> Vec<BlockData> {
    vec![
        block(0, Some(PayloadKind::TreasuryTransaction)),
        block(1, Some(PayloadKind::Transaction)),
        block(2, Some(PayloadKind::Milestone)),
        block(3, Some(PayloadKind::TaggedData)),
        block(4, None),
    ]
}

#[test]
fn test_block_analytics() {
    let blocks = blocks();

    let mut block_activity = BlockActivityAnalytics::default();
    let mut milestone_size = MilestoneSizeAnalytics::default();

    let ctx = context(1, 12345);

    block_activity.begin_milestone(&ctx);
    milestone_size.begin_milestone(&ctx);
    for block_data in blocks.iter() {
        block_activity.handle_block(block_data, &ctx).unwrap();
        milestone_size.handle_block(block_data, &ctx).unwrap();
    }
    let block_activity_measurement = block_activity.end_milestone(&ctx).unwrap();
    let milestone_size_measurement = milestone_size.end_milestone(&ctx).unwrap();

    assert_eq!(block_activity_measurement.at, ctx.at);
    assert_eq!(block_activity_measurement.inner.transaction_count, 1);
    assert_eq!(block_activity_measurement.inner.treasury_transaction_count, 1);
    assert_eq!(block_activity_measurement.inner.milestone_count, 1);
    assert_eq!(block_activity_measurement.inner.tagged_data_count, 1);
    assert_eq!(block_activity_measurement.inner.no_payload_count, 1);
    assert_eq!(block_activity_measurement.inner.confirmed_count, 1);
    assert_eq!(block_activity_measurement.inner.conflicting_count, 1);
    assert_eq!(block_activity_measurement.inner.no_transaction_count, 3);

    assert_eq!(milestone_size_measurement.at, ctx.at);
    assert_eq!(milestone_size_measurement.inner.total_treasury_transaction_payload_bytes, 100);
    assert_eq!(milestone_size_measurement.inner.total_transaction_payload_bytes, 200);
    assert_eq!(milestone_size_measurement.inner.total_milestone_payload_bytes, 300);
    assert_eq!(milestone_size_measurement.inner.total_tagged_data_payload_bytes, 400);
    assert_eq!(milestone_size_measurement.inner.total_milestone_bytes, 1500);
}

#[test]
fn payload_bytes_are_counted_apart_from_block_bytes() {
    let ctx = context(7, 700);
    let mut milestone_size = MilestoneSizeAnalytics::new();
    milestone_size.begin_milestone(&ctx);
    let mut first = block(0, Some(PayloadKind::Transaction));
    first.payload = Some(Payload { kind: PayloadKind::Transaction, raw: vec![1; 40] });
    let mut second = block(1, Some(PayloadKind::Transaction));
    second.payload = Some(Payload { kind: PayloadKind::Transaction, raw: vec![2; 2] });
    let mut third = block(2, Some(PayloadKind::TaggedData));
    third.payload = Some(Payload { kind: PayloadKind::TaggedData, raw: Vec::new() });
    milestone_size.handle_block(&first, &ctx).unwrap();
    milestone_size.handle_block(&second, &ctx).unwrap();
    milestone_size.handle_block(&third, &ctx).unwrap();
    let taken = milestone_size.end_milestone(&ctx).unwrap();
    assert_eq!(taken.inner.total_transaction_payload_bytes, 42);
    assert_eq!(taken.inner.total_tagged_data_payload_bytes, 0);
    assert_eq!(taken.inner.total_milestone_payload_bytes, 0);
    assert_eq!(taken.inner.total_treasury_transaction_payload_bytes, 0);
    assert_eq!(taken.inner.total_milestone_bytes, 600);
}

#[test]
fn totals_do_not_depend_on_the_order_of_the_blocks() {
    let ctx = context(3, 33);
    let mut forward = blocks();
    forward.push(block(1, Some(PayloadKind::Transaction)));
    let mut backward = forward.clone();
    backward.reverse();

    let mut activity_forward = BlockActivityAnalytics::new();
    let mut activity_backward = BlockActivityAnalytics::new();
    let mut size_forward = MilestoneSizeAnalytics::new();
    let mut size_backward = MilestoneSizeAnalytics::new();
    activity_forward.begin_milestone(&ctx);
    activity_backward.begin_milestone(&ctx);
    size_forward.begin_milestone(&ctx);
    size_backward.begin_milestone(&ctx);
    for block_data in forward.iter() {
        activity_forward.handle_block(block_data, &ctx).unwrap();
        size_forward.handle_block(block_data, &ctx).unwrap();
    }
    for block_data in backward.iter() {
        activity_backward.handle_block(block_data, &ctx).unwrap();
        size_backward.handle_block(block_data, &ctx).unwrap();
    }
    let activity = activity_forward.end_milestone(&ctx).unwrap();
    assert_eq!(activity, activity_backward.end_milestone(&ctx).unwrap());
    assert_eq!(size_forward.end_milestone(&ctx).unwrap(), size_backward.end_milestone(&ctx).unwrap());
    assert_eq!(activity.inner.transaction_count, 2);
    assert_eq!(activity.inner.conflicting_count, 2);
    let by_payload = activity.inner.transaction_count
        + activity.inner.treasury_transaction_count
        + activity.inner.milestone_count
        + activity.inner.tagged_data_count
        + activity.inner.no_payload_count;
    let by_inclusion =
        activity.inner.confirmed_count + activity.inner.conflicting_count + activity.inner.no_transaction_count;
    assert_eq!(by_payload, 6);
    assert_eq!(by_inclusion, 6);
}

#[test]
fn end_without_begin_yields_nothing() {
    let ctx = context(1, 10);
    let mut block_activity = BlockActivityAnalytics::new();
    let mut milestone_size = MilestoneSizeAnalytics::new();
    assert!(block_activity.end_milestone(&ctx).is_none());
    assert!(milestone_size.end_milestone(&ctx).is_none());
}

#[test]
fn block_without_begin_is_refused() {
    let ctx = context(1, 10);
    let mut block_activity = BlockActivityAnalytics::new();
    let mut milestone_size = MilestoneSizeAnalytics::new();
    let block_data = block(0, None);
    assert_eq!(block_activity.handle_block(&block_data, &ctx), Err(AnalyticsError::NotBegun));
    assert_eq!(milestone_size.handle_block(&block_data, &ctx), Err(AnalyticsError::NotBegun));
    // the refused block was not counted
    block_activity.begin_milestone(&ctx);
    milestone_size.begin_milestone(&ctx);
    let activity = block_activity.end_milestone(&ctx).unwrap();
    let size = milestone_size.end_milestone(&ctx).unwrap();
    assert_eq!(activity.inner.no_payload_count, 0);
    assert_eq!(activity.inner.confirmed_count, 0);
    assert_eq!(size.inner.total_milestone_bytes, 0);
}

#[test]
fn block_of_another_milestone_is_refused() {
    let begun = context(1, 10);
    let other = context(2, 20);
    let mut block_activity = BlockActivityAnalytics::new();
    block_activity.begin_milestone(&begun);
    assert_eq!(block_activity.handle_block(&block(4, None), &other), Err(AnalyticsError::NotBegun));
    assert!(block_activity.end_milestone(&other).is_none());
    block_activity.handle_block(&block(4, None), &begun).unwrap();
    let taken = block_activity.end_milestone(&begun).unwrap();
    assert_eq!(taken.at, begun.at);
    assert_eq!(taken.inner.no_payload_count, 1);
    assert_eq!(taken.inner.no_transaction_count, 1);
}

#[test]
fn accumulator_is_idle_after_end() {
    let ctx = context(1, 10);
    let mut block_activity = BlockActivityAnalytics::new();
    block_activity.begin_milestone(&ctx);
    block_activity.handle_block(&block(1, Some(PayloadKind::Transaction)), &ctx).unwrap();
    assert!(block_activity.end_milestone(&ctx).is_some());
    assert!(block_activity.end_milestone(&ctx).is_none());
    assert_eq!(block_activity.handle_block(&block(0, None), &ctx), Err(AnalyticsError::NotBegun));
}

#[test]
fn begin_starts_over() {
    let first = context(1, 10);
    let second = context(2, 20);
    let mut milestone_size = MilestoneSizeAnalytics::new();
    milestone_size.begin_milestone(&first);
    milestone_size.handle_block(&block(4, None), &first).unwrap();
    // the first milestone is given up and never measured
    milestone_size.begin_milestone(&second);
    assert!(milestone_size.end_milestone(&first).is_none());
    milestone_size.handle_block(&block(0, Some(PayloadKind::Milestone)), &second).unwrap();
    let taken = milestone_size.end_milestone(&second).unwrap();
    assert_eq!(taken.at.milestone_index, MilestoneIndex(2));
    assert_eq!(taken.at.milestone_timestamp.0, 20);
    assert_eq!(taken.inner.total_milestone_bytes, 100);
    assert_eq!(taken.inner.total_milestone_payload_bytes, 100);
}

#[test]
fn milestone_without_blocks_measures_zero() {
    let ctx = context(9, 90);
    let mut block_activity = BlockActivityAnalytics::new();
    block_activity.begin_milestone(&ctx);
    let taken = block_activity.end_milestone(&ctx).unwrap();
    assert_eq!(taken.inner, Default::default());
}

#[test]
fn protocol_parameters_are_measured_where_they_change() {
    let mut analytics = ProtocolParamsAnalytics::default();
    let first = context(1, 10);
    assert!(analytics.end_milestone(&first).is_none());

    analytics.begin_milestone(&first);
    let taken = analytics.end_milestone(&first).unwrap();
    assert_eq!(taken.at, first.at);
    assert_eq!(taken.inner, protocol_parameters());
    assert!(analytics.end_milestone(&first).is_none());

    // the same parameters at the next milestone are no measurement
    let second = context(2, 20);
    analytics.begin_milestone(&second);
    assert!(analytics.end_milestone(&second).is_none());

    // changed parameters are
    let mut third = context(3, 30);
    third.params.min_pow_score = 2000;
    analytics.begin_milestone(&third);
    assert!(analytics.end_milestone(&second).is_none());
    let taken = analytics.end_milestone(&third).unwrap();
    assert_eq!(taken.at, third.at);
    assert_eq!(taken.inner.min_pow_score, 2000);

    // and so is the change back
    let fourth = context(4, 40);
    analytics.begin_milestone(&fourth);
    let taken = analytics.end_milestone(&fourth).unwrap();
    assert_eq!(taken.inner, protocol_parameters());
    assert_eq!(taken.at.milestone_index, MilestoneIndex(4));
}
