use chronicle::db::versioned::{upsert_decision, UpsertOutcome, VersionedRecord, VersionedStore};
use chronicle::model::node::{BaseToken, MilestoneKeyRange, NodeConfiguration, ProtocolParameters, RentStructure};
use chronicle::model::tangle::MilestoneIndex;

fn shimmer() -> NodeConfiguration {
    NodeConfiguration {
        milestone_public_key_count: 3,
        milestone_key_ranges: vec![MilestoneKeyRange {
            public_key: "0xabcde".to_string(),
            start: 0.into(),
            end: 3.into(),
        }],
        base_token: BaseToken {
            name: "Shimmer".to_string(),
            ticker_symbol: "SMR".to_string(),
            unit: "SMR".to_string(),
            subunit: "glow".to_string(),
            decimals: 6,
            use_metric_prefix: false,
        },
    }
}

fn assert_latest_config_unchanged(node_configuration: &VersionedStore<NodeConfiguration>) {
    let latest_config = node_configuration.get_latest().unwrap();
    assert_eq!(&latest_config.value.base_token.name, "Shimmer");
    assert_eq!(&latest_config.value.base_token.ticker_symbol, "SMR");
    assert_eq!(&latest_config.value.base_token.unit, "SMR");
    assert_eq!(&latest_config.value.base_token.subunit, "glow");
    assert_eq!(latest_config.value.base_token.decimals, 6);
    assert!(!latest_config.value.base_token.use_metric_prefix);
}

#[test]
fn test_node_configuration() {
    let mut node_configuration: VersionedStore<NodeConfiguration> = VersionedStore::new();

    // empty collection
    assert!(node_configuration.get_latest().is_none());

    let mut config = shimmer();
    assert_eq!(node_configuration.count(), 0);

    // mimicing inserting in the future initially
    node_configuration.upsert(10.into(), config.clone());
    assert_eq!(node_configuration.count(), 1);
    assert_latest_config_unchanged(&node_configuration);

    // correct insertion
    node_configuration.upsert(1.into(), config.clone());
    let doc = node_configuration.get_for_index(5.into()).unwrap();
    assert_eq!(&doc.value.base_token.name, "Shimmer");
    assert_eq!(&doc.value.base_token.ticker_symbol, "SMR");
    assert_eq!(&doc.value.base_token.unit, "SMR");
    assert_eq!(&doc.value.base_token.subunit, "glow");
    assert_eq!(doc.value.base_token.decimals, 6);
    assert!(!doc.value.base_token.use_metric_prefix);
    assert_eq!(node_configuration.count(), 2);
    assert_latest_config_unchanged(&node_configuration);

    // rejected upsert (same config)
    node_configuration.upsert(2.into(), config.clone());
    let doc = node_configuration.get_for_index(5.into()).unwrap();
    assert_eq!(&doc.value.base_token.name, "Shimmer");
    assert_eq!(&doc.value.base_token.ticker_symbol, "SMR");
    assert_eq!(&doc.value.base_token.unit, "SMR");
    assert_eq!(&doc.value.base_token.subunit, "glow");
    assert_eq!(doc.value.base_token.decimals, 6);
    assert!(!doc.value.base_token.use_metric_prefix);
    assert_eq!(node_configuration.count(), 2);
    assert_latest_config_unchanged(&node_configuration);

    // accepted upsert (altered config)
    config.base_token.use_metric_prefix = true;
    node_configuration.upsert(2.into(), config.clone());
    let doc = node_configuration.get_for_index(5.into()).unwrap();
    assert_eq!(&doc.value.base_token.name, "Shimmer");
    assert_eq!(&doc.value.base_token.ticker_symbol, "SMR");
    assert_eq!(&doc.value.base_token.unit, "SMR");
    assert_eq!(&doc.value.base_token.subunit, "glow");
    assert_eq!(doc.value.base_token.decimals, 6);
    assert!(doc.value.base_token.use_metric_prefix);
    assert_eq!(node_configuration.count(), 3);
    assert_latest_config_unchanged(&node_configuration);

    config.base_token.ticker_symbol = "SHI".to_string();
    config.base_token.unit = "suSHI".to_string();
    config.base_token.subunit = "rice".to_string();

    // accepted latest update
    node_configuration.upsert(3.into(), config);
    let doc = node_configuration.get_for_index(5.into()).unwrap();
    assert_eq!(&doc.value.base_token.name, "Shimmer");
    assert_eq!(&doc.value.base_token.ticker_symbol, "SHI");
    assert_eq!(&doc.value.base_token.unit, "suSHI");
    assert_eq!(&doc.value.base_token.subunit, "rice");
    assert_eq!(doc.value.base_token.decimals, 6);
    assert!(doc.value.base_token.use_metric_prefix);
    assert_eq!(node_configuration.count(), 4);
    assert_latest_config_unchanged(&node_configuration);

    // get older update (yields the one inserted at index 1)
    let doc = node_configuration.get_for_index(1.into()).unwrap();
    assert_eq!(&doc.value.base_token.name, "Shimmer");
    assert_eq!(&doc.value.base_token.ticker_symbol, "SMR");
    assert_eq!(&doc.value.base_token.unit, "SMR");
    assert_eq!(&doc.value.base_token.subunit, "glow");
    assert_eq!(doc.value.base_token.decimals, 6);
    assert!(!doc.value.base_token.use_metric_prefix);
}

fn named(name: &str) -> NodeConfiguration {
    let mut config = shimmer();
    config.base_token.name = name.to_string();
    config
}

fn at_of(record: Option<VersionedRecord<NodeConfiguration>>) -> Option<u32> {
    record.map(|record| record.at.0)
}

#[test]
fn lookup_takes_the_greatest_index_not_after_the_query() {
    let mut store: VersionedStore<NodeConfiguration> = VersionedStore::new();
    assert_eq!(store.upsert(MilestoneIndex(1), named("one")), UpsertOutcome::Stored);
    assert_eq!(store.upsert(MilestoneIndex(3), named("three")), UpsertOutcome::Stored);
    assert_eq!(store.upsert(MilestoneIndex(10), named("ten")), UpsertOutcome::Stored);

    let found = store.get_for_index(MilestoneIndex(5)).unwrap();
    assert_eq!(found.at, MilestoneIndex(3));
    assert_eq!(found.value.base_token.name, "three");
    assert!(store.get_for_index(MilestoneIndex(0)).is_none());
    let found = store.get_for_index(MilestoneIndex(10)).unwrap();
    assert_eq!(found.at, MilestoneIndex(10));
    assert_eq!(found.value.base_token.name, "ten");
    assert_eq!(at_of(store.get_for_index(MilestoneIndex(1))), Some(1));
    assert_eq!(at_of(store.get_for_index(MilestoneIndex(2))), Some(1));
    assert_eq!(at_of(store.get_for_index(MilestoneIndex(9))), Some(3));
    assert_eq!(at_of(store.get_for_index(MilestoneIndex(u32::MAX))), Some(10));
    assert_eq!(at_of(store.get_latest()), Some(10));
}

#[test]
fn lookup_does_not_depend_on_the_order_of_writing() {
    let mut store: VersionedStore<NodeConfiguration> = VersionedStore::new();
    store.upsert(MilestoneIndex(10), named("ten"));
    store.upsert(MilestoneIndex(1), named("one"));
    store.upsert(MilestoneIndex(3), named("three"));
    assert_eq!(store.count(), 3);
    assert_eq!(at_of(store.get_for_index(MilestoneIndex(5))), Some(3));
    assert_eq!(at_of(store.get_for_index(MilestoneIndex(0))), None);
    assert_eq!(at_of(store.get_for_index(MilestoneIndex(10))), Some(10));
    assert_eq!(at_of(store.get_latest()), Some(10));
}

#[test]
fn empty_store_has_no_record() {
    let store: VersionedStore<NodeConfiguration> = VersionedStore::new();
    assert_eq!(store.count(), 0);
    assert!(store.get_latest().is_none());
    assert!(store.get_for_index(MilestoneIndex(0)).is_none());
    assert!(store.get_for_index(MilestoneIndex(u32::MAX)).is_none());
}

#[test]
fn upsert_of_the_value_in_effect_stores_nothing() {
    let mut store: VersionedStore<NodeConfiguration> = VersionedStore::new();
    assert_eq!(store.upsert(MilestoneIndex(4), named("a")), UpsertOutcome::Stored);
    assert_eq!(store.upsert(MilestoneIndex(7), named("a")), UpsertOutcome::Unchanged);
    assert_eq!(store.upsert(MilestoneIndex(4), named("a")), UpsertOutcome::Unchanged);
    assert_eq!(store.count(), 1);
    assert_eq!(at_of(store.get_for_index(MilestoneIndex(7))), Some(4));
}

#[test]
fn upsert_of_a_differing_value_stores_a_record() {
    let mut store: VersionedStore<NodeConfiguration> = VersionedStore::new();
    assert_eq!(store.upsert(MilestoneIndex(4), named("a")), UpsertOutcome::Stored);
    assert_eq!(store.upsert(MilestoneIndex(7), named("b")), UpsertOutcome::Stored);
    assert_eq!(store.count(), 2);
    let found = store.get_for_index(MilestoneIndex(7)).unwrap();
    assert_eq!(found.at, MilestoneIndex(7));
    assert_eq!(found.value.base_token.name, "b");
}

#[test]
fn equal_values_apart_from_each_other_are_both_kept() {
    let mut store: VersionedStore<NodeConfiguration> = VersionedStore::new();
    assert_eq!(store.upsert(MilestoneIndex(1), named("a")), UpsertOutcome::Stored);
    assert_eq!(store.upsert(MilestoneIndex(2), named("b")), UpsertOutcome::Stored);
    assert_eq!(store.upsert(MilestoneIndex(3), named("a")), UpsertOutcome::Stored);
    assert_eq!(store.count(), 3);
    assert_eq!(store.get_for_index(MilestoneIndex(3)).unwrap().value.base_token.name, "a");
    assert_eq!(store.get_for_index(MilestoneIndex(2)).unwrap().value.base_token.name, "b");
}

#[test]
fn dedup_looks_at_the_record_in_effect_not_at_the_latest() {
    let mut store: VersionedStore<NodeConfiguration> = VersionedStore::new();
    store.upsert(MilestoneIndex(1), named("a"));
    store.upsert(MilestoneIndex(10), named("b"));
    // "b" is the latest value, but "a" is in effect at 5
    assert_eq!(store.upsert(MilestoneIndex(5), named("b")), UpsertOutcome::Stored);
    assert_eq!(store.upsert(MilestoneIndex(6), named("a")), UpsertOutcome::Stored);
    assert_eq!(store.count(), 4);
}

#[test]
fn backfill_changes_only_the_answers_up_to_the_next_record() {
    let mut store: VersionedStore<NodeConfiguration> = VersionedStore::new();
    store.upsert(MilestoneIndex(2), named("two"));
    store.upsert(MilestoneIndex(8), named("eight"));
    assert_eq!(store.upsert(MilestoneIndex(5), named("five")), UpsertOutcome::Stored);
    assert_eq!(store.count(), 3);
    assert_eq!(at_of(store.get_for_index(MilestoneIndex(4))), Some(2));
    assert_eq!(at_of(store.get_for_index(MilestoneIndex(5))), Some(5));
    assert_eq!(at_of(store.get_for_index(MilestoneIndex(7))), Some(5));
    assert_eq!(at_of(store.get_for_index(MilestoneIndex(8))), Some(8));
    assert_eq!(at_of(store.get_latest()), Some(8));
}

#[test]
fn record_for_a_milestone_that_has_one_takes_its_place() {
    let mut store: VersionedStore<NodeConfiguration> = VersionedStore::new();
    store.upsert(MilestoneIndex(2), named("old"));
    assert_eq!(store.upsert(MilestoneIndex(2), named("new")), UpsertOutcome::Stored);
    assert_eq!(store.count(), 1);
    assert_eq!(store.get_for_index(MilestoneIndex(2)).unwrap().value.base_token.name, "new");
}

#[test]
fn key_ranges_take_part_in_the_comparison() {
    let mut store: VersionedStore<NodeConfiguration> = VersionedStore::new();
    store.upsert(MilestoneIndex(1), shimmer());
    let mut longer = shimmer();
    longer.milestone_key_ranges.push(MilestoneKeyRange {
        public_key: "0xf00".to_string(),
        start: 3.into(),
        end: 9.into(),
    });
    assert_eq!(store.upsert(MilestoneIndex(2), longer.clone()), UpsertOutcome::Stored);
    let mut other_end = longer.clone();
    other_end.milestone_key_ranges[1].end = 10.into();
    assert_eq!(store.upsert(MilestoneIndex(3), other_end), UpsertOutcome::Stored);
    assert_eq!(store.upsert(MilestoneIndex(4), longer), UpsertOutcome::Stored);
    let mut fewer_keys = shimmer();
    fewer_keys.milestone_public_key_count = 2;
    assert_eq!(store.upsert(MilestoneIndex(5), fewer_keys.clone()), UpsertOutcome::Stored);
    assert_eq!(store.upsert(MilestoneIndex(6), fewer_keys), UpsertOutcome::Unchanged);
    assert_eq!(store.count(), 5);
}

fn parameters(version: u8) -> ProtocolParameters {
    ProtocolParameters {
        version,
        network_name: "testnet".to_string(),
        below_max_depth: 15,
        bech32_hrp: "rms".to_string(),
        min_pow_score: 1500,
        rent_structure: RentStructure { v_byte_cost: 100, v_byte_factor_data: 1, v_byte_factor_key: 10 },
        token_supply: 1_813_620_509_061_365,
    }
}

#[test]
fn protocol_parameters_are_kept_by_milestone() {
    let mut store: VersionedStore<ProtocolParameters> = VersionedStore::new();
    assert_eq!(store.upsert(MilestoneIndex(1), parameters(2)), UpsertOutcome::Stored);
    assert_eq!(store.upsert(MilestoneIndex(100), parameters(2)), UpsertOutcome::Unchanged);
    assert_eq!(store.upsert(MilestoneIndex(200), parameters(3)), UpsertOutcome::Stored);
    let mut renamed = parameters(3);
    renamed.bech32_hrp = "smr".to_string();
    assert_eq!(store.upsert(MilestoneIndex(300), renamed), UpsertOutcome::Stored);
    assert_eq!(store.get_for_index(MilestoneIndex(199)).unwrap().value.version, 2);
    assert_eq!(store.get_for_index(MilestoneIndex(250)).unwrap().value.bech32_hrp, "rms");
    assert_eq!(store.get_latest().unwrap().value.bech32_hrp, "smr");
    assert_eq!(store.count(), 3);
}

#[test]
fn upsert_is_decided_by_the_record_in_effect() {
    let held = VersionedRecord { at: MilestoneIndex(4), value: named("a") };
    assert_eq!(upsert_decision(Some(&held), &named("a")), UpsertOutcome::Unchanged);
    assert_eq!(upsert_decision(Some(&held), &named("b")), UpsertOutcome::Stored);
    assert_eq!(upsert_decision(None, &named("a")), UpsertOutcome::Stored);
}

#[test]
fn reads_hand_out_copies() {
    let mut store: VersionedStore<NodeConfiguration> = VersionedStore::new();
    store.upsert(MilestoneIndex(1), shimmer());
    let mut read = store.get_latest().unwrap();
    assert_eq!(read, VersionedRecord { at: MilestoneIndex(1), value: shimmer() });
    read.value.base_token.name = "changed".to_string();
    read.value.milestone_key_ranges.clear();
    assert_eq!(store.get_latest().unwrap().value, shimmer());
    assert_eq!(store.get_for_index(MilestoneIndex(1)).unwrap().value, shimmer());
    assert_eq!(read.duplicate(), read);
}
