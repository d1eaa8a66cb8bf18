use chronicle::model::bytes::{bytes_equal, bytes_less};
use chronicle::model::ids::{Address, AliasId, FoundryId, NftId};
use chronicle::model::output::{Output, OutputKind, TreasuryOutput};
use chronicle::model::tangle::{MilestoneIndex, MilestoneIndexTimestamp, MilestoneTimestamp};

#[test]
fn byte_strings_are_ordered_by_their_first_difference() {
    assert!(bytes_less(&[1, 2, 3], &[1, 2, 4]));
    assert!(!bytes_less(&[1, 2, 4], &[1, 2, 3]));
    assert!(bytes_less(&[1, 2, 3], &[2, 0, 0]));
    assert!(bytes_less(&[0, 255], &[1, 0]));
    assert!(!bytes_less(&[1, 2, 3], &[1, 2, 3]));
    assert!(!bytes_less(&[], &[]));
}

#[test]
fn a_byte_string_comes_before_its_extensions() {
    assert!(bytes_less(&[], &[0]));
    assert!(bytes_less(&[1, 2], &[1, 2, 0]));
    assert!(!bytes_less(&[1, 2, 0], &[1, 2]));
    assert!(bytes_less(&[1, 2, 0], &[1, 3]));
}

#[test]
fn byte_strings_are_equal_byte_by_byte() {
    assert!(bytes_equal(&[], &[]));
    assert!(bytes_equal(&[7, 8], &[7, 8]));
    assert!(!bytes_equal(&[7, 8], &[7, 9]));
    assert!(!bytes_equal(&[7, 8], &[7]));
    assert!(!bytes_equal(&[7], &[7, 8]));
}

#[test]
fn identifiers_are_compared_by_their_bytes() {
    assert!(AliasId([1; 32]).same(&AliasId([1; 32])));
    assert!(!AliasId([1; 32]).same(&AliasId([2; 32])));
    assert!(NftId([1; 32]).same(&NftId([1; 32])));
    let mut other = [1u8; 38];
    other[37] = 0;
    assert!(FoundryId([1; 38]).same(&FoundryId([1; 38])));
    assert!(!FoundryId([1; 38]).same(&FoundryId(other)));
}

#[test]
fn addresses_of_different_kinds_differ() {
    assert!(Address::Ed25519([1; 32]).same(&Address::Ed25519([1; 32])));
    assert!(!Address::Ed25519([1; 32]).same(&Address::Ed25519([2; 32])));
    assert!(!Address::Ed25519([1; 32]).same(&Address::Alias(AliasId([1; 32]))));
    assert!(Address::Alias(AliasId([1; 32])).same(&Address::Alias(AliasId([1; 32]))));
    assert!(!Address::Alias(AliasId([1; 32])).same(&Address::Nft(NftId([1; 32]))));
    assert!(Address::Nft(NftId([3; 32])).same(&Address::Nft(NftId([3; 32]))));
}

#[test]
fn milestone_index_pairs_with_its_timestamp() {
    let at = MilestoneIndex(1).with_timestamp(12345.into());
    assert_eq!(
        at,
        MilestoneIndexTimestamp { milestone_index: MilestoneIndex(1), milestone_timestamp: MilestoneTimestamp(12345) }
    );
    assert_eq!(MilestoneIndex::from(7), MilestoneIndex(7));
    assert!(MilestoneIndex(3).is_reached_by(MilestoneIndex(3)));
    assert!(MilestoneIndex(3).is_reached_by(MilestoneIndex(4)));
    assert!(!MilestoneIndex(3).is_reached_by(MilestoneIndex(2)));
}

#[test]
fn outputs_know_their_kind() {
    assert_eq!(Output::Treasury(TreasuryOutput { amount: 1 }).kind(), OutputKind::Treasury);
    assert_eq!(OutputKind::Alias.name(), "alias");
    assert_eq!(OutputKind::Foundry.name(), "foundry");
    assert_eq!(OutputKind::Nft.name(), "nft");
}
