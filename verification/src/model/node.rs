//! What a node reports about itself and about the protocol it runs: the two
//! pieces of configuration whose history the store keeps by milestone.

use vstd::prelude::*;
use crate::db::versioned::Payload;
use crate::model::tangle::MilestoneIndex;

verus! {

/// The token of the network.
#[derive(Clone, Debug, PartialEq, Eq)]
pub struct BaseToken {
    pub name: String,
    pub ticker_symbol: String,
    pub unit: String,
    pub subunit: String,
    pub decimals: u32,
    pub use_metric_prefix: bool,
}

/// The milestones for which a public key signs.
#[derive(Clone, Debug, PartialEq, Eq)]
pub struct MilestoneKeyRange {
    pub public_key: String,
    pub start: MilestoneIndex,
    pub end: MilestoneIndex,
}

/// The configuration of a node.
#[derive(Clone, Debug, PartialEq, Eq)]
pub struct NodeConfiguration {
    pub milestone_public_key_count: u32,
    pub milestone_key_ranges: Vec<MilestoneKeyRange>,
    pub base_token: BaseToken,
}

/// What storing a byte on the ledger costs.
#[derive(Clone, Copy, Debug, PartialEq, Eq, Structural)]
pub struct RentStructure {
    pub v_byte_cost: u32,
    pub v_byte_factor_data: u8,
    pub v_byte_factor_key: u8,
}

/// The parameters of the protocol.
#[derive(Clone, Debug, PartialEq, Eq)]
pub struct ProtocolParameters {
    pub version: u8,
    pub network_name: String,
    pub below_max_depth: u8,
    pub bech32_hrp: String,
    pub min_pow_score: u32,
    pub rent_structure: RentStructure,
    pub token_supply: u64,
}

/// A base token as a mathematical value.
pub struct BaseTokenView {
    pub name: Seq<char>,
    pub ticker_symbol: Seq<char>,
    pub unit: Seq<char>,
    pub subunit: Seq<char>,
    pub decimals: u32,
    pub use_metric_prefix: bool,
}

/// A key range as a mathematical value.
pub struct MilestoneKeyRangeView {
    pub public_key: Seq<char>,
    pub start: MilestoneIndex,
    pub end: MilestoneIndex,
}

/// A node configuration as a mathematical value.
pub struct NodeConfigurationView {
    pub milestone_public_key_count: u32,
    pub milestone_key_ranges: Seq<MilestoneKeyRangeView>,
    pub base_token: BaseTokenView,
}

/// Protocol parameters as a mathematical value.
pub struct ProtocolParametersView {
    pub version: u8,
    pub network_name: Seq<char>,
    pub below_max_depth: u8,
    pub bech32_hrp: Seq<char>,
    pub min_pow_score: u32,
    pub rent_structure: RentStructure,
    pub token_supply: u64,
}

impl View for BaseToken {
    type V = BaseTokenView;

    open spec fn view(&self) -> BaseTokenView {
        BaseTokenView {
            name: self.name@,
            ticker_symbol: self.ticker_symbol@,
            unit: self.unit@,
            subunit: self.subunit@,
            decimals: self.decimals,
            use_metric_prefix: self.use_metric_prefix,
        }
    }
}

impl View for MilestoneKeyRange {
    type V = MilestoneKeyRangeView;

    open spec fn view(&self) -> MilestoneKeyRangeView {
        MilestoneKeyRangeView { public_key: self.public_key@, start: self.start, end: self.end }
    }
}

impl View for NodeConfiguration {
    type V = NodeConfigurationView;

    open spec fn view(&self) -> NodeConfigurationView {
        NodeConfigurationView {
            milestone_public_key_count: self.milestone_public_key_count,
            milestone_key_ranges: self.milestone_key_ranges@.map_values(
                |range: MilestoneKeyRange| range@,
            ),
            base_token: self.base_token@,
        }
    }
}

impl View for ProtocolParameters {
    type V = ProtocolParametersView;

    open spec fn view(&self) -> ProtocolParametersView {
        ProtocolParametersView {
            version: self.version,
            network_name: self.network_name@,
            below_max_depth: self.below_max_depth,
            bech32_hrp: self.bech32_hrp@,
            min_pow_score: self.min_pow_score,
            rent_structure: self.rent_structure,
            token_supply: self.token_supply,
        }
    }
}

impl Payload for BaseToken {
    fn same_as(&self, other: &BaseToken) -> (same: bool) {
        self.name == other.name && self.ticker_symbol == other.ticker_symbol && self.unit
            == other.unit && self.subunit == other.subunit && self.decimals == other.decimals
            && self.use_metric_prefix == other.use_metric_prefix
    }

    fn duplicate(&self) -> (copy: BaseToken) {
        BaseToken {
            name: self.name.clone(),
            ticker_symbol: self.ticker_symbol.clone(),
            unit: self.unit.clone(),
            subunit: self.subunit.clone(),
            decimals: self.decimals,
            use_metric_prefix: self.use_metric_prefix,
        }
    }
}

impl Payload for MilestoneKeyRange {
    fn same_as(&self, other: &MilestoneKeyRange) -> (same: bool) {
        self.public_key == other.public_key && self.start == other.start && self.end == other.end
    }

    fn duplicate(&self) -> (copy: MilestoneKeyRange) {
        MilestoneKeyRange { public_key: self.public_key.clone(), start: self.start, end: self.end }
    }
}

impl Payload for NodeConfiguration {
    fn duplicate(&self) -> (copy: NodeConfiguration) {
        let mut milestone_key_ranges: Vec<MilestoneKeyRange> = Vec::new();
        let mut i: usize = 0;
        while i < self.milestone_key_ranges.len()
            invariant
                i <= self.milestone_key_ranges.len(),
                milestone_key_ranges@.len() == i,
                forall|j: int|
                    0 <= j < i ==> (#[trigger] milestone_key_ranges@[j])@
                        == self.milestone_key_ranges@[j]@,
            decreases self.milestone_key_ranges.len() - i,
        {
            milestone_key_ranges.push(self.milestone_key_ranges[i].duplicate());
            i += 1;
        }
        let copy = NodeConfiguration {
            milestone_public_key_count: self.milestone_public_key_count,
            milestone_key_ranges,
            base_token: self.base_token.duplicate(),
        };
        assert(copy@.milestone_key_ranges =~= self@.milestone_key_ranges);
        copy
    }

    fn same_as(&self, other: &NodeConfiguration) -> (same: bool) {
        if self.milestone_public_key_count != other.milestone_public_key_count {
            return false;
        }
        if !self.base_token.same_as(&other.base_token) {
            return false;
        }
        if self.milestone_key_ranges.len() != other.milestone_key_ranges.len() {
            assert(self@.milestone_key_ranges.len() != other@.milestone_key_ranges.len());
            return false;
        }
        let mut i: usize = 0;
        while i < self.milestone_key_ranges.len()
            invariant
                i <= self.milestone_key_ranges.len(),
                self.milestone_key_ranges.len() == other.milestone_key_ranges.len(),
                forall|j: int|
                    0 <= j < i ==> (#[trigger] self.milestone_key_ranges@[j])@
                        == other.milestone_key_ranges@[j]@,
            decreases self.milestone_key_ranges.len() - i,
        {
            if !self.milestone_key_ranges[i].same_as(&other.milestone_key_ranges[i]) {
                assert(self@.milestone_key_ranges[i as int] != other@.milestone_key_ranges[i as int]);
                return false;
            }
            i += 1;
        }
        assert(self@.milestone_key_ranges =~= other@.milestone_key_ranges);
        true
    }
}

impl Payload for ProtocolParameters {
    fn duplicate(&self) -> (copy: ProtocolParameters) {
        ProtocolParameters {
            version: self.version,
            network_name: self.network_name.clone(),
            below_max_depth: self.below_max_depth,
            bech32_hrp: self.bech32_hrp.clone(),
            min_pow_score: self.min_pow_score,
            rent_structure: self.rent_structure,
            token_supply: self.token_supply,
        }
    }

    fn same_as(&self, other: &ProtocolParameters) -> (same: bool) {
        self.version == other.version && self.network_name == other.network_name
            && self.below_max_depth == other.below_max_depth && self.bech32_hrp == other.bech32_hrp
            && self.min_pow_score == other.min_pow_score && self.rent_structure
            == other.rent_structure && self.token_supply == other.token_supply
    }
}

} // verus!
