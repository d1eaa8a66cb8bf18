//! Outputs: the ledger's units of value, one variant per kind.

use vstd::prelude::*;
use crate::model::ids::{Address, AliasId, FoundryId, NftId};
use crate::model::tangle::MilestoneTimestamp;

verus! {

/// The kinds of output.
#[derive(Clone, Copy, Debug, PartialEq, Eq, Structural)]
pub enum OutputKind {
    Treasury,
    Basic,
    Alias,
    Foundry,
    Nft,
}

/// The unlock condition that sends part of the deposit back.
#[derive(Clone, Copy, Debug, PartialEq, Eq)]
pub struct StorageDepositReturn {
    pub return_address: Address,
    pub amount: u64,
}

/// The unlock condition that locks an output until a point in time.
#[derive(Clone, Copy, Debug, PartialEq, Eq)]
pub struct Timelock {
    pub timestamp: MilestoneTimestamp,
}

/// The unlock condition that hands an output back after a point in time.
#[derive(Clone, Copy, Debug, PartialEq, Eq)]
pub struct Expiration {
    pub return_address: Address,
    pub timestamp: MilestoneTimestamp,
}

/// The treasury's output.
#[derive(Clone, Copy, Debug, PartialEq, Eq)]
pub struct TreasuryOutput {
    pub amount: u64,
}

/// An output that holds value for an address.
#[derive(Clone, Copy, Debug, PartialEq, Eq)]
pub struct BasicOutput {
    pub amount: u64,
    pub native_token_count: u32,
    pub address: Address,
    pub storage_deposit_return: Option<StorageDepositReturn>,
    pub timelock: Option<Timelock>,
    pub expiration: Option<Expiration>,
    pub sender: Option<Address>,
}

/// An output that holds the state of an alias.
#[derive(Clone, Copy, Debug, PartialEq, Eq)]
pub struct AliasOutput {
    pub amount: u64,
    pub native_token_count: u32,
    pub alias_id: AliasId,
    pub state_controller: Address,
    pub governor: Address,
    pub sender: Option<Address>,
}

/// An output that holds the state of a foundry, which an alias controls.
#[derive(Clone, Copy, Debug, PartialEq, Eq)]
pub struct FoundryOutput {
    pub amount: u64,
    pub native_token_count: u32,
    pub foundry_id: FoundryId,
    pub alias: AliasId,
}

/// An output that holds an NFT for an address.
#[derive(Clone, Copy, Debug, PartialEq, Eq)]
pub struct NftOutput {
    pub amount: u64,
    pub native_token_count: u32,
    pub nft_id: NftId,
    pub address: Address,
    pub storage_deposit_return: Option<StorageDepositReturn>,
    pub timelock: Option<Timelock>,
    pub expiration: Option<Expiration>,
    pub sender: Option<Address>,
}

/// An output of any kind.
#[derive(Clone, Copy, Debug, PartialEq, Eq)]
pub enum Output {
    Treasury(TreasuryOutput),
    Basic(BasicOutput),
    Alias(AliasOutput),
    Foundry(FoundryOutput),
    Nft(NftOutput),
}

impl OutputKind {
    /// The name under which the kind is stored.
    pub open spec fn name_spec(self) -> Seq<char> {
        match self {
            OutputKind::Treasury => "treasury"@,
            OutputKind::Basic => "basic"@,
            OutputKind::Alias => "alias"@,
            OutputKind::Foundry => "foundry"@,
            OutputKind::Nft => "nft"@,
        }
    }

    /// The name under which the kind is stored.
    pub fn name(&self) -> (r: &'static str)
        ensures
            r@ == self.name_spec(),
    {
        match self {
            OutputKind::Treasury => "treasury",
            OutputKind::Basic => "basic",
            OutputKind::Alias => "alias",
            OutputKind::Foundry => "foundry",
            OutputKind::Nft => "nft",
        }
    }
}

impl Output {
    /// The output's kind.
    pub open spec fn kind_spec(self) -> OutputKind {
        match self {
            Output::Treasury(_) => OutputKind::Treasury,
            Output::Basic(_) => OutputKind::Basic,
            Output::Alias(_) => OutputKind::Alias,
            Output::Foundry(_) => OutputKind::Foundry,
            Output::Nft(_) => OutputKind::Nft,
        }
    }

    /// The output's kind.
    pub fn kind(&self) -> (r: OutputKind)
        ensures
            r == self.kind_spec(),
    {
        match self {
            Output::Treasury(_) => OutputKind::Treasury,
            Output::Basic(_) => OutputKind::Basic,
            Output::Alias(_) => OutputKind::Alias,
            Output::Foundry(_) => OutputKind::Foundry,
            Output::Nft(_) => OutputKind::Nft,
        }
    }
}

} // verus!
