//! What the ledger records about a block or an output besides its content.

use vstd::prelude::*;
use crate::model::ids::{BlockId, TransactionId};
use crate::model::tangle::{MilestoneIndex, MilestoneIndexTimestamp};

verus! {

/// How the ledger treated the transaction of a block.
#[derive(Clone, Copy, Debug, PartialEq, Eq, Structural)]
pub enum LedgerInclusionState {
    /// The block's transaction conflicts with the ledger and was left out.
    Conflicting,
    /// The block's transaction was applied to the ledger.
    Included,
    /// The block carries no transaction.
    NoTransaction,
}

/// Why a transaction was left out of the ledger.
#[derive(Clone, Copy, Debug, PartialEq, Eq, Structural)]
pub enum ConflictReason {
    NoConflict,
    InputUtxoAlreadySpent,
    InputUtxoAlreadySpentInThisMilestone,
    InputUtxoNotFound,
    CreatedConsumedAmountMismatch,
    InvalidSignature,
    TimelockNotExpired,
    InvalidNativeTokens,
    StorageDepositReturnUnfulfilled,
    InvalidUnlock,
    InputsCommitmentsMismatch,
    UnverifiedSender,
    InvalidChainStateTransition,
    SemanticValidationFailed,
}

/// The metadata of a block.
#[derive(Clone, Debug, PartialEq, Eq)]
pub struct BlockMetadata {
    pub parents: Vec<BlockId>,
    pub is_solid: bool,
    pub should_promote: bool,
    pub should_reattach: bool,
    pub referenced_by_milestone_index: MilestoneIndex,
    pub milestone_index: MilestoneIndex,
    pub inclusion_state: LedgerInclusionState,
    pub conflict_reason: ConflictReason,
    pub white_flag_index: u32,
}

/// The spending of an output: the transaction that consumed it and the
/// milestone at which that happened.
#[derive(Clone, Copy, Debug, PartialEq, Eq)]
pub struct SpentMetadata {
    pub transaction_id: TransactionId,
    pub spent: MilestoneIndexTimestamp,
}

/// The metadata of an output. `spent_metadata` is present exactly when the
/// output has been consumed.
#[derive(Clone, Copy, Debug, PartialEq, Eq)]
pub struct OutputMetadata {
    pub block_id: BlockId,
    pub booked: MilestoneIndexTimestamp,
    pub spent_metadata: Option<SpentMetadata>,
}

impl OutputMetadata {
    /// Whether the output exists as of `ledger_index`: it was booked at that
    /// milestone or before.
    pub open spec fn booked_as_of(self, ledger_index: MilestoneIndex) -> bool {
        self.booked.milestone_index.reached_by(ledger_index)
    }

    /// Whether the output is consumed as of `ledger_index`: it was spent at
    /// that milestone or before.
    pub open spec fn spent_as_of(self, ledger_index: MilestoneIndex) -> bool {
        match self.spent_metadata {
            Some(spent_metadata) => spent_metadata.spent.milestone_index.reached_by(ledger_index),
            None => false,
        }
    }

    /// Whether a query as of `ledger_index` sees the output: it is booked by
    /// then and, unless spent outputs are asked for, not yet spent by then.
    pub open spec fn visible_as_of(self, ledger_index: MilestoneIndex, include_spent: bool) -> bool {
        self.booked_as_of(ledger_index) && (include_spent || !self.spent_as_of(ledger_index))
    }

    /// Decides [`OutputMetadata::booked_as_of`].
    pub fn is_booked_as_of(&self, ledger_index: MilestoneIndex) -> (r: bool)
        ensures
            r == self.booked_as_of(ledger_index),
    {
        self.booked.milestone_index.is_reached_by(ledger_index)
    }

    /// Decides [`OutputMetadata::spent_as_of`].
    pub fn is_spent_as_of(&self, ledger_index: MilestoneIndex) -> (r: bool)
        ensures
            r == self.spent_as_of(ledger_index),
    {
        match &self.spent_metadata {
            Some(spent_metadata) => spent_metadata.spent.milestone_index.is_reached_by(ledger_index),
            None => false,
        }
    }

    /// Decides [`OutputMetadata::visible_as_of`].
    pub fn is_visible_as_of(&self, ledger_index: MilestoneIndex, include_spent: bool) -> (r: bool)
        ensures
            r == self.visible_as_of(ledger_index, include_spent),
    {
        self.is_booked_as_of(ledger_index) && (include_spent || !self.is_spent_as_of(ledger_index))
    }
}

/// An output is seen unspent exactly from the milestone that booked it up to,
/// and without, the milestone that spent it; with spent outputs included it
/// is seen from the milestone that booked it on.
pub proof fn lemma_visibility_window(metadata: OutputMetadata, ledger_index: MilestoneIndex)
    ensures
        metadata.visible_as_of(ledger_index, true) <==> metadata.booked.milestone_index.0
            <= ledger_index.0,
        metadata.visible_as_of(ledger_index, false) <==> {
            &&& metadata.booked.milestone_index.0 <= ledger_index.0
            &&& (metadata.spent_metadata matches Some(spent_metadata) ==> ledger_index.0
                < spent_metadata.spent.milestone_index.0)
        },
{
}

/// The spending of an output after a ledger index is not seen as of that
/// ledger index: the output is visible with the spending on record exactly
/// if it is visible without.
pub proof fn lemma_later_spending_is_unseen(
    metadata: OutputMetadata,
    spent_metadata: SpentMetadata,
    ledger_index: MilestoneIndex,
    include_spent: bool,
)
    requires
        metadata.spent_metadata is None,
        spent_metadata.spent.milestone_index.0 > ledger_index.0,
    ensures
        (OutputMetadata { spent_metadata: Some(spent_metadata), ..metadata }).visible_as_of(
            ledger_index,
            include_spent,
        ) == metadata.visible_as_of(ledger_index, include_spent),
{
}

} // verus!
