//! How many blocks of each kind a milestone confirmed.

use vstd::prelude::*;
use crate::analytics::{
    begun_for,
    commutes,
    lemma_total_any_order,
    total_over,
    AnalyticsContext,
    AnalyticsError,
    Measurement,
};
use crate::model::block::{BlockData, PayloadKind};
use crate::model::metadata::LedgerInclusionState;
use crate::model::tangle::MilestoneIndexTimestamp;

verus! {

/// The blocks of a milestone, counted once by the kind of their payload and
/// once by what the ledger did with them.
#[derive(Clone, Copy, Debug, PartialEq, Eq, Structural)]
pub struct BlockActivityMeasurement {
    pub milestone_count: usize,
    pub no_payload_count: usize,
    pub tagged_data_count: usize,
    pub transaction_count: usize,
    pub treasury_transaction_count: usize,
    pub confirmed_count: usize,
    pub conflicting_count: usize,
    pub no_transaction_count: usize,
}

/// The counts of a [`BlockActivityMeasurement`] as numbers without a bound.
pub struct BlockActivity {
    pub milestone_count: int,
    pub no_payload_count: int,
    pub tagged_data_count: int,
    pub transaction_count: int,
    pub treasury_transaction_count: int,
    pub confirmed_count: int,
    pub conflicting_count: int,
    pub no_transaction_count: int,
}

/// The accumulator of a [`BlockActivityMeasurement`].
pub struct BlockActivityAnalytics {
    begun: Option<MilestoneIndexTimestamp>,
    counts: BlockActivityMeasurement,
    handled: Ghost<Seq<BlockData>>,
}

impl View for BlockActivityMeasurement {
    type V = BlockActivity;

    open spec fn view(&self) -> BlockActivity {
        BlockActivity {
            milestone_count: self.milestone_count as int,
            no_payload_count: self.no_payload_count as int,
            tagged_data_count: self.tagged_data_count as int,
            transaction_count: self.transaction_count as int,
            treasury_transaction_count: self.treasury_transaction_count as int,
            confirmed_count: self.confirmed_count as int,
            conflicting_count: self.conflicting_count as int,
            no_transaction_count: self.no_transaction_count as int,
        }
    }
}

impl Default for BlockActivityMeasurement {
    fn default() -> (counts: BlockActivityMeasurement)
        ensures
            counts@ == BlockActivity::zero(),
    {
        BlockActivityMeasurement {
            milestone_count: 0,
            no_payload_count: 0,
            tagged_data_count: 0,
            transaction_count: 0,
            treasury_transaction_count: 0,
            confirmed_count: 0,
            conflicting_count: 0,
            no_transaction_count: 0,
        }
    }
}

impl BlockActivity {
    /// The counts of no blocks.
    pub open spec fn zero() -> BlockActivity {
        BlockActivity {
            milestone_count: 0,
            no_payload_count: 0,
            tagged_data_count: 0,
            transaction_count: 0,
            treasury_transaction_count: 0,
            confirmed_count: 0,
            conflicting_count: 0,
            no_transaction_count: 0,
        }
    }

    /// The counts with one more block: the count of the block's kind of
    /// payload goes up by one, and so does the count of what the ledger did
    /// with the block.
    pub open spec fn plus(self, block: BlockData) -> BlockActivity {
        let by_kind = match block.payload_kind() {
            Some(PayloadKind::Milestone) => BlockActivity {
                milestone_count: self.milestone_count + 1,
                ..self
            },
            Some(PayloadKind::TaggedData) => BlockActivity {
                tagged_data_count: self.tagged_data_count + 1,
                ..self
            },
            Some(PayloadKind::Transaction) => BlockActivity {
                transaction_count: self.transaction_count + 1,
                ..self
            },
            Some(PayloadKind::TreasuryTransaction) => BlockActivity {
                treasury_transaction_count: self.treasury_transaction_count + 1,
                ..self
            },
            None => BlockActivity { no_payload_count: self.no_payload_count + 1, ..self },
        };
        match block.metadata.inclusion_state {
            LedgerInclusionState::Conflicting => BlockActivity {
                conflicting_count: by_kind.conflicting_count + 1,
                ..by_kind
            },
            LedgerInclusionState::Included => BlockActivity {
                confirmed_count: by_kind.confirmed_count + 1,
                ..by_kind
            },
            LedgerInclusionState::NoTransaction => BlockActivity {
                no_transaction_count: by_kind.no_transaction_count + 1,
                ..by_kind
            },
        }
    }

    /// The counts of a sequence of blocks.
    pub open spec fn of(blocks: Seq<BlockData>) -> BlockActivity {
        total_over(BlockActivity::zero(), |counts: BlockActivity, block: BlockData| counts.plus(block), blocks)
    }

    /// The number of blocks counted by kind of payload.
    pub open spec fn by_payload(self) -> int {
        self.milestone_count + self.no_payload_count + self.tagged_data_count
            + self.transaction_count + self.treasury_transaction_count
    }

    /// The number of blocks counted by what the ledger did with them.
    pub open spec fn by_inclusion(self) -> int {
        self.confirmed_count + self.conflicting_count + self.no_transaction_count
    }

}

/// Each block counts once by its kind of payload and once by what the ledger
/// did with it: of the five counts by kind exactly one goes up, by one, and
/// of the three counts by inclusion exactly one goes up, by one.
pub proof fn lemma_block_counts_once(counts: BlockActivity, block: BlockData)
    ensures
        counts.plus(block).by_payload() == counts.by_payload() + 1,
        counts.plus(block).by_inclusion() == counts.by_inclusion() + 1,
        counts.plus(block).milestone_count == counts.milestone_count + (if block.payload_kind()
            == Some(PayloadKind::Milestone) {
            1int
        } else {
            0int
        }),
        counts.plus(block).tagged_data_count == counts.tagged_data_count + (if block.payload_kind()
            == Some(PayloadKind::TaggedData) {
            1int
        } else {
            0int
        }),
        counts.plus(block).transaction_count == counts.transaction_count + (if block.payload_kind()
            == Some(PayloadKind::Transaction) {
            1int
        } else {
            0int
        }),
        counts.plus(block).treasury_transaction_count == counts.treasury_transaction_count + (
        if block.payload_kind() == Some(PayloadKind::TreasuryTransaction) {
            1int
        } else {
            0int
        }),
        counts.plus(block).no_payload_count == counts.no_payload_count + (if block.payload_kind()
            is None {
            1int
        } else {
            0int
        }),
        counts.plus(block).confirmed_count == counts.confirmed_count + (
        if block.metadata.inclusion_state == LedgerInclusionState::Included {
            1int
        } else {
            0int
        }),
        counts.plus(block).conflicting_count == counts.conflicting_count + (
        if block.metadata.inclusion_state == LedgerInclusionState::Conflicting {
            1int
        } else {
            0int
        }),
        counts.plus(block).no_transaction_count == counts.no_transaction_count + (
        if block.metadata.inclusion_state == LedgerInclusionState::NoTransaction {
            1int
        } else {
            0int
        }),
{
}

/// The counts by kind of payload add up to the number of blocks, and so do
/// the counts by inclusion.
pub proof fn lemma_counts_add_up(blocks: Seq<BlockData>)
    ensures
        BlockActivity::of(blocks).by_payload() == blocks.len(),
        BlockActivity::of(blocks).by_inclusion() == blocks.len(),
        BlockActivity::of(blocks).milestone_count >= 0,
        BlockActivity::of(blocks).no_payload_count >= 0,
        BlockActivity::of(blocks).tagged_data_count >= 0,
        BlockActivity::of(blocks).transaction_count >= 0,
        BlockActivity::of(blocks).treasury_transaction_count >= 0,
        BlockActivity::of(blocks).confirmed_count >= 0,
        BlockActivity::of(blocks).conflicting_count >= 0,
        BlockActivity::of(blocks).no_transaction_count >= 0,
    decreases blocks.len(),
{
    if blocks.len() > 0 {
        lemma_counts_add_up(blocks.drop_last());
        lemma_block_counts_once(BlockActivity::of(blocks.drop_last()), blocks.last());
    }
}

/// The counts of a milestone do not depend on the order in which its blocks
/// were counted.
pub proof fn lemma_counts_any_order(a: Seq<BlockData>, b: Seq<BlockData>)
    requires
        a.to_multiset() == b.to_multiset(),
    ensures
        BlockActivity::of(a) == BlockActivity::of(b),
{
    let plus = |counts: BlockActivity, block: BlockData| counts.plus(block);
    assert(commutes(plus));
    lemma_total_any_order(BlockActivity::zero(), plus, a, b);
}

impl Default for BlockActivityAnalytics {
    fn default() -> (analytics: BlockActivityAnalytics)
        ensures
            analytics.wf(),
            analytics.milestone() is None,
            analytics.handled().len() == 0,
    {
        BlockActivityAnalytics::new()
    }
}

impl BlockActivityAnalytics {
    /// The milestone that the accumulator was begun for and has not ended.
    pub closed spec fn milestone(&self) -> Option<MilestoneIndexTimestamp> {
        self.begun
    }

    /// The blocks that the accumulator was handed since it was begun, in the
    /// order in which it was handed them.
    pub closed spec fn handled(&self) -> Seq<BlockData> {
        self.handled@
    }

    /// The accumulator's invariant: its counts are those of the blocks that
    /// it was handed.
    pub closed spec fn wf(&self) -> bool {
        &&& self.counts@ == BlockActivity::of(self.handled@)
        &&& self.begun is None ==> self.handled@.len() == 0
    }

    /// An idle accumulator.
    pub fn new() -> (analytics: BlockActivityAnalytics)
        ensures
            analytics.wf(),
            analytics.milestone() is None,
            analytics.handled().len() == 0,
    {
        BlockActivityAnalytics {
            begun: None,
            counts: BlockActivityMeasurement::default(),
            handled: Ghost(Seq::empty()),
        }
    }

    /// Begins the milestone of `ctx`: the counts start over at zero, and what
    /// was counted for a milestone that was not ended is dropped.
    pub fn begin_milestone(&mut self, ctx: &AnalyticsContext)
        ensures
            final(self).wf(),
            final(self).milestone() == Some(ctx.at),
            final(self).handled().len() == 0,
    {
        self.begun = Some(ctx.at);
        self.counts = BlockActivityMeasurement::default();
        self.handled = Ghost(Seq::empty());
    }

    /// Counts a block of the milestone of `ctx`. An accumulator that was not
    /// begun for that milestone refuses the block and stays as it is.
    pub fn handle_block(&mut self, block: &BlockData, ctx: &AnalyticsContext) -> (res: Result<
        (),
        AnalyticsError,
    >)
        requires
            old(self).wf(),
            old(self).milestone() == Some(ctx.at) ==> old(self).handled().len() < usize::MAX,
        ensures
            final(self).wf(),
            final(self).milestone() == old(self).milestone(),
            old(self).milestone() == Some(ctx.at) ==> res is Ok && final(self).handled() == old(
                self,
            ).handled().push(*block),
            old(self).milestone() != Some(ctx.at) ==> res == Err::<(), AnalyticsError>(
                AnalyticsError::NotBegun,
            ) && final(self).handled() == old(self).handled(),
    {
        if !begun_for(&self.begun, ctx) {
            return Err(AnalyticsError::NotBegun);
        }
        proof {
            lemma_counts_add_up(self.handled@);
        }
        match &block.payload {
            Some(payload) => match payload.kind {
                PayloadKind::Milestone => {
                    self.counts.milestone_count += 1;
                },
                PayloadKind::TaggedData => {
                    self.counts.tagged_data_count += 1;
                },
                PayloadKind::Transaction => {
                    self.counts.transaction_count += 1;
                },
                PayloadKind::TreasuryTransaction => {
                    self.counts.treasury_transaction_count += 1;
                },
            },
            None => {
                self.counts.no_payload_count += 1;
            },
        }
        match block.metadata.inclusion_state {
            LedgerInclusionState::Conflicting => {
                self.counts.conflicting_count += 1;
            },
            LedgerInclusionState::Included => {
                self.counts.confirmed_count += 1;
            },
            LedgerInclusionState::NoTransaction => {
                self.counts.no_transaction_count += 1;
            },
        }
        proof {
            let before = self.handled@;
            assert(before.push(*block).drop_last() =~= before);
            assert(before.push(*block).last() == *block);
        }
        self.handled = Ghost(self.handled@.push(*block));
        Ok(())
    }

    /// Ends the milestone of `ctx` and yields its measurement: the counts of
    /// the blocks handed over since the milestone was begun. An accumulator
    /// that was not begun for that milestone yields nothing and stays as it
    /// is.
    pub fn end_milestone(&mut self, ctx: &AnalyticsContext) -> (measurement: Option<
        Measurement<BlockActivityMeasurement>,
    >)
        requires
            old(self).wf(),
        ensures
            final(self).wf(),
            match measurement {
                Some(taken) => {
                    &&& old(self).milestone() == Some(ctx.at)
                    &&& taken.at == ctx.at
                    &&& taken.inner@ == BlockActivity::of(old(self).handled())
                    &&& final(self).milestone() is None
                    &&& final(self).handled().len() == 0
                },
                None => {
                    &&& old(self).milestone() != Some(ctx.at)
                    &&& final(self).milestone() == old(self).milestone()
                    &&& final(self).handled() == old(self).handled()
                },
            },
    {
        if !begun_for(&self.begun, ctx) {
            return None;
        }
        let taken = Measurement { at: ctx.at, inner: self.counts };
        self.begun = None;
        self.counts = BlockActivityMeasurement::default();
        self.handled = Ghost(Seq::empty());
        Some(taken)
    }
}

} // verus!
