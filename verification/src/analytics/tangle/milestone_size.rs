//! How many bytes the blocks of a milestone take.

use vstd::prelude::*;
use crate::analytics::{
    begun_for,
    commutes,
    lemma_total_any_order,
    total_over,
    AnalyticsContext,
    AnalyticsError,
    Measurement,
};
use crate::model::block::{BlockData, PayloadKind};
use crate::model::tangle::MilestoneIndexTimestamp;

verus! {

/// The bytes of a milestone: those of the payloads of its blocks by kind of
/// payload, and those of all its blocks as a whole.
#[derive(Clone, Copy, Debug, PartialEq, Eq, Structural)]
pub struct MilestoneSizeMeasurement {
    pub total_milestone_payload_bytes: usize,
    pub total_tagged_data_payload_bytes: usize,
    pub total_transaction_payload_bytes: usize,
    pub total_treasury_transaction_payload_bytes: usize,
    pub total_milestone_bytes: usize,
}

/// The sums of a [`MilestoneSizeMeasurement`] as numbers without a bound.
pub struct MilestoneSize {
    pub total_milestone_payload_bytes: int,
    pub total_tagged_data_payload_bytes: int,
    pub total_transaction_payload_bytes: int,
    pub total_treasury_transaction_payload_bytes: int,
    pub total_milestone_bytes: int,
}

/// The accumulator of a [`MilestoneSizeMeasurement`].
pub struct MilestoneSizeAnalytics {
    begun: Option<MilestoneIndexTimestamp>,
    sums: MilestoneSizeMeasurement,
    handled: Ghost<Seq<BlockData>>,
}

impl View for MilestoneSizeMeasurement {
    type V = MilestoneSize;

    open spec fn view(&self) -> MilestoneSize {
        MilestoneSize {
            total_milestone_payload_bytes: self.total_milestone_payload_bytes as int,
            total_tagged_data_payload_bytes: self.total_tagged_data_payload_bytes as int,
            total_transaction_payload_bytes: self.total_transaction_payload_bytes as int,
            total_treasury_transaction_payload_bytes: self.total_treasury_transaction_payload_bytes as int,
            total_milestone_bytes: self.total_milestone_bytes as int,
        }
    }
}

impl Default for MilestoneSizeMeasurement {
    fn default() -> (sums: MilestoneSizeMeasurement)
        ensures
            sums@ == MilestoneSize::zero(),
    {
        MilestoneSizeMeasurement {
            total_milestone_payload_bytes: 0,
            total_tagged_data_payload_bytes: 0,
            total_transaction_payload_bytes: 0,
            total_treasury_transaction_payload_bytes: 0,
            total_milestone_bytes: 0,
        }
    }
}

impl MilestoneSize {
    /// The sums over no blocks.
    pub open spec fn zero() -> MilestoneSize {
        MilestoneSize {
            total_milestone_payload_bytes: 0,
            total_tagged_data_payload_bytes: 0,
            total_transaction_payload_bytes: 0,
            total_treasury_transaction_payload_bytes: 0,
            total_milestone_bytes: 0,
        }
    }

    /// The sums with one more block: the bytes of the block go to the sum
    /// over whole blocks, and the bytes of its payload, if it carries one, to
    /// the sum of the payload's kind.
    pub open spec fn plus(self, block: BlockData) -> MilestoneSize {
        let whole = MilestoneSize {
            total_milestone_bytes: self.total_milestone_bytes + block.raw_len(),
            ..self
        };
        match block.payload_kind() {
            Some(PayloadKind::Milestone) => MilestoneSize {
                total_milestone_payload_bytes: whole.total_milestone_payload_bytes
                    + block.payload_len(),
                ..whole
            },
            Some(PayloadKind::TaggedData) => MilestoneSize {
                total_tagged_data_payload_bytes: whole.total_tagged_data_payload_bytes
                    + block.payload_len(),
                ..whole
            },
            Some(PayloadKind::Transaction) => MilestoneSize {
                total_transaction_payload_bytes: whole.total_transaction_payload_bytes
                    + block.payload_len(),
                ..whole
            },
            Some(PayloadKind::TreasuryTransaction) => MilestoneSize {
                total_treasury_transaction_payload_bytes: whole.total_treasury_transaction_payload_bytes
                    + block.payload_len(),
                ..whole
            },
            None => whole,
        }
    }

    /// The sums over a sequence of blocks.
    pub open spec fn of(blocks: Seq<BlockData>) -> MilestoneSize {
        total_over(MilestoneSize::zero(), |sums: MilestoneSize, block: BlockData| sums.plus(block), blocks)
    }

    /// The bytes of all payloads.
    pub open spec fn payload_bytes(self) -> int {
        self.total_milestone_payload_bytes + self.total_tagged_data_payload_bytes
            + self.total_transaction_payload_bytes + self.total_treasury_transaction_payload_bytes
    }

    /// Whether each sum is one that a measurement can hold.
    pub open spec fn fits(self) -> bool {
        &&& self.total_milestone_payload_bytes <= usize::MAX
        &&& self.total_tagged_data_payload_bytes <= usize::MAX
        &&& self.total_transaction_payload_bytes <= usize::MAX
        &&& self.total_treasury_transaction_payload_bytes <= usize::MAX
        &&& self.total_milestone_bytes <= usize::MAX
    }
}

/// The bytes of a block go to the sum over whole blocks whatever the block
/// carries, and the bytes of its payload go to one sum by kind.
pub proof fn lemma_block_bytes_once(sums: MilestoneSize, block: BlockData)
    ensures
        sums.plus(block).total_milestone_bytes == sums.total_milestone_bytes + block.raw_len(),
        sums.plus(block).payload_bytes() == sums.payload_bytes() + block.payload_len(),
{
}

/// The sums of a milestone do not depend on the order in which its blocks
/// were added.
pub proof fn lemma_sums_any_order(a: Seq<BlockData>, b: Seq<BlockData>)
    requires
        a.to_multiset() == b.to_multiset(),
    ensures
        MilestoneSize::of(a) == MilestoneSize::of(b),
{
    let plus = |sums: MilestoneSize, block: BlockData| sums.plus(block);
    assert(commutes(plus));
    lemma_total_any_order(MilestoneSize::zero(), plus, a, b);
}

impl Default for MilestoneSizeAnalytics {
    fn default() -> (analytics: MilestoneSizeAnalytics)
        ensures
            analytics.wf(),
            analytics.milestone() is None,
            analytics.handled().len() == 0,
    {
        MilestoneSizeAnalytics::new()
    }
}

impl MilestoneSizeAnalytics {
    /// The milestone that the accumulator was begun for and has not ended.
    pub closed spec fn milestone(&self) -> Option<MilestoneIndexTimestamp> {
        self.begun
    }

    /// The blocks that the accumulator was handed since it was begun, in the
    /// order in which it was handed them.
    pub closed spec fn handled(&self) -> Seq<BlockData> {
        self.handled@
    }

    /// The accumulator's invariant: its sums are those over the blocks that
    /// it was handed.
    pub closed spec fn wf(&self) -> bool {
        &&& self.sums@ == MilestoneSize::of(self.handled@)
        &&& self.begun is None ==> self.handled@.len() == 0
    }

    /// An idle accumulator.
    pub fn new() -> (analytics: MilestoneSizeAnalytics)
        ensures
            analytics.wf(),
            analytics.milestone() is None,
            analytics.handled().len() == 0,
    {
        MilestoneSizeAnalytics {
            begun: None,
            sums: MilestoneSizeMeasurement::default(),
            handled: Ghost(Seq::empty()),
        }
    }

    /// Begins the milestone of `ctx`: the sums start over at zero, and what
    /// was added for a milestone that was not ended is dropped.
    pub fn begin_milestone(&mut self, ctx: &AnalyticsContext)
        ensures
            final(self).wf(),
            final(self).milestone() == Some(ctx.at),
            final(self).handled().len() == 0,
    {
        self.begun = Some(ctx.at);
        self.sums = MilestoneSizeMeasurement::default();
        self.handled = Ghost(Seq::empty());
    }

    /// Adds a block of the milestone of `ctx`. An accumulator that was not
    /// begun for that milestone refuses the block and stays as it is.
    pub fn handle_block(&mut self, block: &BlockData, ctx: &AnalyticsContext) -> (res: Result<
        (),
        AnalyticsError,
    >)
        requires
            old(self).wf(),
            old(self).milestone() == Some(ctx.at) ==> MilestoneSize::of(
                old(self).handled().push(*block),
            ).fits(),
        ensures
            final(self).wf(),
            final(self).milestone() == old(self).milestone(),
            old(self).milestone() == Some(ctx.at) ==> res is Ok && final(self).handled() == old(
                self,
            ).handled().push(*block),
            old(self).milestone() != Some(ctx.at) ==> res == Err::<(), AnalyticsError>(
                AnalyticsError::NotBegun,
            ) && final(self).handled() == old(self).handled(),
    {
        if !begun_for(&self.begun, ctx) {
            return Err(AnalyticsError::NotBegun);
        }
        proof {
            let before = self.handled@;
            assert(before.push(*block).drop_last() =~= before);
            assert(before.push(*block).last() == *block);
        }
        self.sums.total_milestone_bytes += block.raw.len();
        match &block.payload {
            Some(payload) => match payload.kind {
                PayloadKind::Milestone => {
                    self.sums.total_milestone_payload_bytes += payload.raw.len();
                },
                PayloadKind::TaggedData => {
                    self.sums.total_tagged_data_payload_bytes += payload.raw.len();
                },
                PayloadKind::Transaction => {
                    self.sums.total_transaction_payload_bytes += payload.raw.len();
                },
                PayloadKind::TreasuryTransaction => {
                    self.sums.total_treasury_transaction_payload_bytes += payload.raw.len();
                },
            },
            None => {},
        }
        self.handled = Ghost(self.handled@.push(*block));
        Ok(())
    }

    /// Ends the milestone of `ctx` and yields its measurement: the sums over
    /// the blocks handed over since the milestone was begun. An accumulator
    /// that was not begun for that milestone yields nothing and stays as it
    /// is.
    pub fn end_milestone(&mut self, ctx: &AnalyticsContext) -> (measurement: Option<
        Measurement<MilestoneSizeMeasurement>,
    >)
        requires
            old(self).wf(),
        ensures
            final(self).wf(),
            match measurement {
                Some(taken) => {
                    &&& old(self).milestone() == Some(ctx.at)
                    &&& taken.at == ctx.at
                    &&& taken.inner@ == MilestoneSize::of(old(self).handled())
                    &&& final(self).milestone() is None
                    &&& final(self).handled().len() == 0
                },
                None => {
                    &&& old(self).milestone() != Some(ctx.at)
                    &&& final(self).milestone() == old(self).milestone()
                    &&& final(self).handled() == old(self).handled()
                },
            },
    {
        if !begun_for(&self.begun, ctx) {
            return None;
        }
        let taken = Measurement { at: ctx.at, inner: self.sums };
        self.begun = None;
        self.sums = MilestoneSizeMeasurement::default();
        self.handled = Ghost(Seq::empty());
        Some(taken)
    }
}

} // verus!
