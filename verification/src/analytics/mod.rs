//! Statistics over the ledger, one measurement per milestone.
//!
//! An accumulator is begun for a milestone, handed each block of that
//! milestone once, and ended, which yields the measurement and leaves the
//! accumulator idle. What it yields depends on which blocks it was handed,
//! not on their order.

pub mod tangle;

use vstd::prelude::*;
use crate::model::block::BlockData;
use crate::model::node::ProtocolParameters;
use crate::model::tangle::MilestoneIndexTimestamp;

verus! {

/// What an accumulator is told about the milestone that it works on.
#[derive(Clone, Debug, PartialEq, Eq)]
pub struct AnalyticsContext {
    pub at: MilestoneIndexTimestamp,
    pub params: ProtocolParameters,
}

/// A finished measurement and the milestone that it was taken for.
#[derive(Clone, Copy, Debug, PartialEq, Eq)]
pub struct Measurement<T> {
    pub at: MilestoneIndexTimestamp,
    pub inner: T,
}

/// The misuse of an accumulator.
#[derive(Clone, Copy, Debug, PartialEq, Eq, Structural)]
pub enum AnalyticsError {
    /// The accumulator was handed a block for a milestone that it was not
    /// begun for.
    NotBegun,
}

/// Whether an accumulator that was begun for `begun` works on the milestone
/// of `ctx`.
pub fn begun_for(begun: &Option<MilestoneIndexTimestamp>, ctx: &AnalyticsContext) -> (r: bool)
    ensures
        r == (*begun == Some(ctx.at)),
{
    match begun {
        Some(at) => *at == ctx.at,
        None => false,
    }
}

/// The total over a sequence of blocks: `plus` applied to `zero` and each
/// block in turn.
pub open spec fn total_over<T>(
    zero: T,
    plus: spec_fn(T, BlockData) -> T,
    blocks: Seq<BlockData>,
) -> T
    decreases blocks.len(),
{
    if blocks.len() == 0 {
        zero
    } else {
        plus(total_over(zero, plus, blocks.drop_last()), blocks.last())
    }
}

/// Whether the order in which two blocks are added makes no difference.
pub open spec fn commutes<T>(plus: spec_fn(T, BlockData) -> T) -> bool {
    forall|total: T, a: BlockData, b: BlockData|
        #[trigger] plus(plus(total, a), b) == plus(plus(total, b), a)
}

/// The total over a sequence of blocks is the total over the sequence
/// without one of them, plus that block.
pub proof fn lemma_total_without<T>(
    zero: T,
    plus: spec_fn(T, BlockData) -> T,
    blocks: Seq<BlockData>,
    i: int,
)
    requires
        commutes(plus),
        0 <= i < blocks.len(),
    ensures
        total_over(zero, plus, blocks) == plus(total_over(zero, plus, blocks.remove(i)), blocks[i]),
    decreases blocks.len(),
{
    let front = blocks.drop_last();
    if i == blocks.len() - 1 {
        assert(blocks.remove(i) == front);
    } else {
        lemma_total_without(zero, plus, front, i);
        assert(blocks.remove(i).drop_last() == front.remove(i));
        assert(blocks.remove(i).last() == blocks.last());
        assert(front[i] == blocks[i]);
    }
}

/// The total over a sequence of blocks does not depend on their order: two
/// sequences that hold the same blocks, each as often, have the same total.
pub proof fn lemma_total_any_order<T>(
    zero: T,
    plus: spec_fn(T, BlockData) -> T,
    a: Seq<BlockData>,
    b: Seq<BlockData>,
)
    requires
        commutes(plus),
        a.to_multiset() == b.to_multiset(),
    ensures
        total_over(zero, plus, a) == total_over(zero, plus, b),
    decreases a.len(),
{
    vstd::seq_lib::to_multiset_len(a);
    vstd::seq_lib::to_multiset_len(b);
    if a.len() == 0 {
    } else {
        let last = a.last();
        let front = a.drop_last();
        assert(a.contains(last)) by {
            assert(a[a.len() - 1] == last);
        }
        vstd::seq_lib::to_multiset_contains(a, last);
        vstd::seq_lib::to_multiset_contains(b, last);
        let i = b.index_of(last);
        assert(front == a.remove(a.len() - 1));
        vstd::seq_lib::to_multiset_remove(a, a.len() - 1);
        vstd::seq_lib::to_multiset_remove(b, i);
        lemma_total_any_order(zero, plus, front, b.remove(i));
        lemma_total_without(zero, plus, b, i);
    }
}

} // verus!
