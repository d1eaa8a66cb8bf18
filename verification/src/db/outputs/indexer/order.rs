//! The order of a listing: by the milestone that booked an output, then by
//! the output's identifier.

use vstd::prelude::*;
use crate::db::outputs::indexer::OutputResult;
use crate::db::SortOrder;
use crate::model::bytes::{
    bytes_lt,
    lemma_bytes_lt_asymmetric,
    lemma_bytes_lt_irreflexive,
    lemma_bytes_lt_total,
    lemma_bytes_lt_transitive,
};
use crate::model::ids::lemma_array_eq;

verus! {

impl OutputResult {
    /// Whether this output was booked before `other`; of two outputs booked
    /// at the same milestone the one with the lesser identifier counts as
    /// booked first.
    pub open spec fn older_than(self, other: OutputResult) -> bool {
        self.booked_index.0 < other.booked_index.0 || (self.booked_index.0 == other.booked_index.0
            && bytes_lt(self.output_id@, other.output_id@))
    }

    /// Whether this output stands before `other` in a listing of the given
    /// order.
    pub open spec fn precedes(self, other: OutputResult, order: SortOrder) -> bool {
        match order {
            SortOrder::Oldest => self.older_than(other),
            SortOrder::Newest => other.older_than(self),
        }
    }

    /// Decides [`OutputResult::older_than`].
    pub fn is_older_than(&self, other: &OutputResult) -> (r: bool)
        ensures
            r == self.older_than(*other),
    {
        self.booked_index.0 < other.booked_index.0 || (self.booked_index.0 == other.booked_index.0
            && self.output_id.less(&other.output_id))
    }

    /// Decides [`OutputResult::precedes`].
    pub fn comes_before(&self, other: &OutputResult, order: SortOrder) -> (r: bool)
        ensures
            r == self.precedes(*other, order),
    {
        match order {
            SortOrder::Oldest => self.is_older_than(other),
            SortOrder::Newest => other.is_older_than(self),
        }
    }
}

/// Whether a listing is in the given order, with no output listed twice.
pub open spec fn strictly_ordered(listing: Seq<OutputResult>, order: SortOrder) -> bool {
    forall|i: int, j: int|
        0 <= i < j < listing.len() ==> (#[trigger] listing[i]).precedes(#[trigger] listing[j], order)
}

/// No output stands before itself.
pub proof fn lemma_precedes_irreflexive(a: OutputResult, order: SortOrder)
    ensures
        !a.precedes(a, order),
{
    lemma_bytes_lt_irreflexive(a.output_id@);
}

/// Of two outputs at most one stands before the other.
pub proof fn lemma_precedes_asymmetric(a: OutputResult, b: OutputResult, order: SortOrder)
    requires
        a.precedes(b, order),
    ensures
        !b.precedes(a, order),
{
    if bytes_lt(a.output_id@, b.output_id@) {
        lemma_bytes_lt_asymmetric(a.output_id@, b.output_id@);
    }
    if bytes_lt(b.output_id@, a.output_id@) {
        lemma_bytes_lt_asymmetric(b.output_id@, a.output_id@);
    }
}

/// What stands before an output stands before all that the output stands
/// before.
pub proof fn lemma_precedes_transitive(
    a: OutputResult,
    b: OutputResult,
    c: OutputResult,
    order: SortOrder,
)
    requires
        a.precedes(b, order),
        b.precedes(c, order),
    ensures
        a.precedes(c, order),
{
    if bytes_lt(a.output_id@, b.output_id@) && bytes_lt(b.output_id@, c.output_id@) {
        lemma_bytes_lt_transitive(a.output_id@, b.output_id@, c.output_id@);
    }
    if bytes_lt(c.output_id@, b.output_id@) && bytes_lt(b.output_id@, a.output_id@) {
        lemma_bytes_lt_transitive(c.output_id@, b.output_id@, a.output_id@);
    }
}

/// Of two different outputs one stands before the other.
pub proof fn lemma_precedes_total(a: OutputResult, b: OutputResult, order: SortOrder)
    ensures
        a.precedes(b, order) || b.precedes(a, order) || a == b,
{
    lemma_bytes_lt_total(a.output_id@, b.output_id@);
    lemma_array_eq(a.output_id.0, b.output_id.0);
}

/// In an ordered listing an entry that stands before another has the lesser
/// place.
pub proof fn lemma_ordered_places(listing: Seq<OutputResult>, order: SortOrder, i: int, j: int)
    requires
        strictly_ordered(listing, order),
        0 <= i < listing.len(),
        0 <= j < listing.len(),
        listing[i].precedes(listing[j], order),
    ensures
        i < j,
{
    if i == j {
        lemma_precedes_irreflexive(listing[i], order);
    } else if j < i {
        lemma_precedes_asymmetric(listing[j], listing[i], order);
    }
}

/// Puts `item` into an ordered listing at the place that keeps it ordered.
pub fn insert_ordered(listing: &mut Vec<OutputResult>, item: OutputResult, order: SortOrder)
    requires
        strictly_ordered(old(listing)@, order),
        !old(listing)@.contains(item),
    ensures
        strictly_ordered(final(listing)@, order),
        final(listing)@.len() == old(listing)@.len() + 1,
        forall|other: OutputResult|
            final(listing)@.contains(other) <==> other == item || old(listing)@.contains(other),
{
    let mut at: usize = 0;
    while at < listing.len() && listing[at].comes_before(&item, order)
        invariant
            at <= listing.len(),
            *listing == *old(listing),
            forall|i: int| 0 <= i < at ==> (#[trigger] listing@[i]).precedes(item, order),
        decreases listing.len() - at,
    {
        at += 1;
    }
    let ghost before = listing@;
    listing.insert(at, item);
    proof {
        let after = listing@;
        assert forall|i: int, j: int| 0 <= i < j < after.len() implies (#[trigger] after[i]).precedes(
            #[trigger] after[j],
            order,
        ) by {
            if j == at {
                assert(after[i] == before[i]);
            } else if i == at {
                // what follows the new item followed the place it took
                assert(after[j] == before[j - 1]);
                assert(before.contains(before[at as int]));
                lemma_precedes_total(before[at as int], item, order);
                if j - 1 > at {
                    assert(before[at as int].precedes(before[j - 1], order));
                    lemma_precedes_transitive(item, before[at as int], before[j - 1], order);
                }
            } else if j < at {
                assert(after[i] == before[i] && after[j] == before[j]);
            } else if i < at {
                assert(after[i] == before[i] && after[j] == before[j - 1]);
            } else {
                assert(after[i] == before[i - 1] && after[j] == before[j - 1]);
            }
        }
        assert forall|other: OutputResult|
            after.contains(other) <==> other == item || before.contains(other) by {
            assert(after[at as int] == item);
            if before.contains(other) {
                let k = before.index_of(other);
                if k < at {
                    assert(after[k] == other);
                } else {
                    assert(after[k + 1] == other);
                }
            }
            if after.contains(other) && other != item {
                let k = after.index_of(other);
                if k < at {
                    assert(before[k] == other);
                } else {
                    assert(before[k - 1] == other);
                }
            }
        }
    }
}

} // verus!
