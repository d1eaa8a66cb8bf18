//! Filters over stored outputs: a small expression tree of conjunctions,
//! disjunctions and predicates on single fields.

use vstd::prelude::*;
use crate::db::outputs::indexer::IndexedId;
use crate::db::outputs::OutputDocument;
use crate::model::bytes::bytes_le;
use crate::model::ids::{Address, OutputId};
use crate::model::output::OutputKind;
use crate::model::tangle::{MilestoneIndex, MilestoneTimestamp};

verus! {

/// A predicate on one field of a stored output. A predicate on the value of
/// a field holds of no output that lacks the field.
#[derive(Clone, Copy, Debug, PartialEq, Eq)]
pub enum Predicate {
    /// The output is of this kind.
    Kind(OutputKind),
    /// The output carries this identifier.
    IndexedId(IndexedId),
    /// This address owns the output.
    Address(Address),
    /// The output holds at least one native token, or holds none.
    HasNativeTokens(bool),
    /// The output has a storage deposit return, or has none.
    HasStorageDepositReturn(bool),
    /// The output's storage deposit return sends the deposit to this address.
    StorageDepositReturnAddress(Address),
    /// The output has a timelock, or has none.
    HasTimelock(bool),
    /// The output's timelock ends before this time.
    TimelockedBefore(MilestoneTimestamp),
    /// The output's timelock ends after this time.
    TimelockedAfter(MilestoneTimestamp),
    /// The output has an expiration, or has none.
    HasExpiration(bool),
    /// The output expires before this time.
    ExpiresBefore(MilestoneTimestamp),
    /// The output expires after this time.
    ExpiresAfter(MilestoneTimestamp),
    /// The output's expiration hands it back to this address.
    ExpirationReturnAddress(Address),
    /// This address governs the output.
    Governor(Address),
    /// The output's sender feature names this address.
    Sender(Address),
    /// The output was booked before this time.
    CreatedBefore(MilestoneTimestamp),
    /// The output was booked after this time.
    CreatedAfter(MilestoneTimestamp),
    /// The output was booked at this milestone or before.
    BookedAsOf(MilestoneIndex),
    /// The output was not spent at this milestone or before.
    UnspentAsOf(MilestoneIndex),
    /// The output was booked before this milestone.
    BookedBefore(MilestoneIndex),
    /// The output was booked at this milestone.
    BookedAt(MilestoneIndex),
    /// The output was booked after this milestone.
    BookedAfter(MilestoneIndex),
    /// The output's identifier is this one or comes before it.
    OutputIdAtMost(OutputId),
    /// The output's identifier is this one or comes after it.
    OutputIdAtLeast(OutputId),
}

/// A filter over stored outputs.
#[derive(Debug, PartialEq, Eq)]
pub enum Filter {
    /// Every output passes.
    All,
    /// The outputs of which the predicate holds pass.
    Field(Predicate),
    /// The outputs that pass both filters pass.
    And(Box<Filter>, Box<Filter>),
    /// The outputs that pass one of the filters pass.
    Or(Box<Filter>, Box<Filter>),
}

impl Predicate {
    /// Whether the predicate holds of a stored output.
    pub open spec fn holds(self, doc: OutputDocument) -> bool {
        match self {
            Predicate::Kind(kind) => doc.output.kind_spec() == kind,
            Predicate::IndexedId(id) => doc.details.indexed_id == Some(id),
            Predicate::Address(address) => doc.details.address == Some(address),
            Predicate::HasNativeTokens(present) => present == (doc.details.native_token_count
                matches Some(count) && count > 0),
            Predicate::HasStorageDepositReturn(present) => present
                == doc.details.storage_deposit_return_address.is_some(),
            Predicate::StorageDepositReturnAddress(address) =>
                doc.details.storage_deposit_return_address == Some(address),
            Predicate::HasTimelock(present) => present == doc.details.timelock.is_some(),
            Predicate::TimelockedBefore(time) => doc.details.timelock matches Some(until)
                && until.0 < time.0,
            Predicate::TimelockedAfter(time) => doc.details.timelock matches Some(until)
                && until.0 > time.0,
            Predicate::HasExpiration(present) => present == doc.details.expiration.is_some(),
            Predicate::ExpiresBefore(time) => doc.details.expiration matches Some(at) && at.0
                < time.0,
            Predicate::ExpiresAfter(time) => doc.details.expiration matches Some(at) && at.0
                > time.0,
            Predicate::ExpirationReturnAddress(address) => doc.details.expiration_return_address
                == Some(address),
            Predicate::Governor(address) => doc.details.governor == Some(address),
            Predicate::Sender(address) => doc.details.sender == Some(address),
            Predicate::CreatedBefore(time) => doc.metadata.booked.milestone_timestamp.0 < time.0,
            Predicate::CreatedAfter(time) => doc.metadata.booked.milestone_timestamp.0 > time.0,
            Predicate::BookedAsOf(ledger_index) => doc.metadata.booked_as_of(ledger_index),
            Predicate::UnspentAsOf(ledger_index) => !doc.metadata.spent_as_of(ledger_index),
            Predicate::BookedBefore(index) => doc.metadata.booked.milestone_index.0 < index.0,
            Predicate::BookedAt(index) => doc.metadata.booked.milestone_index.0 == index.0,
            Predicate::BookedAfter(index) => doc.metadata.booked.milestone_index.0 > index.0,
            Predicate::OutputIdAtMost(id) => bytes_le(doc.output_id@, id@),
            Predicate::OutputIdAtLeast(id) => bytes_le(id@, doc.output_id@),
        }
    }

    /// Decides whether the predicate holds of a stored output.
    pub fn test(&self, doc: &OutputDocument) -> (r: bool)
        ensures
            r == self.holds(*doc),
    {
        match self {
            Predicate::Kind(kind) => doc.output.kind() == *kind,
            Predicate::IndexedId(id) => match &doc.details.indexed_id {
                Some(found) => found.same(id),
                None => false,
            },
            Predicate::Address(address) => has_address(&doc.details.address, address),
            Predicate::HasNativeTokens(present) => {
                let found = match doc.details.native_token_count {
                    Some(count) => count > 0,
                    None => false,
                };
                *present == found
            },
            Predicate::HasStorageDepositReturn(present) => *present
                == doc.details.storage_deposit_return_address.is_some(),
            Predicate::StorageDepositReturnAddress(address) => has_address(
                &doc.details.storage_deposit_return_address,
                address,
            ),
            Predicate::HasTimelock(present) => *present == doc.details.timelock.is_some(),
            Predicate::TimelockedBefore(time) => match doc.details.timelock {
                Some(until) => until.0 < time.0,
                None => false,
            },
            Predicate::TimelockedAfter(time) => match doc.details.timelock {
                Some(until) => until.0 > time.0,
                None => false,
            },
            Predicate::HasExpiration(present) => *present == doc.details.expiration.is_some(),
            Predicate::ExpiresBefore(time) => match doc.details.expiration {
                Some(at) => at.0 < time.0,
                None => false,
            },
            Predicate::ExpiresAfter(time) => match doc.details.expiration {
                Some(at) => at.0 > time.0,
                None => false,
            },
            Predicate::ExpirationReturnAddress(address) => has_address(
                &doc.details.expiration_return_address,
                address,
            ),
            Predicate::Governor(address) => has_address(&doc.details.governor, address),
            Predicate::Sender(address) => has_address(&doc.details.sender, address),
            Predicate::CreatedBefore(time) => doc.metadata.booked.milestone_timestamp.0 < time.0,
            Predicate::CreatedAfter(time) => doc.metadata.booked.milestone_timestamp.0 > time.0,
            Predicate::BookedAsOf(ledger_index) => doc.metadata.is_booked_as_of(*ledger_index),
            Predicate::UnspentAsOf(ledger_index) => !doc.metadata.is_spent_as_of(*ledger_index),
            Predicate::BookedBefore(index) => doc.metadata.booked.milestone_index.0 < index.0,
            Predicate::BookedAt(index) => doc.metadata.booked.milestone_index.0 == index.0,
            Predicate::BookedAfter(index) => doc.metadata.booked.milestone_index.0 > index.0,
            Predicate::OutputIdAtMost(id) => doc.output_id.same(id) || doc.output_id.less(id),
            Predicate::OutputIdAtLeast(id) => doc.output_id.same(id) || id.less(&doc.output_id),
        }
    }
}

/// Whether a field that may be absent holds the given address.
fn has_address(field: &Option<Address>, address: &Address) -> (r: bool)
    ensures
        r == (*field == Some(*address)),
{
    match field {
        Some(found) => found.same(address),
        None => false,
    }
}

impl Filter {
    /// Whether a stored output passes the filter.
    pub open spec fn matches(self, doc: OutputDocument) -> bool
        decreases self,
    {
        match self {
            Filter::All => true,
            Filter::Field(predicate) => predicate.holds(doc),
            Filter::And(left, right) => left.matches(doc) && right.matches(doc),
            Filter::Or(left, right) => left.matches(doc) || right.matches(doc),
        }
    }

    /// Decides whether a stored output passes the filter.
    pub fn accepts(&self, doc: &OutputDocument) -> (r: bool)
        ensures
            r == self.matches(*doc),
        decreases self,
    {
        match self {
            Filter::All => true,
            Filter::Field(predicate) => predicate.test(doc),
            Filter::And(left, right) => left.accepts(doc) && right.accepts(doc),
            Filter::Or(left, right) => left.accepts(doc) || right.accepts(doc),
        }
    }

    /// The filter that passes what both `self` and `other` pass.
    pub fn and(self, other: Filter) -> (r: Filter)
        ensures
            r == Filter::And(Box::new(self), Box::new(other)),
            forall|doc: OutputDocument| #[trigger]
                r.matches(doc) <==> self.matches(doc) && other.matches(doc),
    {
        Filter::And(Box::new(self), Box::new(other))
    }

    /// The filter that passes what `self` or `other` passes.
    pub fn or(self, other: Filter) -> (r: Filter)
        ensures
            r == Filter::Or(Box::new(self), Box::new(other)),
            forall|doc: OutputDocument| #[trigger]
                r.matches(doc) <==> self.matches(doc) || other.matches(doc),
    {
        Filter::Or(Box::new(self), Box::new(other))
    }

    /// The filter that passes the outputs of which every one of the given
    /// predicates holds.
    pub fn all_of(predicates: &Vec<Predicate>) -> (r: Filter)
        ensures
            forall|doc: OutputDocument| #[trigger]
                r.matches(doc) <==> forall|i: int|
                    0 <= i < predicates@.len() ==> (#[trigger] predicates@[i]).holds(doc),
    {
        let mut filter = Filter::All;
        let mut i: usize = 0;
        while i < predicates.len()
            invariant
                i <= predicates.len(),
                forall|doc: OutputDocument| #[trigger]
                    filter.matches(doc) <==> forall|j: int|
                        0 <= j < i ==> (#[trigger] predicates@[j]).holds(doc),
            decreases predicates.len() - i,
        {
            let ghost before = filter;
            filter = Filter::And(Box::new(filter), Box::new(Filter::Field(predicates[i])));
            assert forall|doc: OutputDocument| #[trigger]
                filter.matches(doc) <==> forall|j: int|
                    0 <= j < i + 1 ==> (#[trigger] predicates@[j]).holds(doc) by {
                reveal_with_fuel(Filter::matches, 2);
                assert(filter.matches(doc) <==> before.matches(doc) && predicates@[i as int].holds(
                    doc,
                ));
            }
            i += 1;
        }
        filter
    }
}

} // verus!
