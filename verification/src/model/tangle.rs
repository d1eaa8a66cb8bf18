//! Milestones: the ledger's only time axis.

use vstd::prelude::*;

verus! {

/// The index of a milestone. Indices grow with time, and every "as of"
/// question is answered by comparing them.
#[derive(Clone, Copy, Debug, PartialEq, Eq, Structural, PartialOrd, Ord, Hash)]
pub struct MilestoneIndex(pub u32);

/// The time of a milestone in seconds. It is carried along with the index and
/// takes no part in ordering.
#[derive(Clone, Copy, Debug, PartialEq, Eq, Structural, PartialOrd, Ord, Hash)]
pub struct MilestoneTimestamp(pub u32);

/// A milestone's index together with its time.
#[derive(Clone, Copy, Debug, PartialEq, Eq, Structural)]
pub struct MilestoneIndexTimestamp {
    pub milestone_index: MilestoneIndex,
    pub milestone_timestamp: MilestoneTimestamp,
}

impl MilestoneIndex {
    /// Pairs the index with the time of its milestone.
    pub fn with_timestamp(self, milestone_timestamp: MilestoneTimestamp) -> (r:
        MilestoneIndexTimestamp)
        ensures
            r.milestone_index == self,
            r.milestone_timestamp == milestone_timestamp,
    {
        MilestoneIndexTimestamp { milestone_index: self, milestone_timestamp }
    }

    /// Whether something that happened at this milestone has happened as of
    /// `ledger_index`.
    pub open spec fn reached_by(self, ledger_index: MilestoneIndex) -> bool {
        self.0 <= ledger_index.0
    }

    /// Decides [`MilestoneIndex::reached_by`].
    pub fn is_reached_by(self, ledger_index: MilestoneIndex) -> (r: bool)
        ensures
            r == self.reached_by(ledger_index),
    {
        self.0 <= ledger_index.0
    }
}

impl From<u32> for MilestoneIndex {
    fn from(value: u32) -> (r: MilestoneIndex) {
        MilestoneIndex(value)
    }
}

impl vstd::std_specs::convert::FromSpecImpl<u32> for MilestoneIndex {
    open spec fn obeys_from_spec() -> bool {
        true
    }

    open spec fn from_spec(value: u32) -> MilestoneIndex {
        MilestoneIndex(value)
    }
}

impl From<u32> for MilestoneTimestamp {
    fn from(value: u32) -> (r: MilestoneTimestamp) {
        MilestoneTimestamp(value)
    }
}

impl vstd::std_specs::convert::FromSpecImpl<u32> for MilestoneTimestamp {
    open spec fn obeys_from_spec() -> bool {
        true
    }

    open spec fn from_spec(value: u32) -> MilestoneTimestamp {
        MilestoneTimestamp(value)
    }
}

} // verus!
