//! The document store: records keyed by the milestone at which they took
//! effect, and the collection of outputs with its secondary indexes.

pub mod outputs;
pub mod versioned;

use vstd::prelude::*;

verus! {

/// The direction of a listing by time of booking.
#[derive(Clone, Copy, Debug, PartialEq, Eq, Structural)]
pub enum SortOrder {
    /// The most recently booked output comes first.
    Newest,
    /// The output booked longest ago comes first.
    Oldest,
}

} // verus!
