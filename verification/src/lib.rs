//! A permanent index over the history of a distributed ledger.
//!
//! The crate holds the time-indexed core of the indexer: records that take
//! effect at a milestone, outputs that are visible between the milestone that
//! booked them and the milestone that spent them, and per-milestone statistics
//! over the blocks of the tangle.

pub mod model;
pub mod db;
pub mod analytics;
pub mod api;
