//! The ledger's data model, as plain values.

pub mod block;
pub mod bytes;
pub mod hex;
pub mod ids;
pub mod metadata;
pub mod node;
pub mod output;
pub mod tangle;
