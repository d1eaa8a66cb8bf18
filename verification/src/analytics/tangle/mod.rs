//! Statistics about the tangle.

pub mod block_activity;
pub mod milestone_size;
pub mod protocol_params;
