//! What the node's core API answers, built from what the store holds.

pub mod responses;
pub mod routes;
