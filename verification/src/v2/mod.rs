//! Handlers for the second generation of the protocol.

pub mod graph;
