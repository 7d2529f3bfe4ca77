//! Handlers for the first generation of the protocol.

pub mod meta;
pub mod storage;
