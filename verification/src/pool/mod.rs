//! Connection pools.

pub mod graph;
pub mod v2;
pub mod v3;
