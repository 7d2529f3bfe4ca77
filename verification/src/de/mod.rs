//! Pieces of the layer that turns rows of values into typed records.

pub mod datadeal;
pub mod datetime;
pub mod error;
pub mod record;
