//! Rows of values and sets of rows, as they are built by hand.

pub mod data_set;
pub mod row;
