//! Records that the statements of the query helpers come back as.

use vstd::prelude::*;

verus! {

/// One line of `SHOW HOSTS;`.
#[derive(Debug)]
pub struct Host {
    pub host: String,
    pub port: u16,
    pub status: String,
    pub leader_count: u64,
    pub leader_distribution: String,
    pub partition_distribution: String,
}

/// One line of `SHOW SPACES;`.
#[derive(Debug)]
pub struct Space {
    pub name: String,
}

/// A vertex of the tag `player` as a scan hands it out.
#[derive(Debug)]
pub struct Vertex {
    pub _vid: String,
    pub player: String,
    pub name: String,
    pub age: i64,
}

/// An edge of the type `serve` as a scan hands it out.
#[derive(Debug)]
pub struct Edge {
    pub _src: String,
    pub _type: i64,
    pub rank: i64,
    pub _dst: String,
    pub start_year: i64,
    pub end_year: i64,
}

} // verus!
