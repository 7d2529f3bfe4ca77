//! The three generations of the protocol, as types.

use vstd::prelude::*;

verus! {

/// Marks a type that stands for one generation of the protocol.
pub trait Version {

}

pub struct VersionV1;

impl Version for VersionV1 {

}

pub struct VersionV2;

impl Version for VersionV2 {

}

pub struct VersionV3;

impl Version for VersionV3 {

}

} // verus!
