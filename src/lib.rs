//! Statistics and seeding for a small vector-search workload.
//!
//! Vector components are fixed-point numbers: the value `k` stands for
//! `k / 2^24`, so a component in `[0, 1)` is an integer below [`ONE`].
use vstd::prelude::*;

pub mod driver;
pub mod random;
pub mod seed;
pub mod stats;

verus! {

/// The fixed-point representation of `1.0`.
pub const ONE: u32 = 16777216;

/// The fixed-point representation of `0.5`.
pub const HALF: u32 = 8388608;

} // verus!
