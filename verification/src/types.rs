//! Shared value types of the sampler: the fixed-point convention, the error
//! kinds, and one output row.

use vstd::prelude::*;

verus! {

/// Denominator of the fixed-point representation: a real value `r` is carried
/// as the integer `r * 1_000_000`, so one unit of length (one cell edge in
/// index space) is `FIXED_ONE`.
pub const FIXED_ONE: i64 = 1_000_000;

/// Denominator that converts a product `density * vx * vy * vz` (all four in
/// fixed point) into an expected entity count: the four fixed-point
/// denominators contribute 10^24 and the physical scale factor of 10^-9
/// contributes the rest, 10^33 in all.
pub const COUNT_DENOM: u128 = 1_000_000_000_000_000_000_000_000_000_000_000;

/// Half of `COUNT_DENOM`, used to round the expected count to the nearest
/// integer.
pub const COUNT_HALF: u128 = COUNT_DENOM / 2;

/// Why a sampling call was rejected. Inputs that merely yield zero rows are
/// not errors: they take the empty-output path.
#[derive(Clone, Copy, Debug, PartialEq, Eq, Structural)]
pub enum SampleError {
    /// `voxel_dimensions` or `offset` does not have exactly three entries.
    ShapeMismatch,
    /// A density entry is negative, or a voxel dimension is not positive.
    InvalidDensity,
}

/// One sampled position, in fixed point: the real coordinate on axis `x` is
/// `x` divided by `FIXED_ONE`.
#[derive(Clone, Copy, Debug, PartialEq, Eq, Structural)]
pub struct Position {
    pub x: i64,
    pub y: i64,
    pub z: i64,
}

} // verus!
