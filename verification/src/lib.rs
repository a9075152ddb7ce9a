//! Monte Carlo position sampler: turns a 3-D density grid into a set of
//! randomly placed points whose spatial distribution is proportional to the
//! density. All real quantities (densities, voxel edge lengths, offsets and
//! output coordinates) are carried in fixed point with a denominator of one
//! million, so that every step of the kernel is exact integer arithmetic.

pub mod grid;
pub mod laws;
pub mod sampler;
pub mod search;
pub mod table;
pub mod types;
