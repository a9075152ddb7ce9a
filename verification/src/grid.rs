//! The 3-D density grid and the index resolver: the mapping between a flat
//! cell index and its (i, j, k) grid coordinates. The flattening convention —
//! first axis fastest, `flat = i + nx * (j + ny * k)` — is the one the
//! preprocessor's scan order uses, and the resolver is proved to invert it.

use vstd::arithmetic::div_mod::{
    lemma_fundamental_div_mod, lemma_mod_division_less_than_divisor, lemma_multiply_divide_lt,
};
use vstd::prelude::*;

use crate::types::SampleError;

verus! {

/// A 3-D grid of fixed-point density values with dimensions `(nx, ny, nz)`,
/// stored flat with the first axis varying fastest: cell `(i, j, k)` lives at
/// `data[i + nx * (j + ny * k)]`.
pub struct Grid3 {
    pub nx: usize,
    pub ny: usize,
    pub nz: usize,
    pub data: Vec<i64>,
}

/// The flat index of grid coordinates `(i, j, k)` under the first-axis-fastest
/// convention.
pub open spec fn flatten(nx: int, ny: int, i: int, j: int, k: int) -> int {
    i + nx * (j + ny * k)
}

/// First-axis coordinate recovered from a flat index.
pub open spec fn res_i(nx: int, c: int) -> int {
    c % nx
}

/// Second-axis coordinate recovered from a flat index.
pub open spec fn res_j(nx: int, ny: int, c: int) -> int {
    (c / nx) % ny
}

/// Third-axis coordinate recovered from a flat index.
pub open spec fn res_k(nx: int, ny: int, c: int) -> int {
    (c / nx) / ny
}

impl Grid3 {
    /// The stored data covers exactly the advertised dimensions.
    pub open spec fn wf(self) -> bool {
        self.data.len() == self.nx * self.ny * self.nz
    }

    /// Builds a grid, rejecting data whose length does not match the
    /// dimensions (including the case where their product does not even fit
    /// the address space).
    pub fn new(nx: usize, ny: usize, nz: usize, data: Vec<i64>) -> (r: Result<
        Grid3,
        SampleError,
    >)
        ensures
            match r {
                Ok(g) => {
                    &&& g.wf()
                    &&& g.nx == nx
                    &&& g.ny == ny
                    &&& g.nz == nz
                    &&& g.data@ == data@
                    &&& data@.len() == nx * ny * nz
                },
                Err(e) => {
                    &&& e == SampleError::ShapeMismatch
                    &&& data@.len() != nx * ny * nz
                },
            },
    {
        let len = data.len();
        if nx == 0 || ny == 0 || nz == 0 {
            proof {
                assert(nx * ny * nz == 0) by (nonlinear_arith)
                    requires
                        nx == 0 || ny == 0 || nz == 0,
                ;
            }
            if len == 0 {
                return Ok(Grid3 { nx, ny, nz, data });
            } else {
                return Err(SampleError::ShapeMismatch);
            }
        }
        let xy = match nx.checked_mul(ny) {
            Some(p) => p,
            None => {
                proof {
                    lemma_mul_le_max(nx as int, ny as int, nz as int, len as int);
                }
                return Err(SampleError::ShapeMismatch);
            },
        };
        let xyz = match xy.checked_mul(nz) {
            Some(p) => p,
            None => {
                proof {
                    assert(xy * nz == nx * ny * nz);
                }
                return Err(SampleError::ShapeMismatch);
            },
        };
        if len == xyz {
            Ok(Grid3 { nx, ny, nz, data })
        } else {
            Err(SampleError::ShapeMismatch)
        }
    }
}

/// If the product of the first two dimensions already overflows `usize` and
/// the third is positive, no vector length can equal the full product.
proof fn lemma_mul_le_max(nx: int, ny: int, nz: int, len: int)
    requires
        nx * ny > usize::MAX,
        0 <= len <= usize::MAX,
        1 <= nz,
    ensures
        len != nx * ny * nz,
{
    assert(nx * ny * nz >= nx * ny) by (nonlinear_arith)
        requires
            nz >= 1,
            nx * ny > 0,
    ;
}

/// Recovers the grid coordinates of a flat cell index, bound-checking every
/// axis (the third included), and is proved to invert `flatten`.
pub fn resolve_index(c: usize, nx: usize, ny: usize, nz: usize) -> (r: (usize, usize, usize))
    requires
        0 < nx,
        0 < ny,
        0 < nz,
        c < nx * ny * nz,
    ensures
        r.0 < nx,
        r.1 < ny,
        r.2 < nz,
        r.0 == res_i(nx as int, c as int),
        r.1 == res_j(nx as int, ny as int, c as int),
        r.2 == res_k(nx as int, ny as int, c as int),
        flatten(nx as int, ny as int, r.0 as int, r.1 as int, r.2 as int) == c,
{
    let i = c % nx;
    let q = c / nx;
    let j = q % ny;
    let k = q / ny;
    proof {
        lemma_resolve_in_bounds(nx as int, ny as int, nz as int, c as int);
        lemma_flatten_resolve(nx as int, ny as int, c as int);
    }
    (i, j, k)
}

/// The recovered coordinates lie inside the grid whenever the flat index does.
pub proof fn lemma_resolve_in_bounds(nx: int, ny: int, nz: int, c: int)
    requires
        0 < nx,
        0 < ny,
        0 < nz,
        0 <= c < nx * ny * nz,
    ensures
        0 <= res_i(nx, c) < nx,
        0 <= res_j(nx, ny, c) < ny,
        0 <= res_k(nx, ny, c) < nz,
{
    lemma_mod_division_less_than_divisor(c, nx);
    lemma_mod_division_less_than_divisor(c / nx, ny);
    assert(c < nx * (ny * nz)) by (nonlinear_arith)
        requires
            c < nx * ny * nz,
    ;
    lemma_multiply_divide_lt(c, nx, ny * nz);
    lemma_multiply_divide_lt(c / nx, ny, nz);
    vstd::arithmetic::div_mod::lemma_div_pos_is_pos(c, nx);
    vstd::arithmetic::div_mod::lemma_div_pos_is_pos(c / nx, ny);
}

/// Flattening the recovered coordinates gives back the flat index.
pub proof fn lemma_flatten_resolve(nx: int, ny: int, c: int)
    requires
        0 < nx,
        0 < ny,
        0 <= c,
    ensures
        flatten(nx, ny, res_i(nx, c), res_j(nx, ny, c), res_k(nx, ny, c)) == c,
{
    let q = c / nx;
    let i = c % nx;
    let j = q % ny;
    let k = q / ny;
    lemma_fundamental_div_mod(c, nx);
    lemma_fundamental_div_mod(q, ny);
    assert(c == nx * q + i);
    assert(q == ny * k + j);
    assert(nx * (j + ny * k) == nx * q) by (nonlinear_arith)
        requires
            q == ny * k + j,
    ;
}

/// Resolving a flat index built from in-range coordinates gives those
/// coordinates back: the two directions of the convention agree.
pub proof fn lemma_resolve_flatten(nx: int, ny: int, i: int, j: int, k: int)
    requires
        0 < nx,
        0 < ny,
        0 <= i < nx,
        0 <= j < ny,
        0 <= k,
    ensures
        res_i(nx, flatten(nx, ny, i, j, k)) == i,
        res_j(nx, ny, flatten(nx, ny, i, j, k)) == j,
        res_k(nx, ny, flatten(nx, ny, i, j, k)) == k,
{
    let c = flatten(nx, ny, i, j, k);
    let m = j + ny * k;
    assert(c == m * nx + i) by (nonlinear_arith)
        requires
            c == i + nx * m,
    ;
    vstd::arithmetic::div_mod::lemma_fundamental_div_mod_converse(c, nx, m, i);
    assert(c % nx == i && c / nx == m);
    assert(m == k * ny + j) by (nonlinear_arith)
        requires
            m == j + ny * k,
    ;
    vstd::arithmetic::div_mod::lemma_fundamental_div_mod_converse(m, ny, k, j);
}

} // verus!
