//! The library-wide laws: facts that relate several functions' contracts,
//! stated and proved once so a reader sees them rather than deriving them.

use vstd::arithmetic::mul::lemma_mul_inequality;
use vstd::prelude::*;
use vstd::set_lib::{lemma_int_range, set_int_range};

use crate::grid::{lemma_resolve_in_bounds, res_i, res_j, res_k, Grid3};
use crate::sampler::{row_from_grid, row_in_cell, sample_ok};
use crate::search::selects;
use crate::table::{
    density_sum, lemma_density_sum_zero, lemma_weight_sum_bound, lemma_weight_sum_monotone,
    lemma_zero_total_zero_rows, spec_expected_rows, spec_voxel_volume, weight_sum,
};
use crate::types::{Position, FIXED_ONE};

verus! {

/// An all-zero density grid yields exactly zero output rows, whatever the
/// voxel dimensions: the expected count sums to zero and rounds to zero.
pub proof fn lemma_empty_density_no_rows(d: Seq<i64>, v: Seq<i64>)
    requires
        forall|c: int| 0 <= c < d.len() ==> d[c] == 0,
    ensures
        spec_expected_rows(d, v) == 0,
{
    lemma_density_sum_zero(d, d.len() as int);
    lemma_zero_total_zero_rows(spec_voxel_volume(v));
}

/// When exactly one cell carries positive density, every output row lies
/// inside that cell's footprint.
pub proof fn lemma_single_cell_containment(g: Grid3, off: Seq<i64>, c0: int, p: Position)
    requires
        0 <= c0 < g.data@.len(),
        forall|c: int| 0 <= c < g.data@.len() && c != c0 ==> g.data@[c] <= 0,
        row_from_grid(g, off, p),
    ensures
        row_in_cell(p, off[0] as int, off[1] as int, off[2] as int, g.nx as int, g.ny as int, c0),
{
    let c = choose|c: int|
        0 <= c < g.data@.len() && (#[trigger] g.data@[c]) > 0 && row_in_cell(
            p,
            off[0] as int,
            off[1] as int,
            off[2] as int,
            g.nx as int,
            g.ny as int,
            c,
        );
    assert(c == c0);
}

/// Exact selection proportionality: of the `total` possible selection draws,
/// exactly `w[t]` — the cell's own weight — select retained cell `t`. The
/// draws selecting `t` form precisely the interval between the cumulative
/// sums before and at `t`.
pub proof fn lemma_selection_share(w: Seq<u64>, cum: Seq<u128>, t: int)
    requires
        cum.len() == w.len(),
        forall|s: int| 0 <= s < cum.len() ==> cum[s] == weight_sum(w, s + 1),
        0 <= t < w.len(),
    ensures
        Set::new(
            |u: int| 0 <= u < weight_sum(w, w.len() as int) && selects(cum, u, t),
        ) =~= set_int_range(weight_sum(w, t), weight_sum(w, t + 1)),
        Set::new(|u: int| 0 <= u < weight_sum(w, w.len() as int) && selects(cum, u, t)).len()
            == w[t],
{
    let total = weight_sum(w, w.len() as int);
    let lo = weight_sum(w, t);
    let hi = weight_sum(w, t + 1);
    let sel = Set::new(|u: int| 0 <= u < total && selects(cum, u, t));
    lemma_weight_sum_bound(w, t);
    lemma_weight_sum_monotone(w, t + 1, w.len() as int);
    assert(hi == lo + w[t]);
    assert forall|u: int| sel.contains(u) <==> set_int_range(lo, hi).contains(u) by {
        if t > 0 {
            assert(cum[t - 1] == weight_sum(w, t));
        }
        assert(cum[t] == weight_sum(w, t + 1));
    }
    assert(sel =~= set_int_range(lo, hi));
    lemma_int_range(lo, hi);
}

/// Every position drawn from a grid stays inside the grid's world-space
/// bounding box: at least the offset, and less than the offset plus the
/// scaled grid extent, on each axis.
pub proof fn lemma_row_within_grid(g: Grid3, off: Seq<i64>, p: Position)
    requires
        g.wf(),
        row_from_grid(g, off, p),
    ensures
        off[0] <= p.x && (p.x as int) < off[0] + g.nx * (FIXED_ONE as int),
        off[1] <= p.y && (p.y as int) < off[1] + g.ny * (FIXED_ONE as int),
        off[2] <= p.z && (p.z as int) < off[2] + g.nz * (FIXED_ONE as int),
{
    let c = choose|c: int|
        0 <= c < g.data@.len() && (#[trigger] g.data@[c]) > 0 && row_in_cell(
            p,
            off[0] as int,
            off[1] as int,
            off[2] as int,
            g.nx as int,
            g.ny as int,
            c,
        );
    assert(g.data@.len() > 0);
    assert(g.nx > 0 && g.ny > 0 && g.nz > 0) by (nonlinear_arith)
        requires
            g.nx * g.ny * g.nz == g.data@.len(),
            g.data@.len() > 0,
    ;
    lemma_resolve_in_bounds(g.nx as int, g.ny as int, g.nz as int, c);
    lemma_mul_inequality(res_i(g.nx as int, c) + 1, g.nx as int, FIXED_ONE as int);
    lemma_mul_inequality(res_j(g.nx as int, g.ny as int, c) + 1, g.ny as int, FIXED_ONE as int);
    lemma_mul_inequality(res_k(g.nx as int, g.ny as int, c) + 1, g.nz as int, FIXED_ONE as int);
    assert(res_i(g.nx as int, c) * FIXED_ONE >= 0) by (nonlinear_arith)
        requires
            res_i(g.nx as int, c) >= 0,
    ;
    assert(res_j(g.nx as int, g.ny as int, c) * FIXED_ONE >= 0) by (nonlinear_arith)
        requires
            res_j(g.nx as int, g.ny as int, c) >= 0,
    ;
    assert(res_k(g.nx as int, g.ny as int, c) * FIXED_ONE >= 0) by (nonlinear_arith)
        requires
            res_k(g.nx as int, g.ny as int, c) >= 0,
    ;
}

/// Structure is deterministic even though values are random: any two outputs
/// that a successful call may return for the same inputs have the same row
/// count.
pub proof fn lemma_structure_deterministic(
    g: Grid3,
    v: Seq<i64>,
    off: Seq<i64>,
    rows1: Seq<Position>,
    rows2: Seq<Position>,
)
    requires
        sample_ok(g, v, off, rows1),
        sample_ok(g, v, off, rows2),
    ensures
        rows1.len() == rows2.len(),
{
    assert(rows1.len() == spec_expected_rows(g.data@, v));
}

/// The expected row count is what the counting rule says: the density sum
/// times the voxel volume, shifted by half the scale denominator and divided
/// by it — the fixed-point form of rounding `sum * volume * 1e-9` to the
/// nearest integer.
pub proof fn lemma_count_conservation(g: Grid3, v: Seq<i64>, off: Seq<i64>, rows: Seq<Position>)
    requires
        sample_ok(g, v, off, rows),
    ensures
        rows.len() == (density_sum(g.data@, g.data@.len() as int) * spec_voxel_volume(v)
            + crate::types::COUNT_HALF) / (crate::types::COUNT_DENOM as int),
{
}

} // verus!
