//! The density preprocessor and the cumulative distribution builder: scanning
//! the grid for positive cells, summing their weights, and turning the
//! retained weights into a cumulative table for inverse-transform sampling.

use vstd::arithmetic::div_mod::lemma_basic_div;
use vstd::arithmetic::mul::lemma_mul_inequality;
use vstd::prelude::*;

use crate::grid::Grid3;
use crate::types::{COUNT_DENOM, COUNT_HALF};

verus! {

/// Sum of the first `n` entries of a density sequence, as a mathematical
/// integer.
pub open spec fn density_sum(d: Seq<i64>, n: int) -> int
    decreases n,
{
    if n <= 0 {
        0
    } else {
        density_sum(d, n - 1) + d[n - 1]
    }
}

/// Sum of the first `n` retained weights.
pub open spec fn weight_sum(w: Seq<u64>, n: int) -> int
    decreases n,
{
    if n <= 0 {
        0
    } else {
        weight_sum(w, n - 1) + w[n - 1]
    }
}

/// The fixed-point voxel volume: the product of the three edge lengths.
pub open spec fn spec_voxel_volume(v: Seq<i64>) -> int {
    v[0] * v[1] * v[2]
}

/// The number of output rows a sampling call produces: the total expected
/// entity count `sum(density) * voxel_volume * 1e-9`, rounded to the nearest
/// integer. In fixed point that is the integer quotient below.
pub open spec fn spec_expected_rows(d: Seq<i64>, v: Seq<i64>) -> int {
    (density_sum(d, d.len() as int) * spec_voxel_volume(v) + COUNT_HALF) / (COUNT_DENOM as int)
}

/// Appending entries does not change the sum of an unchanged prefix.
pub proof fn lemma_weight_sum_push(w: Seq<u64>, x: u64, n: int)
    requires
        0 <= n <= w.len(),
    ensures
        weight_sum(w.push(x), n) == weight_sum(w, n),
    decreases n,
{
    if n > 0 {
        lemma_weight_sum_push(w, x, n - 1);
    }
}

/// A sum of `n` weights is bounded by `n` times the largest weight value.
pub proof fn lemma_weight_sum_bound(w: Seq<u64>, n: int)
    requires
        0 <= n <= w.len(),
    ensures
        0 <= weight_sum(w, n) <= n * (u64::MAX as int),
    decreases n,
{
    if n > 0 {
        lemma_weight_sum_bound(w, n - 1);
        lemma_mul_inequality(n - 1, n, u64::MAX as int);
    }
}

/// A sum of `n` non-negative densities is bounded by `n` times the largest
/// entry value, and is itself non-negative.
pub proof fn lemma_density_sum_bound(d: Seq<i64>, n: int)
    requires
        0 <= n <= d.len(),
        forall|c: int| 0 <= c < n ==> d[c] >= 0,
    ensures
        0 <= density_sum(d, n) <= n * (i64::MAX as int),
    decreases n,
{
    if n > 0 {
        lemma_density_sum_bound(d, n - 1);
        lemma_mul_inequality(n - 1, n, i64::MAX as int);
    }
}

/// A sequence of all-zero densities sums to zero.
pub proof fn lemma_density_sum_zero(d: Seq<i64>, n: int)
    requires
        0 <= n <= d.len(),
        forall|c: int| 0 <= c < n ==> d[c] == 0,
    ensures
        density_sum(d, n) == 0,
    decreases n,
{
    if n > 0 {
        lemma_density_sum_zero(d, n - 1);
    }
}

/// The weight sums are monotone in the prefix length.
pub proof fn lemma_weight_sum_monotone(w: Seq<u64>, a: int, b: int)
    requires
        0 <= a <= b <= w.len(),
    ensures
        weight_sum(w, a) <= weight_sum(w, b),
    decreases b,
{
    if a < b {
        lemma_weight_sum_monotone(w, a, b - 1);
    }
}

/// Scans the grid in flat order and keeps every cell with positive density:
/// its flat index and its density value as the cell's sampling weight. Also
/// returns the total weight, which equals the sum over the whole grid when no
/// entry is negative.
pub fn retained_cells(g: &Grid3) -> (r: (Vec<usize>, Vec<u64>, u128))
    requires
        g.wf(),
        forall|c: int| 0 <= c < g.data@.len() ==> g.data@[c] >= 0,
    ensures
        ({
            let (idx, wts, total) = r;
            &&& idx@.len() == wts@.len()
            &&& forall|t: int|
                0 <= t < idx@.len() ==> (#[trigger] idx@[t]) < g.data@.len()
            &&& forall|t: int|
                0 <= t < idx@.len() ==> g.data@[(#[trigger] idx@[t]) as int] > 0
            &&& forall|t: int|
                0 <= t < idx@.len() ==> (#[trigger] wts@[t]) == g.data@[idx@[t] as int]
            &&& forall|t1: int, t2: int| 0 <= t1 < t2 < idx@.len() ==> idx@[t1] < idx@[t2]
            &&& forall|c: int|
                0 <= c < g.data@.len() && g.data@[c] > 0 ==> exists|t: int|
                    0 <= t < idx@.len() && idx@[t] == c
            &&& total == density_sum(g.data@, g.data@.len() as int)
            &&& total == weight_sum(wts@, wts@.len() as int)
            &&& forall|t: int| 0 <= t < wts@.len() ==> wts@[t] > 0
        }),
{
    let n = g.data.len();
    let mut idx: Vec<usize> = Vec::new();
    let mut wts: Vec<u64> = Vec::new();
    let mut total: u128 = 0;
    let mut c: usize = 0;
    while c < n
        invariant
            n == g.data@.len(),
            forall|e: int| 0 <= e < g.data@.len() ==> g.data@[e] >= 0,
            c <= n,
            idx@.len() == wts@.len(),
            forall|t: int| 0 <= t < idx@.len() ==> (#[trigger] idx@[t]) < c,
            forall|t: int| 0 <= t < idx@.len() ==> g.data@[(#[trigger] idx@[t]) as int] > 0,
            forall|t: int|
                0 <= t < idx@.len() ==> (#[trigger] wts@[t]) == g.data@[idx@[t] as int],
            forall|t1: int, t2: int| 0 <= t1 < t2 < idx@.len() ==> idx@[t1] < idx@[t2],
            forall|e: int|
                0 <= e < c && g.data@[e] > 0 ==> exists|t: int|
                    0 <= t < idx@.len() && idx@[t] == e,
            total == density_sum(g.data@, c as int),
            total == weight_sum(wts@, wts@.len() as int),
            forall|t: int| 0 <= t < wts@.len() ==> wts@[t] > 0,
        decreases n - c,
    {
        let v = g.data[c];
        proof {
            lemma_density_sum_bound(g.data@, c as int);
        }
        if v > 0 {
            let ghost old_idx = idx@;
            let ghost old_wts = wts@;
            idx.push(c);
            wts.push(v as u64);
            total = total + (v as u128);
            proof {
                lemma_weight_sum_push(old_wts, v as u64, old_wts.len() as int);
                assert(idx@.len() == old_idx.len() + 1);
                assert(idx@[old_idx.len() as int] == c && wts@[old_wts.len() as int] == v as u64);
                assert(g.data@[c as int] == v);
                assert forall|t: int| 0 <= t < idx@.len() implies (#[trigger] idx@[t]) < c + 1
                    && g.data@[idx@[t] as int] > 0 && wts@[t] == g.data@[idx@[t] as int] by {
                    if t < old_idx.len() {
                        assert(idx@[t] == old_idx[t]);
                        assert(wts@[t] == old_wts[t]);
                        assert(g.data@[old_idx[t] as int] > 0);
                        assert(old_wts[t] == g.data@[old_idx[t] as int]);
                    }
                }
                assert(forall|e: int|
                    0 <= e < c && g.data@[e] > 0 ==> exists|t: int|
                        0 <= t < old_idx.len() && old_idx[t] == e);
                assert forall|e: int| 0 <= e < c + 1 && g.data@[e] > 0 implies exists|t: int|
                    0 <= t < idx@.len() && idx@[t] == e by {
                    if e < c {
                        let t = choose|t: int| 0 <= t < old_idx.len() && old_idx[t] == e;
                        assert(idx@[t] == e);
                    } else {
                        assert(idx@[old_idx.len() as int] == c);
                    }
                }
            }
        } else {
            proof {
                assert(g.data@[c as int] == 0);
            }
        }
        c = c + 1;
    }
    (idx, wts, total)
}

/// Builds the cumulative weight table: entry `t` is the sum of the first
/// `t + 1` retained weights. The table is non-decreasing and its last entry
/// is the total weight — the fixed-point counterpart of a normalized
/// cumulative probability table whose final entry is exactly one.
pub fn build_cumulative(wts: &Vec<u64>) -> (cum: Vec<u128>)
    ensures
        cum@.len() == wts@.len(),
        forall|t: int| 0 <= t < cum@.len() ==> cum@[t] == weight_sum(wts@, t + 1),
        forall|t1: int, t2: int| 0 <= t1 <= t2 < cum@.len() ==> cum@[t1] <= cum@[t2],
        cum@.len() > 0 ==> cum@[cum@.len() - 1] == weight_sum(wts@, wts@.len() as int),
{
    let n = wts.len();
    let mut cum: Vec<u128> = Vec::new();
    let mut sum: u128 = 0;
    let mut t: usize = 0;
    while t < n
        invariant
            n == wts@.len(),
            t <= n,
            cum@.len() == t,
            sum == weight_sum(wts@, t as int),
            forall|s: int| 0 <= s < t ==> cum@[s] == weight_sum(wts@, s + 1),
            forall|t1: int, t2: int| 0 <= t1 <= t2 < t ==> cum@[t1] <= cum@[t2],
        decreases n - t,
    {
        proof {
            lemma_weight_sum_bound(wts@, t as int);
            lemma_mul_inequality(t as int, u64::MAX as int, u64::MAX as int);
            assert forall|s: int| 0 <= s < t implies #[trigger] weight_sum(wts@, s + 1)
                <= weight_sum(wts@, t as int + 1) by {
                lemma_weight_sum_monotone(wts@, s + 1, t as int + 1);
            }
        }
        sum = sum + (wts[t] as u128);
        cum.push(sum);
        t = t + 1;
    }
    cum
}

/// Converts a total weight and a fixed-point voxel volume into the output row
/// count: multiply, then round to the nearest integer of expected entities.
pub fn expected_row_count(total: u128, vol: u128) -> (n: usize)
    requires
        total * vol + COUNT_HALF <= u128::MAX,
        (total * vol + COUNT_HALF) / (COUNT_DENOM as int) <= usize::MAX,
    ensures
        n == (total * vol + COUNT_HALF) / (COUNT_DENOM as int),
{
    let scaled = total * vol + COUNT_HALF;
    let n = scaled / COUNT_DENOM;
    proof {
        vstd::arithmetic::div_mod::lemma_div_pos_is_pos(scaled as int, COUNT_DENOM as int);
    }
    n as usize
}

/// A zero total expected count yields zero rows: rounding `0 + half` down by
/// the full denominator gives zero.
pub proof fn lemma_zero_total_zero_rows(vol: int)
    ensures
        (0 * vol + COUNT_HALF) / (COUNT_DENOM as int) == 0,
{
    assert(0 * vol == 0) by (nonlinear_arith);
    lemma_basic_div(COUNT_HALF as int, COUNT_DENOM as int);
}

} // verus!
