//! The sampler engine and the execution drivers: one uniform draw selects a
//! retained cell through the cumulative table, three more jitter the position
//! inside that cell, and a driver fans the requested number of independent
//! rows out sequentially or across workers.

use vstd::arithmetic::mul::{lemma_mul_inequality, lemma_mul_upper_bound};
use vstd::prelude::*;

use rand::Rng;
use rayon::iter::{IntoParallelIterator, ParallelIterator};

use crate::grid::{res_i, res_j, res_k, resolve_index, Grid3};
use crate::search::choose_voxel_index;
use crate::table::{
    build_cumulative, density_sum, expected_row_count, lemma_zero_total_zero_rows, retained_cells,
    spec_expected_rows, spec_voxel_volume, weight_sum,
};
use crate::types::{Position, SampleError, COUNT_HALF, FIXED_ONE};

verus! {

/// Relies on rand's `Rng::gen_range` over `0..n` on `thread_rng`: a uniform
/// draw below `n`, from a thread-private stream, independent per call. Only
/// the range of the value is promised; the call panics on an empty range, so
/// a positive bound is required.
#[verifier::external_body]
fn draw_below(n: u128) -> (r: u128)
    requires
        n > 0,
    ensures
        r < n,
{
    rand::thread_rng().gen_range(0..n)
}

/// The read-only state one sampling invocation shares across all workers:
/// grid dimensions, world-space offset, the retained cells' flat indices, and
/// the cumulative weight table over those cells.
pub struct SampleCtx {
    pub nx: usize,
    pub ny: usize,
    pub nz: usize,
    pub ox: i64,
    pub oy: i64,
    pub oz: i64,
    pub indices: Vec<usize>,
    pub cum: Vec<u128>,
}

impl SampleCtx {
    /// Everything the per-sample engine needs: a non-empty monotone table
    /// matching the retained indices, in-grid indices, positive total weight,
    /// and coordinate arithmetic that stays within `i64`.
    pub open spec fn wf(self) -> bool {
        &&& 0 < self.nx && 0 < self.ny && 0 < self.nz
        &&& self.indices@.len() == self.cum@.len()
        &&& self.cum@.len() > 0
        &&& forall|t: int|
            0 <= t < self.indices@.len() ==> (#[trigger] self.indices@[t]) < self.nx * self.ny
                * self.nz
        &&& forall|a: int, b: int| 0 <= a <= b < self.cum@.len() ==> self.cum@[a] <= self.cum@[b]
        &&& self.cum@[self.cum@.len() - 1] > 0
        &&& (self.nx as int) * FIXED_ONE <= i64::MAX
        &&& (self.ny as int) * FIXED_ONE <= i64::MAX
        &&& (self.nz as int) * FIXED_ONE <= i64::MAX
        &&& self.ox + (self.nx as int) * FIXED_ONE <= i64::MAX
        &&& self.oy + (self.ny as int) * FIXED_ONE <= i64::MAX
        &&& self.oz + (self.nz as int) * FIXED_ONE <= i64::MAX
    }
}

/// The coordinate `p` lies inside the unit-index footprint of cell `idx` on
/// one axis: within `[off + idx, off + idx + 1)` in fixed point.
pub open spec fn in_cell_axis(p: int, off: int, idx: int) -> bool {
    off + idx * FIXED_ONE <= p < off + (idx + 1) * FIXED_ONE
}

/// The position lies inside the footprint of the grid cell with flat index
/// `c`, on all three axes.
pub open spec fn row_in_cell(
    p: Position,
    ox: int,
    oy: int,
    oz: int,
    nx: int,
    ny: int,
    c: int,
) -> bool {
    &&& in_cell_axis(p.x as int, ox, res_i(nx, c))
    &&& in_cell_axis(p.y as int, oy, res_j(nx, ny, c))
    &&& in_cell_axis(p.z as int, oz, res_k(nx, ny, c))
}

/// The position lies inside the footprint of some retained cell.
pub open spec fn row_ok(ctx: SampleCtx, p: Position) -> bool {
    exists|t: int|
        0 <= t < ctx.indices@.len() && row_in_cell(
            p,
            ctx.ox as int,
            ctx.oy as int,
            ctx.oz as int,
            ctx.nx as int,
            ctx.ny as int,
            (#[trigger] ctx.indices@[t]) as int,
        )
}

/// Index arithmetic on one axis stays in range: the scaled cell coordinate
/// and the cell's upper edge are bounded by the scaled dimension.
proof fn lemma_axis_bounds(idx: int, dim: int)
    requires
        0 <= idx < dim,
        dim * FIXED_ONE <= i64::MAX,
    ensures
        0 <= idx * FIXED_ONE,
        (idx + 1) * FIXED_ONE <= dim * FIXED_ONE,
        (idx + 1) * FIXED_ONE == idx * FIXED_ONE + FIXED_ONE,
        idx <= i64::MAX,
{
    lemma_mul_inequality(idx + 1, dim, FIXED_ONE as int);
    assert(0 <= idx * FIXED_ONE) by (nonlinear_arith)
        requires
            0 <= idx,
    ;
    assert((idx + 1) * FIXED_ONE == idx * FIXED_ONE + FIXED_ONE) by (nonlinear_arith);
    assert(idx <= idx * FIXED_ONE) by (nonlinear_arith)
        requires
            0 <= idx,
    ;
}

/// One output coordinate: the world offset, plus the cell coordinate in
/// fixed point, plus the jitter drawn inside the cell.
fn axis_coord(off: i64, idx: usize, dim: usize, jit: i64) -> (x: i64)
    requires
        idx < dim,
        0 <= jit < FIXED_ONE,
        (dim as int) * FIXED_ONE <= i64::MAX,
        off + (dim as int) * FIXED_ONE <= i64::MAX,
    ensures
        in_cell_axis(x as int, off as int, idx as int),
{
    proof {
        lemma_axis_bounds(idx as int, dim as int);
    }
    off + (idx as i64) * FIXED_ONE + jit
}

/// Produces one output row from four independent uniform draws: one draw
/// selects a retained cell through the cumulative table, three more jitter
/// the position uniformly inside that cell's footprint. No shared state is
/// mutated.
pub fn sample_one(ctx: &SampleCtx) -> (p: Position)
    requires
        ctx.wf(),
    ensures
        row_ok(*ctx, p),
{
    let last = ctx.cum.len() - 1;
    let total = ctx.cum[last];
    let u = draw_below(total);
    let t = choose_voxel_index(u, &ctx.cum);
    let c = ctx.indices[t];
    let (i, j, k) = resolve_index(c, ctx.nx, ctx.ny, ctx.nz);
    let jx = draw_below(FIXED_ONE as u128) as i64;
    let jy = draw_below(FIXED_ONE as u128) as i64;
    let jz = draw_below(FIXED_ONE as u128) as i64;
    let x = axis_coord(ctx.ox, i, ctx.nx, jx);
    let y = axis_coord(ctx.oy, j, ctx.ny, jy);
    let z = axis_coord(ctx.oz, k, ctx.nz, jz);
    let p = Position { x, y, z };
    proof {
        assert(row_in_cell(
            p,
            ctx.ox as int,
            ctx.oy as int,
            ctx.oz as int,
            ctx.nx as int,
            ctx.ny as int,
            ctx.indices@[t as int] as int,
        ));
    }
    p
}

/// Produces the `n` output rows one after another on the calling thread.
pub fn sample_rows_sequential(n: usize, ctx: &SampleCtx) -> (rows: Vec<Position>)
    requires
        ctx.wf(),
    ensures
        rows@.len() == n,
        forall|q: int| 0 <= q < rows@.len() ==> row_ok(*ctx, #[trigger] rows@[q]),
{
    let mut rows: Vec<Position> = Vec::new();
    let mut s: usize = 0;
    while s < n
        invariant
            ctx.wf(),
            s <= n,
            rows@.len() == s,
            forall|q: int| 0 <= q < rows@.len() ==> row_ok(*ctx, #[trigger] rows@[q]),
        decreases n - s,
    {
        let p = sample_one(ctx);
        rows.push(p);
        s = s + 1;
    }
    rows
}

/// Relies on rayon's `into_par_iter`/`map`/`collect` over `0..n`: the
/// collected vector holds exactly one entry per index, each produced by an
/// independent call of the verified `sample_one` on a worker-private random
/// stream, and the call returns only once every row is populated.
#[verifier::external_body]
pub(crate) fn sample_rows_parallel(n: usize, ctx: &SampleCtx) -> (rows: Vec<Position>)
    requires
        ctx.wf(),
    ensures
        rows@.len() == n,
        forall|q: int| 0 <= q < rows@.len() ==> row_ok(*ctx, #[trigger] rows@[q]),
{
    (0..n).into_par_iter().map(|_s| sample_one(ctx)).collect()
}

/// The three validity demands on a sampling call's inputs: three voxel edge
/// lengths and three offset coordinates, positive voxel edges, and no
/// negative density anywhere.
pub open spec fn valid_inputs(v: Seq<i64>, d: Seq<i64>, off: Seq<i64>) -> bool {
    &&& v.len() == 3
    &&& off.len() == 3
    &&& forall|a: int| 0 <= a < 3 ==> v[a] > 0
    &&& forall|c: int| 0 <= c < d.len() ==> d[c] >= 0
}

/// Machine-size side conditions a caller must secure: the scaled expected
/// count fits the integer types, and world coordinates stay within `i64`.
pub open spec fn bounds_ok(v: Seq<i64>, d: Seq<i64>, off: Seq<i64>, nx: int, ny: int, nz: int) -> bool {
    &&& spec_voxel_volume(v) <= u128::MAX
    &&& density_sum(d, d.len() as int) * spec_voxel_volume(v) + COUNT_HALF <= u128::MAX
    &&& spec_expected_rows(d, v) <= usize::MAX
    &&& nx * FIXED_ONE <= i64::MAX
    &&& ny * FIXED_ONE <= i64::MAX
    &&& nz * FIXED_ONE <= i64::MAX
    &&& off[0] + nx * FIXED_ONE <= i64::MAX
    &&& off[1] + ny * FIXED_ONE <= i64::MAX
    &&& off[2] + nz * FIXED_ONE <= i64::MAX
}

/// The position lies inside the footprint of some positive-density cell of
/// the grid.
pub open spec fn row_from_grid(g: Grid3, off: Seq<i64>, p: Position) -> bool {
    exists|c: int|
        0 <= c < g.data@.len() && (#[trigger] g.data@[c]) > 0 && row_in_cell(
            p,
            off[0] as int,
            off[1] as int,
            off[2] as int,
            g.nx as int,
            g.ny as int,
            c,
        )
}

/// Every output row lies inside the footprint of some positive-density cell
/// of the grid.
pub open spec fn rows_from_grid(g: Grid3, off: Seq<i64>, rows: Seq<Position>) -> bool {
    forall|q: int| 0 <= q < rows.len() ==> row_from_grid(g, off, #[trigger] rows[q])
}

/// What a successful sampling call returns: exactly the rounded expected
/// count of rows, each inside some positive-density cell.
pub open spec fn sample_ok(g: Grid3, v: Seq<i64>, off: Seq<i64>, rows: Seq<Position>) -> bool {
    &&& rows.len() == spec_expected_rows(g.data@, v)
    &&& rows_from_grid(g, off, rows)
}

/// Checks the inputs before any sampling work: shape first, then sign. The
/// error, when one comes, says exactly which demand failed.
pub fn validate_inputs(voxel_dimensions: &Vec<i64>, density: &Grid3, offset: &Vec<i64>) -> (r:
    Result<(), SampleError>)
    requires
        density.wf(),
    ensures
        r is Ok <==> valid_inputs(voxel_dimensions@, density.data@, offset@),
        match r {
            Ok(()) => valid_inputs(voxel_dimensions@, density.data@, offset@),
            Err(SampleError::ShapeMismatch) => voxel_dimensions@.len() != 3 || offset@.len() != 3,
            Err(SampleError::InvalidDensity) => voxel_dimensions@.len() == 3 && offset@.len() == 3
                && !valid_inputs(voxel_dimensions@, density.data@, offset@),
        },
{
    if voxel_dimensions.len() != 3 || offset.len() != 3 {
        return Err(SampleError::ShapeMismatch);
    }
    if voxel_dimensions[0] <= 0 || voxel_dimensions[1] <= 0 || voxel_dimensions[2] <= 0 {
        return Err(SampleError::InvalidDensity);
    }
    let n = density.data.len();
    let mut c: usize = 0;
    while c < n
        invariant
            n == density.data@.len(),
            c <= n,
            voxel_dimensions@.len() == 3,
            offset@.len() == 3,
            forall|a: int| 0 <= a < 3 ==> voxel_dimensions@[a] > 0,
            forall|e: int| 0 <= e < c ==> density.data@[e] >= 0,
        decreases n - c,
    {
        if density.data[c] < 0 {
            return Err(SampleError::InvalidDensity);
        }
        c = c + 1;
    }
    Ok(())
}

/// Draws the full set of sampled positions for a density grid: validation,
/// preprocessing, table building, then exactly the rounded expected number of
/// independent rows, sequentially or fanned out across workers.
pub fn sample_with_strategy(
    voxel_dimensions: &Vec<i64>,
    density: &Grid3,
    offset: &Vec<i64>,
    parallel: bool,
) -> (r: Result<Vec<Position>, SampleError>)
    requires
        density.wf(),
        valid_inputs(voxel_dimensions@, density.data@, offset@) ==> bounds_ok(
            voxel_dimensions@,
            density.data@,
            offset@,
            density.nx as int,
            density.ny as int,
            density.nz as int,
        ),
    ensures
        r is Ok <==> valid_inputs(voxel_dimensions@, density.data@, offset@),
        match r {
            Ok(rows) => sample_ok(*density, voxel_dimensions@, offset@, rows@),
            Err(SampleError::ShapeMismatch) => voxel_dimensions@.len() != 3 || offset@.len() != 3,
            Err(SampleError::InvalidDensity) => voxel_dimensions@.len() == 3 && offset@.len() == 3
                && !valid_inputs(voxel_dimensions@, density.data@, offset@),
        },
{
    match validate_inputs(voxel_dimensions, density, offset) {
        Ok(()) => {},
        Err(e) => {
            return Err(e);
        },
    }
    let (indices, weights, total) = retained_cells(density);
    let v0 = voxel_dimensions[0] as u128;
    let v1 = voxel_dimensions[1] as u128;
    let v2 = voxel_dimensions[2] as u128;
    proof {
        lemma_mul_upper_bound(v0 as int, i64::MAX as int, v1 as int, i64::MAX as int);
    }
    let vol = v0 * v1 * v2;
    let n_rows = expected_row_count(total, vol);
    if total == 0 {
        proof {
            lemma_zero_total_zero_rows(spec_voxel_volume(voxel_dimensions@));
        }
        let rows: Vec<Position> = Vec::new();
        return Ok(rows);
    }
    proof {
        if weights@.len() == 0 {
            assert(weight_sum(weights@, 0) == 0);
            assert(false);
        }
        assert(indices@[0] < density.data@.len());
        assert(density.data@.len() > 0);
        assert(density.nx > 0 && density.ny > 0 && density.nz > 0) by (nonlinear_arith)
            requires
                density.nx * density.ny * density.nz == density.data@.len(),
                density.data@.len() > 0,
        ;
    }
    let cum = build_cumulative(&weights);
    let ctx = SampleCtx {
        nx: density.nx,
        ny: density.ny,
        nz: density.nz,
        ox: offset[0],
        oy: offset[1],
        oz: offset[2],
        indices,
        cum,
    };
    let rows = if parallel {
        sample_rows_parallel(n_rows, &ctx)
    } else {
        sample_rows_sequential(n_rows, &ctx)
    };
    proof {
        assert forall|q: int| 0 <= q < rows@.len() implies row_from_grid(
            *density,
            offset@,
            #[trigger] rows@[q],
        ) by {
            assert(row_ok(ctx, rows@[q]));
            let t = choose|t: int|
                0 <= t < ctx.indices@.len() && row_in_cell(
                    rows@[q],
                    ctx.ox as int,
                    ctx.oy as int,
                    ctx.oz as int,
                    ctx.nx as int,
                    ctx.ny as int,
                    (#[trigger] ctx.indices@[t]) as int,
                );
            assert(0 <= ctx.indices@[t] as int && (ctx.indices@[t] as int) < density.data@.len());
            assert(density.data@[ctx.indices@[t] as int] > 0);
        }
        assert(rows_from_grid(*density, offset@, rows@));
    }
    Ok(rows)
}

/// The single boundary operation: samples positions from a density grid with
/// the parallel driver, as many rows as the field's rounded expected entity
/// count.
pub fn sample(voxel_dimensions: &Vec<i64>, density: &Grid3, offset: &Vec<i64>) -> (r: Result<
    Vec<Position>,
    SampleError,
>)
    requires
        density.wf(),
        valid_inputs(voxel_dimensions@, density.data@, offset@) ==> bounds_ok(
            voxel_dimensions@,
            density.data@,
            offset@,
            density.nx as int,
            density.ny as int,
            density.nz as int,
        ),
    ensures
        r is Ok <==> valid_inputs(voxel_dimensions@, density.data@, offset@),
        match r {
            Ok(rows) => sample_ok(*density, voxel_dimensions@, offset@, rows@),
            Err(SampleError::ShapeMismatch) => voxel_dimensions@.len() != 3 || offset@.len() != 3,
            Err(SampleError::InvalidDensity) => voxel_dimensions@.len() == 3 && offset@.len() == 3
                && !valid_inputs(voxel_dimensions@, density.data@, offset@),
        },
{
    sample_with_strategy(voxel_dimensions, density, offset, true)
}

} // verus!
