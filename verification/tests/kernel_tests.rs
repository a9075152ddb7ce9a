//! Tests of the kernel components: index resolution, the density
//! preprocessor, the cumulative table, and the lower-bound selection search.

use voxel_sampler::grid::{resolve_index, Grid3};
use voxel_sampler::search::choose_voxel_index;
use voxel_sampler::table::{build_cumulative, retained_cells};

#[test]
fn resolve_index_first_axis_fastest() {
    // flat = i + nx * (j + ny * k) in a 3 x 2 x 2 grid
    assert_eq!(resolve_index(0, 3, 2, 2), (0, 0, 0));
    assert_eq!(resolve_index(1, 3, 2, 2), (1, 0, 0));
    assert_eq!(resolve_index(3, 3, 2, 2), (0, 1, 0));
    assert_eq!(resolve_index(8, 3, 2, 2), (2, 0, 1));
    assert_eq!(resolve_index(11, 3, 2, 2), (2, 1, 1));
}

#[test]
fn resolve_index_inverts_flattening() {
    let (nx, ny, nz) = (4usize, 3usize, 5usize);
    for c in 0..nx * ny * nz {
        let (i, j, k) = resolve_index(c, nx, ny, nz);
        assert!(i < nx && j < ny && k < nz);
        assert_eq!(i + nx * (j + ny * k), c);
    }
}

#[test]
fn retained_cells_keeps_scan_order_and_skips_zeros() {
    let data = vec![0i64, 5, 0, 3, 9, 0];
    let grid = Grid3::new(6, 1, 1, data).expect("shape must match");
    let (indices, weights, total) = retained_cells(&grid);
    assert_eq!(indices, vec![1, 3, 4]);
    assert_eq!(weights, vec![5u64, 3, 9]);
    assert_eq!(total, 17u128);
}

#[test]
fn cumulative_table_monotone_ending_at_total() {
    let weights = vec![3u64, 1, 4, 1, 5];
    let cum = build_cumulative(&weights);
    assert_eq!(cum, vec![3u128, 4, 8, 9, 14]);
    for t in 1..cum.len() {
        assert!(cum[t - 1] <= cum[t]);
    }
    assert_eq!(*cum.last().unwrap(), weights.iter().map(|&w| w as u128).sum());
}

#[test]
fn cumulative_table_of_nothing_is_empty() {
    let weights: Vec<u64> = Vec::new();
    let cum = build_cumulative(&weights);
    assert!(cum.is_empty());
}

#[test]
fn selection_is_lower_bound_with_tail_clamp() {
    // weights 2, 0, 3 as a cumulative table; a draw never selects the
    // zero-width middle cell, and an off-the-end draw clamps to the last
    // cell, not the first.
    let cum = vec![2u128, 2, 5];
    assert_eq!(choose_voxel_index(0, &cum), 0);
    assert_eq!(choose_voxel_index(1, &cum), 0);
    assert_eq!(choose_voxel_index(2, &cum), 2);
    assert_eq!(choose_voxel_index(4, &cum), 2);
    assert_eq!(choose_voxel_index(5, &cum), 2);
    assert_eq!(choose_voxel_index(100, &cum), 2);
}

#[test]
fn selection_shares_match_weights_exactly() {
    // every draw below the total selects a cell; each cell is selected by
    // exactly its own weight's worth of draws.
    let weights = vec![3u64, 1, 4];
    let cum = build_cumulative(&weights);
    let mut hits = vec![0u64; weights.len()];
    let total: u128 = 8;
    let mut u: u128 = 0;
    while u < total {
        hits[choose_voxel_index(u, &cum)] += 1;
        u += 1;
    }
    assert_eq!(hits, weights);
}
