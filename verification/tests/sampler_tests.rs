//! End-to-end tests of the sampling boundary operation, in the library's
//! fixed-point convention: one real unit is 1_000_000 fixed-point units.

use voxel_sampler::grid::Grid3;
use voxel_sampler::sampler::{sample, sample_with_strategy};
use voxel_sampler::types::{Position, SampleError};

const ONE: i64 = 1_000_000;

fn cube_grid(n: usize, data: Vec<i64>) -> Grid3 {
    Grid3::new(n, n, n, data).expect("shape must match")
}

fn flat(i: usize, j: usize, k: usize, nx: usize, ny: usize) -> usize {
    i + nx * (j + ny * k)
}

#[test]
fn empty_density_gives_zero_rows() {
    let density = cube_grid(3, vec![0i64; 27]);
    let voxel = vec![ONE, ONE, ONE];
    let offset = vec![7 * ONE, -3 * ONE, 0];
    let rows = sample(&voxel, &density, &offset).expect("valid input");
    assert_eq!(rows.len(), 0);
}

#[test]
fn count_conservation_matches_rounding() {
    // densities 1.2e9, 0, 0.9e9, 2.4e9 in a 2x2x1 grid, unit voxels:
    // expected counts 1.2 + 0.9 + 2.4 = 4.5, rounding to 5 rows.
    let d_real = [1.2e9f64, 0.0, 0.9e9, 2.4e9];
    let data: Vec<i64> = d_real.iter().map(|d| (d * 1e6) as i64).collect();
    let density = Grid3::new(2, 2, 1, data).expect("shape must match");
    let voxel = vec![ONE, ONE, ONE];
    let offset = vec![0, 0, 0];
    let rows = sample(&voxel, &density, &offset).expect("valid input");
    let expected = (d_real.iter().sum::<f64>() * 1e-9).round() as usize;
    assert_eq!(expected, 5);
    assert_eq!(rows.len(), expected);
}

fn assert_in_cell(p: &Position, offset: &[i64; 3], idx: &[usize; 3]) {
    let lo_x = offset[0] + (idx[0] as i64) * ONE;
    let lo_y = offset[1] + (idx[1] as i64) * ONE;
    let lo_z = offset[2] + (idx[2] as i64) * ONE;
    assert!(lo_x <= p.x && p.x < lo_x + ONE, "x = {} outside cell", p.x);
    assert!(lo_y <= p.y && p.y < lo_y + ONE, "y = {} outside cell", p.y);
    assert!(lo_z <= p.z && p.z < lo_z + ONE, "z = {} outside cell", p.z);
}

#[test]
fn single_cell_containment() {
    // density 1e9 (expected count exactly 1) only at cell (2, 0, 1) of a
    // 3x2x2 grid; offset (-5.0, 2.5, 0.25).
    let mut data = vec![0i64; 12];
    data[flat(2, 0, 1, 3, 2)] = 1_000_000_000 * ONE;
    let density = Grid3::new(3, 2, 2, data).expect("shape must match");
    let voxel = vec![ONE, ONE, ONE];
    let offset = vec![-5 * ONE, 2 * ONE + ONE / 2, ONE / 4];
    let rows = sample(&voxel, &density, &offset).expect("valid input");
    assert_eq!(rows.len(), 1);
    assert_in_cell(&rows[0], &[-5 * ONE, 2 * ONE + ONE / 2, ONE / 4], &[2, 0, 1]);
}

#[test]
fn concrete_example() {
    // 3x3x3 zeros except density[1][1][1] = 1e9, unit voxels, zero offset:
    // exactly one row, inside [1, 2) on every axis.
    let mut data = vec![0i64; 27];
    data[flat(1, 1, 1, 3, 3)] = 1_000_000_000 * ONE;
    let density = cube_grid(3, data);
    let voxel = vec![ONE, ONE, ONE];
    let offset = vec![0, 0, 0];
    let rows = sample(&voxel, &density, &offset).expect("valid input");
    assert_eq!(rows.len(), 1);
    assert_in_cell(&rows[0], &[0, 0, 0], &[1, 1, 1]);
}

#[test]
fn statistical_proportionality() {
    // two cells with weights 1:3 and 4000 total rows; the observed share of
    // the lighter cell stays near 1/4.
    let data = vec![1_000_000_000_000 * ONE, 3_000_000_000_000 * ONE];
    let density = Grid3::new(2, 1, 1, data).expect("shape must match");
    let voxel = vec![ONE, ONE, ONE];
    let offset = vec![0, 0, 0];
    let rows = sample(&voxel, &density, &offset).expect("valid input");
    assert_eq!(rows.len(), 4000);
    let in_first = rows.iter().filter(|p| p.x < ONE).count();
    let share = in_first as f64 / rows.len() as f64;
    assert!(
        (share - 0.25).abs() < 0.05,
        "share of first cell = {} too far from 0.25",
        share
    );
    for p in &rows {
        assert!(0 <= p.x && p.x < 2 * ONE);
        assert!(0 <= p.y && p.y < ONE);
        assert!(0 <= p.z && p.z < ONE);
    }
}

#[test]
fn structure_deterministic_across_calls() {
    let d_real = [0.7e9f64, 1.9e9, 0.0, 3.3e9];
    let data: Vec<i64> = d_real.iter().map(|d| (d * 1e6) as i64).collect();
    let density = Grid3::new(4, 1, 1, data).expect("shape must match");
    let voxel = vec![2 * ONE, ONE, ONE / 2];
    let offset = vec![0, 0, 0];
    let rows1 = sample(&voxel, &density, &offset).expect("valid input");
    let rows2 = sample(&voxel, &density, &offset).expect("valid input");
    let rows3 = sample_with_strategy(&voxel, &density, &offset, false).expect("valid input");
    assert_eq!(rows1.len(), rows2.len());
    assert_eq!(rows1.len(), rows3.len());
}

#[test]
fn sequential_strategy_same_contract() {
    let mut data = vec![0i64; 27];
    data[flat(0, 2, 1, 3, 3)] = 1_000_000_000 * ONE;
    let density = cube_grid(3, data);
    let voxel = vec![ONE, ONE, ONE];
    let offset = vec![10 * ONE, 0, -ONE];
    let rows = sample_with_strategy(&voxel, &density, &offset, false).expect("valid input");
    assert_eq!(rows.len(), 1);
    assert_in_cell(&rows[0], &[10 * ONE, 0, -ONE], &[0, 2, 1]);
}

#[test]
fn voxel_volume_scales_expected_count() {
    // density 0.5e9 with a 2 x 1 x 1 voxel: expected count 1, not 0.
    let data = vec![500_000_000 * ONE];
    let density = Grid3::new(1, 1, 1, data).expect("shape must match");
    let voxel = vec![2 * ONE, ONE, ONE];
    let offset = vec![0, 0, 0];
    let rows = sample(&voxel, &density, &offset).expect("valid input");
    assert_eq!(rows.len(), 1);
}

#[test]
fn zero_dimension_grid_gives_zero_rows() {
    let density = Grid3::new(0, 3, 3, Vec::new()).expect("empty grid is well-shaped");
    let voxel = vec![ONE, ONE, ONE];
    let offset = vec![0, 0, 0];
    let rows = sample(&voxel, &density, &offset).expect("valid input");
    assert_eq!(rows.len(), 0);
}

#[test]
fn expected_count_rounds_half_away_from_zero() {
    // a lone cell of density 2.5e9 with unit voxels: 2.5 expected entities
    // round to 3 rows; 2.4e9 rounds to 2.
    let half_up = Grid3::new(1, 1, 1, vec![2_500_000_000_000_000]).expect("shape must match");
    let below = Grid3::new(1, 1, 1, vec![2_400_000_000_000_000]).expect("shape must match");
    let voxel = vec![ONE, ONE, ONE];
    let offset = vec![0, 0, 0];
    assert_eq!(sample(&voxel, &half_up, &offset).expect("valid input").len(), 3);
    assert_eq!(sample(&voxel, &below, &offset).expect("valid input").len(), 2);
}

#[test]
fn negative_density_rejected() {
    let mut data = vec![0i64; 27];
    data[5] = -1;
    let density = cube_grid(3, data);
    let voxel = vec![ONE, ONE, ONE];
    let offset = vec![0, 0, 0];
    assert_eq!(
        sample(&voxel, &density, &offset),
        Err(SampleError::InvalidDensity)
    );
}

#[test]
fn short_voxel_dimensions_rejected() {
    let density = cube_grid(3, vec![0i64; 27]);
    let voxel = vec![ONE, ONE];
    let offset = vec![0, 0, 0];
    assert_eq!(
        sample(&voxel, &density, &offset),
        Err(SampleError::ShapeMismatch)
    );
}

#[test]
fn long_offset_rejected() {
    let density = cube_grid(3, vec![0i64; 27]);
    let voxel = vec![ONE, ONE, ONE];
    let offset = vec![0, 0, 0, 0];
    assert_eq!(
        sample(&voxel, &density, &offset),
        Err(SampleError::ShapeMismatch)
    );
}

#[test]
fn zero_voxel_dimension_rejected() {
    let density = cube_grid(3, vec![0i64; 27]);
    let voxel = vec![ONE, 0, ONE];
    let offset = vec![0, 0, 0];
    assert_eq!(
        sample(&voxel, &density, &offset),
        Err(SampleError::InvalidDensity)
    );
}

#[test]
fn shape_precedes_density_check() {
    // both defects at once: the shape error wins, since it is detected first.
    let mut data = vec![0i64; 27];
    data[0] = -7;
    let density = cube_grid(3, data);
    let voxel = vec![ONE, ONE];
    let offset = vec![0, 0, 0];
    assert_eq!(
        sample(&voxel, &density, &offset),
        Err(SampleError::ShapeMismatch)
    );
}

#[test]
fn grid_shape_mismatch_rejected() {
    assert_eq!(
        Grid3::new(2, 2, 2, vec![0i64; 7]).err(),
        Some(SampleError::ShapeMismatch)
    );
    assert!(Grid3::new(2, 2, 2, vec![0i64; 8]).is_ok());
}
