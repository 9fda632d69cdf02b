use shader_learning::dispatch::{DispatchPlan, DEFAULT_TILE_SIZE, MAX_WORKGROUPS};
use shader_learning::error::ComputeError;

#[test]
fn compute_rounds_up() {
    let plan = DispatchPlan::compute(5000, 16).unwrap();
    assert_eq!(plan.problem_size, 5000);
    assert_eq!(plan.tile_size, 16);
    assert_eq!(plan.workgroup_count, (313, 313, 1));
    assert_eq!(DispatchPlan::compute(17, 16).unwrap().workgroup_count, (2, 2, 1));
    assert_eq!(DispatchPlan::compute(1, 16).unwrap().workgroup_count, (1, 1, 1));
}

#[test]
fn compute_on_exact_multiples() {
    assert_eq!(DispatchPlan::compute(16, 16).unwrap().workgroup_count, (1, 1, 1));
    assert_eq!(DispatchPlan::compute(4992, 16).unwrap().workgroup_count, (312, 312, 1));
    assert_eq!(DispatchPlan::compute(3, 1).unwrap().workgroup_count, (3, 3, 1));
}

#[test]
fn compute_of_empty_problem() {
    assert_eq!(DispatchPlan::compute(0, 16).unwrap().workgroup_count, (0, 0, 1));
}

#[test]
fn compute_agrees_with_div_ceil() {
    for tile in 1usize..=20 {
        for size in 0usize..=200 {
            let plan = DispatchPlan::compute(size, tile).unwrap();
            let c = size.div_ceil(tile) as u32;
            assert_eq!(plan.workgroup_count, (c, c, 1));
        }
    }
}

#[test]
fn compute_at_the_ceiling() {
    assert_eq!(MAX_WORKGROUPS, 65535);
    assert_eq!(DEFAULT_TILE_SIZE, 16);
    let plan = DispatchPlan::compute(65535 * 16, 16).unwrap();
    assert_eq!(plan.workgroup_count, (65535, 65535, 1));
    let plan = DispatchPlan::compute(65535 * 16 - 15, 16).unwrap();
    assert_eq!(plan.workgroup_count, (65535, 65535, 1));
    let plan = DispatchPlan::compute(65535, 1).unwrap();
    assert_eq!(plan.workgroup_count, (65535, 65535, 1));
}

#[test]
fn compute_above_the_ceiling_is_a_config_error() {
    assert_eq!(DispatchPlan::compute(65535 * 16 + 1, 16).err(), Some(ComputeError::ConfigError));
    assert_eq!(DispatchPlan::compute(65536, 1).err(), Some(ComputeError::ConfigError));
    assert_eq!(DispatchPlan::compute(usize::MAX, 16).err(), Some(ComputeError::ConfigError));
    assert_eq!(DispatchPlan::compute(usize::MAX, 1).err(), Some(ComputeError::ConfigError));
    assert_eq!(DispatchPlan::compute(usize::MAX, usize::MAX).unwrap().workgroup_count, (1, 1, 1));
}

#[test]
fn compute_with_zero_tile_is_a_config_error() {
    assert_eq!(DispatchPlan::compute(0, 0).err(), Some(ComputeError::ConfigError));
    assert_eq!(DispatchPlan::compute(100, 0).err(), Some(ComputeError::ConfigError));
}

#[test]
fn bound_holds_on_both_sides_of_the_limit() {
    for tile in [1usize, 2, 3, 16, 64, 1000] {
        let limit = 65535 * tile;
        for size in [0usize, 1, tile, limit - 1, limit] {
            let plan = DispatchPlan::compute(size, tile).unwrap();
            assert!(plan.workgroup_count.0 <= 65535);
            assert!(plan.workgroup_count.1 <= 65535);
            assert!(plan.workgroup_count.2 <= 65535);
        }
        for size in [limit + 1, limit + tile, limit * 2] {
            assert_eq!(DispatchPlan::compute(size, tile).err(), Some(ComputeError::ConfigError));
        }
    }
}

#[test]
fn compute_linear_uses_one_axis() {
    let plan = DispatchPlan::compute_linear(1000).unwrap();
    assert_eq!(plan.problem_size, 1000);
    assert_eq!(plan.tile_size, 1);
    assert_eq!(plan.workgroup_count, (1000, 1, 1));
    assert_eq!(DispatchPlan::compute_linear(0).unwrap().workgroup_count, (0, 1, 1));
    assert_eq!(DispatchPlan::compute_linear(65535).unwrap().workgroup_count, (65535, 1, 1));
    assert_eq!(DispatchPlan::compute_linear(65536).err(), Some(ComputeError::ConfigError));
}
