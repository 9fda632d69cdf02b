use shader_learning::comparison::{compare, VerificationResult};
use shader_learning::error::ComputeError;
use shader_learning::job::{ComputeJob, JobEvent, JobState};
use shader_learning::matrix::Matrix;
use shader_learning::reference::{multiply, wrapping_step};

const MATRIX_SIZE: usize = 5000;
const TILE_SIZE: usize = 16;

fn float_step(acc: u32, x: u32, y: u32) -> u32 {
    (f32::from_bits(acc) + f32::from_bits(x) * f32::from_bits(y)).to_bits()
}

fn float_exceeds(expected: u32, actual: u32, tolerance: u32) -> bool {
    (f32::from_bits(expected) - f32::from_bits(actual)).abs() > f32::from_bits(tolerance)
}

fn of_floats(values: &[f32]) -> Matrix {
    Matrix { val: values.iter().map(|v| v.to_bits()).collect() }
}

fn floats_of(m: &Matrix) -> Vec<f32> {
    m.val.iter().map(|b| f32::from_bits(*b)).collect()
}

fn scenario_matrix() -> Matrix {
    of_floats(&[
        7.817355, 4.669319, 8.464355, 4.4331923, 6.8329406, 3.967669, 1.0603511, 4.3951917,
        3.1678343,
    ])
}

fn run_to_completion(job: &mut ComputeJob) {
    job.step(JobEvent::DeviceReady { max_buffer_size: 256 * 1024 * 1024 });
    job.step(JobEvent::BuffersBound);
    job.step(JobEvent::CommandsSubmitted);
    job.step(JobEvent::MapSucceeded);
    assert_eq!(job.state, JobState::Completed);
}

#[test]
fn matmul() {
    let a = Matrix::new_rand(MATRIX_SIZE).unwrap();
    let b = Matrix::new_rand(MATRIX_SIZE).unwrap();
    assert_eq!(a.val.len(), MATRIX_SIZE * MATRIX_SIZE);
    assert_eq!(b.val.len(), MATRIX_SIZE * MATRIX_SIZE);

    let mut job = ComputeJob::new(&a, &b, MATRIX_SIZE, TILE_SIZE).unwrap();
    assert_eq!(job.plan.workgroup_count, (313, 313, 1));
    assert_eq!(job.input_size, a.data_size());
    run_to_completion(&mut job);

    if MATRIX_SIZE < 250 {
        let result_cpu = multiply(&a, &b, MATRIX_SIZE, float_step).unwrap();
        let result_gpu = job.read_result(&result_cpu.to_bytes()).unwrap();
        assert_eq!(result_cpu, result_gpu);
    }
}

#[test]
fn multiply_small_integers() {
    let a = Matrix { val: vec![1, 2, 3, 4] };
    let b = Matrix { val: vec![5, 6, 7, 8] };
    let c = multiply(&a, &b, 2, wrapping_step).unwrap();
    assert_eq!(c.val, vec![19, 22, 43, 50]);
    let d = multiply(&b, &a, 2, wrapping_step).unwrap();
    assert_eq!(d.val, vec![23, 34, 31, 46]);
}

#[test]
fn multiply_by_identity() {
    let a = Matrix { val: vec![9, 8, 7, 6, 5, 4, 3, 2, 1] };
    let id = Matrix { val: vec![1, 0, 0, 0, 1, 0, 0, 0, 1] };
    assert_eq!(multiply(&a, &id, 3, wrapping_step).unwrap().val, a.val);
    assert_eq!(multiply(&id, &a, 3, wrapping_step).unwrap().val, a.val);
}

#[test]
fn multiply_one_by_one() {
    let a = Matrix { val: vec![3] };
    let b = Matrix { val: vec![5] };
    assert_eq!(multiply(&a, &b, 1, wrapping_step).unwrap().val, vec![15]);
    let x = of_floats(&[1.5]);
    let y = of_floats(&[-2.0]);
    assert_eq!(floats_of(&multiply(&x, &y, 1, float_step).unwrap()), vec![-3.0]);
}

#[test]
fn wrapping_step_wraps() {
    assert_eq!(wrapping_step(0, 0, 0), 0);
    assert_eq!(wrapping_step(1, 2, 3), 7);
    assert_eq!(wrapping_step(u32::MAX, 1, 1), 0);
    assert_eq!(wrapping_step(0, 0x1_0000, 0x1_0000), 0);
    assert_eq!(wrapping_step(5, u32::MAX, u32::MAX), 6);
    assert_eq!(
        wrapping_step(7, 123_456_789, 987_654_321),
        7u32.wrapping_add(123_456_789u32.wrapping_mul(987_654_321))
    );
}

#[test]
fn multiply_floats_in_row_major_order() {
    let a = of_floats(&[1.0, 2.0, 3.0, 4.0]);
    let b = of_floats(&[0.5, -1.0, 2.0, 0.25]);
    let c = multiply(&a, &b, 2, float_step).unwrap();
    assert_eq!(floats_of(&c), vec![4.5, -0.5, 9.5, -2.0]);
}

#[test]
fn multiply_rejects_mismatched_size() {
    let a = scenario_matrix();
    let b = scenario_matrix();
    assert_eq!(multiply(&a, &b, 2, float_step).err(), Some(ComputeError::ConfigError));
    assert_eq!(multiply(&a, &b, 4, float_step).err(), Some(ComputeError::ConfigError));
    assert_eq!(multiply(&a, &b, 0, float_step).err(), Some(ComputeError::ConfigError));
    let short = of_floats(&[1.0, 2.0, 3.0, 4.0]);
    assert_eq!(multiply(&a, &short, 3, float_step).err(), Some(ComputeError::ConfigError));
    assert_eq!(multiply(&short, &a, 3, float_step).err(), Some(ComputeError::ConfigError));
}

#[test]
fn multiply_is_idempotent() {
    let a = Matrix::new_seeded(7, 11).unwrap();
    let b = Matrix::new_seeded(7, 12).unwrap();
    let first = multiply(&a, &b, 7, float_step).unwrap();
    let second = multiply(&a, &b, 7, float_step).unwrap();
    assert_eq!(first, second);
    assert_eq!(first.to_bytes(), second.to_bytes());
    let s = scenario_matrix();
    assert_eq!(
        multiply(&s, &s, 3, float_step).unwrap().val,
        multiply(&s, &s, 3, float_step).unwrap().val
    );
}

#[test]
fn correctness_scenario_three_by_three() {
    let a = scenario_matrix();
    let b = scenario_matrix();
    let reference = multiply(&a, &b, 3, float_step).unwrap();

    // The same sums as the triple loop takes them, written out.
    let v = floats_of(&a);
    let mut by_hand: Vec<f32> = Vec::new();
    for i in 0..3 {
        for j in 0..3 {
            let mut acc = 0.0f32;
            for k in 0..3 {
                acc += v[i * 3 + k] * v[k * 3 + j];
            }
            by_hand.push(acc);
        }
    }
    assert_eq!(floats_of(&reference), by_hand);
    assert!((by_hand[0] - 90.785).abs() < 0.01);

    // A device adds in another order and with other rounding: here in
    // double precision, last term first.
    let mut device: Vec<f32> = Vec::new();
    for i in 0..3 {
        for j in 0..3 {
            let mut acc = 0.0f64;
            for k in (0..3).rev() {
                acc += (v[i * 3 + k] as f64) * (v[k * 3 + j] as f64);
            }
            device.push(acc as f32);
        }
    }
    let mut job = ComputeJob::new(&a, &b, 3, 16).unwrap();
    run_to_completion(&mut job);
    let output = job.read_result(&of_floats(&device).to_bytes()).unwrap();
    assert_eq!(floats_of(&output), device);

    let verdict = compare(&reference, &output, 0.001f32.to_bits(), float_exceeds).unwrap();
    assert!(verdict.passed);
    assert_eq!(verdict.first_mismatch_index, None);
    for i in 0..9 {
        let d = (f32::from_bits(reference.val[i]) - f32::from_bits(output.val[i])).abs();
        assert!(d <= 0.001);
    }
}

#[test]
fn tolerance_scenario() {
    let expected = of_floats(&[1.0, 2.0]);
    let tol = 0.001f32.to_bits();
    let close = compare(&expected, &of_floats(&[1.0005, 2.0]), tol, float_exceeds).unwrap();
    assert!(close.passed);
    assert_eq!(close.first_mismatch_index, None);
    assert_eq!(close.expected, None);
    assert_eq!(close.actual, None);

    let far = compare(&expected, &of_floats(&[1.01, 2.0]), tol, float_exceeds).unwrap();
    assert!(!far.passed);
    assert_eq!(far.first_mismatch_index, Some(0));
    assert_eq!(far.expected, Some(1.0f32.to_bits()));
    assert_eq!(far.actual, Some(1.01f32.to_bits()));
}

#[test]
fn compare_reports_the_first_mismatch() {
    let expected = of_floats(&[1.0, 2.0, 3.0, 4.0]);
    let actual = of_floats(&[1.0, 2.5, 3.0, 9.0]);
    let r = compare(&expected, &actual, 0.001f32.to_bits(), float_exceeds).unwrap();
    assert_eq!(
        r,
        VerificationResult {
            passed: false,
            first_mismatch_index: Some(1),
            expected: Some(2.0f32.to_bits()),
            actual: Some(2.5f32.to_bits()),
        }
    );
    let last = of_floats(&[1.0, 2.0, 3.0, 4.5]);
    let r = compare(&expected, &last, 0.001f32.to_bits(), float_exceeds).unwrap();
    assert_eq!(r.first_mismatch_index, Some(3));
}

#[test]
fn compare_of_equal_and_empty_buffers_passes() {
    let m = scenario_matrix();
    let r = compare(&m, &m, 0.0f32.to_bits(), float_exceeds).unwrap();
    assert!(r.passed);
    let empty = Matrix { val: Vec::new() };
    let r = compare(&empty, &empty, 0.001f32.to_bits(), float_exceeds).unwrap();
    assert_eq!(
        r,
        VerificationResult { passed: true, first_mismatch_index: None, expected: None, actual: None }
    );
}

#[test]
fn compare_rejects_unequal_lengths() {
    let a = of_floats(&[1.0, 2.0]);
    let b = of_floats(&[1.0]);
    let tol = 0.001f32.to_bits();
    assert_eq!(compare(&a, &b, tol, float_exceeds).err(), Some(ComputeError::ConfigError));
    assert_eq!(compare(&b, &a, tol, float_exceeds).err(), Some(ComputeError::ConfigError));
}

#[test]
fn compare_hands_the_tolerance_to_the_judgement() {
    let a = Matrix { val: vec![10, 20, 30] };
    let b = Matrix { val: vec![11, 25, 30] };
    let within = |e: u32, x: u32, t: u32| e.abs_diff(x) > t;
    assert_eq!(compare(&a, &b, 5, within).unwrap().first_mismatch_index, None);
    assert_eq!(compare(&a, &b, 4, within).unwrap().first_mismatch_index, Some(1));
    assert_eq!(compare(&a, &b, 0, within).unwrap().first_mismatch_index, Some(0));
}
