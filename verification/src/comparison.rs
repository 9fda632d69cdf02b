use vstd::prelude::*;
use crate::error::ComputeError;
use crate::matrix::Matrix;

verus! {

/// What a comparison found: whether every element passed and, if not,
/// where the first one failed and which two values stood there.
#[derive(Clone, Copy, Debug, PartialEq, Eq)]
pub struct VerificationResult {
    pub passed: bool,
    pub first_mismatch_index: Option<usize>,
    pub expected: Option<u32>,
    pub actual: Option<u32>,
}

/// `index` is the first place where `exceeds` finds `expected` and
/// `actual` further apart than `tolerance`.
pub open spec fn first_mismatch<F: Fn(u32, u32, u32) -> bool>(
    exceeds: F,
    expected: Seq<u32>,
    actual: Seq<u32>,
    tolerance: u32,
    index: int,
) -> bool {
    &&& 0 <= index < expected.len()
    &&& call_ensures(exceeds, (expected[index], actual[index], tolerance), true)
    &&& no_mismatch_before(exceeds, expected, actual, tolerance, index)
}

/// `exceeds` finds no pair before `end` further apart than `tolerance`.
pub open spec fn no_mismatch_before<F: Fn(u32, u32, u32) -> bool>(
    exceeds: F,
    expected: Seq<u32>,
    actual: Seq<u32>,
    tolerance: u32,
    end: int,
) -> bool {
    forall|j: int|
        0 <= j < end ==> call_ensures(
            exceeds,
            (#[trigger] expected[j], actual[j], tolerance),
            false,
        )
}

/// Compares two buffers element by element and stops at the first pair
/// that `exceeds(expected, actual, tolerance)` finds too far apart. The
/// arithmetic on the elements is the caller's.
///
/// Fails with `ConfigError` exactly when the buffers differ in length.
pub fn compare<F: Fn(u32, u32, u32) -> bool>(
    expected: &Matrix,
    actual: &Matrix,
    tolerance: u32,
    exceeds: F,
) -> (res: Result<VerificationResult, ComputeError>)
    requires
        forall|e: u32, a: u32, t: u32| call_requires(exceeds, (e, a, t)),
    ensures
        res is Ok <==> expected@.len() == actual@.len(),
        res matches Err(e) ==> e == ComputeError::ConfigError,
        res matches Ok(r) ==> {
            &&& r.passed <==> r.first_mismatch_index is None
            &&& r.passed ==> r.expected is None && r.actual is None && no_mismatch_before(
                exceeds,
                expected@,
                actual@,
                tolerance,
                expected@.len() as int,
            )
            &&& r.first_mismatch_index matches Some(i) ==> {
                &&& first_mismatch(exceeds, expected@, actual@, tolerance, i as int)
                &&& r.expected == Some(expected@[i as int])
                &&& r.actual == Some(actual@[i as int])
            }
        },
{
    let len: usize = expected.val.len();
    if actual.val.len() != len {
        return Err(ComputeError::ConfigError);
    }
    let mut i: usize = 0;
    while i < len
        invariant
            i <= len,
            len == expected@.len(),
            len == actual@.len(),
            forall|e: u32, a: u32, t: u32| call_requires(exceeds, (e, a, t)),
            no_mismatch_before(exceeds, expected@, actual@, tolerance, i as int),
        decreases len - i,
    {
        let e: u32 = expected.val[i];
        let a: u32 = actual.val[i];
        if exceeds(e, a, tolerance) {
            return Ok(
                VerificationResult {
                    passed: false,
                    first_mismatch_index: Some(i),
                    expected: Some(e),
                    actual: Some(a),
                },
            );
        }
        i += 1;
    }
    Ok(VerificationResult { passed: true, first_mismatch_index: None, expected: None, actual: None })
}

/// With a judgement that gives one answer for given values, two
/// comparisons of the same buffers name the same first mismatch.
pub proof fn lemma_first_mismatch_unique<F: Fn(u32, u32, u32) -> bool>(
    exceeds: F,
    expected: Seq<u32>,
    actual: Seq<u32>,
    tolerance: u32,
    i: int,
    j: int,
)
    requires
        forall|args: (u32, u32, u32)|
            !(#[trigger] call_ensures(exceeds, args, true) && call_ensures(exceeds, args, false)),
        first_mismatch(exceeds, expected, actual, tolerance, i),
        first_mismatch(exceeds, expected, actual, tolerance, j),
    ensures
        i == j,
{
    if i < j {
        assert(call_ensures(exceeds, (expected[i], actual[i], tolerance), false));
    } else if j < i {
        assert(call_ensures(exceeds, (expected[j], actual[j], tolerance), false));
    }
}

} // verus!
