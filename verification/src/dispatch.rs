use vstd::prelude::*;
use crate::error::ComputeError;

verus! {

/// The most workgroups that the backend dispatches along one dimension.
pub const MAX_WORKGROUPS: usize = 65535;

/// Tile size used where the caller configures none.
pub const DEFAULT_TILE_SIZE: usize = 16;

/// The quotient of `n` by `d`, rounded up.
pub open spec fn ceil_div(n: nat, d: nat) -> nat
    recommends
        d > 0,
{
    if n % d == 0 {
        n / d
    } else {
        n / d + 1
    }
}

/// Rounding up gives the least number of tiles that cover `n`: that many
/// tiles reach `n`, and one tile fewer does not.
pub proof fn lemma_ceil_div_is_least_cover(n: nat, d: nat)
    requires
        d > 0,
    ensures
        ceil_div(n, d) * d >= n,
        n > 0 ==> (ceil_div(n, d) - 1) * d < n,
        n == 0 ==> ceil_div(n, d) == 0,
{
    let q = n / d;
    let r = n % d;
    assert(n == q * d + r && 0 <= r < d) by (nonlinear_arith)
        requires
            d > 0,
            q == n / d,
            r == n % d,
    ;
    assert((q + 1) * d == q * d + d) by (nonlinear_arith);
    assert((q - 1) * d == q * d - d) by (nonlinear_arith);
    if n == 0 {
        assert(q == 0) by (nonlinear_arith)
            requires
                n == 0,
                d > 0,
                q == n / d,
        ;
    }
}

/// The backend's ceiling, read on the problem size: the rounded-up count
/// is within the ceiling exactly when the problem is no larger than the
/// ceiling's worth of tiles.
pub proof fn lemma_dispatch_bound(problem_size: usize, tile_size: usize)
    requires
        tile_size >= 1,
    ensures
        DispatchPlan::dispatchable(problem_size, tile_size) <==> problem_size <= 65535 * tile_size,
{
    let n = problem_size as nat;
    let d = tile_size as nat;
    let c = ceil_div(n, d);
    lemma_ceil_div_is_least_cover(n, d);
    if c <= 65535 {
        assert(c * d <= 65535 * d) by (nonlinear_arith)
            requires
                c <= 65535,
                d >= 0,
        ;
    } else {
        assert((c - 1) * d >= 65535 * d) by (nonlinear_arith)
            requires
                c - 1 >= 65535,
                d >= 0,
        ;
    }
}

/// How many workgroups one launch dispatches along each dimension.
#[derive(Clone, Copy, Debug, PartialEq, Eq)]
pub struct DispatchPlan {
    pub problem_size: usize,
    pub tile_size: usize,
    pub workgroup_count: (u32, u32, u32),
}

impl DispatchPlan {
    /// The sizes for which a plan exists: a positive tile size, and a count
    /// within the backend's ceiling.
    pub open spec fn dispatchable(problem_size: usize, tile_size: usize) -> bool {
        tile_size >= 1 && ceil_div(problem_size as nat, tile_size as nat) <= 65535
    }

    /// Rows and columns are both tiled, each count is the problem size
    /// divided by the tile size and rounded up, none is above the
    /// ceiling, and the third dimension is a single layer.
    pub open spec fn wf(&self) -> bool {
        &&& Self::dispatchable(self.problem_size, self.tile_size)
        &&& self.workgroup_count.0 == ceil_div(self.problem_size as nat, self.tile_size as nat)
        &&& self.workgroup_count.1 == self.workgroup_count.0
        &&& self.workgroup_count.2 == 1
        &&& self.workgroup_count.0 <= 65535
    }

    /// The plan of a tiled two-dimensional launch over a square problem.
    ///
    /// Fails with `ConfigError` exactly when the tile size is zero or the
    /// rounded-up count is above the backend's ceiling, which for a
    /// positive tile size is when the problem is larger than 65535 tiles.
    pub fn compute(problem_size: usize, tile_size: usize) -> (res: Result<DispatchPlan, ComputeError>)
        ensures
            res is Ok <==> Self::dispatchable(problem_size, tile_size),
            tile_size >= 1 ==> (res is Ok <==> problem_size <= 65535 * tile_size),
            res matches Ok(plan) ==> {
                &&& plan.problem_size == problem_size
                &&& plan.tile_size == tile_size
                &&& plan.workgroup_count.0 == ceil_div(problem_size as nat, tile_size as nat)
                &&& plan.workgroup_count.1 == plan.workgroup_count.0
                &&& plan.workgroup_count.2 == 1
                &&& plan.workgroup_count.0 <= 65535
                &&& plan.wf()
            },
            res matches Err(e) ==> e == ComputeError::ConfigError,
    {
        if tile_size == 0 {
            return Err(ComputeError::ConfigError);
        }
        proof {
            lemma_dispatch_bound(problem_size, tile_size);
        }
        let whole: usize = problem_size / tile_size;
        let rest: usize = problem_size % tile_size;
        if whole > MAX_WORKGROUPS {
            return Err(ComputeError::ConfigError);
        }
        let count: usize = if rest == 0 {
            whole
        } else {
            whole + 1
        };
        if count > MAX_WORKGROUPS {
            return Err(ComputeError::ConfigError);
        }
        let along: u32 = count as u32;
        Ok(DispatchPlan { problem_size, tile_size, workgroup_count: (along, along, 1) })
    }

    /// The plan of a one-dimensional launch with one element to a
    /// workgroup: the count along the first dimension is the length, the
    /// other two are single.
    ///
    /// Fails with `ConfigError` exactly when the length is above the
    /// backend's ceiling.
    pub fn compute_linear(length: usize) -> (res: Result<DispatchPlan, ComputeError>)
        ensures
            res is Ok <==> length <= 65535,
            res matches Ok(plan) ==> {
                &&& plan.problem_size == length
                &&& plan.tile_size == 1
                &&& plan.workgroup_count.0 == length
                &&& plan.workgroup_count.1 == 1
                &&& plan.workgroup_count.2 == 1
            },
            res matches Err(e) ==> e == ComputeError::ConfigError,
    {
        if length > MAX_WORKGROUPS {
            return Err(ComputeError::ConfigError);
        }
        Ok(DispatchPlan { problem_size: length, tile_size: 1, workgroup_count: (length as u32, 1, 1) })
    }
}

} // verus!
