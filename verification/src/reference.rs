use vstd::prelude::*;
use crate::error::ComputeError;
use crate::matrix::{
    cell_index, check_operands, lemma_cell_index_splits, operands_match, spec_cell_index, Matrix,
};

verus! {

/// Step `k` of an accumulation over row `row` of `a` and column `col`
/// of `b`: `fused`, handed the partial sum `sums[k]` and the two factors
/// `a[row, k]` and `b[k, col]`, gave `sums[k + 1]`.
pub open spec fn step_holds<F: Fn(u32, u32, u32) -> u32>(
    fused: F,
    a: Seq<u32>,
    b: Seq<u32>,
    size: int,
    row: int,
    col: int,
    sums: Seq<u32>,
    k: int,
) -> bool {
    call_ensures(
        fused,
        (sums[k], a[spec_cell_index(row, k, size)], b[spec_cell_index(k, col, size)]),
        sums[k + 1],
    )
}

/// `sums` are the partial sums of an accumulation over row `row` of `a`
/// and column `col` of `b`: the first is the zero pattern, and each
/// following one comes from the one before by a step of `fused`.
pub open spec fn partial_sums<F: Fn(u32, u32, u32) -> u32>(
    fused: F,
    a: Seq<u32>,
    b: Seq<u32>,
    size: int,
    row: int,
    col: int,
    sums: Seq<u32>,
) -> bool {
    &&& sums.len() >= 1
    &&& sums[0] == 0
    &&& forall|k: int|
        0 <= k < sums.len() - 1 ==> #[trigger] step_holds(fused, a, b, size, row, col, sums, k)
}

/// `acc` can be reached by accumulating the first `terms` products of row
/// `row` of `a` and column `col` of `b`, starting from the zero pattern
/// and taking each step with `fused`.
pub open spec fn accumulated<F: Fn(u32, u32, u32) -> u32>(
    fused: F,
    a: Seq<u32>,
    b: Seq<u32>,
    size: int,
    row: int,
    col: int,
    terms: nat,
    acc: u32,
) -> bool {
    exists|sums: Seq<u32>|
        #[trigger] partial_sums(fused, a, b, size, row, col, sums) && sums.len() == terms + 1
            && sums[terms as int] == acc
}

/// `out` is a product of the square matrices `a` and `b` under `fused`:
/// it has as many elements, and the element of each row and column is
/// accumulated over all of that row of `a` and that column of `b`.
pub open spec fn is_product<F: Fn(u32, u32, u32) -> u32>(
    fused: F,
    a: Seq<u32>,
    b: Seq<u32>,
    size: int,
    out: Seq<u32>,
) -> bool {
    &&& out.len() == size * size
    &&& forall|idx: int|
        0 <= idx < out.len() ==> accumulated(
            fused,
            a,
            b,
            size,
            idx / size,
            idx % size,
            size as nat,
            #[trigger] out[idx],
        )
}

/// The step gives one result for given arguments.
pub open spec fn single_valued<F: Fn(u32, u32, u32) -> u32>(fused: F) -> bool {
    forall|args: (u32, u32, u32), r1: u32, r2: u32|
        #![trigger call_ensures(fused, args, r1), call_ensures(fused, args, r2)]
        call_ensures(fused, args, r1) && call_ensures(fused, args, r2) ==> r1 == r2
}

/// With a single-valued step, two runs of partial sums over the same row
/// and column agree wherever both reach.
pub proof fn lemma_partial_sums_agree<F: Fn(u32, u32, u32) -> u32>(
    fused: F,
    a: Seq<u32>,
    b: Seq<u32>,
    size: int,
    row: int,
    col: int,
    first: Seq<u32>,
    second: Seq<u32>,
    k: nat,
)
    requires
        single_valued(fused),
        partial_sums(fused, a, b, size, row, col, first),
        partial_sums(fused, a, b, size, row, col, second),
        k < first.len(),
        k < second.len(),
    ensures
        first[k as int] == second[k as int],
    decreases k,
{
    if k > 0 {
        lemma_partial_sums_agree(fused, a, b, size, row, col, first, second, (k - 1) as nat);
        assert(step_holds(fused, a, b, size, row, col, first, k - 1));
        assert(step_holds(fused, a, b, size, row, col, second, k - 1));
    }
}

/// With a single-valued step, an accumulation has one result.
pub proof fn lemma_accumulated_unique<F: Fn(u32, u32, u32) -> u32>(
    fused: F,
    a: Seq<u32>,
    b: Seq<u32>,
    size: int,
    row: int,
    col: int,
    terms: nat,
    x: u32,
    y: u32,
)
    requires
        single_valued(fused),
        accumulated(fused, a, b, size, row, col, terms, x),
        accumulated(fused, a, b, size, row, col, terms, y),
    ensures
        x == y,
{
    let first = choose|sums: Seq<u32>|
        #[trigger] partial_sums(fused, a, b, size, row, col, sums) && sums.len() == terms + 1
            && sums[terms as int] == x;
    let second = choose|sums: Seq<u32>|
        #[trigger] partial_sums(fused, a, b, size, row, col, sums) && sums.len() == terms + 1
            && sums[terms as int] == y;
    lemma_partial_sums_agree(fused, a, b, size, row, col, first, second, terms);
}

/// Multiplying twice gives the same matrix, bit for bit: with a
/// single-valued step, two products of the same operands are equal.
pub proof fn lemma_product_unique<F: Fn(u32, u32, u32) -> u32>(
    fused: F,
    a: Seq<u32>,
    b: Seq<u32>,
    size: int,
    first: Seq<u32>,
    second: Seq<u32>,
)
    requires
        single_valued(fused),
        is_product(fused, a, b, size, first),
        is_product(fused, a, b, size, second),
    ensures
        first == second,
{
    assert forall|idx: int| 0 <= idx < first.len() implies first[idx] == second[idx] by {
        lemma_accumulated_unique(
            fused,
            a,
            b,
            size,
            idx / size,
            idx % size,
            size as nat,
            first[idx],
            second[idx],
        );
    }
    assert(first =~= second);
}

/// The step for elements that are unsigned integers: the sum so far plus
/// the product of the two factors, both taken modulo two to the power 32.
pub fn wrapping_step(acc: u32, x: u32, y: u32) -> (sum: u32)
    ensures
        sum == (acc + x * y) % 0x1_0000_0000,
{
    assert(0 <= x * y <= 0xFFFF_FFFF * 0xFFFF_FFFF) by (nonlinear_arith)
        requires
            0 <= x <= 0xFFFF_FFFF,
            0 <= y <= 0xFFFF_FFFF,
    ;
    let wide: u64 = (acc as u64) + (x as u64) * (y as u64);
    (wide % 0x1_0000_0000) as u32
}

/// The integer step is single-valued, so integer products are unique.
pub proof fn lemma_wrapping_step_single_valued()
    ensures
        single_valued(wrapping_step),
{
}

/// The product of two square matrices of `size` rows, by the plain
/// triple loop: the element of row `i` and column `j` starts from the zero
/// pattern and takes in `a[i,k] * b[k,j]` for each `k` in turn. The
/// arithmetic on the elements is the caller's: `fused(acc, x, y)` gives
/// the sum so far with the product of `x` and `y` added.
///
/// Fails with `ConfigError` exactly when the operands do not match
/// `size`.
pub fn multiply<F: Fn(u32, u32, u32) -> u32>(a: &Matrix, b: &Matrix, size: usize, fused: F) -> (res:
    Result<Matrix, ComputeError>)
    requires
        forall|acc: u32, x: u32, y: u32| call_requires(fused, (acc, x, y)),
    ensures
        res is Ok <==> operands_match(a@, b@, size),
        res matches Ok(m) ==> is_product(fused, a@, b@, size as int, m@) && m.wf(),
        res matches Err(e) ==> e == ComputeError::ConfigError,
{
    let count: usize = match check_operands(a, b, size) {
        Ok(n) => n,
        Err(_) => {
            return Err(ComputeError::ConfigError);
        },
    };
    let ghost n = size as int;
    let mut val: Vec<u32> = Vec::new();
    let mut i: usize = 0;
    while i < size
        invariant
            i <= size,
            n == size,
            count == size * size,
            a@.len() == count,
            b@.len() == count,
            val@.len() == i * size,
            forall|acc: u32, x: u32, y: u32| call_requires(fused, (acc, x, y)),
            forall|idx: int|
                0 <= idx < val@.len() ==> accumulated(
                    fused,
                    a@,
                    b@,
                    n,
                    idx / n,
                    idx % n,
                    n as nat,
                    #[trigger] val@[idx],
                ),
        decreases size - i,
    {
        let mut j: usize = 0;
        while j < size
            invariant
                i < size,
                j <= size,
                n == size,
                count == size * size,
                a@.len() == count,
                b@.len() == count,
                val@.len() == i * size + j,
                forall|acc: u32, x: u32, y: u32| call_requires(fused, (acc, x, y)),
                forall|idx: int|
                    0 <= idx < val@.len() ==> accumulated(
                        fused,
                        a@,
                        b@,
                        n,
                        idx / n,
                        idx % n,
                        n as nat,
                        #[trigger] val@[idx],
                    ),
            decreases size - j,
        {
            let mut acc: u32 = 0;
            let ghost mut sums: Seq<u32> = seq![0u32];
            let mut k: usize = 0;
            while k < size
                invariant
                    i < size,
                    j < size,
                    k <= size,
                    n == size,
                    count == size * size,
                    a@.len() == count,
                    b@.len() == count,
                    forall|acc: u32, x: u32, y: u32| call_requires(fused, (acc, x, y)),
                    partial_sums(fused, a@, b@, n, i as int, j as int, sums),
                    sums.len() == k + 1,
                    sums[k as int] == acc,
                decreases size - k,
            {
                let ia: usize = cell_index(i, k, size);
                let ib: usize = cell_index(k, j, size);
                let next: u32 = fused(acc, a.val[ia], b.val[ib]);
                proof {
                    let longer = sums.push(next);
                    assert forall|t: int| 0 <= t < longer.len() - 1 implies #[trigger] step_holds(
                        fused,
                        a@,
                        b@,
                        n,
                        i as int,
                        j as int,
                        longer,
                        t,
                    ) by {
                        if t < k {
                            assert(step_holds(fused, a@, b@, n, i as int, j as int, sums, t));
                        }
                    }
                    sums = longer;
                }
                acc = next;
                k += 1;
            }
            assert(accumulated(fused, a@, b@, n, i as int, j as int, n as nat, acc));
            proof {
                lemma_cell_index_splits(i as int, j as int, n);
            }
            val.push(acc);
            j += 1;
        }
        assert((i + 1) * size == i * size + size) by (nonlinear_arith);
        i += 1;
    }
    Ok(Matrix { val })
}

} // verus!
