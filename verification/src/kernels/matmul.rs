use vstd::prelude::*;

use crate::kernels::kernel_error::KernelError;
use crate::kernels::quant::QK;

verus! {

/// The shapes of `out = a @ b` agree: `a` is `[a_rows, a_cols]`, `b` holds
/// `b_cols` rows of `a_cols / 32` blocks, `out` is `[a_rows, b_cols]`.
pub open spec fn matmul_shapes_agree(
    a_len: usize,
    b_len: usize,
    out_len: usize,
    a_rows: usize,
    a_cols: usize,
    b_rows: usize,
    b_cols: usize,
) -> bool {
    &&& a_cols == b_rows
    &&& a_cols % 32 == 0
    &&& a_len == a_rows * a_cols
    &&& b_len == b_cols * (a_cols / 32)
    &&& out_len == a_rows * b_cols
}

/// The products that the shape check computes fit in `usize`, as far as
/// the check gets before it fails.
pub open spec fn matmul_products_fit(
    a_len: usize,
    b_len: usize,
    a_rows: usize,
    a_cols: usize,
    b_rows: usize,
    b_cols: usize,
) -> bool {
    a_cols == b_rows && a_cols % 32 == 0 ==> {
        &&& a_rows * a_cols <= usize::MAX
        &&& a_len == a_rows * a_cols ==> b_cols * (a_cols / 32) <= usize::MAX
        &&& a_len == a_rows * a_cols && b_len == b_cols * (a_cols / 32) ==> a_rows * b_cols
            <= usize::MAX
    }
}

/// Checks the shapes of a quantized matrix product and returns the blocks
/// per weight row.
pub fn validate_shapes(
    a_len: usize,
    b_len: usize,
    out_len: usize,
    a_rows: usize,
    a_cols: usize,
    b_rows: usize,
    b_cols: usize,
) -> (r: Result<usize, KernelError>)
    requires
        matmul_products_fit(a_len, b_len, a_rows, a_cols, b_rows, b_cols),
    ensures
        r is Ok <==> matmul_shapes_agree(a_len, b_len, out_len, a_rows, a_cols, b_rows, b_cols),
        r is Err ==> r == Err::<usize, KernelError>(KernelError::ShapeMismatch),
        r matches Ok(bpr) ==> bpr == a_cols / 32,
{
    if a_cols != b_rows || a_cols % QK != 0 {
        return Err(KernelError::ShapeMismatch);
    }
    let blocks_per_row = a_cols / QK;
    if a_len != a_rows * a_cols {
        return Err(KernelError::ShapeMismatch);
    }
    if b_len != b_cols * blocks_per_row {
        return Err(KernelError::ShapeMismatch);
    }
    if out_len != a_rows * b_cols {
        return Err(KernelError::ShapeMismatch);
    }
    Ok(blocks_per_row)
}

/// One projection of a fused product: the weight block count, the output
/// length and the output width.
pub type FusedPart = (usize, usize, usize);

/// Every part of a fused product agrees with `a_rows` rows of `bpr` blocks.
pub open spec fn parts_agree(parts: Seq<FusedPart>, a_rows: usize, bpr: usize) -> bool {
    forall|i: int|
        0 <= i < parts.len() ==> #[trigger] parts[i].0 == parts[i].2 * bpr && parts[i].1 == a_rows
            * parts[i].2
}

/// The products that the fused check computes fit in `usize`, as far as it
/// gets: each part's block count, and its output size once the block count
/// has matched, up to the first part that fails.
pub open spec fn parts_products_fit(parts: Seq<FusedPart>, a_rows: usize, bpr: usize) -> bool {
    forall|i: int|
        0 <= i < parts.len() && parts_agree(parts.subrange(0, i), a_rows, bpr) ==> {
            &&& #[trigger] parts[i].2 * bpr <= usize::MAX
            &&& parts[i].0 == parts[i].2 * bpr ==> a_rows * parts[i].2 <= usize::MAX
        }
}

/// Checks the shapes of several projections of the same `[a_rows, a_cols]`
/// activations, and returns the blocks per weight row.
pub fn validate_fused_shapes(a_len: usize, a_rows: usize, a_cols: usize, parts: &Vec<FusedPart>) -> (r:
    Result<usize, KernelError>)
    requires
        a_cols % 32 == 0 ==> a_rows * a_cols <= usize::MAX,
        a_cols % 32 == 0 && a_rows * a_cols == a_len ==> parts_products_fit(
            parts@,
            a_rows,
            (a_cols / 32) as usize,
        ),
    ensures
        r is Ok <==> (a_cols % 32 == 0 && a_rows * a_cols == a_len && parts_agree(
            parts@,
            a_rows,
            (a_cols / 32) as usize,
        )),
        r is Err ==> r == Err::<usize, KernelError>(KernelError::ShapeMismatch),
        r matches Ok(bpr) ==> bpr == a_cols / 32,
{
    if a_cols % QK != 0 || a_rows * a_cols != a_len {
        return Err(KernelError::ShapeMismatch);
    }
    let bpr = a_cols / QK;
    let mut i: usize = 0;
    while i < parts.len()
        invariant
            i <= parts@.len(),
            bpr == a_cols / 32,
            parts_products_fit(parts@, a_rows, bpr),
            parts_agree(parts@.subrange(0, i as int), a_rows, bpr),
        decreases parts@.len() - i,
    {
        let (b_len, out_len, b_cols) = parts[i];
        proof {
            assert(parts@[i as int].2 * bpr <= usize::MAX);
        }
        if b_len != b_cols * bpr {
            proof {
                assert(!parts_agree(parts@, a_rows, bpr));
            }
            return Err(KernelError::ShapeMismatch);
        }
        if out_len != a_rows * b_cols {
            proof {
                assert(!parts_agree(parts@, a_rows, bpr));
            }
            return Err(KernelError::ShapeMismatch);
        }
        proof {
            assert forall|j: int| 0 <= j < i + 1 implies #[trigger] parts@.subrange(
                0,
                i + 1,
            )[j].0 == parts@.subrange(0, i + 1)[j].2 * bpr && parts@.subrange(0, i + 1)[j].1
                == a_rows * parts@.subrange(0, i + 1)[j].2 by {
                if j < i {
                    assert(parts@.subrange(0, i + 1)[j] == parts@.subrange(0, i as int)[j]);
                }
            }
            assert(parts_agree(parts@.subrange(0, i + 1), a_rows, bpr));
        }
        i = i + 1;
    }
    proof {
        assert(parts@.subrange(0, parts@.len() as int) =~= parts@);
    }
    Ok(bpr)
}

} // verus!
