use vstd::prelude::*;

use crate::kernels::kernel_error::KernelError;
use crate::kernels::tensor::{shape_product, strides_fit};

verus! {

/// A `[seq, ..]` tensor can be rotated row by row with `n_freq`
/// frequencies: there is at least one frequency and one dimension, and a
/// row (the product of the trailing dimensions) is whole heads of
/// `2 * n_freq` values.
pub open spec fn rope_rows_fit(shape: Seq<usize>, n_freq: usize) -> bool {
    &&& n_freq > 0
    &&& shape.len() > 0
    &&& shape_product(shape.drop_first()) % (2 * n_freq) == 0
}

/// Checks a tensor for row-wise RoPE and returns `(seq, row_dim)`: the
/// leading dimension, and the number of values in a row.
pub fn plan_rope_rows(shape: &[usize], n_freq: usize) -> (r: Result<(usize, usize), KernelError>)
    requires
        n_freq * 2 <= usize::MAX,
        n_freq > 0 && shape@.len() > 0 ==> strides_fit(shape@.drop_first()),
    ensures
        r is Ok <==> rope_rows_fit(shape@, n_freq),
        r matches Ok(dims) ==> dims.0 == shape@[0] && dims.1 == shape_product(shape@.drop_first()),
        r is Err ==> r == Err::<(usize, usize), KernelError>(KernelError::ShapeMismatch),
{
    let head_dim = 2 * n_freq;
    if head_dim == 0 {
        return Err(KernelError::ShapeMismatch);
    }
    let n = shape.len();
    if n == 0 {
        return Err(KernelError::ShapeMismatch);
    }
    let ghost tail = shape@.drop_first();
    let mut row_dim: usize = 1;
    let mut d = n;
    proof {
        assert(tail.subrange(n - 1, n - 1) =~= Seq::<usize>::empty());
    }
    while d > 1
        invariant
            n == shape@.len(),
            1 <= d <= n,
            tail == shape@.drop_first(),
            strides_fit(tail),
            row_dim == shape_product(tail.subrange(d - 1, n - 1)),
        decreases d,
    {
        d = d - 1;
        let ghost suffix = tail.subrange(d - 1, n - 1);
        proof {
            assert(suffix.drop_first() =~= tail.subrange(d as int, n - 1));
            assert(suffix[0] == shape@[d as int]);
            assert(tail.len() == n - 1);
            assert(shape_product(tail.subrange(d - 1, tail.len() as int)) <= usize::MAX);
        }
        row_dim = shape[d] * row_dim;
    }
    proof {
        assert(tail.subrange(0, n - 1) =~= tail);
    }
    if row_dim % head_dim != 0 {
        return Err(KernelError::ShapeMismatch);
    }
    Ok((shape[0], row_dim))
}

} // verus!
