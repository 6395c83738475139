use vstd::prelude::*;

use crate::kernels::kernel_error::KernelError;

verus! {

/// The shapes of attention over a flat cache agree: the query and output
/// hold whole tokens of `n_heads * head_dim` values, and K and V whole
/// cached positions of `n_kv_heads * head_dim` values.
pub open spec fn cached_shapes_agree(
    q_numel: usize,
    k_len: usize,
    v_len: usize,
    out_numel: usize,
    n_heads: usize,
    n_kv_heads: usize,
    head_dim: usize,
) -> bool {
    &&& n_heads > 0
    &&& n_kv_heads > 0
    &&& head_dim > 0
    &&& (q_numel as int) % (n_heads * head_dim) == 0
    &&& (k_len as int) % (n_kv_heads * head_dim) == 0
    &&& v_len == k_len
    &&& out_numel == q_numel
}

/// The inputs on which the count of query tokens would be a division by
/// zero: every check passes with no query heads and an empty query.
pub open spec fn cached_divides_by_zero(
    q_numel: usize,
    k_len: usize,
    v_len: usize,
    out_numel: usize,
    n_heads: usize,
    n_kv_heads: usize,
    head_dim: usize,
) -> bool {
    &&& n_heads == 0
    &&& n_kv_heads > 0
    &&& head_dim > 0
    &&& q_numel == 0
    &&& (k_len as int) % (n_kv_heads * head_dim) == 0
    &&& v_len == k_len
    &&& out_numel == 0
}

/// Checks attention of a query against the flat cached history and returns
/// `(seq_q, seq_k)`, the number of query tokens and of cached positions.
pub fn plan_sdpa_cached(
    q_numel: usize,
    k_len: usize,
    v_len: usize,
    out_numel: usize,
    n_heads: usize,
    n_kv_heads: usize,
    head_dim: usize,
) -> (r: Result<(usize, usize), KernelError>)
    requires
        n_kv_heads > 0 && head_dim > 0 ==> n_heads * head_dim <= usize::MAX && n_kv_heads * head_dim
            <= usize::MAX,
        !cached_divides_by_zero(q_numel, k_len, v_len, out_numel, n_heads, n_kv_heads, head_dim),
    ensures
        r is Ok <==> cached_shapes_agree(
            q_numel,
            k_len,
            v_len,
            out_numel,
            n_heads,
            n_kv_heads,
            head_dim,
        ),
        r matches Ok(seqs) ==> seqs == (
            q_numel / (n_heads * head_dim) as usize,
            k_len / (n_kv_heads * head_dim) as usize,
        ),
        r is Err ==> r == Err::<(usize, usize), KernelError>(KernelError::ShapeMismatch),
{
    if n_kv_heads == 0 || head_dim == 0 {
        return Err(KernelError::ShapeMismatch);
    }
    let q_per_token = n_heads * head_dim;
    let kv_per_token = n_kv_heads * head_dim;
    proof {
        assert(kv_per_token > 0) by (nonlinear_arith)
            requires
                kv_per_token == n_kv_heads * head_dim,
                n_kv_heads > 0,
                head_dim > 0,
        ;
        assert(n_heads == 0 <==> q_per_token == 0) by (nonlinear_arith)
            requires
                q_per_token == n_heads * head_dim,
                head_dim > 0,
        ;
    }
    if q_per_token == 0 {
        // With no query heads the query would have to be empty, and that is
        // the division by zero that the precondition leaves out.
        return Err(KernelError::ShapeMismatch);
    }
    if q_numel % q_per_token != 0 || k_len % kv_per_token != 0 || v_len != k_len || out_numel
        != q_numel {
        return Err(KernelError::ShapeMismatch);
    }
    Ok((q_numel / q_per_token, k_len / kv_per_token))
}

} // verus!
