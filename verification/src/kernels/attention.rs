use vstd::prelude::*;

use crate::kernels::kernel_error::KernelError;

verus! {

/// The layout of a validated attention call: query row `t` sits at cache
/// position `offset + t`, and `group_size` query heads share each key/value
/// head.
#[derive(Debug, Clone, Copy, PartialEq, Eq, Structural)]
pub struct AttentionPlan {
    pub seq_q: usize,
    pub seq_k: usize,
    pub n_heads: usize,
    pub n_kv_heads: usize,
    pub head_dim: usize,
    pub offset: usize,
    pub group_size: usize,
}

/// The shape products that attention compares lengths against fit in
/// `usize`, as far as they are computed: the key/value products only once
/// the query length has matched.
pub open spec fn sdpa_products_fit(
    q_len: usize,
    seq_q: usize,
    seq_k: usize,
    n_heads: usize,
    n_kv_heads: usize,
    head_dim: usize,
) -> bool {
    &&& seq_q * n_heads <= usize::MAX
    &&& seq_q * n_heads * head_dim <= usize::MAX
    &&& q_len == seq_q * n_heads * head_dim ==> {
        &&& seq_k * n_kv_heads <= usize::MAX
        &&& seq_k * n_kv_heads * head_dim <= usize::MAX
    }
}

/// Whether the buffer lengths and head counts make a valid attention call:
/// `q`/`out` are `[seq_q, n_heads, head_dim]`, `k`/`v` are
/// `[seq_k, n_kv_heads, head_dim]`, the query heads split evenly over the
/// key/value heads, and there are no more queries than keys.
pub open spec fn sdpa_valid(
    q_len: usize,
    k_len: usize,
    v_len: usize,
    out_len: usize,
    seq_q: usize,
    seq_k: usize,
    n_heads: usize,
    n_kv_heads: usize,
    head_dim: usize,
) -> bool {
    &&& n_kv_heads != 0
    &&& n_heads % n_kv_heads == 0
    &&& q_len == seq_q * n_heads * head_dim
    &&& k_len == seq_k * n_kv_heads * head_dim
    &&& v_len == seq_k * n_kv_heads * head_dim
    &&& out_len == seq_q * n_heads * head_dim
    &&& seq_q <= seq_k
}

/// Checks the shapes of a scaled dot-product attention call with a causal
/// mask and grouped-query heads, and lays it out.
pub fn plan_sdpa(
    q_len: usize,
    k_len: usize,
    v_len: usize,
    out_len: usize,
    seq_q: usize,
    seq_k: usize,
    n_heads: usize,
    n_kv_heads: usize,
    head_dim: usize,
) -> (r: Result<AttentionPlan, KernelError>)
    requires
        n_kv_heads != 0 && n_heads % n_kv_heads == 0 ==> sdpa_products_fit(
            q_len,
            seq_q,
            seq_k,
            n_heads,
            n_kv_heads,
            head_dim,
        ),
    ensures
        r is Ok <==> sdpa_valid(
            q_len,
            k_len,
            v_len,
            out_len,
            seq_q,
            seq_k,
            n_heads,
            n_kv_heads,
            head_dim,
        ),
        r is Err ==> r == Err::<AttentionPlan, KernelError>(KernelError::ShapeMismatch),
        r matches Ok(p) ==> p == (AttentionPlan {
            seq_q,
            seq_k,
            n_heads,
            n_kv_heads,
            head_dim,
            offset: (seq_k - seq_q) as usize,
            group_size: n_heads / n_kv_heads,
        }),
{
    if n_kv_heads == 0 || n_heads % n_kv_heads != 0 {
        return Err(KernelError::ShapeMismatch);
    }
    proof {
        assert(0 <= seq_q * n_heads) by (nonlinear_arith);
        assert(0 <= seq_k * n_kv_heads) by (nonlinear_arith);
    }
    let q_rows = seq_q * n_heads;
    let q_size = q_rows * head_dim;
    if q_len != q_size {
        return Err(KernelError::ShapeMismatch);
    }
    let kv_rows = seq_k * n_kv_heads;
    let kv_size = kv_rows * head_dim;
    if k_len != kv_size || v_len != kv_size || out_len != q_size {
        return Err(KernelError::ShapeMismatch);
    }
    if seq_k < seq_q {
        return Err(KernelError::ShapeMismatch);
    }
    Ok(
        AttentionPlan {
            seq_q,
            seq_k,
            n_heads,
            n_kv_heads,
            head_dim,
            offset: seq_k - seq_q,
            group_size: n_heads / n_kv_heads,
        },
    )
}

/// The key/value head that query head `h` reads.
pub open spec fn kv_head_of(p: AttentionPlan, h: int) -> int {
    h / (p.group_size as int)
}

/// The number of keys that query row `t` attends to: every position up to
/// and including its own.
pub open spec fn live_keys(p: AttentionPlan, t: int) -> int {
    p.offset + t + 1
}

/// Where query row `t`, head `h` starts in `q` (and in `out`).
pub open spec fn query_row_start(p: AttentionPlan, t: int, h: int) -> int {
    (t * p.n_heads + h) * p.head_dim
}

/// Where cache position `s`, key/value head `kh` starts in `k` and `v`.
pub open spec fn key_row_start(p: AttentionPlan, s: int, kh: int) -> int {
    (s * p.n_kv_heads + kh) * p.head_dim
}

/// A plan that `plan_sdpa` returned for buffers of these lengths.
pub open spec fn plans(p: AttentionPlan, q_len: usize, k_len: usize) -> bool {
    &&& p.n_kv_heads != 0
    &&& p.n_heads == p.group_size * p.n_kv_heads
    &&& p.seq_k == p.offset + p.seq_q
    &&& q_len == p.seq_q * p.n_heads * p.head_dim
    &&& k_len == p.seq_k * p.n_kv_heads * p.head_dim
}

/// A successful plan satisfies `plans`.
pub proof fn lemma_plan_sdpa_plans(
    q_len: usize,
    k_len: usize,
    v_len: usize,
    out_len: usize,
    seq_q: usize,
    seq_k: usize,
    n_heads: usize,
    n_kv_heads: usize,
    head_dim: usize,
)
    requires
        sdpa_valid(q_len, k_len, v_len, out_len, seq_q, seq_k, n_heads, n_kv_heads, head_dim),
    ensures
        plans(
            AttentionPlan {
                seq_q,
                seq_k,
                n_heads,
                n_kv_heads,
                head_dim,
                offset: (seq_k - seq_q) as usize,
                group_size: n_heads / n_kv_heads,
            },
            q_len,
            k_len,
        ),
{
    vstd::arithmetic::div_mod::lemma_fundamental_div_mod(n_heads as int, n_kv_heads as int);
    vstd::arithmetic::mul::lemma_mul_is_commutative(
        (n_heads / n_kv_heads) as int,
        n_kv_heads as int,
    );
}

/// Grouped-query attention: query heads in the same group read the same
/// key/value head, and every query head reads an existing one.
pub proof fn lemma_gqa_head_sharing(p: AttentionPlan, q_len: usize, k_len: usize, h1: int, h2: int)
    requires
        plans(p, q_len, k_len),
        0 <= h1 < p.n_heads,
        0 <= h2 < p.n_heads,
    ensures
        0 <= kv_head_of(p, h1) < p.n_kv_heads,
        h1 / (p.group_size as int) == h2 / (p.group_size as int) ==> kv_head_of(p, h1) == kv_head_of(
            p,
            h2,
        ),
{
    let g = p.group_size as int;
    assert(g > 0) by (nonlinear_arith)
        requires
            p.n_heads == g * p.n_kv_heads,
            p.n_kv_heads > 0,
            h1 < p.n_heads,
            0 <= h1,
            g >= 0,
    ;
    vstd::arithmetic::div_mod::lemma_div_pos_is_pos(h1, g);
    vstd::arithmetic::div_mod::lemma_div_is_ordered(h1, (p.n_heads - 1) as int, g);
    assert((p.n_heads - 1) / g < p.n_kv_heads) by (nonlinear_arith)
        requires
            p.n_heads == g * p.n_kv_heads,
            g > 0,
            p.n_kv_heads > 0,
    {
        vstd::arithmetic::div_mod::lemma_div_is_ordered(
            (p.n_heads - 1) as int,
            (g * p.n_kv_heads - 1) as int,
            g,
        );
        vstd::arithmetic::div_mod::lemma_fundamental_div_mod(g * p.n_kv_heads - 1, g);
    }
}

/// Causal masking: query row `t` attends to cache positions `0..=offset+t`,
/// all of which exist; the last query row attends to the whole cache.
pub proof fn lemma_causal_keys(p: AttentionPlan, q_len: usize, k_len: usize, t: int)
    requires
        plans(p, q_len, k_len),
        0 <= t < p.seq_q,
    ensures
        1 <= live_keys(p, t) <= p.seq_k,
        t == p.seq_q - 1 ==> live_keys(p, t) == p.seq_k,
{
}

/// Every row that attention reads lies inside its buffer: the query row of
/// any valid `(t, h)`, and the key/value row of any attended position.
pub proof fn lemma_rows_in_bounds(
    p: AttentionPlan,
    q_len: usize,
    k_len: usize,
    t: int,
    h: int,
    s: int,
)
    requires
        plans(p, q_len, k_len),
        0 <= t < p.seq_q,
        0 <= h < p.n_heads,
        0 <= s < live_keys(p, t),
    ensures
        0 <= query_row_start(p, t, h),
        query_row_start(p, t, h) + p.head_dim <= q_len,
        0 <= key_row_start(p, s, kv_head_of(p, h)),
        key_row_start(p, s, kv_head_of(p, h)) + p.head_dim <= k_len,
{
    lemma_gqa_head_sharing(p, q_len, k_len, h, h);
    let kh = kv_head_of(p, h);
    let hd = p.head_dim as int;
    assert(0 <= (t * p.n_heads + h) * hd) by (nonlinear_arith)
        requires
            0 <= t,
            0 <= h,
            0 <= hd,
            p.n_heads >= 0,
    ;
    assert((t * p.n_heads + h) * hd + hd <= p.seq_q * p.n_heads * hd) by (nonlinear_arith)
        requires
            0 <= t < p.seq_q,
            0 <= h < p.n_heads,
            0 <= hd,
    ;
    assert(0 <= (s * p.n_kv_heads + kh) * hd) by (nonlinear_arith)
        requires
            0 <= s,
            0 <= kh,
            0 <= hd,
            p.n_kv_heads >= 0,
    ;
    assert((s * p.n_kv_heads + kh) * hd + hd <= p.seq_k * p.n_kv_heads * hd) by (nonlinear_arith)
        requires
            0 <= s < p.seq_k,
            0 <= kh < p.n_kv_heads,
            0 <= hd,
    ;
}

} // verus!
