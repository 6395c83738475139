use vstd::prelude::*;

use crate::file_parser::ggml_type::GGMLType;
use crate::kernels::tensor::{
    default_strides, new_tensor_fits, shape_product, strides_fit, OwningTensor,
};

verus! {

/// Reusable scratch buffers for a transformer forward pass: every
/// intermediate activation lives here as an F32 tensor, and `act_q` is
/// scratch for quantized activations, of the caller's block type.
#[derive(Debug)]
pub struct Workspace<S> {
    pub embed_dim: usize,
    pub q_dim: usize,
    pub kv_dim: usize,
    pub ffn_dim: usize,
    /// Residual stream, `[seq, embed_dim]`.
    pub hidden: OwningTensor,
    /// Pre-norm output, `[seq, embed_dim]`.
    pub normed: OwningTensor,
    /// Attention projections, `[seq, q_dim]` / `[seq, kv_dim]`.
    pub q: OwningTensor,
    pub k: OwningTensor,
    pub v: OwningTensor,
    /// Attention output, `[seq, q_dim]`.
    pub attn: OwningTensor,
    /// Output projection result, `[seq, embed_dim]`.
    pub attn_out: OwningTensor,
    /// FFN gate / up projections, `[seq, ffn_dim]`.
    pub gate: OwningTensor,
    pub up: OwningTensor,
    /// `silu(gate) * up`, `[seq, ffn_dim]`.
    pub ffn_act: OwningTensor,
    /// FFN down projection result, `[seq, embed_dim]`.
    pub ffn_out: OwningTensor,
    /// Last token's hidden row, `[1, embed_dim]`.
    pub last_hidden: OwningTensor,
    /// LM-head output, `[1, vocab_size]`.
    pub logits: OwningTensor,
    /// Scratch for quantized activations; starts empty.
    pub act_q: Vec<S>,
}

/// An F32 tensor of shape `[rows, cols]`, row-major, of the matching size.
pub open spec fn is_f32_matrix(t: OwningTensor, rows: usize, cols: usize) -> bool {
    &&& t.layout() == GGMLType::F32
    &&& t.dims() == seq![rows, cols]
    &&& t.steps() == default_strides(seq![rows, cols])
    &&& t.bytes().len() == rows * cols * 4
}

/// Every byte of the tensor is zero.
pub open spec fn is_zeroed(t: OwningTensor) -> bool {
    forall|i: int| 0 <= i < t.bytes().len() ==> #[trigger] t.bytes()[i] == 0u8
}

/// A `[rows, cols]` F32 tensor can be allocated when its byte count fits.
pub proof fn lemma_matrix_fits(rows: usize, cols: usize)
    requires
        rows * cols * 4 <= usize::MAX,
    ensures
        new_tensor_fits(GGMLType::F32, seq![rows, cols]),
        shape_product(seq![rows, cols]) == rows * cols,
{
    let s = seq![rows, cols];
    assert(s.drop_first() =~= seq![cols]);
    assert(seq![cols].drop_first() =~= Seq::<usize>::empty());
    assert(s.subrange(0, 2) =~= s);
    assert(s.subrange(1, 2) =~= seq![cols]);
    assert(s.subrange(2, 2) =~= Seq::<usize>::empty());
    assert(shape_product(Seq::<usize>::empty()) == 1);
    assert(shape_product(seq![cols]) == cols * shape_product(Seq::<usize>::empty()));
    assert(shape_product(seq![cols]) == cols);
    assert(shape_product(s) == rows * cols);
    assert(0 <= rows * cols) by (nonlinear_arith);
    assert(cols <= usize::MAX) by (nonlinear_arith)
        requires
            rows * cols * 4 <= usize::MAX,
    ;
    assert(strides_fit(s)) by {
        assert forall|d: int| 0 <= d <= s.len() implies #[trigger] shape_product(
            s.subrange(d, s.len() as int),
        ) <= usize::MAX by {
            if d == 0 {
                assert(rows * cols <= usize::MAX) by (nonlinear_arith)
                    requires
                        rows * cols * 4 <= usize::MAX,
                ;
            }
        }
    }
}

/// A zero-filled `[1, dim]` F32 tensor.
fn row(dim: usize) -> (t: OwningTensor)
    requires
        dim * 4 <= usize::MAX,
    ensures
        is_f32_matrix(t, 1, dim),
        is_zeroed(t),
{
    proof {
        lemma_matrix_fits(1, dim);
    }
    let mut shape: Vec<usize> = Vec::new();
    shape.push(1);
    shape.push(dim);
    proof {
        assert(shape@ =~= seq![1usize, dim]);
    }
    OwningTensor::zeros_f32(shape)
}

/// `after` keeps the bytes of `before` that it has room for, and any
/// bytes beyond them are zero.
pub open spec fn resized_from(before: OwningTensor, after: OwningTensor) -> bool {
    forall|i: int|
        0 <= i < after.bytes().len() ==> #[trigger] after.bytes()[i] == if i < before.bytes().len() {
            before.bytes()[i]
        } else {
            0u8
        }
}

/// Reshapes `t` to `[rows, cols]` F32, reusing its allocation.
fn resize_matrix(t: &mut OwningTensor, rows: usize, cols: usize)
    requires
        rows * cols * 4 <= usize::MAX,
    ensures
        is_f32_matrix(*final(t), rows, cols),
        resized_from(*old(t), *final(t)),
{
    proof {
        lemma_matrix_fits(rows, cols);
    }
    let mut shape: Vec<usize> = Vec::new();
    shape.push(rows);
    shape.push(cols);
    proof {
        assert(shape@ =~= seq![rows, cols]);
    }
    t.resize_f32(shape);
}

impl<S> Workspace<S> {
    /// Every per-token buffer has `seq` rows of its width.
    pub open spec fn sized_for(&self, seq: usize) -> bool {
        &&& is_f32_matrix(self.hidden, seq, self.embed_dim)
        &&& is_f32_matrix(self.normed, seq, self.embed_dim)
        &&& is_f32_matrix(self.q, seq, self.q_dim)
        &&& is_f32_matrix(self.k, seq, self.kv_dim)
        &&& is_f32_matrix(self.v, seq, self.kv_dim)
        &&& is_f32_matrix(self.attn, seq, self.q_dim)
        &&& is_f32_matrix(self.attn_out, seq, self.embed_dim)
        &&& is_f32_matrix(self.gate, seq, self.ffn_dim)
        &&& is_f32_matrix(self.up, seq, self.ffn_dim)
        &&& is_f32_matrix(self.ffn_act, seq, self.ffn_dim)
        &&& is_f32_matrix(self.ffn_out, seq, self.embed_dim)
    }

    /// Allocates all buffers, zero-filled. Per-token buffers start with one
    /// row (the decode size); `last_hidden` and `logits` have one row for
    /// good.
    pub fn new(
        embed_dim: usize,
        q_dim: usize,
        kv_dim: usize,
        ffn_dim: usize,
        vocab_size: usize,
    ) -> (r: Self)
        requires
            embed_dim * 4 <= usize::MAX,
            q_dim * 4 <= usize::MAX,
            kv_dim * 4 <= usize::MAX,
            ffn_dim * 4 <= usize::MAX,
            vocab_size * 4 <= usize::MAX,
        ensures
            r.embed_dim == embed_dim,
            r.q_dim == q_dim,
            r.kv_dim == kv_dim,
            r.ffn_dim == ffn_dim,
            r.sized_for(1),
            is_f32_matrix(r.last_hidden, 1, embed_dim),
            is_f32_matrix(r.logits, 1, vocab_size),
            is_zeroed(r.hidden) && is_zeroed(r.normed) && is_zeroed(r.q) && is_zeroed(r.k)
                && is_zeroed(r.v) && is_zeroed(r.attn) && is_zeroed(r.attn_out) && is_zeroed(
                r.gate,
            ) && is_zeroed(r.up) && is_zeroed(r.ffn_act) && is_zeroed(r.ffn_out) && is_zeroed(
                r.last_hidden,
            ) && is_zeroed(r.logits),
            r.act_q@.len() == 0,
    {
        Workspace {
            embed_dim,
            q_dim,
            kv_dim,
            ffn_dim,
            hidden: row(embed_dim),
            normed: row(embed_dim),
            q: row(q_dim),
            k: row(kv_dim),
            v: row(kv_dim),
            attn: row(q_dim),
            attn_out: row(embed_dim),
            gate: row(ffn_dim),
            up: row(ffn_dim),
            ffn_act: row(ffn_dim),
            ffn_out: row(embed_dim),
            last_hidden: row(embed_dim),
            logits: row(vocab_size),
            act_q: Vec::new(),
        }
    }

    /// Resizes the per-token buffers to `seq_len` rows, reusing their
    /// allocations. `last_hidden`, `logits` and the scratch are left as
    /// they are.
    pub fn prepare(&mut self, seq_len: usize)
        requires
            seq_len * old(self).embed_dim * 4 <= usize::MAX,
            seq_len * old(self).q_dim * 4 <= usize::MAX,
            seq_len * old(self).kv_dim * 4 <= usize::MAX,
            seq_len * old(self).ffn_dim * 4 <= usize::MAX,
        ensures
            final(self).embed_dim == old(self).embed_dim,
            final(self).q_dim == old(self).q_dim,
            final(self).kv_dim == old(self).kv_dim,
            final(self).ffn_dim == old(self).ffn_dim,
            final(self).sized_for(seq_len),
            resized_from(old(self).hidden, final(self).hidden),
            resized_from(old(self).normed, final(self).normed),
            resized_from(old(self).q, final(self).q),
            resized_from(old(self).k, final(self).k),
            resized_from(old(self).v, final(self).v),
            resized_from(old(self).attn, final(self).attn),
            resized_from(old(self).attn_out, final(self).attn_out),
            resized_from(old(self).gate, final(self).gate),
            resized_from(old(self).up, final(self).up),
            resized_from(old(self).ffn_act, final(self).ffn_act),
            resized_from(old(self).ffn_out, final(self).ffn_out),
            final(self).last_hidden == old(self).last_hidden,
            final(self).logits == old(self).logits,
            final(self).act_q == old(self).act_q,
    {
        let e = self.embed_dim;
        let q = self.q_dim;
        let kv = self.kv_dim;
        let f = self.ffn_dim;
        resize_matrix(&mut self.hidden, seq_len, e);
        resize_matrix(&mut self.normed, seq_len, e);
        resize_matrix(&mut self.q, seq_len, q);
        resize_matrix(&mut self.k, seq_len, kv);
        resize_matrix(&mut self.v, seq_len, kv);
        resize_matrix(&mut self.attn, seq_len, q);
        resize_matrix(&mut self.attn_out, seq_len, e);
        resize_matrix(&mut self.gate, seq_len, f);
        resize_matrix(&mut self.up, seq_len, f);
        resize_matrix(&mut self.ffn_act, seq_len, f);
        resize_matrix(&mut self.ffn_out, seq_len, e);
    }
}

} // verus!
