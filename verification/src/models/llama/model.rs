use vstd::prelude::*;

use crate::models::common::context::ModelContext;
use crate::models::common::kv_cache::KvCache;
use crate::models::common::workspace::{is_f32_matrix, Workspace};
use crate::models::llama::config::LlamaConfig;

verus! {

/// The sizes for which a context can be allocated: every buffer's byte
/// count fits in `usize`.
pub open spec fn context_fits(cfg: LlamaConfig) -> bool {
    &&& cfg.n_kv_heads * cfg.head_dim * 4 <= usize::MAX
    &&& cfg.n_heads * cfg.head_dim * 4 <= usize::MAX
    &&& cfg.embed_dim * 4 <= usize::MAX
    &&& cfg.ffn_dim * 4 <= usize::MAX
    &&& cfg.vocab_size * 4 <= usize::MAX
}

impl LlamaConfig {
    /// A fresh inference context: an empty cache with one layer per block,
    /// rows of `n_kv_heads * head_dim`, and a workspace sized for one token.
    pub fn new_context<T: Copy, S>(&self) -> (r: ModelContext<T, S>)
        requires
            context_fits(*self),
        ensures
            r.cache.is_empty_cache(self.n_blocks as nat, (self.n_kv_heads * self.head_dim) as usize),
            r.ws.embed_dim == self.embed_dim,
            r.ws.q_dim == self.n_heads * self.head_dim,
            r.ws.kv_dim == self.n_kv_heads * self.head_dim,
            r.ws.ffn_dim == self.ffn_dim,
            r.ws.sized_for(1),
            is_f32_matrix(r.ws.logits, 1, self.vocab_size),
            is_f32_matrix(r.ws.last_hidden, 1, self.embed_dim),
            r.ws.act_q@.len() == 0,
    {
        proof {
            assert(0 <= self.n_kv_heads * self.head_dim) by (nonlinear_arith);
            assert(0 <= self.n_heads * self.head_dim) by (nonlinear_arith);
        }
        let kv_dim = self.n_kv_heads * self.head_dim;
        let q_dim = self.n_heads * self.head_dim;
        let cache = KvCache::new(self.n_blocks, kv_dim);
        let ws = Workspace::new(self.embed_dim, q_dim, kv_dim, self.ffn_dim, self.vocab_size);
        ModelContext::new(cache, ws)
    }
}

} // verus!
