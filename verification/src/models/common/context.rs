use vstd::prelude::*;

use crate::models::common::{kv_cache::KvCache, workspace::Workspace};

verus! {

/// Per-sequence inference state: the key/value cache (history across
/// decode steps) and the scratch workspace (reused buffers).
#[derive(Debug)]
pub struct ModelContext<T: Copy, S> {
    pub cache: KvCache<T>,
    pub ws: Workspace<S>,
}

impl<T: Copy, S> ModelContext<T, S> {
    pub fn new(cache: KvCache<T>, ws: Workspace<S>) -> (r: Self)
        ensures
            r.cache == cache,
            r.ws == ws,
    {
        Self { cache, ws }
    }

    /// Forgets the cached history, keeping every buffer.
    pub fn reset_cache(&mut self)
        ensures
            final(self).cache.is_empty_cache(
                old(self).cache.layer_count(),
                old(self).cache.row_width(),
            ),
            final(self).ws == old(self).ws,
    {
        self.cache.clear();
    }
}

} // verus!
