use vstd::prelude::*;

use crate::kernels::kernel_error::KernelError;

verus! {

/// The keys and values of every processed position, per layer.
///
/// Each layer holds one growable buffer for K and one for V, laid out
/// `[position, kv_dim]` row-major, exactly the shape the projection
/// produces, so appending is a flat extension.
#[derive(Debug)]
pub struct KvCache<T: Copy> {
    k: Vec<Vec<T>>,
    v: Vec<Vec<T>>,
    /// Row width: `n_kv_heads * head_dim`.
    kv_dim: usize,
    /// Positions cached before the current forward pass. This is the
    /// absolute position of the next token to be processed.
    seq_len: usize,
}

impl<T: Copy> KvCache<T> {
    #[verifier::type_invariant]
    spec fn layers_match(self) -> bool {
        self.k@.len() == self.v@.len()
    }

    /// The number of layers.
    pub closed spec fn layer_count(&self) -> nat {
        self.k@.len()
    }

    /// The cached keys of `layer`, flattened.
    pub closed spec fn keys(&self, layer: int) -> Seq<T> {
        self.k@[layer]@
    }

    /// The cached values of `layer`, flattened.
    pub closed spec fn values(&self, layer: int) -> Seq<T> {
        self.v@[layer]@
    }

    /// The width of one cached row.
    pub closed spec fn row_width(&self) -> usize {
        self.kv_dim
    }

    /// Positions cached before the current pass.
    pub closed spec fn position(&self) -> usize {
        self.seq_len
    }

    /// A cache with nothing in it: `n_layers` layers, no position yet.
    pub open spec fn is_empty_cache(&self, n_layers: nat, kv_dim: usize) -> bool {
        &&& self.layer_count() == n_layers
        &&& self.row_width() == kv_dim
        &&& self.position() == 0
        &&& forall|l: int|
            0 <= l < n_layers ==> #[trigger] self.keys(l).len() == 0 && self.values(l).len() == 0
    }

    /// Empty cache for `n_layers` layers, each row `kv_dim` values wide.
    pub fn new(n_layers: usize, kv_dim: usize) -> (r: Self)
        ensures
            r.is_empty_cache(n_layers as nat, kv_dim),
    {
        let mut k: Vec<Vec<T>> = Vec::new();
        let mut v: Vec<Vec<T>> = Vec::new();
        let mut i: usize = 0;
        while i < n_layers
            invariant
                i <= n_layers,
                k@.len() == i,
                v@.len() == i,
                forall|l: int| 0 <= l < i ==> #[trigger] k@[l]@.len() == 0 && v@[l]@.len() == 0,
            decreases n_layers - i,
        {
            k.push(Vec::new());
            v.push(Vec::new());
            i = i + 1;
        }
        KvCache { k, v, kv_dim, seq_len: 0 }
    }

    /// The number of layers the cache was made with.
    pub fn n_layers(&self) -> (r: usize)
        ensures
            r == self.layer_count(),
    {
        self.k.len()
    }

    /// Number of positions cached before this pass, which is the absolute
    /// position of the first new token.
    pub fn seq_len(&self) -> (r: usize)
        ensures
            r == self.position(),
    {
        self.seq_len
    }

    /// Appends one row per new position to `layer`'s keys and values. Fails,
    /// changing nothing, unless the rows are whole `kv_dim`-wide rows and K
    /// and V have the same length. Does not move `seq_len`.
    pub fn append(&mut self, layer: usize, k_new: &[T], v_new: &[T]) -> (r: Result<(), KernelError>)
        requires
            layer < old(self).layer_count(),
        ensures
            final(self).layer_count() == old(self).layer_count(),
            final(self).row_width() == old(self).row_width(),
            final(self).position() == old(self).position(),
            r is Ok <==> (old(self).row_width() != 0 && k_new@.len() % (old(self).row_width() as nat)
                == 0 && v_new@.len() == k_new@.len()),
            r is Err ==> r == Err::<(), KernelError>(KernelError::ShapeMismatch),
            forall|l: int|
                0 <= l < old(self).layer_count() && (r is Err || l != layer) ==> #[trigger] final(self).keys(l)
                    == old(self).keys(l) && final(self).values(l) == old(self).values(l),
            r is Ok ==> final(self).keys(layer as int) == old(self).keys(layer as int) + k_new@,
            r is Ok ==> final(self).values(layer as int) == old(self).values(layer as int) + v_new@,
    {
        proof {
            use_type_invariant(&*self);
        }
        if self.kv_dim == 0 || k_new.len() % self.kv_dim != 0 || v_new.len() != k_new.len() {
            return Err(KernelError::ShapeMismatch);
        }
        let mut taken = KvCache { k: Vec::new(), v: Vec::new(), kv_dim: self.kv_dim, seq_len: self.seq_len };
        std::mem::swap(&mut taken, self);
        proof {
            use_type_invariant(&taken);
        }
        let KvCache { mut k, mut v, kv_dim, seq_len } = taken;
        let ghost k0 = k@;
        let ghost v0 = v@;
        let mut k_row = Vec::new();
        std::mem::swap(&mut k_row, &mut k[layer]);
        let mut v_row = Vec::new();
        std::mem::swap(&mut v_row, &mut v[layer]);
        extend(&mut k_row, k_new);
        extend(&mut v_row, v_new);
        k.set(layer, k_row);
        v.set(layer, v_row);
        proof {
            assert(k@.len() == k0.len());
        }
        *self = KvCache { k, v, kv_dim, seq_len };
        Ok(())
    }

    /// All cached keys of `layer`, shaped `[cached_positions, kv_dim]`.
    pub fn k(&self, layer: usize) -> (r: &[T])
        requires
            layer < self.layer_count(),
        ensures
            r@ == self.keys(layer as int),
    {
        self.k[layer].as_slice()
    }

    /// All cached values of `layer`, shaped `[cached_positions, kv_dim]`.
    pub fn v(&self, layer: usize) -> (r: &[T])
        requires
            layer < self.layer_count(),
        ensures
            r@ == self.values(layer as int),
    {
        proof {
            use_type_invariant(self);
        }
        self.v[layer].as_slice()
    }

    /// Moves the position counter on by `n`, once a full pass over every
    /// layer is done.
    pub fn advance(&mut self, n: usize)
        requires
            old(self).position() + n <= usize::MAX,
        ensures
            final(self).position() == old(self).position() + n,
            final(self).layer_count() == old(self).layer_count(),
            final(self).row_width() == old(self).row_width(),
            forall|l: int|
                0 <= l < old(self).layer_count() ==> #[trigger] final(self).keys(l) == old(self).keys(l)
                    && final(self).values(l) == old(self).values(l),
    {
        proof {
            use_type_invariant(&*self);
        }
        self.seq_len = self.seq_len + n;
    }

    /// Drops every cached position, keeping the layers and their allocations.
    pub fn clear(&mut self)
        ensures
            final(self).is_empty_cache(old(self).layer_count(), old(self).row_width()),
    {
        proof {
            use_type_invariant(&*self);
        }
        let mut taken = KvCache { k: Vec::new(), v: Vec::new(), kv_dim: self.kv_dim, seq_len: 0 };
        std::mem::swap(&mut taken, self);
        proof {
            use_type_invariant(&taken);
        }
        let ghost old_count = old(self).layer_count();
        let ghost old_width = old(self).row_width();
        assert(taken.layer_count() == old_count);
        let KvCache { mut k, mut v, kv_dim, seq_len: _ } = taken;
        assert(k@.len() == old_count);
        assert(kv_dim == old_width);
        let n = k.len();
        let mut i: usize = 0;
        while i < n
            invariant
                n == k@.len(),
                n == v@.len(),
                i <= n,
                forall|l: int| 0 <= l < i ==> #[trigger] k@[l]@.len() == 0 && v@[l]@.len() == 0,
            decreases n - i,
        {
            let mut k_row = Vec::new();
            std::mem::swap(&mut k_row, &mut k[i]);
            k_row.clear();
            k.set(i, k_row);
            let mut v_row = Vec::new();
            std::mem::swap(&mut v_row, &mut v[i]);
            v_row.clear();
            v.set(i, v_row);
            i = i + 1;
        }
        *self = KvCache { k, v, kv_dim, seq_len: 0 };
        proof {
            assert forall|l: int| 0 <= l < n implies #[trigger] self.keys(l).len() == 0
                && self.values(l).len() == 0 by {
                assert(self.k@[l]@.len() == 0);
            }
        }
    }
}

/// Appends the elements of `src` to `dst`, in order.
fn extend<T: Copy>(dst: &mut Vec<T>, src: &[T])
    ensures
        final(dst)@ == old(dst)@ + src@,
{
    let mut i: usize = 0;
    let ghost start = dst@;
    while i < src.len()
        invariant
            i <= src@.len(),
            dst@ == start + src@.subrange(0, i as int),
        decreases src@.len() - i,
    {
        dst.push(src[i]);
        i = i + 1;
        proof {
            assert(start + src@.subrange(0, i as int) =~= dst@);
        }
    }
    proof {
        assert(src@.subrange(0, src@.len() as int) =~= src@);
    }
}

/// Between forward passes every layer holds one row of keys and one row of
/// values for each cached position.
pub open spec fn is_coherent<T: Copy>(c: KvCache<T>) -> bool {
    forall|l: int|
        0 <= l < c.layer_count() ==> #[trigger] c.keys(l).len() == c.position() * c.row_width()
            && c.values(l).len() == c.position() * c.row_width()
}

/// A cache with nothing in it is coherent.
pub proof fn lemma_empty_cache_coherent<T: Copy>(c: KvCache<T>, n_layers: nat, kv_dim: usize)
    requires
        c.is_empty_cache(n_layers, kv_dim),
    ensures
        is_coherent(c),
{
}

/// A full forward pass keeps the cache coherent: when each layer has been
/// given `n` new rows of keys and of values, and the position has moved on
/// by `n`, every layer again holds one row per cached position.
pub proof fn lemma_full_pass_keeps_coherent<T: Copy>(
    before: KvCache<T>,
    after: KvCache<T>,
    n: nat,
    new_keys: Seq<Seq<T>>,
    new_values: Seq<Seq<T>>,
)
    requires
        is_coherent(before),
        after.layer_count() == before.layer_count(),
        after.row_width() == before.row_width(),
        after.position() == before.position() + n,
        new_keys.len() == before.layer_count(),
        new_values.len() == before.layer_count(),
        forall|l: int|
            0 <= l < before.layer_count() ==> {
                &&& #[trigger] after.keys(l) == before.keys(l) + new_keys[l]
                &&& after.values(l) == before.values(l) + new_values[l]
                &&& new_keys[l].len() == n * before.row_width()
                &&& new_values[l].len() == n * before.row_width()
            },
    ensures
        is_coherent(after),
{
    let w = before.row_width() as int;
    let p = before.position() as int;
    assert((p + n) * w == p * w + n * w) by (nonlinear_arith);
    assert forall|l: int| 0 <= l < after.layer_count() implies #[trigger] after.keys(l).len()
        == after.position() * after.row_width() && after.values(l).len() == after.position()
        * after.row_width() by {
        assert(after.keys(l) == before.keys(l) + new_keys[l]);
        assert(before.keys(l).len() == p * w);
    }
}

} // verus!
