use vstd::prelude::*;

use crate::file_parser::ggml_type::{is_scalar_type, spec_block_bytes, GGMLType};
use crate::file_parser::gguf_tensor_info::{spec_tensor_bytes_size, Error, GGUFTensorInfo};

verus! {

/// The product of the dimensions in `shape` (the element count).
pub open spec fn shape_product(shape: Seq<usize>) -> int
    decreases shape.len(),
{
    if shape.len() == 0 {
        1
    } else {
        shape[0] * shape_product(shape.drop_first())
    }
}

/// Row-major strides: the stride of a dimension is the product of the
/// dimensions after it.
pub open spec fn default_strides(shape: Seq<usize>) -> Seq<usize> {
    Seq::new(
        shape.len(),
        |i: int| shape_product(shape.subrange(i + 1, shape.len() as int)) as usize,
    )
}

/// Every product of trailing dimensions fits in `usize`, so that the
/// strides can be computed without overflow. Functions that compute
/// strides require it, as overflow would panic in a checked build; only
/// the counts parsed from a file wrap instead (see `wrapping_product`).
pub open spec fn strides_fit(shape: Seq<usize>) -> bool {
    forall|d: int|
        0 <= d <= shape.len() ==> #[trigger] shape_product(shape.subrange(d, shape.len() as int))
            <= usize::MAX
}

/// A product of dimensions is never negative.
pub proof fn lemma_shape_product_nonneg(shape: Seq<usize>)
    ensures
        shape_product(shape) >= 0,
    decreases shape.len(),
{
    if shape.len() > 0 {
        lemma_shape_product_nonneg(shape.drop_first());
        vstd::arithmetic::mul::lemma_mul_nonnegative(
            shape[0] as int,
            shape_product(shape.drop_first()),
        );
    }
}

/// Row-major layout: the last dimension has stride 1, and each stride is
/// the next one times the next dimension.
pub proof fn lemma_default_strides_row_major(shape: Seq<usize>, i: int)
    requires
        strides_fit(shape),
        0 <= i < shape.len(),
    ensures
        i == shape.len() - 1 ==> default_strides(shape)[i] == 1,
        i < shape.len() - 1 ==> default_strides(shape)[i] == default_strides(shape)[i + 1] * shape[
            i + 1
        ],
{
    let n = shape.len() as int;
    if i == n - 1 {
        assert(shape.subrange(n, n) =~= Seq::<usize>::empty());
    } else {
        let tail = shape.subrange(i + 1, n);
        assert(tail.drop_first() =~= shape.subrange(i + 2, n));
        assert(shape_product(tail) <= usize::MAX);
        assert(shape_product(shape.subrange(i + 2, n)) <= usize::MAX);
        lemma_shape_product_nonneg(shape.subrange(i + 2, n));
        lemma_shape_product_nonneg(tail);
        assert(shape_product(tail) == shape[i + 1] * shape_product(shape.subrange(i + 2, n)));
        vstd::arithmetic::mul::lemma_mul_is_commutative(
            shape[i + 1] as int,
            shape_product(shape.subrange(i + 2, n)),
        );
    }
}

/// The strides of `shape` as laid out row-major, last dimension fastest.
fn compute_default_strides(shape: &Vec<usize>) -> (strides: Vec<usize>)
    requires
        strides_fit(shape@),
    ensures
        strides@ == default_strides(shape@),
{
    let n = shape.len();
    let mut strides: Vec<usize> = vec![0; n];
    let mut stride: usize = 1;
    let mut dim = n;
    proof {
        assert(shape@.subrange(n as int, n as int) =~= Seq::<usize>::empty());
    }
    while dim > 0
        invariant
            n == shape@.len(),
            strides@.len() == n,
            dim <= n,
            strides_fit(shape@),
            stride == shape_product(shape@.subrange(dim as int, n as int)),
            forall|j: int|
                dim <= j < n ==> strides@[j] == shape_product(shape@.subrange(j + 1, n as int)),
        decreases dim,
    {
        dim = dim - 1;
        strides.set(dim, stride);
        proof {
            let tail = shape@.subrange(dim as int, n as int);
            assert(tail.drop_first() =~= shape@.subrange(dim + 1, n as int));
            assert(shape_product(tail) <= usize::MAX);
        }
        stride = shape[dim] * stride;
    }
    proof {
        assert(strides@ =~= default_strides(shape@));
    }
    strides
}

/// Tensor backed by borrowed data (e.g., a memory-mapped file).
/// Used for model weights that are loaded from disk.
#[derive(Debug, Clone)]
pub struct NonOwningTensor<'a> {
    pub data: &'a [u8],
    pub dtype: GGMLType,
    pub shape: Vec<usize>,
    pub strides: Vec<usize>,
}

/// A tensor's dimensions as `usize`, each converted as `as` converts.
pub open spec fn dims_as_usize(dims: Seq<u64>) -> Seq<usize> {
    Seq::new(dims.len(), |i: int| dims[i] as usize)
}

/// Where a tensor's bytes start in the buffer.
pub open spec fn tensor_start(info_offset: u64, tensor_data_offset: u64) -> int {
    ((tensor_data_offset + info_offset) as u64) as usize as int
}

/// The arguments of `from_info` on which it returns without panicking:
/// when the size is known, the start offset does not overflow, the byte
/// range lies within the buffer, and the strides can be computed.
pub open spec fn from_info_in_bounds(
    mmap_len: int,
    info_offset: u64,
    ggml_type: GGMLType,
    numel: u64,
    dims: Seq<u64>,
    tensor_data_offset: u64,
) -> bool {
    spec_tensor_bytes_size(ggml_type, numel) matches Ok(size) ==> {
        &&& tensor_data_offset + info_offset <= u64::MAX
        &&& tensor_start(info_offset, tensor_data_offset) + (size as usize) <= mmap_len
        &&& strides_fit(dims_as_usize(dims))
    }
}

/// Each dimension converted to `usize` as `as` converts.
fn dims_to_usize(dims: &Vec<u64>) -> (shape: Vec<usize>)
    ensures
        shape@ == dims_as_usize(dims@),
{
    let mut shape: Vec<usize> = Vec::new();
    let mut i: usize = 0;
    while i < dims.len()
        invariant
            i <= dims@.len(),
            shape@ =~= dims_as_usize(dims@).subrange(0, i as int),
        decreases dims@.len() - i,
    {
        shape.push(#[verifier::truncate] (dims[i] as usize));
        i = i + 1;
    }
    proof {
        assert(shape@ =~= dims_as_usize(dims@));
    }
    shape
}

/// Whether every product of trailing dimensions fits in `usize`.
pub fn strides_fit_check(shape: &Vec<usize>) -> (r: bool)
    ensures
        r == strides_fit(shape@),
{
    let n = shape.len();
    let mut acc: usize = 1;
    let mut d = n;
    proof {
        assert(shape@.subrange(n as int, n as int) =~= Seq::<usize>::empty());
    }
    while d > 0
        invariant
            n == shape@.len(),
            d <= n,
            acc == shape_product(shape@.subrange(d as int, n as int)),
            forall|e: int|
                d <= e <= n ==> #[trigger] shape_product(shape@.subrange(e, n as int)) <= usize::MAX,
        decreases d,
    {
        d = d - 1;
        let ghost tail = shape@.subrange(d as int, n as int);
        proof {
            assert(tail.drop_first() =~= shape@.subrange(d + 1, n as int));
        }
        match shape[d].checked_mul(acc) {
            None => {
                proof {
                    assert(shape_product(tail) > usize::MAX);
                }
                return false;
            },
            Some(p) => {
                acc = p;
            },
        }
    }
    true
}

/// The content of a borrowed tensor.
pub struct TensorModel {
    pub data: Seq<u8>,
    pub dtype: GGMLType,
    pub shape: Seq<usize>,
    pub strides: Seq<usize>,
}

impl<'a> View for NonOwningTensor<'a> {
    type V = TensorModel;

    open spec fn view(&self) -> TensorModel {
        TensorModel {
            data: self.data@,
            dtype: self.dtype,
            shape: self.shape@,
            strides: self.strides@,
        }
    }
}

/// Whether `from_info` would find the tensor within a buffer of `mmap_len`
/// bytes (see `from_info_in_bounds`).
pub fn from_info_fits(mmap_len: usize, info: &GGUFTensorInfo, tensor_data_offset: u64) -> (r: bool)
    ensures
        r == from_info_in_bounds(
            mmap_len as int,
            info.offset,
            info.ggml_type,
            info.numel,
            info.dimensions@,
            tensor_data_offset,
        ),
{
    match info.tensor_bytes_size() {
        Err(_) => true,
        Ok(size_in_bytes) => {
            if tensor_data_offset > u64::MAX - info.offset {
                return false;
            }
            let sum: u64 = tensor_data_offset + info.offset;
            let start = #[verifier::truncate] (sum as usize);
            let size = #[verifier::truncate] (size_in_bytes as usize);
            if start > mmap_len || size > mmap_len - start {
                return false;
            }
            let shape = dims_to_usize(&info.dimensions);
            strides_fit_check(&shape)
        },
    }
}

impl<'a> NonOwningTensor<'a> {
    /// A view of one tensor's bytes inside a file buffer, as the tensor
    /// directory entry `info` places them.
    pub fn from_info(mmap: &'a [u8], info: &GGUFTensorInfo, tensor_data_offset: u64) -> (r: Result<
        Self,
        Error,
    >)
        requires
            from_info_in_bounds(
                mmap@.len() as int,
                info.offset,
                info.ggml_type,
                info.numel,
                info.dimensions@,
                tensor_data_offset,
            ),
        ensures
            match spec_tensor_bytes_size(info.ggml_type, info.numel) {
                Err(e) => r == Err::<Self, Error>(e),
                Ok(size) => r matches Ok(t) && {
                    let start = tensor_start(info.offset, tensor_data_offset);
                    &&& t.data@ == mmap@.subrange(start, start + size as usize)
                    &&& t.dtype == info.ggml_type
                    &&& t.shape@ == dims_as_usize(info.dimensions@)
                    &&& t.strides@ == default_strides(t.shape@)
                },
            },
    {
        let size_in_bytes = info.tensor_bytes_size()?;
        let sum: u64 = tensor_data_offset + info.offset;
        let start = #[verifier::truncate] (sum as usize);
        let size = #[verifier::truncate] (size_in_bytes as usize);
        let ghost mmap_len = mmap.len();
        let end = start + size;
        let data = &mmap[start..end];
        let shape = dims_to_usize(&info.dimensions);
        let strides = compute_default_strides(&shape);
        Ok(Self { data, dtype: info.ggml_type, shape, strides })
    }
}

/// Tensor backed by owned data (heap-allocated).
/// Used for intermediate activations during inference.
#[derive(Debug, Clone)]
pub struct OwningTensor {
    data: Vec<u8>,
    pub dtype: GGMLType,
    pub shape: Vec<usize>,
    pub strides: Vec<usize>,
}

/// The arguments on which `OwningTensor::new` can build its tensor: a
/// scalar layout, and sizes that fit in `usize`.
pub open spec fn new_tensor_fits(dtype: GGMLType, shape: Seq<usize>) -> bool {
    &&& is_scalar_type(dtype)
    &&& strides_fit(shape)
    &&& shape_product(shape) * spec_block_bytes(dtype).unwrap() <= usize::MAX
}

impl OwningTensor {
    /// The tensor's bytes.
    pub closed spec fn bytes(&self) -> Seq<u8> {
        self.data@
    }

    /// The layout of the tensor's elements.
    pub closed spec fn layout(&self) -> GGMLType {
        self.dtype
    }

    /// The tensor's dimensions.
    pub closed spec fn dims(&self) -> Seq<usize> {
        self.shape@
    }

    /// The tensor's strides.
    pub closed spec fn steps(&self) -> Seq<usize> {
        self.strides@
    }

    /// A zero-filled tensor of a scalar layout and the given shape.
    pub fn new(dtype: GGMLType, shape: Vec<usize>) -> (r: Self)
        requires
            new_tensor_fits(dtype, shape@),
        ensures
            r.bytes() == Seq::new(
                (shape_product(shape@) * spec_block_bytes(dtype).unwrap()) as nat,
                |i: int| 0u8,
            ),
            r.layout() == dtype,
            r.dims() == shape@,
            r.steps() == default_strides(shape@),
    {
        let strides = compute_default_strides(&shape);
        let numel = product(&shape);
        let bytes_per_element = dtype.bytes_per_element();
        proof {
            lemma_shape_product_nonneg(shape@);
            vstd::arithmetic::mul::lemma_mul_nonnegative(numel as int, bytes_per_element as int);
        }
        let size_bytes = numel * bytes_per_element;
        let data = vec![0u8; size_bytes];
        proof {
            assert(data@ =~= Seq::new(size_bytes as nat, |i: int| 0u8));
        }
        Self { data, dtype, shape, strides }
    }

    /// A zero-filled F32 tensor of the given shape.
    pub fn zeros_f32(shape: Vec<usize>) -> (r: Self)
        requires
            new_tensor_fits(GGMLType::F32, shape@),
        ensures
            r.bytes() == Seq::new((shape_product(shape@) * 4) as nat, |i: int| 0u8),
            r.layout() == GGMLType::F32,
            r.dims() == shape@,
            r.steps() == default_strides(shape@),
    {
        Self::new(GGMLType::F32, shape)
    }

    /// The tensor's bytes, for writing.
    pub fn data_mut(&mut self) -> (r: &mut [u8])
        ensures
            r@ == old(self).bytes(),
            final(self).bytes() == final(r)@,
            final(self).layout() == old(self).layout(),
            final(self).dims() == old(self).dims(),
            final(self).steps() == old(self).steps(),
    {
        self.data.as_mut_slice()
    }

    /// The tensor's bytes.
    pub fn data(&self) -> (r: &[u8])
        ensures
            r@ == self.bytes(),
    {
        self.data.as_slice()
    }

    /// Reshapes to a new F32 shape, reusing the allocation: bytes up to the
    /// new size are kept, and growth is zero-filled.
    pub fn resize_f32(&mut self, shape: Vec<usize>)
        requires
            new_tensor_fits(GGMLType::F32, shape@),
        ensures
            ({
                let n = shape_product(shape@) * 4;
                let old_bytes = old(self).bytes();
                &&& final(self).bytes().len() == n
                &&& forall|i: int|
                    0 <= i < n ==> #[trigger] final(self).bytes()[i] == if i < old_bytes.len() {
                        old_bytes[i]
                    } else {
                        0u8
                    }
            }),
            final(self).layout() == GGMLType::F32,
            final(self).dims() == shape@,
            final(self).steps() == default_strides(shape@),
    {
        let numel = product(&shape);
        proof {
            lemma_shape_product_nonneg(shape@);
        }
        let ghost old_bytes = self.data@;
        self.data.resize(numel * GGMLType::F32.bytes_per_element(), 0);
        proof {
            assert forall|i: int| 0 <= i < self.data@.len() implies #[trigger] self.data@[i] == if i
                < old_bytes.len() {
                old_bytes[i]
            } else {
                0u8
            } by {
                if i < old_bytes.len() && self.data@.len() > old_bytes.len() {
                    assert(self.data@.subrange(0, old_bytes.len() as int)[i] == self.data@[i]);
                }
            }
        }
        self.strides = compute_default_strides(&shape);
        self.shape = shape;
        self.dtype = GGMLType::F32;
    }
}

/// The element count of `shape`.
fn product(shape: &Vec<usize>) -> (r: usize)
    requires
        strides_fit(shape@),
    ensures
        r == shape_product(shape@),
{
    let n = shape.len();
    let mut acc: usize = 1;
    let mut dim = n;
    proof {
        assert(shape@.subrange(n as int, n as int) =~= Seq::<usize>::empty());
    }
    while dim > 0
        invariant
            n == shape@.len(),
            dim <= n,
            strides_fit(shape@),
            acc == shape_product(shape@.subrange(dim as int, n as int)),
        decreases dim,
    {
        dim = dim - 1;
        proof {
            let tail = shape@.subrange(dim as int, n as int);
            assert(tail.drop_first() =~= shape@.subrange(dim + 1, n as int));
            assert(shape_product(tail) <= usize::MAX);
        }
        acc = shape[dim] * acc;
    }
    proof {
        assert(shape@.subrange(0, n as int) =~= shape@);
    }
    acc
}

} // verus!
