use vstd::prelude::*;

use crate::file_parser::binary_reader_common::{
    le_u32, le_u64, read_step, read_str, read_u32, read_u64, spec_read_str, spec_read_u32,
    spec_read_u64, value_of, ByteReader, ReadError, ReadErrorModel, ReadResult,
};
use crate::file_parser::ggml_type::{ggml_type_of, spec_block_bytes, spec_block_size, GGMLType};
use crate::file_parser::str_map::{assoc_map, StrMap};

verus! {

/// Why a tensor's storage cannot be used.
#[derive(Debug, Clone, Copy, PartialEq, Eq, Structural)]
pub enum Error {
    /// The layout has no known block size, or the element count is not a
    /// whole number of blocks.
    UnsupportedQuantScheme(GGMLType),
}

/// One entry of the tensor directory.
#[derive(Debug)]
pub struct GGUFTensorInfo {
    pub name: String,
    pub n_dimensions: u32,
    pub dimensions: Vec<u64>,
    pub ggml_type: GGMLType,
    pub offset: u64,
    pub numel: u64,
}

/// The content of a tensor directory entry.
pub struct TensorInfoModel {
    pub name: Seq<char>,
    pub n_dimensions: u32,
    pub dimensions: Seq<u64>,
    pub ggml_type: GGMLType,
    pub offset: u64,
    pub numel: u64,
}

impl View for GGUFTensorInfo {
    type V = TensorInfoModel;

    open spec fn view(&self) -> TensorInfoModel {
        TensorInfoModel {
            name: self.name@,
            n_dimensions: self.n_dimensions,
            dimensions: self.dimensions@,
            ggml_type: self.ggml_type,
            offset: self.offset,
            numel: self.numel,
        }
    }
}

/// The product of `dims`, wrapping around at 2^64.
///
/// Overflow elsewhere in this library is left out by `requires`, as a
/// build with overflow checks would panic there. The element count and
/// the byte size of a tensor are the exception: they are computed from the
/// file while it is parsed, where no caller can rule the overflow out
/// beforehand, so they wrap, as the build without overflow checks does.
pub open spec fn wrapping_product(dims: Seq<u64>) -> u64
    decreases dims.len(),
{
    if dims.len() == 0 {
        1
    } else {
        wrapping_product(dims.drop_last()).wrapping_mul(dims.last())
    }
}

/// `n` consecutive `u64` values.
pub open spec fn spec_read_u64s(data: Seq<u8>, pos: int, n: nat) -> ReadResult<Seq<u64>>
    decreases n,
{
    if n == 0 {
        Ok((Seq::empty(), pos))
    } else {
        match spec_read_u64s(data, pos, (n - 1) as nat) {
            Err(e) => Err(e),
            Ok((vs, p)) => match spec_read_u64(data, p) {
                Err(e) => Err(e),
                Ok((v, q)) => Ok((vs.push(v), q)),
            },
        }
    }
}

/// Once reading the first `n` values fails, reading more fails the same way.
pub proof fn lemma_read_u64s_err(data: Seq<u8>, pos: int, n: nat, m: nat)
    requires
        n <= m,
        spec_read_u64s(data, pos, n) is Err,
    ensures
        spec_read_u64s(data, pos, m) == spec_read_u64s(data, pos, n),
    decreases m,
{
    if m > n {
        lemma_read_u64s_err(data, pos, n, (m - 1) as nat);
    }
}

/// One directory entry: name, dimension count, dimensions, layout id,
/// offset into the tensor data.
pub open spec fn spec_read_tensor_info(data: Seq<u8>, pos: int) -> ReadResult<TensorInfoModel> {
    match spec_read_str(data, pos) {
        Err(e) => Err(e),
        Ok((name, p1)) => match spec_read_u32(data, p1) {
            Err(e) => Err(e),
            Ok((n, p2)) => match spec_read_u64s(data, p2, n as nat) {
                Err(e) => Err(e),
                Ok((dims, p3)) => match spec_read_u32(data, p3) {
                    Err(e) => Err(e),
                    Ok((raw, p4)) => match ggml_type_of(raw) {
                        None => Err((ReadErrorModel::UnknownGgmlType { id: raw, tensor: name }, p4)),
                        Some(t) => match spec_read_u64(data, p4) {
                            Err(e) => Err(e),
                            Ok((offset, p5)) => Ok(
                                (
                                    TensorInfoModel {
                                        name,
                                        n_dimensions: n,
                                        dimensions: dims,
                                        ggml_type: t,
                                        offset,
                                        numel: wrapping_product(dims),
                                    },
                                    p5,
                                ),
                            ),
                        },
                    },
                },
            },
        },
    }
}

/// `count` directory entries in file order.
pub open spec fn spec_read_tensor_infos(data: Seq<u8>, pos: int, count: nat) -> ReadResult<
    Seq<TensorInfoModel>,
>
    decreases count,
{
    if count == 0 {
        Ok((Seq::empty(), pos))
    } else {
        match spec_read_tensor_infos(data, pos, (count - 1) as nat) {
            Err(e) => Err(e),
            Ok((ts, p)) => match spec_read_tensor_info(data, p) {
                Err(e) => Err(e),
                Ok((t, q)) => Ok((ts.push(t), q)),
            },
        }
    }
}

/// Once reading the first `n` entries fails, reading more fails the same way.
pub proof fn lemma_read_tensor_infos_err(data: Seq<u8>, pos: int, n: nat, m: nat)
    requires
        n <= m,
        spec_read_tensor_infos(data, pos, n) is Err,
    ensures
        spec_read_tensor_infos(data, pos, m) == spec_read_tensor_infos(data, pos, n),
    decreases m,
{
    if m > n {
        lemma_read_tensor_infos_err(data, pos, n, (m - 1) as nat);
    }
}

/// `n` `u64` values read from `pos` are the little-endian words at
/// `pos`, `pos + 8`, ..., and the read ends after the last of them.
pub proof fn lemma_read_u64s_layout(data: Seq<u8>, pos: int, n: nat)
    ensures
        spec_read_u64s(data, pos, n) matches Ok((vs, q)) ==> {
            &&& vs.len() == n
            &&& q == pos + 8 * n
            &&& forall|k: int|
                0 <= k < n ==> #[trigger] vs[k] == le_u64(data.subrange(pos + 8 * k, pos + 8 * k + 8))
        },
    decreases n,
{
    if n > 0 {
        lemma_read_u64s_layout(data, pos, (n - 1) as nat);
        if let Ok((vs, q)) = spec_read_u64s(data, pos, n) {
            if let Ok((ps, p)) = spec_read_u64s(data, pos, (n - 1) as nat) {
                assert(vs == ps.push(vs.last()));
                assert forall|k: int| 0 <= k < n implies #[trigger] vs[k] == le_u64(
                    data.subrange(pos + 8 * k, pos + 8 * k + 8),
                ) by {
                    if k < n - 1 {
                        assert(vs[k] == ps[k]);
                    }
                }
            }
        }
    }
}

/// A directory entry is laid out as: the name (a length-prefixed string),
/// the dimension count as a little-endian `u32`, that many little-endian
/// `u64` dimensions, the layout id as a `u32`, and the data offset as a
/// `u64`; the element count is the (wrapping) product of the dimensions.
pub proof fn lemma_tensor_info_layout(data: Seq<u8>, pos: int)
    ensures
        spec_read_tensor_info(data, pos) matches Ok((t, p)) ==> spec_read_str(data, pos) matches Ok(
            (name, p1),
        ) && {
            let q = p1 + 4 + 8 * t.n_dimensions;
            &&& name == t.name
            &&& t.n_dimensions == le_u32(data.subrange(p1, p1 + 4))
            &&& t.dimensions.len() == t.n_dimensions
            &&& forall|k: int|
                0 <= k < t.n_dimensions ==> #[trigger] t.dimensions[k] == le_u64(
                    data.subrange(p1 + 4 + 8 * k, p1 + 4 + 8 * k + 8),
                )
            &&& ggml_type_of(le_u32(data.subrange(q, q + 4)) as u32) == Some(t.ggml_type)
            &&& t.offset == le_u64(data.subrange(q + 4, q + 12))
            &&& p == q + 12
            &&& t.numel == wrapping_product(t.dimensions)
        },
{
    if let Ok((t, p)) = spec_read_tensor_info(data, pos) {
        if let Ok((name, p1)) = spec_read_str(data, pos) {
            if let Ok((n, p2)) = spec_read_u32(data, p1) {
                lemma_read_u64s_layout(data, p2, n as nat);
            }
        }
    }
}

/// Directory entries keyed by name.
pub open spec fn by_name(ts: Seq<TensorInfoModel>) -> Seq<(Seq<char>, TensorInfoModel)> {
    Seq::new(ts.len(), |i: int| (ts[i].name, ts[i]))
}

/// The directory map of a run of entries read, or the error.
pub open spec fn spec_read_tensor_map(data: Seq<u8>, pos: int, count: nat) -> ReadResult<
    Map<Seq<char>, TensorInfoModel>,
> {
    match spec_read_tensor_infos(data, pos, count) {
        Ok((ts, p)) => Ok((assoc_map(by_name(ts)), p)),
        Err(e) => Err(e),
    }
}

/// Bytes taken by `numel` elements of layout `t`: whole blocks only, the
/// product wrapping around at 2^64 (see `wrapping_product`).
pub open spec fn spec_tensor_bytes_size(t: GGMLType, numel: u64) -> Result<u64, Error> {
    match (spec_block_size(t), spec_block_bytes(t)) {
        (Some(bs), Some(bb)) => if numel % (bs as u64) != 0 {
            Err(Error::UnsupportedQuantScheme(t))
        } else {
            Ok((numel / (bs as u64)).wrapping_mul(bb as u64))
        },
        _ => Err(Error::UnsupportedQuantScheme(t)),
    }
}

/// The byte size of a tensor is its element count in whole blocks: it is
/// defined exactly for the layouts with a block size and a count that is a
/// whole number of blocks, and then, when no wrapping occurs, `size` bytes
/// hold `numel` elements at the layout's rate: `size * block_size ==
/// numel * block_bytes`.
pub proof fn lemma_tensor_bytes_size(t: GGMLType, numel: u64)
    ensures
        spec_tensor_bytes_size(t, numel) is Ok <==> (spec_block_size(t) matches Some(bs) && spec_block_bytes(t) is Some
            && numel % (bs as u64) == 0),
        spec_tensor_bytes_size(t, numel) matches Ok(size) ==> {
            let bs = spec_block_size(t)->0 as int;
            let bb = spec_block_bytes(t)->0 as int;
            (numel / (bs as u64)) * bb <= u64::MAX ==> size * bs == numel * bb
        },
{
    if let (Some(bs), Some(bb)) = (spec_block_size(t), spec_block_bytes(t)) {
        let q = numel / (bs as u64);
        if numel % (bs as u64) == 0 && q * bb <= u64::MAX {
            assert(q * bs == numel) by {
                vstd::arithmetic::div_mod::lemma_fundamental_div_mod(numel as int, bs as int);
            }
            assert(q * bb * bs == numel * bb) by (nonlinear_arith)
                requires
                    q * bs == numel,
            ;
        }
    }
}

impl GGUFTensorInfo {
    fn read_from(r: &mut ByteReader) -> (res: Result<GGUFTensorInfo, ReadError>)
        ensures
            viewed_info(res) == value_of(spec_read_tensor_info(old(r).bytes(), old(r).position())),
            read_step(*old(r), *final(r), spec_read_tensor_info(old(r).bytes(), old(r).position())),
    {
        let ghost data = r.bytes();
        let ghost pos0 = r.position();
        let name = read_str(r)?;
        let ghost p1 = r.position();
        let n_dimensions = read_u32(r)?;
        let ghost p2 = r.position();
        let mut dimensions: Vec<u64> = Vec::new();
        let mut numel: u64 = 1;
        let mut k: u32 = 0;
        while k < n_dimensions
            invariant
                r.bytes() == data,
                data == old(r).bytes(),
                pos0 == old(r).position(),
                spec_read_str(data, pos0) == Ok::<(Seq<char>, int), (ReadErrorModel, int)>((name@, p1)),
                spec_read_u32(data, p1) == Ok::<(u32, int), (ReadErrorModel, int)>((n_dimensions, p2)),
                k <= n_dimensions,
                spec_read_u64s(data, p2, k as nat) == Ok::<(Seq<u64>, int), (ReadErrorModel, int)>(
                    (dimensions@, r.position()),
                ),
                numel == wrapping_product(dimensions@),
            decreases n_dimensions - k,
        {
            let dim = match read_u64(r) {
                Ok(d) => d,
                Err(e) => {
                    proof {
                        lemma_read_u64s_err(data, p2, (k + 1) as nat, n_dimensions as nat);
                    }
                    return Err(e);
                },
            };
            let ghost before = dimensions@;
            dimensions.push(dim);
            numel = numel.wrapping_mul(dim);
            proof {
                assert(dimensions@.drop_last() =~= before);
            }
            k = k + 1;
        }
        let raw = read_u32(r)?;
        let ggml_type = match GGMLType::from_id(raw) {
            Some(t) => t,
            None => return Err(ReadError::UnknownGgmlType { id: raw, tensor: name }),
        };
        let offset = read_u64(r)?;
        Ok(GGUFTensorInfo { name, n_dimensions, dimensions, offset, ggml_type, numel })
    }

    /// Bytes of tensor data this entry takes.
    pub fn tensor_bytes_size(&self) -> (r: Result<u64, Error>)
        ensures
            r == spec_tensor_bytes_size(self.ggml_type, self.numel),
    {
        let block_size = match self.ggml_type.block_size() {
            Some(b) => b as u64,
            None => return Err(Error::UnsupportedQuantScheme(self.ggml_type)),
        };
        let block_bytes = match self.ggml_type.block_bytes() {
            Some(b) => b as u64,
            None => return Err(Error::UnsupportedQuantScheme(self.ggml_type)),
        };
        if self.numel % block_size != 0 {
            return Err(Error::UnsupportedQuantScheme(self.ggml_type));
        }
        Ok((self.numel / block_size).wrapping_mul(block_bytes))
    }
}

/// The content of a directory entry read, or the error.
pub open spec fn viewed_info(res: Result<GGUFTensorInfo, ReadError>) -> Result<
    TensorInfoModel,
    ReadErrorModel,
> {
    match res {
        Ok(t) => Ok(t@),
        Err(e) => Err(e@),
    }
}

/// The tensor directory: entries keyed by tensor name.
#[derive(Debug)]
pub struct GGUFTensorsInfo {
    pub tensors_map: StrMap<GGUFTensorInfo>,
}

impl View for GGUFTensorsInfo {
    type V = Map<Seq<char>, TensorInfoModel>;

    open spec fn view(&self) -> Map<Seq<char>, TensorInfoModel> {
        self.tensors_map@
    }
}

/// The map of a directory read, or its error.
pub open spec fn tensors_result(res: Result<GGUFTensorsInfo, ReadError>) -> Result<
    Map<Seq<char>, TensorInfoModel>,
    ReadErrorModel,
> {
    match res {
        Ok(t) => Ok(t@),
        Err(e) => Err(e@),
    }
}

impl GGUFTensorsInfo {
    /// Reads `count` directory entries. A name that occurs again replaces
    /// the earlier entry.
    pub fn read_from(r: &mut ByteReader, count: usize) -> (res: Result<GGUFTensorsInfo, ReadError>)
        ensures
            tensors_result(res) == value_of(
                spec_read_tensor_map(old(r).bytes(), old(r).position(), count as nat),
            ),
            read_step(
                *old(r),
                *final(r),
                spec_read_tensor_map(old(r).bytes(), old(r).position(), count as nat),
            ),
    {
        proof {
            use_type_invariant(&*r);
        }
        let ghost data = r.bytes();
        let ghost pos0 = r.position();
        let mut tensors_map: StrMap<GGUFTensorInfo> = StrMap::new();
        let ghost mut ts: Seq<TensorInfoModel> = Seq::empty();
        let mut i: usize = 0;
        proof {
            assert(by_name(ts) =~= Seq::<(Seq<char>, TensorInfoModel)>::empty());
        }
        while i < count
            invariant
                r.bytes() == data,
                data == old(r).bytes(),
                pos0 == old(r).position(),
                i <= count,
                spec_read_tensor_infos(data, pos0, i as nat) == Ok::<
                    (Seq<TensorInfoModel>, int),
                    (ReadErrorModel, int),
                >((ts, r.position())),
                tensors_map@ == assoc_map(by_name(ts)),
            decreases count - i,
        {
            let tensor = match GGUFTensorInfo::read_from(r) {
                Ok(t) => t,
                Err(e) => {
                    proof {
                        lemma_read_tensor_infos_err(data, pos0, (i + 1) as nat, count as nat);
                    }
                    return Err(e);
                },
            };
            let ghost old_ts = ts;
            proof {
                ts = ts.push(tensor@);
                assert(by_name(ts).drop_last() =~= by_name(old_ts));
            }
            tensors_map.insert(tensor.name.clone(), tensor);
            i = i + 1;
        }
        Ok(GGUFTensorsInfo { tensors_map })
    }
}

} // verus!
