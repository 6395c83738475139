use vstd::prelude::*;

use crate::file_parser::binary_reader_common::{
    le_u32, le_u64, read_step, read_u32, read_u64, spec_read_u32, spec_read_u64, value_of,
    ByteReader, ReadError, ReadErrorModel, ReadResult,
};

verus! {

/// The fixed-size header at the start of a GGUF file.
#[derive(Debug)]
pub struct GGUFHeader {
    /// The magic number the file starts with.
    pub magic: u32,
    pub gguf_version: u32,
    pub tensor_count: u64,
    pub metadata_kv_count: u64,
}

/// The header's four fields in file order: magic, version, tensor count,
/// metadata entry count.
pub open spec fn spec_read_header(data: Seq<u8>, pos: int) -> ReadResult<(u32, u32, u64, u64)> {
    match spec_read_u32(data, pos) {
        Err(e) => Err(e),
        Ok((magic, p1)) => match spec_read_u32(data, p1) {
            Err(e) => Err(e),
            Ok((version, p2)) => match spec_read_u64(data, p2) {
                Err(e) => Err(e),
                Ok((tensors, p3)) => match spec_read_u64(data, p3) {
                    Err(e) => Err(e),
                    Ok((kvs, p4)) => Ok(((magic, version, tensors, kvs), p4)),
                },
            },
        },
    }
}

/// The header's fields, or the error, of a header read.
pub open spec fn header_fields(res: Result<GGUFHeader, ReadError>) -> Result<
    (u32, u32, u64, u64),
    ReadErrorModel,
> {
    match res {
        Ok(h) => Ok((h.magic, h.gguf_version, h.tensor_count, h.metadata_kv_count)),
        Err(e) => Err(e@),
    }
}

/// `h` holds the 24 header bytes at `pos`, little-endian: the magic in
/// bytes 0..4, the version in 4..8, the tensor count in 8..16 and the
/// metadata entry count in 16..24.
pub open spec fn header_at(data: Seq<u8>, pos: int, h: GGUFHeader) -> bool {
    &&& 0 <= pos && pos + 24 <= data.len()
    &&& h.magic == le_u32(data.subrange(pos, pos + 4))
    &&& h.gguf_version == le_u32(data.subrange(pos + 4, pos + 8))
    &&& h.tensor_count == le_u64(data.subrange(pos + 8, pos + 16))
    &&& h.metadata_kv_count == le_u64(data.subrange(pos + 16, pos + 24))
}

/// The header is the 24 bytes at its position: a header read succeeds
/// exactly when they are there, ends right after them, and reads each
/// field from its own bytes.
pub proof fn lemma_header_layout(data: Seq<u8>, pos: int)
    ensures
        spec_read_header(data, pos) is Ok <==> 0 <= pos && pos + 24 <= data.len(),
        spec_read_header(data, pos) matches Ok((f, p)) ==> {
            &&& p == pos + 24
            &&& f.0 == le_u32(data.subrange(pos, pos + 4))
            &&& f.1 == le_u32(data.subrange(pos + 4, pos + 8))
            &&& f.2 == le_u64(data.subrange(pos + 8, pos + 16))
            &&& f.3 == le_u64(data.subrange(pos + 16, pos + 24))
        },
{
}

impl GGUFHeader {
    /// Reads the four header fields. The magic number and the version are
    /// taken as they are.
    pub fn read_from(reader: &mut ByteReader) -> (res: Result<GGUFHeader, ReadError>)
        ensures
            header_fields(res) == value_of(
                spec_read_header(old(reader).bytes(), old(reader).position()),
            ),
            read_step(
                *old(reader),
                *final(reader),
                spec_read_header(old(reader).bytes(), old(reader).position()),
            ),
            res matches Ok(h) ==> header_at(old(reader).bytes(), old(reader).position(), h),
    {
        let magic = read_u32(reader)?;
        let gguf_version = read_u32(reader)?;
        let tensor_count = read_u64(reader)?;
        let metadata_kv_count = read_u64(reader)?;
        Ok(GGUFHeader { magic, gguf_version, tensor_count, metadata_kv_count })
    }
}

} // verus!
