use vstd::prelude::*;

use crate::file_parser::binary_reader_common::{read_step, value_of, ByteReader, ReadError, ReadErrorModel, ReadResult};
use crate::file_parser::gguf_header::{
    header_at, header_fields, lemma_header_layout, spec_read_header, GGUFHeader,
};
use crate::file_parser::gguf_metadata::{spec_read_metadata, GGUFMetadata};
use crate::file_parser::gguf_metadata_value::ValueModel;
use crate::file_parser::gguf_tensor_info::{spec_read_tensor_map, GGUFTensorsInfo, TensorInfoModel};

verus! {

/// Tensor data starts at the first multiple of this many bytes after the
/// tensor directory.
pub const GGUF_DEFAULT_ALIGNMENT: u64 = 32;

/// The first multiple of the alignment at or after `p`.
pub open spec fn align_up(p: int) -> int {
    (p + 31) - (p + 31) % 32
}

/// `align_up` is the least multiple of 32 that is at least `p`.
pub proof fn lemma_align_up(p: int)
    requires
        0 <= p,
    ensures
        align_up(p) % 32 == 0,
        p <= align_up(p) < p + 32,
        p % 32 == 0 ==> align_up(p) == p,
{
}

/// What a whole file's front matter holds: the header fields, the metadata
/// map, the tensor directory, and the offset of the tensor data.
pub type FileModel = (
    (u32, u32, u64, u64),
    Map<Seq<char>, ValueModel>,
    Map<Seq<char>, TensorInfoModel>,
    int,
);

/// Header, then metadata entries, then directory entries, as many as the
/// header declares; the tensor data starts at the next aligned offset.
pub open spec fn spec_read_file(data: Seq<u8>, pos: int) -> ReadResult<FileModel> {
    match spec_read_header(data, pos) {
        Err(e) => Err(e),
        Ok((h, p1)) => match spec_read_metadata(data, p1, (h.3 as usize) as nat) {
            Err(e) => Err(e),
            Ok((m, p2)) => match spec_read_tensor_map(data, p2, (h.2 as usize) as nat) {
                Err(e) => Err(e),
                Ok((t, p3)) => Ok(((h, m, t, align_up(p3)), p3)),
            },
        },
    }
}

/// The parsed front matter of a GGUF file. The tensor bytes themselves stay
/// in the buffer the file was read from.
#[derive(Debug)]
pub struct GGUFFile {
    pub header: GGUFHeader,
    pub metadata: GGUFMetadata,
    pub tensor_info: GGUFTensorsInfo,
    pub tensor_data_offset: u64,
}

/// The content of a front-matter read, or its error.
pub open spec fn file_parts(
    res: Result<(GGUFHeader, GGUFMetadata, GGUFTensorsInfo, u64), ReadError>,
) -> Result<FileModel, ReadErrorModel> {
    match res {
        Ok((h, m, t, off)) => Ok(
            (
                (h.magic, h.gguf_version, h.tensor_count, h.metadata_kv_count),
                m@,
                t@,
                off as int,
            ),
        ),
        Err(e) => Err(e@),
    }
}

/// The content of a parsed file, or the error.
pub open spec fn file_result(res: Result<GGUFFile, ReadError>) -> Result<FileModel, ReadErrorModel> {
    match res {
        Ok(f) => Ok(
            (
                (
                    f.header.magic,
                    f.header.gguf_version,
                    f.header.tensor_count,
                    f.header.metadata_kv_count,
                ),
                f.metadata@,
                f.tensor_info@,
                f.tensor_data_offset as int,
            ),
        ),
        Err(e) => Err(e@),
    }
}

/// How a parsed file lies in its bytes: the header is the first 24 bytes;
/// the metadata follows, with as many entries as the header's metadata
/// count; the tensor directory follows that, with as many entries as the
/// header's tensor count; and the tensor data starts at the first multiple
/// of 32 after the directory.
pub open spec fn file_layout(data: Seq<u8>, f: GGUFFile) -> bool {
    &&& header_at(data, 0, f.header)
    &&& match spec_read_metadata(data, 24, (f.header.metadata_kv_count as usize) as nat) {
        Ok((m, p2)) => m == f.metadata@ && match spec_read_tensor_map(
            data,
            p2,
            (f.header.tensor_count as usize) as nat,
        ) {
            Ok((t, p3)) => t == f.tensor_info@ && f.tensor_data_offset == align_up(p3),
            Err(_) => false,
        },
        Err(_) => false,
    }
}

impl GGUFFile {
    /// Reads the header, the metadata and the tensor directory, and works
    /// out where the tensor data starts.
    pub fn read_from(r: &mut ByteReader) -> (res: Result<
        (GGUFHeader, GGUFMetadata, GGUFTensorsInfo, u64),
        ReadError,
    >)
        requires
            old(r).bytes().len() <= isize::MAX,
        ensures
            file_parts(res) == value_of(spec_read_file(old(r).bytes(), old(r).position())),
            read_step(*old(r), *final(r), spec_read_file(old(r).bytes(), old(r).position())),
    {
        let header = GGUFHeader::read_from(r)?;
        let metadata = GGUFMetadata::read_from(r, header.metadata_kv_count as usize)?;
        let tensor_info = GGUFTensorsInfo::read_from(r, header.tensor_count as usize)?;
        let current_pos = r.stream_position() as u64;
        let mask: u64 = GGUF_DEFAULT_ALIGNMENT - 1;
        let bumped = current_pos + mask;
        let tensor_data_offset = bumped & !mask;
        proof {
            assert(bumped & !mask == bumped - bumped % 32) by (bit_vector)
                requires
                    mask == 31u64,
            ;
        }
        Ok((header, metadata, tensor_info, tensor_data_offset))
    }

    /// Parses the front matter of a whole GGUF file held in `bytes`.
    pub fn from_bytes(bytes: &[u8]) -> (res: Result<GGUFFile, ReadError>)
        requires
            bytes@.len() <= isize::MAX,
        ensures
            file_result(res) == value_of(spec_read_file(bytes@, 0)),
            res matches Ok(f) ==> file_layout(bytes@, f),
    {
        proof {
            lemma_header_layout(bytes@, 0);
        }
        let mut reader = ByteReader::new(bytes);
        let (header, metadata, tensor_info, tensor_data_offset) = Self::read_from(&mut reader)?;
        Ok(GGUFFile { header, metadata, tensor_info, tensor_data_offset })
    }
}

} // verus!
