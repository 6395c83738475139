use squirrel_rs::file_parser::binary_reader_common::{
    read_bool, read_i16, read_i32, read_i64, read_i8, read_str, read_u16, read_u32, read_u64,
    read_u8, ByteReader, ReadError,
};
use squirrel_rs::file_parser::ggml_type::GGMLType;
use squirrel_rs::file_parser::gguf_file::GGUFFile;
use squirrel_rs::file_parser::gguf_header::GGUFHeader;
use squirrel_rs::file_parser::gguf_metadata::GGUFMetadata;
use squirrel_rs::file_parser::gguf_metadata_value::{GGUFType, GGUFValue};
use squirrel_rs::file_parser::gguf_tensor_info::{Error, GGUFTensorsInfo};

fn put_u32(b: &mut Vec<u8>, v: u32) {
    b.extend_from_slice(&v.to_le_bytes());
}

fn put_u64(b: &mut Vec<u8>, v: u64) {
    b.extend_from_slice(&v.to_le_bytes());
}

fn put_str(b: &mut Vec<u8>, s: &str) {
    put_u64(b, s.len() as u64);
    b.extend_from_slice(s.as_bytes());
}

#[test]
fn reads_little_endian_integers() {
    let bytes = [
        0x01, 0x34, 0x12, 0x78, 0x56, 0x34, 0x12, 0xEF, 0xCD, 0xAB, 0x89, 0x67, 0x45, 0x23,
    ];
    let mut r = ByteReader::new(&bytes);
    assert_eq!(read_u8(&mut r), Ok(1));
    assert_eq!(read_u16(&mut r), Ok(0x1234));
    assert_eq!(read_u32(&mut r), Ok(0x1234_5678));
    assert_eq!(read_u64(&mut r), Err(ReadError::UnexpectedEof));
    assert_eq!(r.stream_position(), bytes.len());
}

#[test]
fn reads_u64_exactly() {
    let bytes = 0x0123_4567_89AB_CDEFu64.to_le_bytes();
    let mut r = ByteReader::new(&bytes);
    assert_eq!(read_u64(&mut r), Ok(0x0123_4567_89AB_CDEF));
    assert_eq!(r.stream_position(), 8);
}

#[test]
fn reads_signed_integers() {
    let mut bytes = Vec::new();
    bytes.push(0xFF);
    bytes.extend_from_slice(&(-2i16).to_le_bytes());
    bytes.extend_from_slice(&(-70000i32).to_le_bytes());
    bytes.extend_from_slice(&i64::MIN.to_le_bytes());
    bytes.push(0x7F);
    let mut r = ByteReader::new(&bytes);
    assert_eq!(read_i8(&mut r), Ok(-1));
    assert_eq!(read_i16(&mut r), Ok(-2));
    assert_eq!(read_i32(&mut r), Ok(-70000));
    assert_eq!(read_i64(&mut r), Ok(i64::MIN));
    assert_eq!(read_i8(&mut r), Ok(127));
}

#[test]
fn bool_must_be_zero_or_one() {
    let bytes = [0u8, 1, 2];
    let mut r = ByteReader::new(&bytes);
    assert_eq!(read_bool(&mut r), Ok(false));
    assert_eq!(read_bool(&mut r), Ok(true));
    assert_eq!(read_bool(&mut r), Err(ReadError::InvalidBool(2)));
}

#[test]
fn reads_strings_and_rejects_bad_utf8() {
    let mut bytes = Vec::new();
    put_str(&mut bytes, "héllo");
    put_u64(&mut bytes, 2);
    bytes.extend_from_slice(&[0xC3, 0x28]);
    let mut r = ByteReader::new(&bytes);
    assert_eq!(read_str(&mut r).unwrap(), "héllo");
    assert_eq!(read_str(&mut r), Err(ReadError::InvalidUtf8));
}

#[test]
fn truncated_string_is_eof() {
    let mut bytes = Vec::new();
    put_u64(&mut bytes, 10);
    bytes.extend_from_slice(b"abc");
    let mut r = ByteReader::new(&bytes);
    assert_eq!(read_str(&mut r), Err(ReadError::UnexpectedEof));
}

#[test]
fn ggml_type_ids_round_trip() {
    for raw in 0u32..64 {
        if let Some(t) = GGMLType::from_id(raw) {
            assert_eq!(t.id(), raw);
        }
    }
    assert_eq!(GGMLType::from_id(8), Some(GGMLType::Q8_0));
    assert_eq!(GGMLType::from_id(30), Some(GGMLType::BF16));
    assert_eq!(GGMLType::from_id(4), None);
    assert_eq!(GGMLType::from_id(39), Some(GGMLType::MXFP4));
}

#[test]
fn block_sizes_of_supported_layouts() {
    assert_eq!(GGMLType::F32.block_size(), Some(1));
    assert_eq!(GGMLType::BF16.block_size(), Some(1));
    assert_eq!(GGMLType::Q8_0.block_size(), Some(32));
    assert_eq!(GGMLType::Q4_0.block_size(), Some(32));
    assert_eq!(GGMLType::Q6_K.block_size(), None);
    assert_eq!(GGMLType::F32.block_bytes(), Some(4));
    assert_eq!(GGMLType::BF16.block_bytes(), Some(2));
    assert_eq!(GGMLType::Q8_0.block_bytes(), Some(34));
    assert_eq!(GGMLType::Q4_0.block_bytes(), Some(18));
    assert_eq!(GGMLType::F16.block_bytes(), None);
    assert_eq!(GGMLType::F32.bytes_per_element(), 4);
    assert_eq!(GGMLType::BF16.bytes_per_element(), 2);
}

#[test]
fn gguf_type_ids_round_trip() {
    for raw in 0u32..20 {
        match GGUFType::from_id(raw) {
            Some(t) => assert_eq!(t.id(), raw),
            None => assert!(raw > 12),
        }
    }
}

#[test]
fn header_fields_in_order() {
    let mut bytes = Vec::new();
    bytes.extend_from_slice(b"GGUF");
    put_u32(&mut bytes, 3);
    put_u64(&mut bytes, 201);
    put_u64(&mut bytes, 29);
    let mut r = ByteReader::new(&bytes);
    let h = GGUFHeader::read_from(&mut r).unwrap();
    assert_eq!(h.magic, u32::from_le_bytes(*b"GGUF"));
    assert_eq!(h.gguf_version, 3);
    assert_eq!(h.tensor_count, 201);
    assert_eq!(h.metadata_kv_count, 29);
    assert_eq!(r.stream_position(), 24);
}

#[test]
fn short_header_is_eof() {
    let bytes = [0u8; 20];
    let mut r = ByteReader::new(&bytes);
    assert!(matches!(GGUFHeader::read_from(&mut r), Err(ReadError::UnexpectedEof)));
}

#[test]
fn reads_array_of_u16() {
    let mut bytes = Vec::new();
    put_u32(&mut bytes, 2);
    put_u64(&mut bytes, 2);
    bytes.extend_from_slice(&7u16.to_le_bytes());
    bytes.extend_from_slice(&9u16.to_le_bytes());
    let mut r = ByteReader::new(&bytes);
    let v = GGUFValue::read_from(&mut r, GGUFType::Array).unwrap();
    assert_eq!(r.stream_position(), bytes.len());
    let GGUFValue::Array(items) = v else { panic!("not an array") };
    assert!(matches!(items[..], [GGUFValue::U16(7), GGUFValue::U16(9)]));
}

#[test]
fn reads_array_of_arrays() {
    let mut bytes = Vec::new();
    put_u32(&mut bytes, 9); // element type: array
    put_u64(&mut bytes, 2);
    put_u32(&mut bytes, 4); // u32 elements
    put_u64(&mut bytes, 2);
    put_u32(&mut bytes, 10);
    put_u32(&mut bytes, 11);
    put_u32(&mut bytes, 7); // bool elements
    put_u64(&mut bytes, 1);
    bytes.push(1);
    let mut r = ByteReader::new(&bytes);
    let v = GGUFValue::read_from(&mut r, GGUFType::Array).unwrap();
    assert_eq!(r.stream_position(), bytes.len());
    let GGUFValue::Array(outer) = v else { panic!("not an array") };
    assert_eq!(outer.len(), 2);
    let GGUFValue::Array(first) = &outer[0] else { panic!("not an array") };
    assert!(matches!(first[..], [GGUFValue::U32(10), GGUFValue::U32(11)]));
    let GGUFValue::Array(second) = &outer[1] else { panic!("not an array") };
    assert!(matches!(second[..], [GGUFValue::Bool(true)]));
}

#[test]
fn invalid_array_type_is_rejected() {
    let mut bytes = Vec::new();
    put_u32(&mut bytes, 13);
    put_u64(&mut bytes, 0);
    let mut r = ByteReader::new(&bytes);
    assert!(matches!(
        GGUFValue::read_from(&mut r, GGUFType::Array),
        Err(ReadError::InvalidArrayType(13))
    ));
}

#[test]
fn float_values_keep_their_bits() {
    let mut bytes = Vec::new();
    bytes.extend_from_slice(&1.5f32.to_bits().to_le_bytes());
    bytes.extend_from_slice(&(-2.25f64).to_bits().to_le_bytes());
    let mut r = ByteReader::new(&bytes);
    match GGUFValue::read_from(&mut r, GGUFType::F32).unwrap() {
        GGUFValue::F32(bits) => assert_eq!(f32::from_bits(bits), 1.5),
        other => panic!("unexpected {other:?}"),
    }
    match GGUFValue::read_from(&mut r, GGUFType::F64).unwrap() {
        GGUFValue::F64(bits) => assert_eq!(f64::from_bits(bits), -2.25),
        other => panic!("unexpected {other:?}"),
    }
}

fn kv_u32(b: &mut Vec<u8>, key: &str, v: u32) {
    put_str(b, key);
    put_u32(b, 4);
    put_u32(b, v);
}

#[test]
fn metadata_later_key_wins() {
    let mut bytes = Vec::new();
    kv_u32(&mut bytes, "a", 1);
    put_str(&mut bytes, "name");
    put_u32(&mut bytes, 8);
    put_str(&mut bytes, "llama");
    kv_u32(&mut bytes, "a", 2);
    let mut r = ByteReader::new(&bytes);
    let m = GGUFMetadata::read_from(&mut r, 3).unwrap();
    assert_eq!(m.metadata.len(), 2);
    assert!(matches!(m.metadata.get("a"), Some(GGUFValue::U32(2))));
    match m.metadata.get("name") {
        Some(GGUFValue::String(s)) => assert_eq!(s, "llama"),
        other => panic!("unexpected {other:?}"),
    }
    assert!(m.metadata.get("missing").is_none());
}

#[test]
fn metadata_invalid_value_type() {
    let mut bytes = Vec::new();
    put_str(&mut bytes, "k");
    put_u32(&mut bytes, 42);
    let mut r = ByteReader::new(&bytes);
    assert!(matches!(
        GGUFMetadata::read_from(&mut r, 1),
        Err(ReadError::InvalidValueType(42))
    ));
}

fn tensor_entry(b: &mut Vec<u8>, name: &str, dims: &[u64], ty: u32, offset: u64) {
    put_str(b, name);
    put_u32(b, dims.len() as u32);
    for &d in dims {
        put_u64(b, d);
    }
    put_u32(b, ty);
    put_u64(b, offset);
}

#[test]
fn tensor_directory_and_sizes() {
    let mut bytes = Vec::new();
    tensor_entry(&mut bytes, "w", &[64, 3], 8, 0);
    tensor_entry(&mut bytes, "n", &[5], 0, 256);
    tensor_entry(&mut bytes, "k", &[10], 14, 512);
    let mut r = ByteReader::new(&bytes);
    let t = GGUFTensorsInfo::read_from(&mut r, 3).unwrap();
    let w = t.tensors_map.get("w").unwrap();
    assert_eq!(w.n_dimensions, 2);
    assert_eq!(w.dimensions, vec![64, 3]);
    assert_eq!(w.numel, 192);
    assert_eq!(w.ggml_type, GGMLType::Q8_0);
    assert_eq!(w.tensor_bytes_size(), Ok(6 * 34));
    let n = t.tensors_map.get("n").unwrap();
    assert_eq!(n.offset, 256);
    assert_eq!(n.tensor_bytes_size(), Ok(20));
    let k = t.tensors_map.get("k").unwrap();
    assert_eq!(k.tensor_bytes_size(), Err(Error::UnsupportedQuantScheme(GGMLType::Q6_K)));
}

#[test]
fn partial_block_is_unsupported() {
    let mut bytes = Vec::new();
    tensor_entry(&mut bytes, "odd", &[40], 2, 0);
    let mut r = ByteReader::new(&bytes);
    let t = GGUFTensorsInfo::read_from(&mut r, 1).unwrap();
    let odd = t.tensors_map.get("odd").unwrap();
    assert_eq!(odd.tensor_bytes_size(), Err(Error::UnsupportedQuantScheme(GGMLType::Q4_0)));
}

#[test]
fn unknown_ggml_type_in_directory() {
    let mut bytes = Vec::new();
    tensor_entry(&mut bytes, "x", &[1], 5, 0);
    let mut r = ByteReader::new(&bytes);
    match GGUFTensorsInfo::read_from(&mut r, 1) {
        Err(ReadError::UnknownGgmlType { id, tensor }) => {
            assert_eq!(id, 5);
            assert_eq!(tensor, "x");
        }
        other => panic!("unexpected {other:?}"),
    }
}

#[test]
fn numel_wraps_like_the_release_product() {
    let mut bytes = Vec::new();
    tensor_entry(&mut bytes, "big", &[1u64 << 40, 1u64 << 30], 0, 0);
    let mut r = ByteReader::new(&bytes);
    let t = GGUFTensorsInfo::read_from(&mut r, 1).unwrap();
    assert_eq!(t.tensors_map.get("big").unwrap().numel, (1u64 << 40).wrapping_mul(1u64 << 30));
}

#[test]
fn whole_file_and_data_alignment() {
    let mut bytes = Vec::new();
    bytes.extend_from_slice(b"GGUF");
    put_u32(&mut bytes, 3);
    put_u64(&mut bytes, 1);
    put_u64(&mut bytes, 1);
    kv_u32(&mut bytes, "general.alignment", 32);
    tensor_entry(&mut bytes, "t", &[4], 0, 0);
    let end = bytes.len() as u64;
    let f = GGUFFile::from_bytes(&bytes).unwrap();
    assert_eq!(f.header.tensor_count, 1);
    assert!(f.tensor_data_offset % 32 == 0);
    assert!(f.tensor_data_offset >= end && f.tensor_data_offset < end + 32);
    assert_eq!(f.tensor_data_offset, (end + 31) / 32 * 32);
    assert!(f.tensor_info.tensors_map.get("t").is_some());
}

#[test]
fn aligned_end_is_kept() {
    // 24-byte header, no entries: the directory ends at 24, aligned to 32.
    let mut bytes = Vec::new();
    bytes.extend_from_slice(b"GGUF");
    put_u32(&mut bytes, 3);
    put_u64(&mut bytes, 0);
    put_u64(&mut bytes, 0);
    let f = GGUFFile::from_bytes(&bytes).unwrap();
    assert_eq!(f.tensor_data_offset, 32);
    let mut bytes8 = bytes.clone();
    bytes8.extend_from_slice(&[0u8; 8]);
    let mut r = ByteReader::new(&bytes8);
    let (_, _, _, off) = GGUFFile::read_from(&mut r).unwrap();
    assert_eq!(off, 32);
}

#[test]
fn failed_reads_leave_the_reader_past_what_they_read() {
    // An invalid bool consumes its byte.
    let bytes = [2u8, 1];
    let mut r = ByteReader::new(&bytes);
    assert_eq!(read_bool(&mut r), Err(ReadError::InvalidBool(2)));
    assert_eq!(r.stream_position(), 1);
    assert_eq!(read_bool(&mut r), Ok(true));

    // A string that is not UTF-8 consumes its length and its bytes.
    let mut s = Vec::new();
    s.extend_from_slice(&2u64.to_le_bytes());
    s.extend_from_slice(&[0xff, 0xfe, 7]);
    let mut r = ByteReader::new(&s);
    assert_eq!(read_str(&mut r), Err(ReadError::InvalidUtf8));
    assert_eq!(r.stream_position(), 10);
    assert_eq!(read_u8(&mut r), Ok(7));

    // A short read stops at the end of the buffer.
    let short = [1u8, 2, 3];
    let mut r = ByteReader::new(&short);
    assert_eq!(read_u32(&mut r), Err(ReadError::UnexpectedEof));
    assert_eq!(r.stream_position(), 3);
}

#[test]
fn read_str_reads_length_then_bytes() {
    let bytes = [2u8, 0, 0, 0, 0, 0, 0, 0, b'h', b'i'];
    let mut r = ByteReader::new(&bytes);
    assert_eq!(read_str(&mut r), Ok("hi".to_string()));
    assert_eq!(r.stream_position(), 10);
}

#[test]
fn layouts_print_their_names() {
    assert_eq!(GGMLType::F32.name(), "F32");
    assert_eq!(GGMLType::Q8_0.name(), "Q8_0");
    assert_eq!(GGMLType::IQ2_XXS.name(), "IQ2_XXS");
    assert_eq!(GGMLType::BF16.name(), "BF16");
    assert_eq!(GGMLType::MXFP4.name(), "MXFP4");
}
