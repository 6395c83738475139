use squirrel_rs::file_parser::binary_reader_common::ByteReader;
use squirrel_rs::file_parser::ggml_type::GGMLType;
use squirrel_rs::file_parser::gguf_tensor_info::{Error, GGUFTensorsInfo};
use squirrel_rs::kernels::tensor::{from_info_fits, strides_fit_check, NonOwningTensor, OwningTensor};

fn put_u32(b: &mut Vec<u8>, v: u32) {
    b.extend_from_slice(&v.to_le_bytes());
}

fn put_u64(b: &mut Vec<u8>, v: u64) {
    b.extend_from_slice(&v.to_le_bytes());
}

fn directory(entries: &[(&str, &[u64], u32, u64)]) -> GGUFTensorsInfo {
    let mut b = Vec::new();
    for (name, dims, ty, off) in entries {
        put_u64(&mut b, name.len() as u64);
        b.extend_from_slice(name.as_bytes());
        put_u32(&mut b, dims.len() as u32);
        for &d in dims.iter() {
            put_u64(&mut b, d);
        }
        put_u32(&mut b, *ty);
        put_u64(&mut b, *off);
    }
    let mut r = ByteReader::new(&b);
    GGUFTensorsInfo::read_from(&mut r, entries.len()).unwrap()
}

#[test]
fn owning_tensor_is_zeroed_with_row_major_strides() {
    let t = OwningTensor::new(GGMLType::F32, vec![2, 3, 4]);
    assert_eq!(t.data().len(), 2 * 3 * 4 * 4);
    assert!(t.data().iter().all(|&b| b == 0));
    assert_eq!(t.shape, vec![2, 3, 4]);
    assert_eq!(t.strides, vec![12, 4, 1]);
    assert_eq!(t.dtype, GGMLType::F32);
    let b = OwningTensor::new(GGMLType::BF16, vec![5]);
    assert_eq!(b.data().len(), 10);
    assert_eq!(b.strides, vec![1]);
}

#[test]
fn zeros_f32_of_empty_shape_holds_one_element() {
    let t = OwningTensor::zeros_f32(vec![]);
    assert_eq!(t.data().len(), 4);
    assert!(t.strides.is_empty());
}

#[test]
fn resize_keeps_prefix_and_zero_fills() {
    let mut t = OwningTensor::zeros_f32(vec![1, 2]);
    t.data_mut()[0] = 7;
    t.data_mut()[7] = 9;
    t.resize_f32(vec![3, 2]);
    assert_eq!(t.data().len(), 24);
    assert_eq!(t.data()[0], 7);
    assert_eq!(t.data()[7], 9);
    assert!(t.data()[8..].iter().all(|&b| b == 0));
    assert_eq!(t.shape, vec![3, 2]);
    assert_eq!(t.strides, vec![2, 1]);
    t.resize_f32(vec![1, 1]);
    assert_eq!(t.data().len(), 4);
    assert_eq!(t.data()[0], 7);
}

#[test]
fn borrowed_tensor_views_its_bytes() {
    let dir = directory(&[("w", &[32, 2], 8, 4), ("n", &[3], 0, 0)]);
    let mmap: Vec<u8> = (0..200u32).map(|i| i as u8).collect();
    let w = dir.tensors_map.get("w").unwrap();
    assert!(from_info_fits(mmap.len(), w, 64));
    let t = NonOwningTensor::from_info(&mmap, w, 64).unwrap();
    assert_eq!(t.data.len(), 68);
    assert_eq!(t.data[0], 68);
    assert_eq!(t.shape, vec![32, 2]);
    assert_eq!(t.strides, vec![2, 1]);
    assert_eq!(t.dtype, GGMLType::Q8_0);
    let n = dir.tensors_map.get("n").unwrap();
    let t = NonOwningTensor::from_info(&mmap, n, 0).unwrap();
    assert_eq!(t.data, &mmap[0..12]);
}

#[test]
fn out_of_range_tensor_is_detected_before_slicing() {
    let dir = directory(&[("w", &[32, 2], 8, 150)]);
    let mmap = vec![0u8; 200];
    let w = dir.tensors_map.get("w").unwrap();
    assert!(!from_info_fits(mmap.len(), w, 0));
    assert!(!from_info_fits(mmap.len(), w, u64::MAX));
}

#[test]
fn unsupported_layout_is_an_error() {
    let dir = directory(&[("k", &[256], 14, 0)]);
    let mmap = vec![0u8; 1024];
    let k = dir.tensors_map.get("k").unwrap();
    assert!(from_info_fits(mmap.len(), k, 0));
    assert!(matches!(
        NonOwningTensor::from_info(&mmap, k, 0),
        Err(Error::UnsupportedQuantScheme(GGMLType::Q6_K))
    ));
}

#[test]
fn stride_overflow_is_detected() {
    assert!(strides_fit_check(&vec![3, 4, 5]));
    assert!(!strides_fit_check(&vec![2, usize::MAX]));
    assert!(!strides_fit_check(&vec![0, usize::MAX, 2]));
    assert!(strides_fit_check(&vec![usize::MAX]));
}
