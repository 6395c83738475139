use squirrel_rs::file_parser::ggml_type::GGMLType;
use squirrel_rs::kernels::kernel_error::KernelError;
use squirrel_rs::kernels::tensor::NonOwningTensor;
use squirrel_rs::ops::embedding::{embed_output_fits, plan_embed, token_rows_in_table};
use squirrel_rs::ops::linear::{plan_linear, plan_linear_shared};
use squirrel_rs::perplexity::plan_windows;
use squirrel_rs::ops::rms_norm::{plan_rms_norm, plan_rms_norm_inplace};
use squirrel_rs::ops::rope::plan_rope_rows;
use squirrel_rs::ops::sdpa::plan_sdpa_cached;
use squirrel_rs::ops::shape::same_shape;

fn weight(data: &[u8], dtype: GGMLType, shape: Vec<usize>) -> NonOwningTensor<'_> {
    let strides = vec![shape[1], 1];
    NonOwningTensor { data, dtype, shape, strides }
}

#[test]
fn shapes_compare_by_every_dimension() {
    assert!(same_shape(&[2, 3], &[2, 3]));
    assert!(!same_shape(&[2, 3], &[3, 2]));
    assert!(!same_shape(&[2, 3], &[2, 3, 1]));
    assert!(same_shape(&[], &[]));
}

#[test]
fn linear_plan_reads_m_in_out() {
    assert_eq!(plan_linear(&[3, 64], &[64, 10], &[3, 10]), Ok((3, 64, 10)));
    assert_eq!(plan_linear(&[3, 64], &[32, 10], &[3, 10]), Err(KernelError::ShapeMismatch));
    assert_eq!(plan_linear(&[3, 64], &[64, 10], &[3, 11]), Err(KernelError::ShapeMismatch));
    assert_eq!(plan_linear(&[3, 64], &[64, 10], &[2, 10]), Err(KernelError::ShapeMismatch));
    assert_eq!(plan_linear(&[192], &[64, 10], &[3, 10]), Err(KernelError::ShapeMismatch));
}

#[test]
fn shared_plan_quantizes_q8_and_q4_unless_forced() {
    let bytes = [0u8; 4];
    let q = weight(&bytes, GGMLType::Q8_0, vec![64, 8]);
    let k = weight(&bytes, GGMLType::Q8_0, vec![64, 4]);
    let outs: [&[usize]; 2] = [&[2, 8], &[2, 4]];
    let p = plan_linear_shared(&[2, 64], &[&q, &k], &outs, false).unwrap();
    assert_eq!((p.m, p.in_dim, p.dtype, p.int_acts), (2, 64, GGMLType::Q8_0, true));
    let p = plan_linear_shared(&[2, 64], &[&q, &k], &outs, true).unwrap();
    assert!(!p.int_acts);

    let b = weight(&bytes, GGMLType::BF16, vec![64, 8]);
    let p = plan_linear_shared(&[2, 64], &[&b], &[&[2, 8]], false).unwrap();
    assert!(!p.int_acts);
}

#[test]
fn shared_plan_errors() {
    let bytes = [0u8; 4];
    let q = weight(&bytes, GGMLType::Q8_0, vec![64, 8]);
    let v = weight(&bytes, GGMLType::Q4_0, vec![64, 8]);
    // No weights at all, and a missing output.
    assert_eq!(plan_linear_shared(&[2, 64], &[], &[], false), Err(KernelError::ShapeMismatch));
    assert_eq!(plan_linear_shared(&[2, 64], &[&q], &[], false), Err(KernelError::ShapeMismatch));
    // Input width not a multiple of 32.
    assert_eq!(
        plan_linear_shared(&[2, 48], &[&q], &[&[2, 8]], false),
        Err(KernelError::ShapeMismatch)
    );
    // Output of the wrong shape.
    assert_eq!(
        plan_linear_shared(&[2, 64], &[&q], &[&[1, 8]], false),
        Err(KernelError::ShapeMismatch)
    );
    // Mixed layouts.
    assert_eq!(
        plan_linear_shared(&[2, 64], &[&q, &v], &[&[2, 8], &[2, 8]], false),
        Err(KernelError::InvalidType)
    );
}

#[test]
fn rms_norm_plan_uses_last_axis() {
    assert_eq!(plan_rms_norm(&[4, 16], &[16], &[4, 16]), Ok(16));
    assert_eq!(plan_rms_norm(&[4, 16], &[4], &[4, 16]), Err(KernelError::ShapeMismatch));
    assert_eq!(plan_rms_norm(&[4, 16], &[16], &[16, 4]), Err(KernelError::ShapeMismatch));
    assert_eq!(plan_rms_norm(&[], &[16], &[]), Err(KernelError::ShapeMismatch));
    assert_eq!(plan_rms_norm_inplace(&[2, 3, 8], &[8]), Ok(8));
    assert_eq!(plan_rms_norm_inplace(&[2, 3, 8], &[8, 1]), Err(KernelError::ShapeMismatch));
}

#[test]
fn rope_plan_rows_of_whole_heads() {
    // [seq=3, heads=4, head_dim=8]: rows of 32 values, 4 frequencies.
    assert_eq!(plan_rope_rows(&[3, 4, 8], 4), Ok((3, 32)));
    assert_eq!(plan_rope_rows(&[3, 4, 8], 0), Err(KernelError::ShapeMismatch));
    assert_eq!(plan_rope_rows(&[], 4), Err(KernelError::ShapeMismatch));
    assert_eq!(plan_rope_rows(&[3, 12], 4), Err(KernelError::ShapeMismatch));
}

#[test]
fn cached_attention_plan_counts_tokens() {
    // 2 query tokens of 4 heads x 8, 5 cached positions of 2 kv heads x 8.
    assert_eq!(plan_sdpa_cached(64, 80, 80, 64, 4, 2, 8), Ok((2, 5)));
    assert_eq!(plan_sdpa_cached(64, 80, 80, 64, 4, 0, 8), Err(KernelError::ShapeMismatch));
    assert_eq!(plan_sdpa_cached(64, 80, 64, 64, 4, 2, 8), Err(KernelError::ShapeMismatch));
    assert_eq!(plan_sdpa_cached(60, 80, 80, 60, 4, 2, 8), Err(KernelError::ShapeMismatch));
    assert_eq!(plan_sdpa_cached(64, 80, 80, 64, 0, 2, 8), Err(KernelError::ShapeMismatch));
}

#[test]
fn embed_plan_whole_blocks_and_room() {
    assert_eq!(plan_embed(&[64, 100], 32), Ok(2));
    assert_eq!(plan_embed(&[48, 100], 32), Err(KernelError::ShapeMismatch));
    assert_eq!(embed_output_fits(3, 64, 192), Ok(()));
    assert_eq!(embed_output_fits(3, 64, 200), Ok(()));
    assert_eq!(embed_output_fits(3, 64, 191), Err(KernelError::InvalidType));
    // 100 tokens of 2 blocks each: 200 blocks.
    assert!(token_rows_in_table(&[0, 99, 5], 2, 200));
    assert!(!token_rows_in_table(&[0, 100], 2, 200));
    assert!(token_rows_in_table(&[], 2, 0));
}

#[test]
fn perplexity_windows() {
    let p = plan_windows(1000, 512, 0);
    assert_eq!((p.per_window, p.n_windows_total, p.n_windows, p.burn), (511, 1, 1, 256));
    let p = plan_windows(10_000, 4, 0);
    assert_eq!((p.per_window, p.n_windows_total, p.n_windows, p.burn), (3, 3333, 3333, 2));
    let p = plan_windows(10_000, 4, 10);
    assert_eq!(p.n_windows, 10);
    let p = plan_windows(10, 512, 5);
    assert_eq!((p.n_windows_total, p.n_windows), (0, 0));
}
