use squirrel_rs::kernels::attention::plan_sdpa;
use squirrel_rs::kernels::kernel_error::KernelError;
use squirrel_rs::kernels::matmul::{validate_fused_shapes, validate_shapes};
use squirrel_rs::kernels::quant::{dot_q8_block, dot_q8_q4_block, unpack_q4};

#[test]
fn rejects_bad_group_ratio() {
    // n_heads=3, n_kv_heads=2 — not evenly divisible.
    assert_eq!(plan_sdpa(6, 6, 6, 6, 1, 1, 3, 2, 2), Err(KernelError::ShapeMismatch));
    assert_eq!(plan_sdpa(6, 6, 6, 6, 1, 1, 3, 0, 2), Err(KernelError::ShapeMismatch));
}

#[test]
fn attention_plan_for_decode_and_prefill() {
    let p = plan_sdpa(8, 4 * 2 * 2, 4 * 2 * 2, 8, 1, 4, 4, 2, 2).unwrap();
    assert_eq!(p.offset, 3);
    assert_eq!(p.group_size, 2);
    let p = plan_sdpa(4, 4, 4, 4, 2, 2, 1, 1, 2).unwrap();
    assert_eq!(p.offset, 0);
    // more queries than keys
    assert_eq!(plan_sdpa(4, 2, 2, 4, 2, 1, 1, 1, 2), Err(KernelError::ShapeMismatch));
    // output of the wrong size
    assert_eq!(plan_sdpa(4, 4, 4, 3, 2, 2, 1, 1, 2), Err(KernelError::ShapeMismatch));
}

#[test]
fn rejects_mismatched_shapes() {
    // a_cols claimed larger than the activations actually hold.
    assert_eq!(validate_fused_shapes(64, 1, 96, &vec![(8, 4, 4)]), Err(KernelError::ShapeMismatch));
    assert_eq!(validate_fused_shapes(64, 1, 64, &vec![(8, 4, 4)]), Ok(2));
    assert_eq!(validate_fused_shapes(64, 1, 64, &vec![(8, 4, 4), (6, 3, 3), (2, 5, 5)]),
        Err(KernelError::ShapeMismatch));
}

#[test]
fn rejects_non_block_multiple_cols() {
    assert_eq!(validate_fused_shapes(40, 1, 40, &vec![(4, 2, 2)]), Err(KernelError::ShapeMismatch));
    assert_eq!(validate_shapes(40, 4, 2, 1, 40, 40, 2), Err(KernelError::ShapeMismatch));
}

#[test]
fn matmul_single_projection_shapes() {
    assert_eq!(validate_shapes(2 * 128, 6 * 4, 2 * 6, 2, 128, 128, 6), Ok(4));
    assert_eq!(validate_shapes(2 * 128, 6 * 4, 2 * 6, 2, 128, 96, 6), Err(KernelError::ShapeMismatch));
    assert_eq!(validate_shapes(2 * 128, 5 * 4, 2 * 6, 2, 128, 128, 6), Err(KernelError::ShapeMismatch));
}

#[test]
fn q4_nibbles_unpack_low_then_high() {
    let mut qs = [0u8; 16];
    for (i, q) in qs.iter_mut().enumerate() {
        *q = (((i % 16) as u8) << 4) | ((15 - i % 16) as u8);
    }
    let w = unpack_q4(&qs);
    for j in 0..16 {
        assert_eq!(w[j] as i32, (qs[j] & 0x0F) as i32 - 8);
        assert_eq!(w[j + 16] as i32, (qs[j] >> 4) as i32 - 8);
    }
    assert_eq!(w[0], 7);
    assert_eq!(w[16], -8);
}

#[test]
fn q4_int_dot_exact_on_integers() {
    let mut qs = [0u8; 16];
    for (i, q) in qs.iter_mut().enumerate() {
        *q = (((i % 16) as u8) << 4) | ((15 - i % 16) as u8);
    }
    let mut a_qs = [0i8; 32];
    for (i, a) in a_qs.iter_mut().enumerate() {
        *a = (i as i8) - 16;
    }
    let mut expected = 0i32;
    for j in 0..16 {
        let lo = (qs[j] & 0x0F) as i32 - 8;
        let hi = (qs[j] >> 4) as i32 - 8;
        expected += a_qs[j] as i32 * lo + a_qs[j + 16] as i32 * hi;
    }
    assert_eq!(dot_q8_q4_block(&a_qs, &qs), expected);
}

#[test]
fn q8_int_dot_extremes() {
    let a = [-128i8; 32];
    let b = [-128i8; 32];
    assert_eq!(dot_q8_block(&a, &b), 32 * 16384);
    let c = [127i8; 32];
    assert_eq!(dot_q8_block(&a, &c), -32 * 128 * 127);
    let mut d = [0i8; 32];
    d[5] = 3;
    let mut e = [0i8; 32];
    e[5] = -4;
    e[6] = 100;
    assert_eq!(dot_q8_block(&d, &e), -12);
}
