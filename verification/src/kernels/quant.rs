use vstd::prelude::*;

verus! {

/// Elements in one quantized block (Q8_0 and Q4_0 alike).
pub const QK: usize = 32;

/// Weight `j` of a packed Q4_0 block: byte `j` holds weight `j` in its low
/// nibble and weight `j + 16` in its high nibble; a nibble `q` encodes
/// `q - 8`.
pub open spec fn q4_weight(qs: Seq<u8>, j: int) -> int {
    if j < 16 {
        (qs[j] % 16) - 8
    } else {
        (qs[j - 16] / 16) - 8
    }
}

/// `sum_{j < n} a[j] * b[j]`.
pub open spec fn dot_prefix(a: Seq<int>, b: Seq<int>, n: int) -> int
    decreases n,
{
    if n <= 0 {
        0
    } else {
        dot_prefix(a, b, n - 1) + a[n - 1] * b[n - 1]
    }
}

/// The values of an `i8` sequence as integers.
pub open spec fn ints_i8(s: Seq<i8>) -> Seq<int> {
    Seq::new(s.len(), |j: int| s[j] as int)
}

/// The 32 weights that a packed Q4_0 block encodes.
pub open spec fn q4_weights(qs: Seq<u8>) -> Seq<int> {
    Seq::new(32, |j: int| q4_weight(qs, j))
}

/// Packing the weights back gives the block's bytes: byte `j` is weight `j`
/// plus 8 in its low nibble and weight `j + 16` plus 8 in its high nibble,
/// every weight lying in `[-8, 7]`.
pub proof fn lemma_q4_repack(qs: Seq<u8>, j: int)
    requires
        qs.len() == 16,
        0 <= j < 16,
    ensures
        -8 <= q4_weight(qs, j) <= 7,
        -8 <= q4_weight(qs, j + 16) <= 7,
        (q4_weight(qs, j) + 8) + 16 * (q4_weight(qs, j + 16) + 8) == qs[j],
{
    let b = qs[j] as int;
    vstd::arithmetic::div_mod::lemma_fundamental_div_mod(b, 16);
}

/// The low nibble of a byte, and the high one.
proof fn lemma_nibbles(b: u8)
    ensures
        b & 0x0F == b % 16,
        b >> 4 == b / 16,
{
    assert(b & 0x0F == b % 16) by (bit_vector);
    assert(b >> 4 == b / 16) by (bit_vector);
}

/// A partial dot product of values of magnitude at most 128 stays within
/// `n * 128 * 128`.
proof fn lemma_dot_prefix_bound(a: Seq<int>, b: Seq<int>, n: int)
    requires
        0 <= n <= a.len(),
        n <= b.len(),
        forall|j: int| 0 <= j < n ==> -128 <= #[trigger] a[j] <= 128,
        forall|j: int| 0 <= j < n ==> -128 <= #[trigger] b[j] <= 128,
    ensures
        -(n * 16384) <= dot_prefix(a, b, n) <= n * 16384,
    decreases n,
{
    if n > 0 {
        lemma_dot_prefix_bound(a, b, n - 1);
        let x = a[n - 1];
        let y = b[n - 1];
        assert(-16384 <= x * y <= 16384) by (nonlinear_arith)
            requires
                -128 <= x <= 128,
                -128 <= y <= 128,
        ;
    }
}

/// The weights of a packed Q4_0 block, unpacked to one `i8` per weight in
/// `[-8, 7]`.
pub fn unpack_q4(qs: &[u8; 16]) -> (w: [i8; 32])
    ensures
        forall|j: int| 0 <= j < 32 ==> #[trigger] w@[j] as int == q4_weight(qs@, j),
{
    let mut w: [i8; 32] = [0; 32];
    let mut j: usize = 0;
    while j < 16
        invariant
            j <= 16,
            forall|i: int| 0 <= i < j ==> #[trigger] w@[i] as int == q4_weight(qs@, i),
            forall|i: int|
                16 <= i < 16 + j ==> #[trigger] w@[i] as int == q4_weight(qs@, i),
        decreases 16 - j,
    {
        let byte = qs[j];
        proof {
            lemma_nibbles(byte);
        }
        w[j] = ((byte & 0x0F) as i8) - 8;
        w[j + 16] = ((byte >> 4) as i8) - 8;
        j = j + 1;
    }
    w
}

/// Integer dot product of two Q8_0 blocks' quants.
pub fn dot_q8_block(a: &[i8; 32], b: &[i8; 32]) -> (r: i32)
    ensures
        r as int == dot_prefix(ints_i8(a@), ints_i8(b@), 32),
{
    let mut isum: i32 = 0;
    let mut j: usize = 0;
    while j < 32
        invariant
            j <= 32,
            isum as int == dot_prefix(ints_i8(a@), ints_i8(b@), j as int),
        decreases 32 - j,
    {
        proof {
            lemma_dot_prefix_bound(ints_i8(a@), ints_i8(b@), j as int);
            let x = a@[j as int] as int;
            let y = b@[j as int] as int;
            assert(-16384 <= x * y <= 16384) by (nonlinear_arith)
                requires
                    -128 <= x <= 127,
                    -128 <= y <= 127,
            ;
        }
        isum = isum + (a[j] as i32) * (b[j] as i32);
        j = j + 1;
    }
    isum
}

/// Integer dot product of a Q8_0 block's quants with a packed Q4_0 block's
/// weights.
pub fn dot_q8_q4_block(a: &[i8; 32], qs: &[u8; 16]) -> (r: i32)
    ensures
        r as int == dot_prefix(ints_i8(a@), q4_weights(qs@), 32),
{
    let w = unpack_q4(qs);
    let ghost ws = q4_weights(qs@);
    proof {
        assert(ints_i8(w@) =~= ws);
    }
    dot_q8_block(a, &w)
}

} // verus!
