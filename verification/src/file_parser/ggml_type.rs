use vstd::prelude::*;

verus! {

/// Tensor element layouts that a GGUF file may declare.
///
/// Each variant carries a numeric id in the file format; see
/// [`ggml_type_id`] for the table.
#[allow(non_camel_case_types)]
#[derive(Debug, Clone, Copy, PartialEq, Eq, Structural)]
pub enum GGMLType {
    F32,
    F16,
    Q4_0,
    Q4_1,
    Q5_0,
    Q5_1,
    Q8_0,
    Q8_1,
    Q2_K,
    Q3_K,
    Q4_K,
    Q5_K,
    Q6_K,
    Q8_K,
    IQ2_XXS,
    IQ2_XS,
    IQ3_XXS,
    IQ1_S,
    IQ4_NL,
    IQ3_S,
    IQ2_S,
    IQ4_XS,
    I8,
    I16,
    I32,
    I64,
    F64,
    IQ1_M,
    BF16,
    TQ1_0,
    TQ2_0,
    MXFP4,
}

/// The name of each layout: its variant's name, as the format's tools
/// print it.
pub open spec fn ggml_type_name(t: GGMLType) -> Seq<char> {
    match t {
        GGMLType::F32 => "F32"@,
        GGMLType::F16 => "F16"@,
        GGMLType::Q4_0 => "Q4_0"@,
        GGMLType::Q4_1 => "Q4_1"@,
        GGMLType::Q5_0 => "Q5_0"@,
        GGMLType::Q5_1 => "Q5_1"@,
        GGMLType::Q8_0 => "Q8_0"@,
        GGMLType::Q8_1 => "Q8_1"@,
        GGMLType::Q2_K => "Q2_K"@,
        GGMLType::Q3_K => "Q3_K"@,
        GGMLType::Q4_K => "Q4_K"@,
        GGMLType::Q5_K => "Q5_K"@,
        GGMLType::Q6_K => "Q6_K"@,
        GGMLType::Q8_K => "Q8_K"@,
        GGMLType::IQ2_XXS => "IQ2_XXS"@,
        GGMLType::IQ2_XS => "IQ2_XS"@,
        GGMLType::IQ3_XXS => "IQ3_XXS"@,
        GGMLType::IQ1_S => "IQ1_S"@,
        GGMLType::IQ4_NL => "IQ4_NL"@,
        GGMLType::IQ3_S => "IQ3_S"@,
        GGMLType::IQ2_S => "IQ2_S"@,
        GGMLType::IQ4_XS => "IQ4_XS"@,
        GGMLType::I8 => "I8"@,
        GGMLType::I16 => "I16"@,
        GGMLType::I32 => "I32"@,
        GGMLType::I64 => "I64"@,
        GGMLType::F64 => "F64"@,
        GGMLType::IQ1_M => "IQ1_M"@,
        GGMLType::BF16 => "BF16"@,
        GGMLType::TQ1_0 => "TQ1_0"@,
        GGMLType::TQ2_0 => "TQ2_0"@,
        GGMLType::MXFP4 => "MXFP4"@,
    }
}

/// The numeric id of each layout in the file format.
pub open spec fn ggml_type_id(t: GGMLType) -> u32 {
    match t {
        GGMLType::F32 => 0,
        GGMLType::F16 => 1,
        GGMLType::Q4_0 => 2,
        GGMLType::Q4_1 => 3,
        GGMLType::Q5_0 => 6,
        GGMLType::Q5_1 => 7,
        GGMLType::Q8_0 => 8,
        GGMLType::Q8_1 => 9,
        GGMLType::Q2_K => 10,
        GGMLType::Q3_K => 11,
        GGMLType::Q4_K => 12,
        GGMLType::Q5_K => 13,
        GGMLType::Q6_K => 14,
        GGMLType::Q8_K => 15,
        GGMLType::IQ2_XXS => 16,
        GGMLType::IQ2_XS => 17,
        GGMLType::IQ3_XXS => 18,
        GGMLType::IQ1_S => 19,
        GGMLType::IQ4_NL => 20,
        GGMLType::IQ3_S => 21,
        GGMLType::IQ2_S => 22,
        GGMLType::IQ4_XS => 23,
        GGMLType::I8 => 24,
        GGMLType::I16 => 25,
        GGMLType::I32 => 26,
        GGMLType::I64 => 27,
        GGMLType::F64 => 28,
        GGMLType::IQ1_M => 29,
        GGMLType::BF16 => 30,
        GGMLType::TQ1_0 => 34,
        GGMLType::TQ2_0 => 35,
        GGMLType::MXFP4 => 39,
    }
}

/// The layout that a numeric id denotes, if any.
pub open spec fn ggml_type_of(raw: u32) -> Option<GGMLType> {
    if raw == 0 { Some(GGMLType::F32) }
    else if raw == 1 { Some(GGMLType::F16) }
    else if raw == 2 { Some(GGMLType::Q4_0) }
    else if raw == 3 { Some(GGMLType::Q4_1) }
    else if raw == 6 { Some(GGMLType::Q5_0) }
    else if raw == 7 { Some(GGMLType::Q5_1) }
    else if raw == 8 { Some(GGMLType::Q8_0) }
    else if raw == 9 { Some(GGMLType::Q8_1) }
    else if raw == 10 { Some(GGMLType::Q2_K) }
    else if raw == 11 { Some(GGMLType::Q3_K) }
    else if raw == 12 { Some(GGMLType::Q4_K) }
    else if raw == 13 { Some(GGMLType::Q5_K) }
    else if raw == 14 { Some(GGMLType::Q6_K) }
    else if raw == 15 { Some(GGMLType::Q8_K) }
    else if raw == 16 { Some(GGMLType::IQ2_XXS) }
    else if raw == 17 { Some(GGMLType::IQ2_XS) }
    else if raw == 18 { Some(GGMLType::IQ3_XXS) }
    else if raw == 19 { Some(GGMLType::IQ1_S) }
    else if raw == 20 { Some(GGMLType::IQ4_NL) }
    else if raw == 21 { Some(GGMLType::IQ3_S) }
    else if raw == 22 { Some(GGMLType::IQ2_S) }
    else if raw == 23 { Some(GGMLType::IQ4_XS) }
    else if raw == 24 { Some(GGMLType::I8) }
    else if raw == 25 { Some(GGMLType::I16) }
    else if raw == 26 { Some(GGMLType::I32) }
    else if raw == 27 { Some(GGMLType::I64) }
    else if raw == 28 { Some(GGMLType::F64) }
    else if raw == 29 { Some(GGMLType::IQ1_M) }
    else if raw == 30 { Some(GGMLType::BF16) }
    else if raw == 34 { Some(GGMLType::TQ1_0) }
    else if raw == 35 { Some(GGMLType::TQ2_0) }
    else if raw == 39 { Some(GGMLType::MXFP4) }
    else { None }
}

/// Elements per storage block, for the layouts this engine can read.
pub open spec fn spec_block_size(t: GGMLType) -> Option<usize> {
    match t {
        GGMLType::F32 | GGMLType::BF16 => Some(1usize),
        GGMLType::Q8_0 | GGMLType::Q4_0 => Some(32usize),
        _ => None,
    }
}

/// Bytes per storage block, for the layouts this engine can read.
pub open spec fn spec_block_bytes(t: GGMLType) -> Option<usize> {
    match t {
        GGMLType::F32 => Some(4usize),
        GGMLType::BF16 => Some(2usize),
        GGMLType::Q8_0 => Some(34usize),
        GGMLType::Q4_0 => Some(18usize),
        _ => None,
    }
}

/// A layout stored one element per block (a plain scalar type).
pub open spec fn is_scalar_type(t: GGMLType) -> bool {
    spec_block_size(t) == Some(1usize) && spec_block_bytes(t) is Some
}

impl GGMLType {
    /// The layout's name, for messages.
    pub fn name(&self) -> (r: &'static str)
        ensures
            r@ == ggml_type_name(*self),
    {
        match self {
            GGMLType::F32 => "F32",
            GGMLType::F16 => "F16",
            GGMLType::Q4_0 => "Q4_0",
            GGMLType::Q4_1 => "Q4_1",
            GGMLType::Q5_0 => "Q5_0",
            GGMLType::Q5_1 => "Q5_1",
            GGMLType::Q8_0 => "Q8_0",
            GGMLType::Q8_1 => "Q8_1",
            GGMLType::Q2_K => "Q2_K",
            GGMLType::Q3_K => "Q3_K",
            GGMLType::Q4_K => "Q4_K",
            GGMLType::Q5_K => "Q5_K",
            GGMLType::Q6_K => "Q6_K",
            GGMLType::Q8_K => "Q8_K",
            GGMLType::IQ2_XXS => "IQ2_XXS",
            GGMLType::IQ2_XS => "IQ2_XS",
            GGMLType::IQ3_XXS => "IQ3_XXS",
            GGMLType::IQ1_S => "IQ1_S",
            GGMLType::IQ4_NL => "IQ4_NL",
            GGMLType::IQ3_S => "IQ3_S",
            GGMLType::IQ2_S => "IQ2_S",
            GGMLType::IQ4_XS => "IQ4_XS",
            GGMLType::I8 => "I8",
            GGMLType::I16 => "I16",
            GGMLType::I32 => "I32",
            GGMLType::I64 => "I64",
            GGMLType::F64 => "F64",
            GGMLType::IQ1_M => "IQ1_M",
            GGMLType::BF16 => "BF16",
            GGMLType::TQ1_0 => "TQ1_0",
            GGMLType::TQ2_0 => "TQ2_0",
            GGMLType::MXFP4 => "MXFP4",
        }
    }

    /// The numeric id of this layout in the file format.
    pub fn id(&self) -> (r: u32)
        ensures
            r == ggml_type_id(*self),
    {
        match self {
            GGMLType::F32 => 0,
            GGMLType::F16 => 1,
            GGMLType::Q4_0 => 2,
            GGMLType::Q4_1 => 3,
            GGMLType::Q5_0 => 6,
            GGMLType::Q5_1 => 7,
            GGMLType::Q8_0 => 8,
            GGMLType::Q8_1 => 9,
            GGMLType::Q2_K => 10,
            GGMLType::Q3_K => 11,
            GGMLType::Q4_K => 12,
            GGMLType::Q5_K => 13,
            GGMLType::Q6_K => 14,
            GGMLType::Q8_K => 15,
            GGMLType::IQ2_XXS => 16,
            GGMLType::IQ2_XS => 17,
            GGMLType::IQ3_XXS => 18,
            GGMLType::IQ1_S => 19,
            GGMLType::IQ4_NL => 20,
            GGMLType::IQ3_S => 21,
            GGMLType::IQ2_S => 22,
            GGMLType::IQ4_XS => 23,
            GGMLType::I8 => 24,
            GGMLType::I16 => 25,
            GGMLType::I32 => 26,
            GGMLType::I64 => 27,
            GGMLType::F64 => 28,
            GGMLType::IQ1_M => 29,
            GGMLType::BF16 => 30,
            GGMLType::TQ1_0 => 34,
            GGMLType::TQ2_0 => 35,
            GGMLType::MXFP4 => 39,
        }
    }

    /// The layout with numeric id `raw`, or `None` when no layout has it.
    pub fn from_id(raw: u32) -> (r: Option<GGMLType>)
        ensures
            r == ggml_type_of(raw),
    {
        match raw {
            0 => Some(GGMLType::F32),
            1 => Some(GGMLType::F16),
            2 => Some(GGMLType::Q4_0),
            3 => Some(GGMLType::Q4_1),
            6 => Some(GGMLType::Q5_0),
            7 => Some(GGMLType::Q5_1),
            8 => Some(GGMLType::Q8_0),
            9 => Some(GGMLType::Q8_1),
            10 => Some(GGMLType::Q2_K),
            11 => Some(GGMLType::Q3_K),
            12 => Some(GGMLType::Q4_K),
            13 => Some(GGMLType::Q5_K),
            14 => Some(GGMLType::Q6_K),
            15 => Some(GGMLType::Q8_K),
            16 => Some(GGMLType::IQ2_XXS),
            17 => Some(GGMLType::IQ2_XS),
            18 => Some(GGMLType::IQ3_XXS),
            19 => Some(GGMLType::IQ1_S),
            20 => Some(GGMLType::IQ4_NL),
            21 => Some(GGMLType::IQ3_S),
            22 => Some(GGMLType::IQ2_S),
            23 => Some(GGMLType::IQ4_XS),
            24 => Some(GGMLType::I8),
            25 => Some(GGMLType::I16),
            26 => Some(GGMLType::I32),
            27 => Some(GGMLType::I64),
            28 => Some(GGMLType::F64),
            29 => Some(GGMLType::IQ1_M),
            30 => Some(GGMLType::BF16),
            34 => Some(GGMLType::TQ1_0),
            35 => Some(GGMLType::TQ2_0),
            39 => Some(GGMLType::MXFP4),
            _ => None,
        }
    }

    /// Elements per storage block, or `None` if unsupported.
    pub fn block_size(&self) -> (r: Option<usize>)
        ensures
            r == spec_block_size(*self),
    {
        match self {
            GGMLType::F32 | GGMLType::BF16 => Some(1),
            GGMLType::Q8_0 | GGMLType::Q4_0 => Some(32),
            _ => None,
        }
    }

    /// Bytes per storage block, or `None` if unsupported.
    pub fn block_bytes(&self) -> (r: Option<usize>)
        ensures
            r == spec_block_bytes(*self),
    {
        match self {
            GGMLType::F32 => Some(4),
            GGMLType::BF16 => Some(2),
            GGMLType::Q8_0 => Some(34),
            GGMLType::Q4_0 => Some(18),
            _ => None,
        }
    }

    /// Bytes taken by one element of a scalar layout (one element per block).
    pub fn bytes_per_element(&self) -> (r: usize)
        requires
            is_scalar_type(*self),
        ensures
            Some(r) == spec_block_bytes(*self),
    {
        match (self.block_size(), self.block_bytes()) {
            (Some(1), Some(bytes)) => bytes,
            _ => 0,
        }
    }
}

/// The layout ids of the GGML format, and no other id names a layout.
pub proof fn lemma_ggml_type_ids(raw: u32)
    ensures
        ggml_type_of(0) == Some(GGMLType::F32),
        ggml_type_of(1) == Some(GGMLType::F16),
        ggml_type_of(2) == Some(GGMLType::Q4_0),
        ggml_type_of(3) == Some(GGMLType::Q4_1),
        ggml_type_of(6) == Some(GGMLType::Q5_0),
        ggml_type_of(7) == Some(GGMLType::Q5_1),
        ggml_type_of(8) == Some(GGMLType::Q8_0),
        ggml_type_of(9) == Some(GGMLType::Q8_1),
        ggml_type_of(10) == Some(GGMLType::Q2_K),
        ggml_type_of(11) == Some(GGMLType::Q3_K),
        ggml_type_of(12) == Some(GGMLType::Q4_K),
        ggml_type_of(13) == Some(GGMLType::Q5_K),
        ggml_type_of(14) == Some(GGMLType::Q6_K),
        ggml_type_of(15) == Some(GGMLType::Q8_K),
        ggml_type_of(16) == Some(GGMLType::IQ2_XXS),
        ggml_type_of(17) == Some(GGMLType::IQ2_XS),
        ggml_type_of(18) == Some(GGMLType::IQ3_XXS),
        ggml_type_of(19) == Some(GGMLType::IQ1_S),
        ggml_type_of(20) == Some(GGMLType::IQ4_NL),
        ggml_type_of(21) == Some(GGMLType::IQ3_S),
        ggml_type_of(22) == Some(GGMLType::IQ2_S),
        ggml_type_of(23) == Some(GGMLType::IQ4_XS),
        ggml_type_of(24) == Some(GGMLType::I8),
        ggml_type_of(25) == Some(GGMLType::I16),
        ggml_type_of(26) == Some(GGMLType::I32),
        ggml_type_of(27) == Some(GGMLType::I64),
        ggml_type_of(28) == Some(GGMLType::F64),
        ggml_type_of(29) == Some(GGMLType::IQ1_M),
        ggml_type_of(30) == Some(GGMLType::BF16),
        ggml_type_of(34) == Some(GGMLType::TQ1_0),
        ggml_type_of(35) == Some(GGMLType::TQ2_0),
        ggml_type_of(39) == Some(GGMLType::MXFP4),
        (raw == 4 || raw == 5 || (31 <= raw <= 33) || (36 <= raw <= 38) || raw > 39) ==> ggml_type_of(
            raw,
        ) is None,
{
}

/// The storage of the layouts this engine reads: F32 and BF16 hold one
/// element in 4 and 2 bytes; Q8_0 holds 32 elements as a 2-byte scale and
/// 32 one-byte weights, and Q4_0 as a 2-byte scale and 16 bytes of
/// nibbles.
pub proof fn lemma_block_layouts()
    ensures
        spec_block_size(GGMLType::F32) == Some(1usize) && spec_block_bytes(GGMLType::F32) == Some(4usize),
        spec_block_size(GGMLType::BF16) == Some(1usize) && spec_block_bytes(GGMLType::BF16) == Some(2usize),
        spec_block_size(GGMLType::Q8_0) == Some(32usize) && spec_block_bytes(GGMLType::Q8_0) == Some(34usize),
        spec_block_size(GGMLType::Q4_0) == Some(32usize) && spec_block_bytes(GGMLType::Q4_0) == Some(18usize),
{
}

/// Reading a layout back from its id gives the layout: the id table is
/// one-to-one, and every id that denotes a layout is that layout's id.
pub proof fn lemma_ggml_id_roundtrip(t: GGMLType, raw: u32)
    ensures
        ggml_type_of(ggml_type_id(t)) == Some(t),
        ggml_type_of(raw) == Some(t) ==> ggml_type_id(t) == raw,
{
}

/// The layouts that this engine can read are exactly the four with a block
/// size, and these also have a block byte count.
pub proof fn lemma_supported_layouts(t: GGMLType)
    ensures
        spec_block_size(t) is Some <==> spec_block_bytes(t) is Some,
        spec_block_size(t) is Some <==> (t == GGMLType::F32 || t == GGMLType::BF16
            || t == GGMLType::Q8_0 || t == GGMLType::Q4_0),
        is_scalar_type(t) <==> (t == GGMLType::F32 || t == GGMLType::BF16),
{
}

} // verus!
