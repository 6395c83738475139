use vstd::prelude::*;

use crate::file_parser::binary_reader_common::{
    read_bool, read_i16, read_i32, read_i64, read_i8, read_str, read_u16, read_u32, read_u64,
    read_u8, read_step, spec_read_bool, spec_read_i16, spec_read_i32, spec_read_i64, spec_read_i8,
    spec_read_str, spec_read_u16, spec_read_u32, spec_read_u64, spec_read_u8, value_of, viewed,
    ByteReader, ReadError, ReadErrorModel, ReadResult,
};

verus! {

/// The type tag of a metadata value.
#[derive(Debug, Copy, Clone, PartialEq, Eq, Structural)]
pub enum GGUFType {
    U8,
    I8,
    U16,
    I16,
    U32,
    I32,
    F32,
    Bool,
    String,
    Array,
    U64,
    I64,
    F64,
}

/// The numeric id of each value type in the file format.
pub open spec fn gguf_type_id(t: GGUFType) -> u32 {
    match t {
        GGUFType::U8 => 0,
        GGUFType::I8 => 1,
        GGUFType::U16 => 2,
        GGUFType::I16 => 3,
        GGUFType::U32 => 4,
        GGUFType::I32 => 5,
        GGUFType::F32 => 6,
        GGUFType::Bool => 7,
        GGUFType::String => 8,
        GGUFType::Array => 9,
        GGUFType::U64 => 10,
        GGUFType::I64 => 11,
        GGUFType::F64 => 12,
    }
}

/// The value type that a numeric id denotes, if any.
pub open spec fn gguf_type_of(raw: u32) -> Option<GGUFType> {
    if raw == 0 { Some(GGUFType::U8) }
    else if raw == 1 { Some(GGUFType::I8) }
    else if raw == 2 { Some(GGUFType::U16) }
    else if raw == 3 { Some(GGUFType::I16) }
    else if raw == 4 { Some(GGUFType::U32) }
    else if raw == 5 { Some(GGUFType::I32) }
    else if raw == 6 { Some(GGUFType::F32) }
    else if raw == 7 { Some(GGUFType::Bool) }
    else if raw == 8 { Some(GGUFType::String) }
    else if raw == 9 { Some(GGUFType::Array) }
    else if raw == 10 { Some(GGUFType::U64) }
    else if raw == 11 { Some(GGUFType::I64) }
    else if raw == 12 { Some(GGUFType::F64) }
    else { None }
}

impl GGUFType {
    /// The numeric id of this value type.
    pub fn id(&self) -> (r: u32)
        ensures
            r == gguf_type_id(*self),
    {
        match self {
            GGUFType::U8 => 0,
            GGUFType::I8 => 1,
            GGUFType::U16 => 2,
            GGUFType::I16 => 3,
            GGUFType::U32 => 4,
            GGUFType::I32 => 5,
            GGUFType::F32 => 6,
            GGUFType::Bool => 7,
            GGUFType::String => 8,
            GGUFType::Array => 9,
            GGUFType::U64 => 10,
            GGUFType::I64 => 11,
            GGUFType::F64 => 12,
        }
    }

    /// The value type with numeric id `raw`, or `None` when no type has it.
    pub fn from_id(raw: u32) -> (r: Option<GGUFType>)
        ensures
            r == gguf_type_of(raw),
    {
        match raw {
            0 => Some(GGUFType::U8),
            1 => Some(GGUFType::I8),
            2 => Some(GGUFType::U16),
            3 => Some(GGUFType::I16),
            4 => Some(GGUFType::U32),
            5 => Some(GGUFType::I32),
            6 => Some(GGUFType::F32),
            7 => Some(GGUFType::Bool),
            8 => Some(GGUFType::String),
            9 => Some(GGUFType::Array),
            10 => Some(GGUFType::U64),
            11 => Some(GGUFType::I64),
            12 => Some(GGUFType::F64),
            _ => None,
        }
    }
}

/// Reading a value type back from its id gives the type, and an id that
/// denotes a type is that type's id.
pub proof fn lemma_gguf_type_id_roundtrip(t: GGUFType, raw: u32)
    ensures
        gguf_type_of(gguf_type_id(t)) == Some(t),
        gguf_type_of(raw) == Some(t) ==> gguf_type_id(t) == raw,
{
}

/// The value-type ids of the GGUF format: 0 u8, 1 i8, 2 u16, 3 i16, 4 u32,
/// 5 i32, 6 f32, 7 bool, 8 string, 9 array, 10 u64, 11 i64, 12 f64, and no
/// other id names a type.
pub proof fn lemma_gguf_type_ids(raw: u32)
    ensures
        gguf_type_of(0) == Some(GGUFType::U8),
        gguf_type_of(1) == Some(GGUFType::I8),
        gguf_type_of(2) == Some(GGUFType::U16),
        gguf_type_of(3) == Some(GGUFType::I16),
        gguf_type_of(4) == Some(GGUFType::U32),
        gguf_type_of(5) == Some(GGUFType::I32),
        gguf_type_of(6) == Some(GGUFType::F32),
        gguf_type_of(7) == Some(GGUFType::Bool),
        gguf_type_of(8) == Some(GGUFType::String),
        gguf_type_of(9) == Some(GGUFType::Array),
        gguf_type_of(10) == Some(GGUFType::U64),
        gguf_type_of(11) == Some(GGUFType::I64),
        gguf_type_of(12) == Some(GGUFType::F64),
        raw > 12 ==> gguf_type_of(raw) is None,
{
}

/// The number of bytes the format gives a fixed-width value of type id
/// `raw`: one for the 8-bit integers and bool, two for the 16-bit
/// integers, four for the 32-bit integers and f32, eight for the 64-bit
/// integers and f64.
pub open spec fn format_width(raw: u32) -> int {
    if raw == 0 || raw == 1 || raw == 7 {
        1
    } else if raw == 2 || raw == 3 {
        2
    } else if raw == 4 || raw == 5 || raw == 6 {
        4
    } else {
        8
    }
}

/// Whether the type id `raw` names a signed integer type.
pub open spec fn format_signed(raw: u32) -> bool {
    raw == 1 || raw == 3 || raw == 5 || raw == 11
}

/// A fixed-width value read by its type id takes exactly the width the
/// format gives that id, and is read as a value of that width and
/// signedness: a successful read of type id `raw` at `pos` ends
/// `format_width(raw)` bytes later, an integer value lies in the range of
/// its width and signedness, and a value is read whenever that many bytes
/// remain (for bool, when the byte is 0 or 1).
pub proof fn lemma_value_width_by_id(data: Seq<u8>, pos: int, raw: u32)
    requires
        raw <= 12,
        raw != 8,
        raw != 9,
    ensures
        ({
            let ty = gguf_type_of(raw)->0;
            &&& spec_read_value(data, pos, ty) matches Ok((v, p)) ==> {
                &&& p == pos + format_width(raw)
                &&& int_value(v) matches Some(x) ==> {
                    &&& format_signed(raw) ==> -pow2_bits(format_width(raw)) <= 2 * x < pow2_bits(
                        format_width(raw),
                    )
                    &&& !format_signed(raw) ==> 0 <= x < pow2_bits(format_width(raw))
                }
                &&& (raw == 7) == (v is Bool)
                &&& (raw == 6) == (v is F32)
                &&& (raw == 12) == (v is F64)
            }
            &&& (0 <= pos && pos + format_width(raw) <= data.len() && (raw == 7 ==> data[pos]
                <= 1)) ==> spec_read_value(data, pos, ty) is Ok
        }),
{
}

/// The integer held by an integer value.
pub open spec fn int_value(v: ValueModel) -> Option<int> {
    match v {
        ValueModel::U8(x) => Some(x as int),
        ValueModel::I8(x) => Some(x as int),
        ValueModel::U16(x) => Some(x as int),
        ValueModel::I16(x) => Some(x as int),
        ValueModel::U32(x) => Some(x as int),
        ValueModel::I32(x) => Some(x as int),
        ValueModel::U64(x) => Some(x as int),
        ValueModel::I64(x) => Some(x as int),
        _ => None,
    }
}

/// `2^(8 * bytes)` for the widths of the format.
pub open spec fn pow2_bits(bytes: int) -> int {
    if bytes == 1 {
        0x100
    } else if bytes == 2 {
        0x1_0000
    } else if bytes == 4 {
        0x1_0000_0000
    } else {
        0x1_0000_0000_0000_0000
    }
}

/// A metadata value. Floating-point values are kept as their IEEE-754 bit
/// patterns, exactly as they are stored in the file.
#[derive(Debug)]
pub enum GGUFValue {
    Bool(bool),
    I8(i8),
    I16(i16),
    I32(i32),
    I64(i64),
    U8(u8),
    U16(u16),
    U32(u32),
    U64(u64),
    /// The bits of an `f32`.
    F32(u32),
    /// The bits of an `f64`.
    F64(u64),
    String(String),
    Array(Vec<GGUFValue>),
}

/// The mathematical content of a metadata value.
pub enum ValueModel {
    Bool(bool),
    I8(i8),
    I16(i16),
    I32(i32),
    I64(i64),
    U8(u8),
    U16(u16),
    U32(u32),
    U64(u64),
    F32(u32),
    F64(u64),
    String(Seq<char>),
    Array(Seq<ValueModel>),
}

/// The content of a value: strings as character sequences, arrays as
/// sequences of contents.
pub open spec fn value_model(v: GGUFValue) -> ValueModel
    decreases v,
{
    match v {
        GGUFValue::Bool(b) => ValueModel::Bool(b),
        GGUFValue::I8(x) => ValueModel::I8(x),
        GGUFValue::I16(x) => ValueModel::I16(x),
        GGUFValue::I32(x) => ValueModel::I32(x),
        GGUFValue::I64(x) => ValueModel::I64(x),
        GGUFValue::U8(x) => ValueModel::U8(x),
        GGUFValue::U16(x) => ValueModel::U16(x),
        GGUFValue::U32(x) => ValueModel::U32(x),
        GGUFValue::U64(x) => ValueModel::U64(x),
        GGUFValue::F32(x) => ValueModel::F32(x),
        GGUFValue::F64(x) => ValueModel::F64(x),
        GGUFValue::String(s) => ValueModel::String(s@),
        GGUFValue::Array(items) => ValueModel::Array(
            Seq::new(
                items@.len(),
                |i: int|
                    if 0 <= i < items@.len() {
                        value_model(items@[i])
                    } else {
                        ValueModel::Bool(false)
                    },
            ),
        ),
    }
}

impl View for GGUFValue {
    type V = ValueModel;

    open spec fn view(&self) -> ValueModel {
        value_model(*self)
    }
}

/// The contents of a sequence of values.
pub open spec fn models(s: Seq<GGUFValue>) -> Seq<ValueModel> {
    Seq::new(s.len(), |i: int| value_model(s[i]))
}

/// Wraps the value of a successful read.
pub open spec fn lift<T>(s: ReadResult<T>, f: spec_fn(T) -> ValueModel) -> ReadResult<ValueModel> {
    match s {
        Ok((v, p)) => Ok((f(v), p)),
        Err(e) => Err(e),
    }
}

/// A value of type `ty` at `pos`. An array is a `u32` element type id, a
/// `u64` element count, then the elements.
pub open spec fn spec_read_value(data: Seq<u8>, pos: int, ty: GGUFType) -> ReadResult<ValueModel>
    decreases data.len() - pos, 0int,
{
    match ty {
        GGUFType::Bool => lift(spec_read_bool(data, pos), |x: bool| ValueModel::Bool(x)),
        GGUFType::I8 => lift(spec_read_i8(data, pos), |x: i8| ValueModel::I8(x)),
        GGUFType::I16 => lift(spec_read_i16(data, pos), |x: i16| ValueModel::I16(x)),
        GGUFType::I32 => lift(spec_read_i32(data, pos), |x: i32| ValueModel::I32(x)),
        GGUFType::I64 => lift(spec_read_i64(data, pos), |x: i64| ValueModel::I64(x)),
        GGUFType::U8 => lift(spec_read_u8(data, pos), |x: u8| ValueModel::U8(x)),
        GGUFType::U16 => lift(spec_read_u16(data, pos), |x: u16| ValueModel::U16(x)),
        GGUFType::U32 => lift(spec_read_u32(data, pos), |x: u32| ValueModel::U32(x)),
        GGUFType::U64 => lift(spec_read_u64(data, pos), |x: u64| ValueModel::U64(x)),
        GGUFType::F32 => lift(spec_read_u32(data, pos), |x: u32| ValueModel::F32(x)),
        GGUFType::F64 => lift(spec_read_u64(data, pos), |x: u64| ValueModel::F64(x)),
        GGUFType::String => lift(spec_read_str(data, pos), |x: Seq<char>| ValueModel::String(x)),
        GGUFType::Array => match spec_read_u32(data, pos) {
            Err(e) => Err(e),
            Ok((raw, p1)) => match gguf_type_of(raw) {
                None => Err((ReadErrorModel::InvalidArrayType(raw), p1)),
                Some(et) => match spec_read_u64(data, p1) {
                    Err(e) => Err(e),
                    Ok((n, p2)) => match spec_read_elems(data, p2, et, n as nat) {
                        Ok((items, p3)) => Ok((ValueModel::Array(items), p3)),
                        Err(e) => Err(e),
                    },
                },
            },
        },
    }
}

/// `n` values of type `ty`, one after another, from `pos`.
pub open spec fn spec_read_elems(data: Seq<u8>, pos: int, ty: GGUFType, n: nat) -> ReadResult<
    Seq<ValueModel>,
>
    decreases data.len() - pos, 1int,
{
    if n == 0 {
        Ok((Seq::empty(), pos))
    } else {
        match spec_read_value(data, pos, ty) {
            Err(e) => Err(e),
            Ok((v, p)) => if pos < p <= data.len() {
                match spec_read_elems(data, p, ty, (n - 1) as nat) {
                    Ok((vs, q)) => Ok((seq![v] + vs, q)),
                    Err(e) => Err(e),
                }
            } else {
                Err((ReadErrorModel::UnexpectedEof, p))
            },
        }
    }
}

/// A value read from `pos` ends past `pos` and within the buffer.
pub proof fn lemma_read_value_advances(data: Seq<u8>, pos: int, ty: GGUFType)
    ensures
        spec_read_value(data, pos, ty) matches Ok((_, p)) ==> 0 <= pos < p <= data.len(),
    decreases data.len() - pos, 0int,
{
    if ty == GGUFType::Array {
        if let Ok((raw, p1)) = spec_read_u32(data, pos) {
            if let Some(et) = gguf_type_of(raw) {
                if let Ok((n, p2)) = spec_read_u64(data, p1) {
                    lemma_read_elems_advances(data, p2, et, n as nat);
                }
            }
        }
    }
}

/// A run of values read from `pos` ends at or past `pos`, within the buffer.
pub proof fn lemma_read_elems_advances(data: Seq<u8>, pos: int, ty: GGUFType, n: nat)
    requires
        0 <= pos <= data.len(),
    ensures
        spec_read_elems(data, pos, ty, n) matches Ok((vs, q)) ==> pos <= q <= data.len()
            && vs.len() == n,
    decreases data.len() - pos, 1int,
{
    if n > 0 {
        lemma_read_value_advances(data, pos, ty);
        if let Ok((v, p)) = spec_read_value(data, pos, ty) {
            if pos < p <= data.len() {
                lemma_read_elems_advances(data, p, ty, (n - 1) as nat);
            }
        }
    }
}

impl GGUFValue {
    /// Reads one value of type `value_type`; arrays are read element by
    /// element, recursively.
    pub fn read_from(r: &mut ByteReader, value_type: GGUFType) -> (res: Result<GGUFValue, ReadError>)
        ensures
            viewed(res) == value_of(spec_read_value(old(r).bytes(), old(r).position(), value_type)),
            read_step(*old(r), *final(r), spec_read_value(old(r).bytes(), old(r).position(), value_type)),
        decreases old(r).bytes().len() - old(r).position(),
    {
        match value_type {
            GGUFType::Bool => Ok(GGUFValue::Bool(read_bool(r)?)),
            GGUFType::I8 => Ok(GGUFValue::I8(read_i8(r)?)),
            GGUFType::I16 => Ok(GGUFValue::I16(read_i16(r)?)),
            GGUFType::I32 => Ok(GGUFValue::I32(read_i32(r)?)),
            GGUFType::I64 => Ok(GGUFValue::I64(read_i64(r)?)),
            GGUFType::U8 => Ok(GGUFValue::U8(read_u8(r)?)),
            GGUFType::U16 => Ok(GGUFValue::U16(read_u16(r)?)),
            GGUFType::U32 => Ok(GGUFValue::U32(read_u32(r)?)),
            GGUFType::U64 => Ok(GGUFValue::U64(read_u64(r)?)),
            GGUFType::F32 => Ok(GGUFValue::F32(read_u32(r)?)),
            GGUFType::F64 => Ok(GGUFValue::F64(read_u64(r)?)),
            GGUFType::String => Ok(GGUFValue::String(read_str(r)?)),
            GGUFType::Array => {
                let ghost data = r.bytes();
                let ghost pos0 = r.position();
                let array_type = read_u32(r)?;
                let element_type = match GGUFType::from_id(array_type) {
                    Some(t) => t,
                    None => return Err(ReadError::InvalidArrayType(array_type)),
                };
                let array_length = read_u64(r)?;
                let ghost p2 = r.position();
                let mut result: Vec<GGUFValue> = Vec::new();
                let mut i: u64 = 0;
                let start = r.stream_position();
                proof {
                    assert(models(result@) =~= Seq::<ValueModel>::empty());
                    assert(seq![] + Seq::<ValueModel>::empty() =~= Seq::<ValueModel>::empty());
                }
                while i < array_length
                    invariant
                        r.bytes() == data,
                        data == old(r).bytes(),
                        pos0 == old(r).position(),
                        value_type == GGUFType::Array,
                        i <= array_length,
                        pos0 < p2 <= r.position() <= data.len(),
                        start == p2,
                        p2 == pos0 + 12,
                        spec_read_u32(data, pos0) == Ok::<(u32, int), (ReadErrorModel, int)>((array_type, pos0 + 4)),
                        gguf_type_of(array_type) == Some(element_type),
                        spec_read_u64(data, pos0 + 4) == Ok::<(u64, int), (ReadErrorModel, int)>((array_length, p2)),
                        spec_read_elems(data, p2, element_type, array_length as nat) == match spec_read_elems(
                            data,
                            r.position(),
                            element_type,
                            (array_length - i) as nat,
                        ) {
                            Ok((vs, q)) => Ok((models(result@) + vs, q)),
                            Err(e) => Err(e),
                        },
                    decreases array_length - i,
                {
                    let ghost pi = r.position();
                    let ghost before = models(result@);
                    proof {
                        lemma_read_value_advances(data, pi, element_type);
                    }
                    let current_element = match GGUFValue::read_from(r, element_type) {
                        Ok(v) => v,
                        Err(e) => {
                            proof {
                                assert(spec_read_elems(data, pi, element_type, (array_length - i) as nat)
                                    == Err::<(Seq<ValueModel>, int), (ReadErrorModel, int)>((e@, r.position())));
                            }
                            return Err(e);
                        },
                    };
                    result.push(current_element);
                    i = i + 1;
                    proof {
                        assert(models(result@) =~= before.push(current_element@));
                        if let Ok((vs, q)) = spec_read_elems(data, r.position(), element_type, (array_length - i) as nat) {
                            assert(before + (seq![current_element@] + vs) =~= models(result@) + vs);
                        }
                    }
                }
                proof {
                    assert(models(result@) + Seq::<ValueModel>::empty() =~= models(result@));
                    assert(value_model(GGUFValue::Array(result)) == ValueModel::Array(models(result@)))
                        by {
                        assert(models(result@) =~= match value_model(GGUFValue::Array(result)) {
                            ValueModel::Array(s) => s,
                            _ => Seq::empty(),
                        });
                    }
                }
                Ok(GGUFValue::Array(result))
            },
        }
    }
}

} // verus!
