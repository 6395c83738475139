use vstd::prelude::*;
use vstd::utf8::{decode_utf8, valid_utf8};
use vstd::slice::slice_to_vec;

verus! {

/// Why reading a GGUF stream failed.
#[derive(Debug, PartialEq, Eq)]
pub enum ReadError {
    /// The stream ended before a value was complete.
    UnexpectedEof,
    /// A bool byte held something other than 0 or 1.
    InvalidBool(u8),
    /// A string length does not fit in `usize` on this machine.
    LengthOverflow(u64),
    /// String bytes that are not UTF-8.
    InvalidUtf8,
    /// A metadata value type id that names no type.
    InvalidValueType(u32),
    /// An array element type id that names no type.
    InvalidArrayType(u32),
    /// A tensor declares a layout id that names no layout.
    UnknownGgmlType { id: u32, tensor: String },
}

/// The content of a read error, with the tensor's name as characters.
pub enum ReadErrorModel {
    UnexpectedEof,
    InvalidBool(u8),
    LengthOverflow(u64),
    InvalidUtf8,
    InvalidValueType(u32),
    InvalidArrayType(u32),
    UnknownGgmlType { id: u32, tensor: Seq<char> },
}

impl View for ReadError {
    type V = ReadErrorModel;

    open spec fn view(&self) -> ReadErrorModel {
        match self {
            ReadError::UnexpectedEof => ReadErrorModel::UnexpectedEof,
            ReadError::InvalidBool(b) => ReadErrorModel::InvalidBool(*b),
            ReadError::LengthOverflow(n) => ReadErrorModel::LengthOverflow(*n),
            ReadError::InvalidUtf8 => ReadErrorModel::InvalidUtf8,
            ReadError::InvalidValueType(t) => ReadErrorModel::InvalidValueType(*t),
            ReadError::InvalidArrayType(t) => ReadErrorModel::InvalidArrayType(*t),
            ReadError::UnknownGgmlType { id, tensor } => ReadErrorModel::UnknownGgmlType {
                id: *id,
                tensor: tensor@,
            },
        }
    }
}

/// A read cursor over a byte buffer, in the manner of `std::io::Cursor`.
pub struct ByteReader<'a> {
    data: &'a [u8],
    pos: usize,
}

/// What a spec-level read produced: a value and the position after it,
/// or the error that stopped it and the position the reader stopped at.
pub type ReadResult<T> = Result<(T, int), (ReadErrorModel, int)>;

/// The value part of a spec-level read.
pub open spec fn value_of<T>(s: ReadResult<T>) -> Result<T, ReadErrorModel> {
    match s {
        Ok((v, _)) => Ok(v),
        Err((e, _)) => Err(e),
    }
}

/// The position that a spec-level read ends at, whether it succeeded or
/// stopped on an error.
pub open spec fn end_of<T>(s: ReadResult<T>) -> int {
    match s {
        Ok((_, p)) => p,
        Err((_, p)) => p,
    }
}

/// `n` raw bytes at `pos`. When fewer remain, the read stops at the end of
/// the buffer.
pub open spec fn spec_take(data: Seq<u8>, pos: int, n: int) -> ReadResult<Seq<u8>> {
    if 0 <= pos && 0 <= n && pos + n <= data.len() {
        Ok((data.subrange(pos, pos + n), pos + n))
    } else {
        Err((ReadErrorModel::UnexpectedEof, data.len() as int))
    }
}

/// Little-endian value of two bytes.
pub open spec fn le_u16(b: Seq<u8>) -> int {
    b[0] + b[1] * 0x100
}

/// Little-endian value of four bytes.
pub open spec fn le_u32(b: Seq<u8>) -> int {
    b[0] + b[1] * 0x100 + b[2] * 0x1_0000 + b[3] * 0x100_0000
}

/// Little-endian value of eight bytes.
pub open spec fn le_u64(b: Seq<u8>) -> int {
    le_u32(b.subrange(0, 4)) + le_u32(b.subrange(4, 8)) * 0x1_0000_0000
}

/// Splitting `x` by `d` gives quotient `q` and remainder `r`.
proof fn lemma_split(x: int, d: int, q: int, r: int)
    requires
        d > 0,
        0 <= r < d,
        x == q * d + r,
    ensures
        x / d == q,
        x % d == r,
{
    vstd::arithmetic::div_mod::lemma_fundamental_div_mod_converse(x, d, q, r);
}

/// Two bytes read little-endian: the first is the low byte.
pub proof fn lemma_le_u16_bytes(b: Seq<u8>)
    requires
        b.len() == 2,
    ensures
        0 <= le_u16(b) < 0x1_0000,
        le_u16(b) % 0x100 == b[0],
        le_u16(b) / 0x100 == b[1],
{
    lemma_split(le_u16(b), 0x100, b[1] as int, b[0] as int);
}

/// Four bytes read little-endian: byte `k` is digit `k` in base 256.
pub proof fn lemma_le_u32_bytes(b: Seq<u8>)
    requires
        b.len() == 4,
    ensures
        0 <= le_u32(b) < 0x1_0000_0000,
        le_u32(b) % 0x100 == b[0],
        (le_u32(b) / 0x100) % 0x100 == b[1],
        (le_u32(b) / 0x100 / 0x100) % 0x100 == b[2],
        le_u32(b) / 0x100 / 0x100 / 0x100 == b[3],
{
    let (b0, b1, b2, b3) = (b[0] as int, b[1] as int, b[2] as int, b[3] as int);
    let t3 = b3;
    let t2 = b2 + 0x100 * t3;
    let t1 = b1 + 0x100 * t2;
    assert(le_u32(b) == t1 * 0x100 + b0);
    lemma_split(le_u32(b), 0x100, t1, b0);
    lemma_split(t1, 0x100, t2, b1);
    lemma_split(t2, 0x100, t3, b2);
}

/// Eight bytes read little-endian: the first four are the low half.
pub proof fn lemma_le_u64_halves(b: Seq<u8>)
    requires
        b.len() == 8,
    ensures
        0 <= le_u64(b) < 0x1_0000_0000_0000_0000,
        le_u64(b) % 0x1_0000_0000 == le_u32(b.subrange(0, 4)),
        le_u64(b) / 0x1_0000_0000 == le_u32(b.subrange(4, 8)),
{
    lemma_le_u32_bytes(b.subrange(0, 4));
    lemma_le_u32_bytes(b.subrange(4, 8));
    lemma_split(
        le_u64(b),
        0x1_0000_0000,
        le_u32(b.subrange(4, 8)),
        le_u32(b.subrange(0, 4)),
    );
}

/// The two's complement readings: each agrees with the unsigned value
/// modulo the width and lies in the signed range of that width.
pub proof fn lemma_signed_readings(u: int)
    ensures
        0 <= u < 0x100 ==> -0x80 <= signed8(u) < 0x80 && (signed8(u) == u || signed8(u) == u
            - 0x100),
        0 <= u < 0x1_0000 ==> -0x8000 <= signed16(u) < 0x8000 && (signed16(u) == u || signed16(u)
            == u - 0x1_0000),
        0 <= u < 0x1_0000_0000 ==> -0x8000_0000 <= signed32(u) < 0x8000_0000 && (signed32(u) == u
            || signed32(u) == u - 0x1_0000_0000),
        0 <= u < 0x1_0000_0000_0000_0000 ==> -0x8000_0000_0000_0000 <= signed64(u)
            < 0x8000_0000_0000_0000 && (signed64(u) == u || signed64(u) == u
            - 0x1_0000_0000_0000_0000),
{
}

/// Two's complement reading of a byte.
pub open spec fn signed8(u: int) -> int {
    if u < 0x80 { u } else { u - 0x100 }
}

/// Two's complement reading of a 16-bit value.
pub open spec fn signed16(u: int) -> int {
    if u < 0x8000 { u } else { u - 0x1_0000 }
}

/// Two's complement reading of a 32-bit value.
pub open spec fn signed32(u: int) -> int {
    if u < 0x8000_0000 { u } else { u - 0x1_0000_0000 }
}

/// Two's complement reading of a 64-bit value.
pub open spec fn signed64(u: int) -> int {
    if u < 0x8000_0000_0000_0000 { u } else { u - 0x1_0000_0000_0000_0000 }
}

pub open spec fn spec_read_u8(data: Seq<u8>, pos: int) -> ReadResult<u8> {
    match spec_take(data, pos, 1) {
        Ok((b, p)) => Ok((b[0], p)),
        Err(e) => Err(e),
    }
}

pub open spec fn spec_read_i8(data: Seq<u8>, pos: int) -> ReadResult<i8> {
    match spec_take(data, pos, 1) {
        Ok((b, p)) => Ok((signed8(b[0] as int) as i8, p)),
        Err(e) => Err(e),
    }
}

pub open spec fn spec_read_bool(data: Seq<u8>, pos: int) -> ReadResult<bool> {
    match spec_take(data, pos, 1) {
        Ok((b, p)) => if b[0] == 0 {
            Ok((false, p))
        } else if b[0] == 1 {
            Ok((true, p))
        } else {
            Err((ReadErrorModel::InvalidBool(b[0]), p))
        },
        Err(e) => Err(e),
    }
}

pub open spec fn spec_read_u16(data: Seq<u8>, pos: int) -> ReadResult<u16> {
    match spec_take(data, pos, 2) {
        Ok((b, p)) => Ok((le_u16(b) as u16, p)),
        Err(e) => Err(e),
    }
}

pub open spec fn spec_read_i16(data: Seq<u8>, pos: int) -> ReadResult<i16> {
    match spec_take(data, pos, 2) {
        Ok((b, p)) => Ok((signed16(le_u16(b)) as i16, p)),
        Err(e) => Err(e),
    }
}

pub open spec fn spec_read_u32(data: Seq<u8>, pos: int) -> ReadResult<u32> {
    match spec_take(data, pos, 4) {
        Ok((b, p)) => Ok((le_u32(b) as u32, p)),
        Err(e) => Err(e),
    }
}

pub open spec fn spec_read_i32(data: Seq<u8>, pos: int) -> ReadResult<i32> {
    match spec_take(data, pos, 4) {
        Ok((b, p)) => Ok((signed32(le_u32(b)) as i32, p)),
        Err(e) => Err(e),
    }
}

pub open spec fn spec_read_u64(data: Seq<u8>, pos: int) -> ReadResult<u64> {
    match spec_take(data, pos, 8) {
        Ok((b, p)) => Ok((le_u64(b) as u64, p)),
        Err(e) => Err(e),
    }
}

pub open spec fn spec_read_i64(data: Seq<u8>, pos: int) -> ReadResult<i64> {
    match spec_take(data, pos, 8) {
        Ok((b, p)) => Ok((signed64(le_u64(b)) as i64, p)),
        Err(e) => Err(e),
    }
}

/// A length-prefixed UTF-8 string: a `u64` byte count, then the bytes.
pub open spec fn spec_read_str(data: Seq<u8>, pos: int) -> ReadResult<Seq<char>> {
    match spec_read_u64(data, pos) {
        Ok((n, p)) => if n > usize::MAX {
            Err((ReadErrorModel::LengthOverflow(n), p))
        } else {
            match spec_take(data, p, n as int) {
                Ok((b, q)) => if valid_utf8(b) {
                    Ok((decode_utf8(b), q))
                } else {
                    Err((ReadErrorModel::InvalidUtf8, q))
                },
                Err(e) => Err(e),
            }
        },
        Err(e) => Err(e),
    }
}

impl<'a> ByteReader<'a> {
    /// The cursor never passes the end of its buffer.
    #[verifier::type_invariant]
    pub open spec fn in_bounds(self) -> bool {
        0 <= self.position() <= self.bytes().len()
    }

    /// The whole buffer.
    pub closed spec fn bytes(&self) -> Seq<u8> {
        self.data@
    }

    /// The offset of the next byte to be read.
    pub closed spec fn position(&self) -> int {
        self.pos as int
    }

    /// A cursor at the start of `data`.
    pub fn new(data: &'a [u8]) -> (r: ByteReader<'a>)
        ensures
            r.bytes() == data@,
            r.position() == 0,
            r.position() <= r.bytes().len(),
    {
        ByteReader { data, pos: 0 }
    }

    /// The offset of the next byte to be read.
    pub fn stream_position(&self) -> (r: usize)
        ensures
            r == self.position(),
            r <= self.bytes().len(),
    {
        proof {
            use_type_invariant(self);
        }
        self.pos
    }

    /// Takes the next `n` bytes. When fewer remain, the cursor moves to the
    /// end of the buffer and the read fails, as `read_exact` on a cursor does.
    pub fn read_exact(&mut self, n: usize) -> (res: Result<&'a [u8], ReadError>)
        ensures
            final(self).bytes() == old(self).bytes(),
            value_of(spec_take(old(self).bytes(), old(self).position(), n as int)) == match res {
                Ok(b) => Ok::<Seq<u8>, ReadErrorModel>(b@),
                Err(e) => Err::<Seq<u8>, ReadErrorModel>(e@),
            },
            final(self).position() == end_of(
                spec_take(old(self).bytes(), old(self).position(), n as int),
            ),
            0 <= final(self).position() <= final(self).bytes().len(),
    {
        proof {
            use_type_invariant(&*self);
        }
        if n <= self.data.len() - self.pos {
            let start = self.pos;
            let out = &self.data[start..start + n];
            self.pos = start + n;
            Ok(out)
        } else {
            self.pos = self.data.len();
            Err(ReadError::UnexpectedEof)
        }
    }
}

/// Whether a reader went from `old` to `new` as the spec-level read `s`
/// says: same buffer, and the position that `s` ends at, on success and
/// on error alike, which lies within the buffer.
pub open spec fn read_step<T>(old: ByteReader, new: ByteReader, s: ReadResult<T>) -> bool {
    &&& new.bytes() == old.bytes()
    &&& new.position() == end_of(s)
    &&& 0 <= new.position() <= new.bytes().len()
}

/// A successful result seen through its view.
pub open spec fn viewed<V: View>(res: Result<V, ReadError>) -> Result<V::V, ReadErrorModel> {
    match res {
        Ok(v) => Ok(v@),
        Err(e) => Err(e@),
    }
}

/// A result whose error is seen through its view.
pub open spec fn error_viewed<T>(res: Result<T, ReadError>) -> Result<T, ReadErrorModel> {
    match res {
        Ok(v) => Ok(v),
        Err(e) => Err(e@),
    }
}

/// `std`'s `String::from_utf8`, with the error dropped.
///
/// Trusted: `String::from_utf8` succeeds exactly on well-formed UTF-8 and
/// then holds the decoded characters; the contract states this with vstd's
/// definition of UTF-8.
#[verifier::external_body]
fn string_from_utf8(bytes: Vec<u8>) -> (r: Option<String>)
    ensures
        r is Some <==> valid_utf8(bytes@),
        r matches Some(s) ==> s@ == decode_utf8(bytes@),
{
    match String::from_utf8(bytes) {
        Ok(s) => Some(s),
        Err(_) => None,
    }
}

/// Reads a bool stored as one byte, 0 or 1; any other byte is an error.
pub fn read_bool(r: &mut ByteReader) -> (res: Result<bool, ReadError>)
    ensures
        error_viewed(res) == value_of(spec_read_bool(old(r).bytes(), old(r).position())),
        read_step(*old(r), *final(r), spec_read_bool(old(r).bytes(), old(r).position())),
{
    let b = r.read_exact(1)?;
    let v = b[0];
    if v == 0 {
        Ok(false)
    } else if v == 1 {
        Ok(true)
    } else {
        Err(ReadError::InvalidBool(v))
    }
}

pub fn read_i8(r: &mut ByteReader) -> (res: Result<i8, ReadError>)
    ensures
        error_viewed(res) == value_of(spec_read_i8(old(r).bytes(), old(r).position())),
        read_step(*old(r), *final(r), spec_read_i8(old(r).bytes(), old(r).position())),
{
    let b = r.read_exact(1)?;
    let u = b[0];
    if u < 0x80 {
        Ok(u as i8)
    } else {
        Ok(((u - 0x80) as i8) + i8::MIN)
    }
}

pub fn read_i16(r: &mut ByteReader) -> (res: Result<i16, ReadError>)
    ensures
        error_viewed(res) == value_of(spec_read_i16(old(r).bytes(), old(r).position())),
        read_step(*old(r), *final(r), spec_read_i16(old(r).bytes(), old(r).position())),
{
    let b = r.read_exact(2)?;
    let u: u16 = b[0] as u16 + (b[1] as u16) * 0x100;
    if u < 0x8000 {
        Ok(u as i16)
    } else {
        Ok(((u - 0x8000) as i16) + i16::MIN)
    }
}

pub fn read_i32(r: &mut ByteReader) -> (res: Result<i32, ReadError>)
    ensures
        error_viewed(res) == value_of(spec_read_i32(old(r).bytes(), old(r).position())),
        read_step(*old(r), *final(r), spec_read_i32(old(r).bytes(), old(r).position())),
{
    let b = r.read_exact(4)?;
    let u = le_u32_of(b);
    if u < 0x8000_0000 {
        Ok(u as i32)
    } else {
        Ok(((u - 0x8000_0000) as i32) + i32::MIN)
    }
}

pub fn read_i64(r: &mut ByteReader) -> (res: Result<i64, ReadError>)
    ensures
        error_viewed(res) == value_of(spec_read_i64(old(r).bytes(), old(r).position())),
        read_step(*old(r), *final(r), spec_read_i64(old(r).bytes(), old(r).position())),
{
    let b = r.read_exact(8)?;
    let u = le_u64_of(b);
    if u < 0x8000_0000_0000_0000 {
        Ok(u as i64)
    } else {
        Ok(((u - 0x8000_0000_0000_0000) as i64) + i64::MIN)
    }
}

pub fn read_u8(r: &mut ByteReader) -> (res: Result<u8, ReadError>)
    ensures
        error_viewed(res) == value_of(spec_read_u8(old(r).bytes(), old(r).position())),
        read_step(*old(r), *final(r), spec_read_u8(old(r).bytes(), old(r).position())),
{
    let b = r.read_exact(1)?;
    Ok(b[0])
}

pub fn read_u16(r: &mut ByteReader) -> (res: Result<u16, ReadError>)
    ensures
        error_viewed(res) == value_of(spec_read_u16(old(r).bytes(), old(r).position())),
        read_step(*old(r), *final(r), spec_read_u16(old(r).bytes(), old(r).position())),
{
    let b = r.read_exact(2)?;
    Ok(b[0] as u16 + (b[1] as u16) * 0x100)
}

/// Little-endian `u32` of the first four bytes of `b`.
fn le_u32_of(b: &[u8]) -> (r: u32)
    requires
        b@.len() == 4,
    ensures
        r == le_u32(b@),
{
    b[0] as u32 + (b[1] as u32) * 0x100 + (b[2] as u32) * 0x1_0000 + (b[3] as u32) * 0x100_0000
}

/// Little-endian `u64` of the first eight bytes of `b`.
fn le_u64_of(b: &[u8]) -> (r: u64)
    requires
        b@.len() == 8,
    ensures
        r == le_u64(b@),
{
    let lo = b[0] as u64 + (b[1] as u64) * 0x100 + (b[2] as u64) * 0x1_0000 + (b[3] as u64)
        * 0x100_0000;
    let hi = b[4] as u64 + (b[5] as u64) * 0x100 + (b[6] as u64) * 0x1_0000 + (b[7] as u64)
        * 0x100_0000;
    proof {
        assert(lo == le_u32(b@.subrange(0, 4)));
        assert(hi == le_u32(b@.subrange(4, 8)));
    }
    lo + hi * 0x1_0000_0000
}

pub fn read_u32(r: &mut ByteReader) -> (res: Result<u32, ReadError>)
    ensures
        error_viewed(res) == value_of(spec_read_u32(old(r).bytes(), old(r).position())),
        read_step(*old(r), *final(r), spec_read_u32(old(r).bytes(), old(r).position())),
{
    let b = r.read_exact(4)?;
    Ok(le_u32_of(b))
}

pub fn read_u64(r: &mut ByteReader) -> (res: Result<u64, ReadError>)
    ensures
        error_viewed(res) == value_of(spec_read_u64(old(r).bytes(), old(r).position())),
        read_step(*old(r), *final(r), spec_read_u64(old(r).bytes(), old(r).position())),
{
    let b = r.read_exact(8)?;
    Ok(le_u64_of(b))
}

/// Reads a length-prefixed UTF-8 string.
pub fn read_str(r: &mut ByteReader) -> (res: Result<String, ReadError>)
    ensures
        viewed(res) == value_of(spec_read_str(old(r).bytes(), old(r).position())),
        read_step(*old(r), *final(r), spec_read_str(old(r).bytes(), old(r).position())),
{
    let raw_len = read_u64(r)?;
    if raw_len > usize::MAX as u64 {
        return Err(ReadError::LengthOverflow(raw_len));
    }
    let length = raw_len as usize;
    let b = r.read_exact(length)?;
    match string_from_utf8(slice_to_vec(b)) {
        Some(s) => Ok(s),
        None => Err(ReadError::InvalidUtf8),
    }
}

} // verus!
