use vstd::prelude::*;

use crate::file_parser::binary_reader_common::{
    le_u32, read_str, read_step, read_u32, spec_read_str, spec_read_u32, value_of, ByteReader,
    ReadError, ReadErrorModel,
    ReadResult,
};
use crate::file_parser::gguf_metadata_value::{
    gguf_type_of, spec_read_value, GGUFType, GGUFValue, ValueModel,
};
use crate::file_parser::str_map::{assoc_map, StrMap};

verus! {

/// The metadata section: a map from keys to values.
#[derive(Debug)]
pub struct GGUFMetadata {
    pub metadata: StrMap<GGUFValue>,
}

impl View for GGUFMetadata {
    type V = Map<Seq<char>, ValueModel>;

    open spec fn view(&self) -> Map<Seq<char>, ValueModel> {
        self.metadata@
    }
}

/// One metadata entry: a string key, a `u32` value type id, the value.
pub open spec fn spec_read_kv(data: Seq<u8>, pos: int) -> ReadResult<(Seq<char>, ValueModel)> {
    match spec_read_str(data, pos) {
        Err(e) => Err(e),
        Ok((key, p1)) => match spec_read_u32(data, p1) {
            Err(e) => Err(e),
            Ok((raw, p2)) => match gguf_type_of(raw) {
                None => Err((ReadErrorModel::InvalidValueType(raw), p2)),
                Some(ty) => match spec_read_value(data, p2, ty) {
                    Err(e) => Err(e),
                    Ok((v, p3)) => Ok(((key, v), p3)),
                },
            },
        },
    }
}

/// A metadata entry is laid out as: the key (a length-prefixed string), the
/// value type id as a little-endian `u32`, then the value of that type.
pub proof fn lemma_kv_layout(data: Seq<u8>, pos: int)
    ensures
        spec_read_kv(data, pos) matches Ok((kv, p)) ==> spec_read_str(data, pos) matches Ok(
            (key, p1),
        ) && {
            &&& key == kv.0
            &&& p1 + 4 <= data.len()
            &&& gguf_type_of(le_u32(data.subrange(p1, p1 + 4)) as u32) matches Some(ty)
            &&& spec_read_value(data, p1 + 4, ty) == Ok::<(ValueModel, int), (ReadErrorModel, int)>(
                (kv.1, p),
            )
        },
{
}

/// `count` metadata entries in file order.
pub open spec fn spec_read_kvs(data: Seq<u8>, pos: int, count: nat) -> ReadResult<
    Seq<(Seq<char>, ValueModel)>,
>
    decreases count,
{
    if count == 0 {
        Ok((Seq::empty(), pos))
    } else {
        match spec_read_kvs(data, pos, (count - 1) as nat) {
            Err(e) => Err(e),
            Ok((kvs, p)) => match spec_read_kv(data, p) {
                Err(e) => Err(e),
                Ok((kv, q)) => Ok((kvs.push(kv), q)),
            },
        }
    }
}

/// Once reading the first `n` entries fails, reading more fails the same way.
pub proof fn lemma_read_kvs_err(data: Seq<u8>, pos: int, n: nat, m: nat)
    requires
        n <= m,
        spec_read_kvs(data, pos, n) is Err,
    ensures
        spec_read_kvs(data, pos, m) == spec_read_kvs(data, pos, n),
    decreases m,
{
    if m > n {
        lemma_read_kvs_err(data, pos, n, (m - 1) as nat);
    }
}

/// The metadata map of a run of entries read as a result, or the error.
pub open spec fn spec_read_metadata(data: Seq<u8>, pos: int, count: nat) -> ReadResult<
    Map<Seq<char>, ValueModel>,
> {
    match spec_read_kvs(data, pos, count) {
        Ok((kvs, p)) => Ok((assoc_map(kvs), p)),
        Err(e) => Err(e),
    }
}

/// The map of a metadata read, or its error.
pub open spec fn metadata_result(res: Result<GGUFMetadata, ReadError>) -> Result<
    Map<Seq<char>, ValueModel>,
    ReadErrorModel,
> {
    match res {
        Ok(m) => Ok(m@),
        Err(e) => Err(e@),
    }
}

impl GGUFMetadata {
    /// Reads `count` entries. A key that occurs again replaces the earlier
    /// value.
    pub fn read_from(reader: &mut ByteReader, count: usize) -> (res: Result<GGUFMetadata, ReadError>)
        ensures
            metadata_result(res) == value_of(
                spec_read_metadata(old(reader).bytes(), old(reader).position(), count as nat),
            ),
            read_step(
                *old(reader),
                *final(reader),
                spec_read_metadata(old(reader).bytes(), old(reader).position(), count as nat),
            ),
    {
        proof {
            use_type_invariant(&*reader);
        }
        let ghost data = reader.bytes();
        let ghost pos0 = reader.position();
        let mut meta: StrMap<GGUFValue> = StrMap::new();
        let ghost mut kvs: Seq<(Seq<char>, ValueModel)> = Seq::empty();
        let mut i: usize = 0;
        while i < count
            invariant
                reader.bytes() == data,
                data == old(reader).bytes(),
                pos0 == old(reader).position(),
                0 <= reader.position() <= data.len(),
                i <= count,
                spec_read_kvs(data, pos0, i as nat) == Ok::<
                    (Seq<(Seq<char>, ValueModel)>, int),
                    (ReadErrorModel, int),
                >((kvs, reader.position())),
                meta@ == assoc_map(kvs),
            decreases count - i,
        {
            let ghost p = reader.position();
            let r = Self::read_entry(reader);
            match r {
                Err(e) => {
                    proof {
                        lemma_read_kvs_err(data, pos0, (i + 1) as nat, count as nat);
                    }
                    return Err(e);
                },
                Ok((key, value)) => {
                    let ghost old_kvs = kvs;
                    proof {
                        kvs = kvs.push((key@, value@));
                        assert(kvs.drop_last() =~= old_kvs);
                    }
                    meta.insert(key, value);
                },
            }
            i = i + 1;
        }
        Ok(GGUFMetadata { metadata: meta })
    }

    /// Reads one entry: key, value type id, value.
    fn read_entry(reader: &mut ByteReader) -> (res: Result<(String, GGUFValue), ReadError>)
        ensures
            match res {
                Ok((k, v)) => value_of(spec_read_kv(old(reader).bytes(), old(reader).position()))
                    == Ok::<(Seq<char>, ValueModel), ReadErrorModel>((k@, v@)),
                Err(e) => value_of(spec_read_kv(old(reader).bytes(), old(reader).position()))
                    == Err::<(Seq<char>, ValueModel), ReadErrorModel>(e@),
            },
            read_step(
                *old(reader),
                *final(reader),
                spec_read_kv(old(reader).bytes(), old(reader).position()),
            ),
    {
        let key = read_str(reader)?;
        let raw = read_u32(reader)?;
        let value_type = match GGUFType::from_id(raw) {
            Some(t) => t,
            None => return Err(ReadError::InvalidValueType(raw)),
        };
        let value = GGUFValue::read_from(reader, value_type)?;
        Ok((key, value))
    }
}

} // verus!
