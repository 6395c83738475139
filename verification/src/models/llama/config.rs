use vstd::prelude::*;

use crate::file_parser::gguf_file::GGUFFile;
use crate::file_parser::gguf_metadata_value::{GGUFValue, ValueModel};

verus! {

/// Why the model's configuration could not be read from the metadata.
#[derive(Debug)]
pub enum ConfigError {
    MissingMetadata(String),
    WrongMetadataType { key: String, expected: &'static str },
}

/// The content of a configuration error.
pub enum ConfigErrorModel {
    MissingMetadata(Seq<char>),
    WrongMetadataType { key: Seq<char>, expected: Seq<char> },
}

impl View for ConfigError {
    type V = ConfigErrorModel;

    open spec fn view(&self) -> ConfigErrorModel {
        match self {
            ConfigError::MissingMetadata(k) => ConfigErrorModel::MissingMetadata(k@),
            ConfigError::WrongMetadataType { key, expected } => ConfigErrorModel::WrongMetadataType {
                key: key@,
                expected: expected@,
            },
        }
    }
}

/// RoPE frequency scaling parameters (`llama3` scaling). The three factors
/// are `f32` values kept as their IEEE-754 bits.
#[derive(Debug, Clone, Copy, PartialEq, Eq, Structural)]
pub struct RopeScaling {
    pub factor: u32,
    pub low_freq_factor: u32,
    pub high_freq_factor: u32,
    pub original_context_length: u32,
}

/// Architectural constants read once from GGUF metadata (Llama 3.2).
/// `rope_base` and `rms_eps` are `f32` values kept as their bits.
#[derive(Debug, Clone, Copy, PartialEq, Eq, Structural)]
pub struct LlamaConfig {
    pub n_blocks: usize,
    pub embed_dim: usize,
    pub ffn_dim: usize,
    pub n_heads: usize,
    pub n_kv_heads: usize,
    pub head_dim: usize,
    pub rope_base: u32,
    pub rms_eps: u32,
    pub vocab_size: usize,
    pub context_length: usize,
    pub bos_token_id: u32,
    pub eos_token_id: u32,
    pub rope_scaling: RopeScaling,
}

/// The bits of `32.0f32`, the default scaling factor.
pub const LLAMA3_DEFAULT_FACTOR: u32 = 0x4200_0000;

/// The bits of `1.0f32`, the default low-frequency factor.
pub const LLAMA3_DEFAULT_LOW: u32 = 0x3F80_0000;

/// The bits of `4.0f32`, the default high-frequency factor.
pub const LLAMA3_DEFAULT_HIGH: u32 = 0x4080_0000;

/// The default original context length.
pub const LLAMA3_DEFAULT_ORIG_CTX: u32 = 8192;

/// A `u32` entry of the metadata.
pub open spec fn spec_meta_u32(meta: Map<Seq<char>, ValueModel>, key: Seq<char>) -> Result<
    u32,
    ConfigErrorModel,
> {
    if !meta.contains_key(key) {
        Err(ConfigErrorModel::MissingMetadata(key))
    } else {
        match meta[key] {
            ValueModel::U32(v) => Ok(v),
            _ => Err(ConfigErrorModel::WrongMetadataType { key, expected: "u32"@ }),
        }
    }
}

/// An `f32` entry of the metadata, as its bits.
pub open spec fn spec_meta_f32(meta: Map<Seq<char>, ValueModel>, key: Seq<char>) -> Result<
    u32,
    ConfigErrorModel,
> {
    if !meta.contains_key(key) {
        Err(ConfigErrorModel::MissingMetadata(key))
    } else {
        match meta[key] {
            ValueModel::F32(v) => Ok(v),
            _ => Err(ConfigErrorModel::WrongMetadataType { key, expected: "f32"@ }),
        }
    }
}

/// A metadata entry read with `read`, or `default` when it cannot be read.
pub open spec fn or_default(r: Result<u32, ConfigErrorModel>, default: u32) -> u32 {
    match r {
        Ok(v) => v,
        Err(_) => default,
    }
}

/// The scaling parameters the metadata declares, with the Llama 3.2
/// defaults for any that it does not.
pub open spec fn spec_rope_scaling(meta: Map<Seq<char>, ValueModel>) -> RopeScaling {
    RopeScaling {
        factor: or_default(spec_meta_f32(meta, "llama.rope.scaling.factor"@), LLAMA3_DEFAULT_FACTOR),
        low_freq_factor: or_default(
            spec_meta_f32(meta, "llama.rope.scaling.low_freq_factor"@),
            LLAMA3_DEFAULT_LOW,
        ),
        high_freq_factor: or_default(
            spec_meta_f32(meta, "llama.rope.scaling.high_freq_factor"@),
            LLAMA3_DEFAULT_HIGH,
        ),
        original_context_length: or_default(
            spec_meta_u32(meta, "llama.rope.scaling.original_context_length"@),
            LLAMA3_DEFAULT_ORIG_CTX,
        ),
    }
}

/// The vocabulary size: `llama.vocab_size` if it reads as a `u32`, else the
/// length of the token list.
pub open spec fn spec_vocab_size(meta: Map<Seq<char>, ValueModel>) -> Result<
    usize,
    ConfigErrorModel,
> {
    match spec_meta_u32(meta, "llama.vocab_size"@) {
        Ok(v) => Ok(v as usize),
        Err(_) => if meta.contains_key("tokenizer.ggml.tokens"@) && meta["tokenizer.ggml.tokens"@] is Array {
            Ok(meta["tokenizer.ggml.tokens"@]->Array_0.len() as usize)
        } else {
            Err(ConfigErrorModel::MissingMetadata("llama.vocab_size / tokenizer.ggml.tokens"@))
        },
    }
}

/// The configuration that the metadata describes, or the first entry
/// that is missing or of the wrong type.
pub open spec fn spec_llama_config(meta: Map<Seq<char>, ValueModel>) -> Result<
    LlamaConfig,
    ConfigErrorModel,
> {
    match spec_meta_u32(meta, "llama.block_count"@) {
        Err(e) => Err(e),
        Ok(n_blocks) => match spec_meta_u32(meta, "llama.embedding_length"@) {
            Err(e) => Err(e),
            Ok(embed_dim) => match spec_meta_u32(meta, "llama.feed_forward_length"@) {
                Err(e) => Err(e),
                Ok(ffn_dim) => match spec_meta_u32(meta, "llama.attention.head_count"@) {
                    Err(e) => Err(e),
                    Ok(n_heads) => match spec_meta_u32(meta, "llama.attention.head_count_kv"@) {
                        Err(e) => Err(e),
                        Ok(n_kv_heads) => {
                            let head_dim = match spec_meta_u32(meta, "llama.rope.dimension_count"@) {
                                Ok(v) => v as usize,
                                Err(_) => ((embed_dim as usize) / (n_heads as usize)) as usize,
                            };
                            match spec_meta_f32(meta, "llama.rope.freq_base"@) {
                                Err(e) => Err(e),
                                Ok(rope_base) => match spec_meta_f32(meta, "llama.attention.layer_norm_rms_epsilon"@) {
                                    Err(e) => Err(e),
                                    Ok(rms_eps) => match spec_meta_u32(meta, "llama.context_length"@) {
                                        Err(e) => Err(e),
                                        Ok(context_length) => match spec_meta_u32(meta, "tokenizer.ggml.bos_token_id"@) {
                                            Err(e) => Err(e),
                                            Ok(bos) => match spec_meta_u32(meta, "tokenizer.ggml.eos_token_id"@) {
                                                Err(e) => Err(e),
                                                Ok(eos) => match spec_vocab_size(meta) {
                                                    Err(e) => Err(e),
                                                    Ok(vocab_size) => Ok(LlamaConfig {
                                                        n_blocks: n_blocks as usize,
                                                        embed_dim: embed_dim as usize,
                                                        ffn_dim: ffn_dim as usize,
                                                        n_heads: n_heads as usize,
                                                        n_kv_heads: n_kv_heads as usize,
                                                        head_dim,
                                                        rope_base,
                                                        rms_eps,
                                                        vocab_size,
                                                        context_length: context_length as usize,
                                                        bos_token_id: bos,
                                                        eos_token_id: eos,
                                                        rope_scaling: spec_rope_scaling(meta),
                                                    }),
                                                },
                                            },
                                        },
                                    },
                                },
                            }
                        },
                    },
                },
            },
        },
    }
}

/// The metadata holds the `u32` value `v` under `key`.
pub open spec fn stores_u32(meta: Map<Seq<char>, ValueModel>, key: Seq<char>, v: u32) -> bool {
    meta.contains_key(key) && meta[key] == ValueModel::U32(v)
}

/// The metadata holds the `f32` value with bits `v` under `key`.
pub open spec fn stores_f32(meta: Map<Seq<char>, ValueModel>, key: Seq<char>, v: u32) -> bool {
    meta.contains_key(key) && meta[key] == ValueModel::F32(v)
}

/// The metadata holds some `u32` value under `key`.
pub open spec fn has_u32(meta: Map<Seq<char>, ValueModel>, key: Seq<char>) -> bool {
    meta.contains_key(key) && meta[key] is U32
}

/// The metadata holds some `f32` value under `key`.
pub open spec fn has_f32(meta: Map<Seq<char>, ValueModel>, key: Seq<char>) -> bool {
    meta.contains_key(key) && meta[key] is F32
}

/// Each field of `c` is the value stored under its own key: the sizes
/// under `llama.*`, the special tokens under `tokenizer.ggml.*`; the head
/// dimension is `llama.rope.dimension_count` when present, else the
/// embedding width over the head count; the vocabulary size is
/// `llama.vocab_size` when present, else the length of the token list;
/// and each RoPE scaling parameter is its `llama.rope.scaling.*` entry when
/// present, else the Llama 3.2 value (32, 1, 4 and 8192).
pub open spec fn config_from_named_keys(meta: Map<Seq<char>, ValueModel>, c: LlamaConfig) -> bool {
    &&& c.n_blocks <= u32::MAX && stores_u32(meta, "llama.block_count"@, c.n_blocks as u32)
    &&& c.embed_dim <= u32::MAX && stores_u32(meta, "llama.embedding_length"@, c.embed_dim as u32)
    &&& c.ffn_dim <= u32::MAX && stores_u32(meta, "llama.feed_forward_length"@, c.ffn_dim as u32)
    &&& c.n_heads <= u32::MAX && stores_u32(meta, "llama.attention.head_count"@, c.n_heads as u32)
    &&& c.n_kv_heads <= u32::MAX && stores_u32(
        meta,
        "llama.attention.head_count_kv"@,
        c.n_kv_heads as u32,
    )
    &&& if has_u32(meta, "llama.rope.dimension_count"@) {
        c.head_dim <= u32::MAX && stores_u32(meta, "llama.rope.dimension_count"@, c.head_dim as u32)
    } else {
        c.head_dim == (c.embed_dim / c.n_heads) as usize
    }
    &&& stores_f32(meta, "llama.rope.freq_base"@, c.rope_base)
    &&& stores_f32(meta, "llama.attention.layer_norm_rms_epsilon"@, c.rms_eps)
    &&& c.context_length <= u32::MAX && stores_u32(
        meta,
        "llama.context_length"@,
        c.context_length as u32,
    )
    &&& stores_u32(meta, "tokenizer.ggml.bos_token_id"@, c.bos_token_id)
    &&& stores_u32(meta, "tokenizer.ggml.eos_token_id"@, c.eos_token_id)
    &&& if has_u32(meta, "llama.vocab_size"@) {
        c.vocab_size <= u32::MAX && stores_u32(meta, "llama.vocab_size"@, c.vocab_size as u32)
    } else {
        meta.contains_key("tokenizer.ggml.tokens"@) && meta["tokenizer.ggml.tokens"@] is Array
            && c.vocab_size == meta["tokenizer.ggml.tokens"@]->Array_0.len() as usize
    }
    &&& if has_f32(meta, "llama.rope.scaling.factor"@) {
        stores_f32(meta, "llama.rope.scaling.factor"@, c.rope_scaling.factor)
    } else {
        c.rope_scaling.factor == 0x4200_0000u32
    }
    &&& if has_f32(meta, "llama.rope.scaling.low_freq_factor"@) {
        stores_f32(meta, "llama.rope.scaling.low_freq_factor"@, c.rope_scaling.low_freq_factor)
    } else {
        c.rope_scaling.low_freq_factor == 0x3F80_0000u32
    }
    &&& if has_f32(meta, "llama.rope.scaling.high_freq_factor"@) {
        stores_f32(meta, "llama.rope.scaling.high_freq_factor"@, c.rope_scaling.high_freq_factor)
    } else {
        c.rope_scaling.high_freq_factor == 0x4080_0000u32
    }
    &&& if has_u32(meta, "llama.rope.scaling.original_context_length"@) {
        stores_u32(
            meta,
            "llama.rope.scaling.original_context_length"@,
            c.rope_scaling.original_context_length,
        )
    } else {
        c.rope_scaling.original_context_length == 8192u32
    }
}

/// A configuration read from metadata takes each field from the entry of
/// that field's own key (see `config_from_named_keys`).
pub proof fn lemma_config_from_named_keys(meta: Map<Seq<char>, ValueModel>)
    ensures
        spec_llama_config(meta) matches Ok(c) ==> config_from_named_keys(meta, c),
{
}

/// The metadata on which reading the configuration divides by a zero head
/// count: the first five entries read, and `llama.attention.head_count` is 0.
/// (The default head dimension `embed_dim / n_heads` is computed whether or
/// not `llama.rope.dimension_count` is present.)
pub open spec fn divides_by_zero_heads(meta: Map<Seq<char>, ValueModel>) -> bool {
    &&& spec_meta_u32(meta, "llama.block_count"@) is Ok
    &&& spec_meta_u32(meta, "llama.embedding_length"@) is Ok
    &&& spec_meta_u32(meta, "llama.feed_forward_length"@) is Ok
    &&& spec_meta_u32(meta, "llama.attention.head_count"@) == Ok::<u32, ConfigErrorModel>(0)
    &&& spec_meta_u32(meta, "llama.attention.head_count_kv"@) is Ok
}

/// The content of a configuration read, or of its error.
pub open spec fn config_result(res: Result<LlamaConfig, ConfigError>) -> Result<
    LlamaConfig,
    ConfigErrorModel,
> {
    match res {
        Ok(c) => Ok(c),
        Err(e) => Err(e@),
    }
}

/// A `u32` entry of the file's metadata.
fn read_u32(gguf: &GGUFFile, key: &str) -> (r: Result<u32, ConfigError>)
    ensures
        config_u32_result(r) == spec_meta_u32(gguf.metadata@, key@),
{
    match gguf.metadata.metadata.get(key) {
        None => Err(ConfigError::MissingMetadata(key.to_owned())),
        Some(GGUFValue::U32(v)) => Ok(*v),
        Some(_) => Err(ConfigError::WrongMetadataType { key: key.to_owned(), expected: "u32" }),
    }
}

/// An `f32` entry of the file's metadata, as its bits.
fn read_f32(gguf: &GGUFFile, key: &str) -> (r: Result<u32, ConfigError>)
    ensures
        config_u32_result(r) == spec_meta_f32(gguf.metadata@, key@),
{
    match gguf.metadata.metadata.get(key) {
        None => Err(ConfigError::MissingMetadata(key.to_owned())),
        Some(GGUFValue::F32(v)) => Ok(*v),
        Some(_) => Err(ConfigError::WrongMetadataType { key: key.to_owned(), expected: "f32" }),
    }
}

/// A read entry, or the content of its error.
pub open spec fn config_u32_result(r: Result<u32, ConfigError>) -> Result<u32, ConfigErrorModel> {
    match r {
        Ok(v) => Ok(v),
        Err(e) => Err(e@),
    }
}

impl RopeScaling {
    /// The scaling parameters from the metadata, each falling back to the
    /// canonical Llama 3.2 value when the entry is missing or mistyped.
    pub fn from_gguf(gguf: &GGUFFile) -> (r: RopeScaling)
        ensures
            r == spec_rope_scaling(gguf.metadata@),
    {
        let factor = match read_f32(gguf, "llama.rope.scaling.factor") {
            Ok(v) => v,
            Err(_) => LLAMA3_DEFAULT_FACTOR,
        };
        let low_freq_factor = match read_f32(gguf, "llama.rope.scaling.low_freq_factor") {
            Ok(v) => v,
            Err(_) => LLAMA3_DEFAULT_LOW,
        };
        let high_freq_factor = match read_f32(gguf, "llama.rope.scaling.high_freq_factor") {
            Ok(v) => v,
            Err(_) => LLAMA3_DEFAULT_HIGH,
        };
        let original_context_length = match read_u32(
            gguf,
            "llama.rope.scaling.original_context_length",
        ) {
            Ok(v) => v,
            Err(_) => LLAMA3_DEFAULT_ORIG_CTX,
        };
        RopeScaling { factor, low_freq_factor, high_freq_factor, original_context_length }
    }
}

impl LlamaConfig {
    /// Reads the architecture constants from the file's metadata.
    pub fn from_gguf(gguf: &GGUFFile) -> (r: Result<Self, ConfigError>)
        requires
            !divides_by_zero_heads(gguf.metadata@),
        ensures
            config_result(r) == spec_llama_config(gguf.metadata@),
            r matches Ok(c) ==> config_from_named_keys(gguf.metadata@, c),
    {
        proof {
            lemma_config_from_named_keys(gguf.metadata@);
        }
        let n_blocks = read_u32(gguf, "llama.block_count")? as usize;
        let embed_dim = read_u32(gguf, "llama.embedding_length")? as usize;
        let ffn_dim = read_u32(gguf, "llama.feed_forward_length")? as usize;
        let n_heads = read_u32(gguf, "llama.attention.head_count")? as usize;
        let n_kv_heads = read_u32(gguf, "llama.attention.head_count_kv")? as usize;
        let default_head_dim = embed_dim / n_heads;
        let head_dim = match read_u32(gguf, "llama.rope.dimension_count") {
            Ok(v) => v as usize,
            Err(_) => default_head_dim,
        };
        let rope_base = read_f32(gguf, "llama.rope.freq_base")?;
        let rms_eps = read_f32(gguf, "llama.attention.layer_norm_rms_epsilon")?;
        let context_length = read_u32(gguf, "llama.context_length")? as usize;
        let bos_token_id = read_u32(gguf, "tokenizer.ggml.bos_token_id")?;
        let eos_token_id = read_u32(gguf, "tokenizer.ggml.eos_token_id")?;
        let vocab_size = match read_u32(gguf, "llama.vocab_size") {
            Ok(v) => v as usize,
            Err(_) => match gguf.metadata.metadata.get("tokenizer.ggml.tokens") {
                Some(GGUFValue::Array(arr)) => arr.len(),
                _ => {
                    return Err(
                        ConfigError::MissingMetadata(
                            "llama.vocab_size / tokenizer.ggml.tokens".to_owned(),
                        ),
                    );
                },
            },
        };
        let rope_scaling = RopeScaling::from_gguf(gguf);
        Ok(
            Self {
                n_blocks,
                embed_dim,
                ffn_dim,
                n_heads,
                n_kv_heads,
                head_dim,
                rope_base,
                rms_eps,
                vocab_size,
                context_length,
                bos_token_id,
                eos_token_id,
                rope_scaling,
            },
        )
    }
}

} // verus!
