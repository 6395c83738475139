use squirrel_rs::file_parser::ggml_type::GGMLType;
use squirrel_rs::file_parser::gguf_file::GGUFFile;
use squirrel_rs::file_parser::gguf_tensor_info::Error;
use squirrel_rs::kernels::kernel_error::KernelError;
use squirrel_rs::models::common::context::ModelContext;
use squirrel_rs::models::common::kv_cache::KvCache;
use squirrel_rs::models::common::workspace::Workspace;
use squirrel_rs::models::llama::config::{ConfigError, LlamaConfig};
use squirrel_rs::models::llama::weights::{LlamaWeights, WeightsError};
use squirrel_rs::text_generator::{next_step, StepAction};

#[test]
fn kv_cache_appends_and_clears() {
    let mut c: KvCache<f32> = KvCache::new(2, 2);
    assert_eq!(c.seq_len(), 0);
    assert!(c.append(1, &[1.0, 2.0, 3.0, 4.0], &[5.0, 6.0, 7.0, 8.0]).is_ok());
    assert_eq!(c.k(1), &[1.0, 2.0, 3.0, 4.0]);
    assert_eq!(c.v(1), &[5.0, 6.0, 7.0, 8.0]);
    assert!(c.k(0).is_empty());
    c.advance(2);
    assert_eq!(c.seq_len(), 2);
    assert!(c.append(1, &[9.0, 10.0], &[11.0, 12.0]).is_ok());
    assert_eq!(c.k(1), &[1.0, 2.0, 3.0, 4.0, 9.0, 10.0]);
    c.advance(1);
    assert_eq!(c.seq_len(), 3);
    c.clear();
    assert_eq!(c.seq_len(), 0);
    assert!(c.k(1).is_empty());
    assert!(c.v(1).is_empty());
}

#[test]
fn kv_cache_rejects_partial_rows() {
    let mut c: KvCache<u8> = KvCache::new(1, 3);
    assert_eq!(c.append(0, &[1, 2], &[1, 2]), Err(KernelError::ShapeMismatch));
    assert_eq!(c.append(0, &[1, 2, 3], &[1, 2]), Err(KernelError::ShapeMismatch));
    assert!(c.k(0).is_empty());
    let mut z: KvCache<u8> = KvCache::new(1, 0);
    assert_eq!(z.append(0, &[], &[]), Err(KernelError::ShapeMismatch));
}

#[test]
fn workspace_buffers_follow_the_sequence_length() {
    let mut ws: Workspace<u8> = Workspace::new(8, 6, 4, 12, 100);
    assert_eq!(ws.hidden.shape, vec![1, 8]);
    assert_eq!(ws.logits.shape, vec![1, 100]);
    assert_eq!(ws.logits.data().len(), 400);
    ws.prepare(5);
    assert_eq!(ws.hidden.shape, vec![5, 8]);
    assert_eq!(ws.q.shape, vec![5, 6]);
    assert_eq!(ws.k.shape, vec![5, 4]);
    assert_eq!(ws.gate.shape, vec![5, 12]);
    assert_eq!(ws.ffn_out.data().len(), 5 * 8 * 4);
    assert_eq!(ws.last_hidden.shape, vec![1, 8]);
    assert_eq!(ws.logits.shape, vec![1, 100]);
    assert_eq!(ws.hidden.dtype, GGMLType::F32);
}

#[test]
fn context_reset_forgets_history() {
    let cache: KvCache<f32> = KvCache::new(1, 1);
    let ws: Workspace<u8> = Workspace::new(1, 1, 1, 1, 1);
    let mut ctx = ModelContext::new(cache, ws);
    assert!(ctx.cache.append(0, &[1.0], &[2.0]).is_ok());
    ctx.cache.advance(1);
    ctx.reset_cache();
    assert_eq!(ctx.cache.seq_len(), 0);
    assert!(ctx.cache.k(0).is_empty());
}

fn put_u32(b: &mut Vec<u8>, v: u32) {
    b.extend_from_slice(&v.to_le_bytes());
}

fn put_u64(b: &mut Vec<u8>, v: u64) {
    b.extend_from_slice(&v.to_le_bytes());
}

fn put_str(b: &mut Vec<u8>, s: &str) {
    put_u64(b, s.len() as u64);
    b.extend_from_slice(s.as_bytes());
}

enum Meta<'a> {
    U32(u32),
    F32(f32),
    Strs(&'a [&'a str]),
}

fn gguf_bytes(meta: &[(&str, Meta)], tensors: &[(&str, &[u64], u32, u64)]) -> Vec<u8> {
    let mut b = Vec::new();
    b.extend_from_slice(b"GGUF");
    put_u32(&mut b, 3);
    put_u64(&mut b, tensors.len() as u64);
    put_u64(&mut b, meta.len() as u64);
    for (k, v) in meta {
        put_str(&mut b, k);
        match v {
            Meta::U32(x) => {
                put_u32(&mut b, 4);
                put_u32(&mut b, *x);
            }
            Meta::F32(x) => {
                put_u32(&mut b, 6);
                put_u32(&mut b, x.to_bits());
            }
            Meta::Strs(xs) => {
                put_u32(&mut b, 9);
                put_u32(&mut b, 8);
                put_u64(&mut b, xs.len() as u64);
                for s in xs.iter() {
                    put_str(&mut b, s);
                }
            }
        }
    }
    for (name, dims, ty, off) in tensors {
        put_str(&mut b, name);
        put_u32(&mut b, dims.len() as u32);
        for &d in dims.iter() {
            put_u64(&mut b, d);
        }
        put_u32(&mut b, *ty);
        put_u64(&mut b, *off);
    }
    b
}

fn base_meta<'a>() -> Vec<(&'a str, Meta<'a>)> {
    vec![
        ("llama.block_count", Meta::U32(1)),
        ("llama.embedding_length", Meta::U32(64)),
        ("llama.feed_forward_length", Meta::U32(128)),
        ("llama.attention.head_count", Meta::U32(4)),
        ("llama.attention.head_count_kv", Meta::U32(2)),
        ("llama.rope.freq_base", Meta::F32(500000.0)),
        ("llama.attention.layer_norm_rms_epsilon", Meta::F32(1e-5)),
        ("llama.context_length", Meta::U32(2048)),
        ("tokenizer.ggml.bos_token_id", Meta::U32(1)),
        ("tokenizer.ggml.eos_token_id", Meta::U32(2)),
    ]
}

#[test]
fn config_reads_metadata_with_fallbacks() {
    let mut meta = base_meta();
    meta.push(("tokenizer.ggml.tokens", Meta::Strs(&["a", "b", "c"])));
    meta.push(("llama.rope.scaling.factor", Meta::F32(8.0)));
    let bytes = gguf_bytes(&meta, &[]);
    let f = GGUFFile::from_bytes(&bytes).unwrap();
    let cfg = LlamaConfig::from_gguf(&f).unwrap();
    assert_eq!(cfg.n_blocks, 1);
    assert_eq!(cfg.embed_dim, 64);
    assert_eq!(cfg.head_dim, 16);
    assert_eq!(cfg.vocab_size, 3);
    assert_eq!(cfg.context_length, 2048);
    assert_eq!(cfg.eos_token_id, 2);
    assert_eq!(f32::from_bits(cfg.rope_base), 500000.0);
    assert_eq!(f32::from_bits(cfg.rope_scaling.factor), 8.0);
    assert_eq!(f32::from_bits(cfg.rope_scaling.low_freq_factor), 1.0);
    assert_eq!(f32::from_bits(cfg.rope_scaling.high_freq_factor), 4.0);
    assert_eq!(cfg.rope_scaling.original_context_length, 8192);
}

#[test]
fn config_prefers_declared_vocab_and_head_dim() {
    let mut meta = base_meta();
    meta.push(("llama.vocab_size", Meta::U32(32000)));
    meta.push(("llama.rope.dimension_count", Meta::U32(8)));
    let bytes = gguf_bytes(&meta, &[]);
    let f = GGUFFile::from_bytes(&bytes).unwrap();
    let cfg = LlamaConfig::from_gguf(&f).unwrap();
    assert_eq!(cfg.vocab_size, 32000);
    assert_eq!(cfg.head_dim, 8);
}

#[test]
fn config_reports_missing_and_mistyped_entries() {
    let bytes = gguf_bytes(&base_meta(), &[]);
    let f = GGUFFile::from_bytes(&bytes).unwrap();
    match LlamaConfig::from_gguf(&f) {
        Err(ConfigError::MissingMetadata(k)) => {
            assert_eq!(k, "llama.vocab_size / tokenizer.ggml.tokens")
        }
        other => panic!("unexpected {other:?}"),
    }
    let mut meta = base_meta();
    meta[0] = ("llama.block_count", Meta::F32(1.0));
    let bytes = gguf_bytes(&meta, &[]);
    let f = GGUFFile::from_bytes(&bytes).unwrap();
    match LlamaConfig::from_gguf(&f) {
        Err(ConfigError::WrongMetadataType { key, expected }) => {
            assert_eq!(key, "llama.block_count");
            assert_eq!(expected, "u32");
        }
        other => panic!("unexpected {other:?}"),
    }
    let meta = vec![("llama.block_count", Meta::U32(1))];
    let bytes = gguf_bytes(&meta, &[]);
    let f = GGUFFile::from_bytes(&bytes).unwrap();
    match LlamaConfig::from_gguf(&f) {
        Err(ConfigError::MissingMetadata(k)) => assert_eq!(k, "llama.embedding_length"),
        other => panic!("unexpected {other:?}"),
    }
}

#[test]
fn new_context_sizes_cache_and_workspace() {
    let mut meta = base_meta();
    meta.push(("llama.vocab_size", Meta::U32(10)));
    let bytes = gguf_bytes(&meta, &[]);
    let f = GGUFFile::from_bytes(&bytes).unwrap();
    let cfg = LlamaConfig::from_gguf(&f).unwrap();
    let ctx: ModelContext<f32, u8> = cfg.new_context();
    assert_eq!(ctx.cache.seq_len(), 0);
    assert!(ctx.cache.k(0).is_empty());
    assert_eq!(ctx.ws.kv_dim, 32);
    assert_eq!(ctx.ws.q_dim, 64);
    assert_eq!(ctx.ws.logits.shape, vec![1, 10]);
}

const BLOCK_SUFFIXES: [&str; 9] = [
    "attn_norm", "attn_q", "attn_k", "attn_v", "attn_output", "ffn_norm", "ffn_gate", "ffn_up",
    "ffn_down",
];

#[test]
fn weights_load_and_tie_the_lm_head() {
    let mut names: Vec<String> = BLOCK_SUFFIXES.iter().map(|s| format!("blk.0.{s}.weight")).collect();
    names.push("token_embd.weight".to_string());
    names.push("output_norm.weight".to_string());
    let tensors: Vec<(&str, &[u64], u32, u64)> = names
        .iter()
        .enumerate()
        .map(|(i, n)| (n.as_str(), &[4u64][..], 0u32, (i as u64) * 16))
        .collect();
    let bytes = gguf_bytes(&[], &tensors);
    let f = GGUFFile::from_bytes(&bytes).unwrap();
    let mut mmap = bytes.clone();
    mmap.resize(f.tensor_data_offset as usize + 11 * 16, 0xAB);
    let w = LlamaWeights::try_from_gguf(&mmap, &f, 1).unwrap().unwrap();
    assert_eq!(w.blocks.len(), 1);
    assert_eq!(w.blocks[0].ffn.ffn_down.data.len(), 16);
    assert_eq!(w.output.data, w.token_embeddings.data);
    let w2 = LlamaWeights::from_gguf(&mmap, &f, 1).unwrap();
    assert_eq!(w2.output_norm.shape, vec![4]);
}

#[test]
fn weights_report_the_first_missing_tensor() {
    let bytes = gguf_bytes(&[], &[("token_embd.weight", &[4], 0, 0)]);
    let f = GGUFFile::from_bytes(&bytes).unwrap();
    let mmap = vec![0u8; 4096];
    match LlamaWeights::try_from_gguf(&mmap, &f, 2) {
        Some(Err(WeightsError::MissingTensor(n))) => assert_eq!(n, "blk.0.attn_norm.weight"),
        other => panic!("unexpected {other:?}"),
    }
    match LlamaWeights::from_gguf(&mmap, &f, 0) {
        Err(WeightsError::MissingTensor(n)) => assert_eq!(n, "output_norm.weight"),
        other => panic!("unexpected {other:?}"),
    }
}

#[test]
fn weights_out_of_range_stop_the_loader() {
    let bytes = gguf_bytes(&[], &[("token_embd.weight", &[4], 0, 1 << 20)]);
    let f = GGUFFile::from_bytes(&bytes).unwrap();
    let mmap = vec![0u8; 4096];
    assert!(LlamaWeights::try_from_gguf(&mmap, &f, 0).is_none());
}

#[test]
fn block_names_count_in_decimal() {
    let mut names: Vec<String> = Vec::new();
    for blk in 0..12 {
        for s in BLOCK_SUFFIXES.iter() {
            names.push(format!("blk.{blk}.{s}.weight"));
        }
    }
    names.retain(|n| n != "blk.11.ffn_up.weight");
    let tensors: Vec<(&str, &[u64], u32, u64)> =
        names.iter().map(|n| (n.as_str(), &[1u64][..], 0u32, 0u64)).collect();
    let bytes = gguf_bytes(&[], &tensors);
    let f = GGUFFile::from_bytes(&bytes).unwrap();
    let mut mmap = bytes.clone();
    mmap.resize(f.tensor_data_offset as usize + 64, 0);
    match LlamaWeights::try_from_gguf(&mmap, &f, 12) {
        Some(Err(WeightsError::MissingTensor(n))) => assert_eq!(n, "blk.11.ffn_up.weight"),
        other => panic!("unexpected {other:?}"),
    }
}

#[test]
fn generation_stops_at_eos() {
    let mut tokens = vec![1u32, 5];
    assert_eq!(next_step(&mut tokens, 2, 2, false, false, 1, 8), StepAction::Stop);
    assert_eq!(tokens, vec![1, 5]);
    match next_step(&mut tokens, 2, 2, true, false, 1, 8) {
        StepAction::Feed { input, reset_cache, last } => {
            assert_eq!(input, vec![2]);
            assert!(!reset_cache);
            assert!(!last);
        }
        StepAction::Stop => panic!("eos is ignored"),
    }
    assert_eq!(tokens, vec![1, 5, 2]);
}

#[test]
fn generation_without_cache_refeeds_everything() {
    let mut tokens = vec![1u32, 5];
    match next_step(&mut tokens, 9, 2, false, true, 3, 3) {
        StepAction::Feed { input, reset_cache, last } => {
            assert!(last);
            assert_eq!(input, vec![1, 5, 9]);
            assert!(reset_cache);
        }
        StepAction::Stop => panic!("not eos"),
    }
}

/// Runs a generation of sampled tokens through `next_step`, with a cache
/// that takes each fed input, and checks that it always holds the sequence.
fn cache_follows_tokens(no_kv_cache: bool) {
    let mut tokens: Vec<u32> = vec![1, 5, 7];
    let mut cache: Vec<u32> = tokens.clone();
    for (step, next) in [11u32, 13, 17, 19].into_iter().enumerate() {
        match next_step(&mut tokens, next, 2, false, no_kv_cache, step + 1, 4) {
            StepAction::Stop => panic!("only the eos token stops"),
            StepAction::Feed { input, reset_cache, last } => {
                assert_eq!(last, step + 1 == 4);
                if reset_cache {
                    cache.clear();
                }
                cache.extend_from_slice(&input);
            }
        }
        assert_eq!(cache, tokens);
    }
    assert_eq!(tokens, vec![1, 5, 7, 11, 13, 17, 19]);
}

#[test]
fn cache_stays_in_step_with_and_without_cache() {
    cache_follows_tokens(false);
    cache_follows_tokens(true);
}

#[test]
fn every_layer_holds_one_row_per_position_after_each_pass() {
    let width = 4;
    let mut c: KvCache<u8> = KvCache::new(3, width);
    for seq in [3usize, 1, 1, 2] {
        let k = vec![1u8; seq * width];
        let v = vec![2u8; seq * width];
        for layer in 0..3 {
            c.append(layer, &k, &v).unwrap();
        }
        c.advance(seq);
        for layer in 0..3 {
            assert_eq!(c.k(layer).len(), c.seq_len() * width);
            assert_eq!(c.v(layer).len(), c.seq_len() * width);
        }
    }
    assert_eq!(c.seq_len(), 7);
}

#[test]
fn lm_head_ties_only_when_output_is_missing() {
    // `output.weight` present with a layout that has no block size: an error.
    let bytes = gguf_bytes(
        &[],
        &[
            ("token_embd.weight", &[4], 0, 0),
            ("output_norm.weight", &[4], 0, 16),
            ("output.weight", &[256], 14, 32),
        ],
    );
    let f = GGUFFile::from_bytes(&bytes).unwrap();
    let mut mmap = bytes.clone();
    mmap.resize(f.tensor_data_offset as usize + 4096, 0);
    match LlamaWeights::from_gguf(&mmap, &f, 0) {
        Err(WeightsError::TensorBuild { name, source }) => {
            assert_eq!(name, "output.weight");
            assert_eq!(source, Error::UnsupportedQuantScheme(GGMLType::Q6_K));
        }
        other => panic!("unexpected {other:?}"),
    }

    // `output.weight` present and buildable: it is the LM head.
    let bytes = gguf_bytes(
        &[],
        &[
            ("token_embd.weight", &[4], 0, 0),
            ("output_norm.weight", &[4], 0, 16),
            ("output.weight", &[8], 0, 32),
        ],
    );
    let f = GGUFFile::from_bytes(&bytes).unwrap();
    let mut mmap = bytes.clone();
    mmap.resize(f.tensor_data_offset as usize + 64, 0);
    let w = LlamaWeights::from_gguf(&mmap, &f, 0).unwrap();
    assert_eq!(w.output.shape, vec![8]);
    assert_eq!(w.token_embeddings.shape, vec![4]);
}
