//! squirrel_rs: the verified core of a small GGUF inference engine.
//!
//! The library holds the GGUF container parser, the tensor bookkeeping,
//! the key/value cache and the greedy sampler. Floating-point kernels live
//! in the application crate.
pub mod file_parser;
pub mod kernels;
pub mod samplers;
pub mod models;
pub mod ops;
pub mod perplexity;
pub mod text_generator;
