pub mod context;
pub mod error;
pub mod kv_cache;
pub mod workspace;
