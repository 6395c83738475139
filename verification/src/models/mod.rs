pub mod common;
pub mod llama;
