pub mod binary_reader_common;
pub mod ggml_type;
pub mod gguf_file;
pub mod gguf_header;
pub mod gguf_metadata;
pub mod gguf_metadata_value;
pub mod gguf_tensor_info;
pub mod str_map;
