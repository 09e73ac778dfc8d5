//! Reading of GGUF model containers (versions 2 and 3): header, metadata,
//! tensor infos, alignment of the data section and tensor-data ranges.
pub mod decoding;
pub mod error;
pub mod file;
pub mod header;
pub mod laws;
pub mod metadata;
pub mod parser;
pub mod reader;
pub mod stability;
pub mod tensor_info;
pub mod types;
pub mod value;
