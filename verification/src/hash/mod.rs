//! Hashes compatible with the Fast Note Sync Obsidian plugin: a 32-bit rolling
//! hash over bytes, or over the UTF-16 code units of text, printed in decimal.

pub mod bytes;
pub mod decimal;
pub mod path;
pub mod rolling;
pub mod text;

pub use bytes::{
    binary_content_hash, file_content_hash, file_content_hash_parts, setting_content_hash,
    FILE_HASH_SLICE_SIZE, FILE_HASH_THRESHOLD,
};
pub use decimal::finish_hash;
pub use path::path_hash;
pub use text::{text_content_hash, text_hash_value};
