//! Text transformations under a small, closed set of named schemes:
//! base64, base64-url, url, hex and gzip.

pub mod base64_codec;
pub mod codec;
pub mod command;
pub mod error;
pub mod gzip_codec;
pub mod hex_codec;
pub mod scheme;
pub mod text;
pub mod url_codec;
