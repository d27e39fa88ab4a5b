//! Streaming SHA-3 digest library: algorithm selection, a chunked
//! streaming-hash data path with transparent retry of interrupted reads,
//! and lowercase hexadecimal encoding of the final digest.

pub mod config;
pub mod engine;
pub mod hasher;
pub mod hexstr;
pub mod stream;
