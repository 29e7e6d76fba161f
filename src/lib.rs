//! A validated four-letter chunk type code, as used by PNG-style chunked
//! containers, with the flags that the case of each letter encodes.

pub mod chunk_type;
pub mod laws;

pub use chunk_type::{ChunkType, DecodeError};
