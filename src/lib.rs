//! Parsing, validation and serialisation of PNG-style chunks: a length
//! field, a four-letter type code, a payload and a CRC-32 trailer.

pub mod chunk;
pub mod chunk_type;
mod text;

pub use chunk::{Chunk, ChunkError};
pub use chunk_type::{ChunkType, ChunkTypeError};
