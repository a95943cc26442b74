//! Chunks of the PNG container format: the four-byte chunk type with its
//! property bits, and the length-prefixed, checksummed chunk record.
//!
//! [`chunk_type::ChunkType`] is the type code and what the case of its
//! letters says. [`chunk::Chunk`] is the record, read from bytes with
//! `take_from` or `try_from` and written with `as_bytes`. [`format`] says
//! what is written and what is read, and proves that the two fit.

pub mod checksum;
pub mod chunk;
pub mod chunk_type;
pub mod endian;
pub mod error;
pub mod format;
pub mod text;

pub use chunk::Chunk;
pub use chunk_type::ChunkType;
pub use error::ParseError;
