//! The failures that this crate reports.

use vstd::prelude::*;

verus! {

/// Why a chunk, a chunk type or a chunk's text could not be produced.
#[derive(Clone, Copy, Debug, PartialEq, Eq, Structural)]
pub enum ParseError {
    /// A type code given as text is not exactly four ASCII letters.
    InvalidTypeCode,
    /// The input is shorter than the smallest possible chunk.
    TooShort,
    /// The input ends before the data and checksum that its length field announces.
    TruncatedData,
    /// The stored checksum differs from the checksum of the stored type and data.
    CrcMismatch,
    /// Bytes follow the chunk where exactly one chunk was expected.
    TrailingData,
    /// The chunk's data is not valid UTF-8.
    Encoding,
}

} // verus!
