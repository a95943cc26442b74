//! The chunk as a mathematical value and as bytes on the wire: what is
//! written for a chunk, what is read from bytes, and how the two fit.
//!
//! | field  | size           | meaning                                |
//! |--------|----------------|----------------------------------------|
//! | length | 4 bytes        | number of data bytes, big-endian       |
//! | type   | 4 bytes        | the type code                          |
//! | data   | `length` bytes | the payload                            |
//! | crc    | 4 bytes        | CRC-32 of type and data, big-endian    |

use crate::checksum::crc32_ieee;
use crate::endian::{be_bytes, be_u32, lemma_be_bytes_of_be_u32, lemma_be_u32_of_be_bytes};
use crate::error::ParseError;
use vstd::prelude::*;

verus! {

/// What a chunk is: its type code and its data. The length and the
/// checksum follow from these two.
pub struct ChunkView {
    /// The four bytes of the type code.
    pub chunk_type: Seq<u8>,
    /// The data bytes.
    pub data: Seq<u8>,
}

impl ChunkView {
    /// A type code of four bytes, and data whose length fits the four-byte
    /// length field.
    pub open spec fn wf(self) -> bool {
        &&& self.chunk_type.len() == 4
        &&& self.data.len() <= u32::MAX
    }

    /// The length field: the number of data bytes.
    pub open spec fn length(self) -> u32 {
        self.data.len() as u32
    }

    /// The checksum field: the CRC-32 of the type code followed by the data.
    pub open spec fn crc(self) -> u32 {
        crc32_ieee(self.chunk_type + self.data)
    }

    /// The chunk as it is written: length, type code, data, checksum, the
    /// two numbers big-endian.
    pub open spec fn serialized(self) -> Seq<u8> {
        be_bytes(self.length()) + self.chunk_type + self.data + be_bytes(self.crc())
    }
}

/// The fields of a chunk as they stand in some bytes, the checksum not yet
/// looked at.
pub struct RawChunkView {
    /// The type code and the data that the bytes hold.
    pub chunk: ChunkView,
    /// The checksum that the bytes hold behind the data.
    pub stored_crc: u32,
    /// The number of bytes behind the checksum.
    pub rest: nat,
}

/// The number of data bytes that the first four bytes of `bytes` announce.
pub open spec fn declared_length(bytes: Seq<u8>) -> int {
    be_u32(bytes.subrange(0, 4)) as int
}

/// Where the fields of the first chunk lie in `bytes`: fewer than twelve
/// bytes cannot hold a chunk; then the length field says how long the data
/// is, and the bytes must reach to the end of the checksum behind it.
pub open spec fn framed(bytes: Seq<u8>) -> Result<RawChunkView, ParseError> {
    if bytes.len() < 12 {
        Err(ParseError::TooShort)
    } else if bytes.len() < 12 + declared_length(bytes) {
        Err(ParseError::TruncatedData)
    } else {
        let n = declared_length(bytes);
        Ok(
            RawChunkView {
                chunk: ChunkView { chunk_type: bytes.subrange(4, 8), data: bytes.subrange(8, 8 + n) },
                stored_crc: be_u32(bytes.subrange(8 + n, 12 + n)),
                rest: (bytes.len() - 12 - n) as nat,
            },
        )
    }
}

/// What the checksum decides of fields that were found: they are a chunk
/// if the checksum stored with them is `computed_crc`, the checksum
/// computed of their type and data; else `CrcMismatch`.
pub open spec fn crc_verdict(stored_crc: u32, computed_crc: u32) -> Result<(), ParseError> {
    if stored_crc == computed_crc {
        Ok(())
    } else {
        Err(ParseError::CrcMismatch)
    }
}

/// What reading one chunk from the front of `bytes` gives: the chunk and
/// the number of bytes that follow it, or the reason why there is none.
pub open spec fn parsed(bytes: Seq<u8>) -> Result<(ChunkView, nat), ParseError> {
    match framed(bytes) {
        Err(e) => Err(e),
        Ok(raw) => match crc_verdict(raw.stored_crc, raw.chunk.crc()) {
            Err(e) => Err(e),
            Ok(_) => Ok((raw.chunk, raw.rest)),
        },
    }
}

/// What reading `bytes` as exactly one chunk gives: as `parsed`, but bytes
/// after the chunk are an error.
pub open spec fn parsed_whole(bytes: Seq<u8>) -> Result<ChunkView, ParseError> {
    match parsed(bytes) {
        Ok((chunk, rest)) => if rest == 0 {
            Ok(chunk)
        } else {
            Err(ParseError::TrailingData)
        },
        Err(e) => Err(e),
    }
}

/// A written chunk is twelve bytes longer than its data.
pub proof fn lemma_serialized_len(chunk: ChunkView)
    requires
        chunk.wf(),
    ensures
        chunk.serialized().len() == 12 + chunk.data.len(),
{
}

/// Reading what was written gives the same chunk back: same type code,
/// same data, and with them the same length and checksum. Bytes that
/// follow the written chunk are left over and counted.
pub proof fn lemma_read_of_written(chunk: ChunkView, tail: Seq<u8>)
    requires
        chunk.wf(),
    ensures
        parsed(chunk.serialized() + tail) == Ok::<(ChunkView, nat), ParseError>(
            (chunk, tail.len()),
        ),
{
    let n = chunk.data.len() as int;
    lemma_be_u32_of_be_bytes(chunk.length());
    lemma_be_u32_of_be_bytes(chunk.crc());
    let bytes = chunk.serialized() + tail;
    assert(bytes.subrange(0, 4) =~= be_bytes(chunk.length()));
    assert(bytes.subrange(4, 8) =~= chunk.chunk_type);
    assert(bytes.subrange(8, 8 + n) =~= chunk.data);
    assert(bytes.subrange(8 + n, 12 + n) =~= be_bytes(chunk.crc()));
}

/// A written chunk, with nothing behind it, is read as exactly that one
/// chunk.
pub proof fn lemma_read_whole_of_written(chunk: ChunkView)
    requires
        chunk.wf(),
    ensures
        parsed_whole(chunk.serialized()) == Ok::<ChunkView, ParseError>(chunk),
{
    lemma_read_of_written(chunk, Seq::empty());
    assert(chunk.serialized() + Seq::<u8>::empty() =~= chunk.serialized());
}

/// Whatever is read was written there: bytes from which a chunk is read
/// begin with that chunk as it is written, and the bytes left over are the
/// rest of them.
pub proof fn lemma_written_of_read(bytes: Seq<u8>)
    requires
        parsed(bytes) is Ok,
    ensures
        ({
            let (chunk, rest) = parsed(bytes)->Ok_0;
            &&& chunk.wf()
            &&& rest + chunk.serialized().len() == bytes.len()
            &&& bytes == chunk.serialized() + bytes.subrange(bytes.len() - rest, bytes.len() as int)
        }),
{
    let (chunk, rest) = parsed(bytes)->Ok_0;
    let n = declared_length(bytes);
    lemma_be_bytes_of_be_u32(bytes.subrange(0, 4));
    lemma_be_bytes_of_be_u32(bytes.subrange(8 + n, 12 + n));
    assert(bytes =~= chunk.serialized() + bytes.subrange(bytes.len() - rest, bytes.len() as int));
}

/// Each failure of reading, with the inputs on which it comes: fewer than
/// twelve bytes are `TooShort`; twelve or more, but fewer than the length
/// field asks for, are `TruncatedData`; enough bytes, with a checksum field
/// that differs from the checksum of the type and data, are `CrcMismatch`.
/// Reading one chunk from the front never fails in another way.
pub proof fn lemma_read_failures(bytes: Seq<u8>)
    ensures
        parsed(bytes) == Err::<(ChunkView, nat), ParseError>(ParseError::TooShort) <==> bytes.len()
            < 12,
        parsed(bytes) == Err::<(ChunkView, nat), ParseError>(ParseError::TruncatedData) <==> 12
            <= bytes.len() < 12 + declared_length(bytes),
        parsed(bytes) == Err::<(ChunkView, nat), ParseError>(ParseError::CrcMismatch) <==> {
            &&& 12 + declared_length(bytes) <= bytes.len()
            &&& be_u32(bytes.subrange(8 + declared_length(bytes), 12 + declared_length(bytes)))
                != crc32_ieee(bytes.subrange(4, 8 + declared_length(bytes)))
        },
        parsed(bytes) is Ok <==> {
            &&& 12 + declared_length(bytes) <= bytes.len()
            &&& be_u32(bytes.subrange(8 + declared_length(bytes), 12 + declared_length(bytes)))
                == crc32_ieee(bytes.subrange(4, 8 + declared_length(bytes)))
        },
{
    if 12 + declared_length(bytes) <= bytes.len() {
        let n = declared_length(bytes);
        assert(bytes.subrange(4, 8) + bytes.subrange(8, 8 + n) =~= bytes.subrange(4, 8 + n));
    }
}

/// What becomes of a written chunk whose type code and data were replaced,
/// in place, by those of `altered`, of the same size: the length field and
/// the checksum field still stand as written for `chunk`. Reading then
/// fails with `CrcMismatch`, unless the checksum of the altered type and
/// data happens to be the one that was written; in that case the altered
/// chunk is read. No other outcome is possible.
pub proof fn lemma_read_of_altered(chunk: ChunkView, altered: ChunkView, tail: Seq<u8>)
    requires
        chunk.wf(),
        altered.wf(),
        altered.data.len() == chunk.data.len(),
    ensures
        parsed(
            be_bytes(chunk.length()) + altered.chunk_type + altered.data + be_bytes(chunk.crc())
                + tail,
        ) == if altered.crc() == chunk.crc() {
            Ok::<(ChunkView, nat), ParseError>((altered, tail.len()))
        } else {
            Err::<(ChunkView, nat), ParseError>(ParseError::CrcMismatch)
        },
{
    let n = chunk.data.len() as int;
    lemma_be_u32_of_be_bytes(chunk.length());
    lemma_be_u32_of_be_bytes(chunk.crc());
    let bytes = be_bytes(chunk.length()) + altered.chunk_type + altered.data + be_bytes(
        chunk.crc(),
    ) + tail;
    assert(bytes.subrange(0, 4) =~= be_bytes(chunk.length()));
    assert(bytes.subrange(4, 8) =~= altered.chunk_type);
    assert(bytes.subrange(8, 8 + n) =~= altered.data);
    assert(bytes.subrange(8 + n, 12 + n) =~= be_bytes(chunk.crc()));
}

/// `bytes` with one bit flipped: in the byte at `at`, the bit of value
/// `1 << bit`.
pub open spec fn flip_bit(bytes: Seq<u8>, at: int, bit: u8) -> Seq<u8> {
    bytes.update(at, bytes[at] ^ (1u8 << bit))
}

/// One flipped bit in the type code or the data of a written chunk: the
/// bytes that the checksum covers are then others than were written, and
/// reading fails with `CrcMismatch`, unless the checksum of the changed
/// bytes is the checksum of the unchanged ones. Whether CRC-32 can give
/// one checksum to both is a matter of its arithmetic, of which nothing is
/// known here.
pub proof fn lemma_read_of_flipped_bit(chunk: ChunkView, at: int, bit: u8, tail: Seq<u8>)
    requires
        chunk.wf(),
        4 <= at < 8 + chunk.data.len(),
        bit < 8,
    ensures
        flip_bit(chunk.chunk_type + chunk.data, at - 4, bit) != chunk.chunk_type + chunk.data,
        parsed(flip_bit(chunk.serialized(), at, bit) + tail) == Err::<(ChunkView, nat), ParseError>(
            ParseError::CrcMismatch,
        ) || crc32_ieee(flip_bit(chunk.chunk_type + chunk.data, at - 4, bit)) == chunk.crc(),
{
    let covered = chunk.chunk_type + chunk.data;
    let changed = flip_bit(covered, at - 4, bit);
    let altered = ChunkView {
        chunk_type: changed.subrange(0, 4),
        data: changed.subrange(4, changed.len() as int),
    };
    let old_byte = covered[at - 4];
    assert(old_byte ^ (1u8 << bit) != old_byte) by (bit_vector)
        requires
            bit < 8,
    ;
    assert(changed[at - 4] != covered[at - 4]);
    assert(altered.chunk_type + altered.data =~= changed);
    assert(flip_bit(chunk.serialized(), at, bit) =~= be_bytes(chunk.length()) + altered.chunk_type
        + altered.data + be_bytes(chunk.crc()));
    lemma_read_of_altered(chunk, altered, tail);
}

} // verus!
