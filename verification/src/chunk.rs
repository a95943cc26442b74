//! The chunk record: a length, a type code, the data and a checksum, with
//! its reading from bytes and its writing to bytes.

use crate::checksum::checksum_ieee;
use crate::chunk_type::ChunkType;
use crate::endian::{u32_from_be_bytes, u32_to_be_bytes};
use crate::error::ParseError;
use crate::format::{
    crc_verdict, framed, lemma_read_whole_of_written, parsed, parsed_whole, ChunkView,
    RawChunkView,
};
use vstd::prelude::*;
use vstd::slice::slice_to_vec;
use vstd::utf8::{decode_utf8, valid_utf8};

verus! {

/// The slice as an array, if it has exactly four bytes.
pub fn four_bytes_from_slice(slice: &[u8]) -> (r: Result<[u8; 4], ()>)
    ensures
        r is Ok <==> slice@.len() == 4,
        r matches Ok(a) ==> a@ == slice@,
{
    if slice.len() == 4 {
        let a: [u8; 4] = [slice[0], slice[1], slice[2], slice[3]];
        assert(a@ =~= slice@);
        Ok(a)
    } else {
        Err(())
    }
}

/// The four bytes of `bytes` that begin at `at`.
fn four_bytes_at(bytes: &[u8], at: usize) -> (r: [u8; 4])
    requires
        at + 4 <= bytes.len(),
    ensures
        r@ == bytes@.subrange(at as int, at + 4),
{
    four_bytes_from_slice(&bytes[at..at + 4]).unwrap()
}

/// The fields of a chunk as they were found in some bytes. Nothing is
/// known yet of the checksum: it is only what the bytes hold.
#[derive(Debug)]
pub struct RawChunk<'a> {
    /// The type code.
    pub chunk_type: ChunkType,
    /// The data, still where it was found.
    pub data: &'a [u8],
    /// The checksum that stands behind the data.
    pub stored_crc: u32,
    /// The number of bytes behind the checksum.
    pub rest: usize,
}

impl<'a> View for RawChunk<'a> {
    type V = RawChunkView;

    open spec fn view(&self) -> RawChunkView {
        RawChunkView {
            chunk: ChunkView { chunk_type: self.chunk_type@, data: self.data@ },
            stored_crc: self.stored_crc,
            rest: self.rest as nat,
        }
    }
}

impl<'a> RawChunk<'a> {
    /// Finds the fields of the first chunk in `bytes`. Fewer than twelve
    /// bytes are `TooShort`; bytes that end before the checksum that the
    /// length field places are `TruncatedData`.
    pub fn take_from(bytes: &'a [u8]) -> (r: Result<RawChunk<'a>, ParseError>)
        ensures
            match r {
                Ok(raw) => framed(bytes@) == Ok::<RawChunkView, ParseError>(raw@),
                Err(e) => framed(bytes@) == Err::<RawChunkView, ParseError>(e),
            },
            r matches Ok(raw) ==> 12 + raw.data.len() + raw.rest == bytes.len(),
    {
        let total = bytes.len();
        if total < 12 {
            return Err(ParseError::TooShort);
        }
        let length = u32_from_be_bytes(four_bytes_at(bytes, 0));
        let chunk_type = ChunkType::from(four_bytes_at(bytes, 4));
        if length as usize > total - 12 {
            return Err(ParseError::TruncatedData);
        }
        let crc_start = 8 + length as usize;
        let stored_crc = u32_from_be_bytes(four_bytes_at(bytes, crc_start));
        Ok(
            RawChunk {
                chunk_type,
                data: &bytes[8..crc_start],
                stored_crc,
                rest: total - (crc_start + 4),
            },
        )
    }

    /// The integrity gate. `computed_crc` is the checksum computed of the
    /// type code and the data; the fields pass if it is the checksum that
    /// was stored with them, and are a `CrcMismatch` if it is not.
    pub fn check_crc(&self, computed_crc: u32) -> (r: Result<(), ParseError>)
        ensures
            r == crc_verdict(self.stored_crc, computed_crc),
    {
        if self.stored_crc == computed_crc {
            Ok(())
        } else {
            Err(ParseError::CrcMismatch)
        }
    }
}

/// A chunk of a PNG stream. Its length field always counts its data, and
/// its checksum is always that of its type code and data.
#[derive(Debug)]
pub struct Chunk {
    length: u32,
    chunk_type: ChunkType,
    data: Vec<u8>,
    crc: u32,
}

impl View for Chunk {
    type V = ChunkView;

    closed spec fn view(&self) -> ChunkView {
        ChunkView { chunk_type: self.chunk_type@, data: self.data@ }
    }
}

impl TryFrom<&Vec<u8>> for Chunk {
    type Error = ParseError;

    /// Reads `bytes` as exactly one chunk: bytes after the chunk are
    /// `TrailingData`.
    fn try_from(bytes: &Vec<u8>) -> (r: Result<Chunk, ParseError>)
        ensures
            match r {
                Ok(chunk) => parsed_whole(bytes@) == Ok::<ChunkView, ParseError>(chunk@),
                Err(e) => parsed_whole(bytes@) == Err::<ChunkView, ParseError>(e),
            },
    {
        match Chunk::take_from(bytes.as_slice()) {
            Ok((chunk, rest)) => if rest == 0 {
                Ok(chunk)
            } else {
                Err(ParseError::TrailingData)
            },
            Err(e) => Err(e),
        }
    }
}

/// What `try_from` returns is stated on `try_from` itself, over the view of
/// the chunk: two chunks with one view need not be one value, so no spec
/// function stands for the result.
impl vstd::std_specs::convert::TryFromSpecImpl<&Vec<u8>> for Chunk {
    open spec fn obeys_try_from_spec() -> bool {
        false
    }

    open spec fn try_from_spec(bytes: &Vec<u8>) -> Result<Chunk, ParseError> {
        arbitrary()
    }
}

impl Chunk {
    #[verifier::type_invariant]
    spec fn inv(self) -> bool {
        &&& self.length == self.data@.len()
        &&& self.crc == self@.crc()
    }

    /// Makes a chunk of the given type and data; the length and the
    /// checksum are computed from them. The type code need not be a valid
    /// one. The data must not be longer than the length field can count.
    pub fn new(chunk_type: ChunkType, data: Vec<u8>) -> (chunk: Chunk)
        requires
            data@.len() <= u32::MAX,
        ensures
            chunk@ == (ChunkView { chunk_type: chunk_type@, data: data@ }),
            chunk@.wf(),
    {
        let mut checked: Vec<u8> = Vec::new();
        checked.extend_from_slice(chunk_type.bytes().as_slice());
        checked.extend_from_slice(data.as_slice());
        assert(checked@ =~= chunk_type@ + data@);
        let crc = checksum_ieee(checked.as_slice());
        Chunk { length: data.len() as u32, chunk_type, data, crc }
    }

    /// Reads one chunk from the front of `bytes` and says how many bytes
    /// follow it, so that a stream of chunks can be read one after the
    /// other. The fields are found first, which can fail with `TooShort`
    /// or `TruncatedData`; then the checksum of the type code and the data
    /// is computed and held against the stored one, and a difference is a
    /// `CrcMismatch`. A chunk is accepted whole or not at all.
    pub fn take_from(bytes: &[u8]) -> (r: Result<(Chunk, usize), ParseError>)
        ensures
            match r {
                Ok((chunk, rest)) => parsed(bytes@) == Ok::<(ChunkView, nat), ParseError>(
                    (chunk@, rest as nat),
                ),
                Err(e) => parsed(bytes@) == Err::<(ChunkView, nat), ParseError>(e),
            },
    {
        let raw = match RawChunk::take_from(bytes) {
            Ok(raw) => raw,
            Err(e) => {
                return Err(e);
            },
        };
        let length = raw.data.len();
        let crc_start = 8 + length;
        let computed_crc = checksum_ieee(&bytes[4..crc_start]);
        assert(bytes@.subrange(4, crc_start as int) =~= raw@.chunk.chunk_type + raw@.chunk.data);
        match raw.check_crc(computed_crc) {
            Ok(_) => {
                let chunk = Chunk {
                    length: length as u32,
                    chunk_type: raw.chunk_type,
                    data: slice_to_vec(raw.data),
                    crc: computed_crc,
                };
                Ok((chunk, raw.rest))
            },
            Err(e) => Err(e),
        }
    }

    /// The number of data bytes.
    pub fn length(&self) -> (r: u32)
        ensures
            r == self@.data.len(),
            r == self@.length(),
    {
        proof {
            use_type_invariant(self);
        }
        self.length
    }

    /// The type code.
    pub fn chunk_type(&self) -> (r: &ChunkType)
        ensures
            r@ == self@.chunk_type,
    {
        &self.chunk_type
    }

    /// The data bytes.
    pub fn data(&self) -> (r: &[u8])
        ensures
            r@ == self@.data,
    {
        self.data.as_slice()
    }

    /// The checksum of the type code and the data.
    pub fn crc(&self) -> (r: u32)
        ensures
            r == self@.crc(),
    {
        proof {
            use_type_invariant(self);
        }
        self.crc
    }

    /// The data as text, if it is valid UTF-8; `Encoding` if it is not.
    pub fn data_as_string(&self) -> (r: Result<String, ParseError>)
        ensures
            r is Ok <==> valid_utf8(self@.data),
            r matches Ok(s) ==> s@ == decode_utf8(self@.data),
            r matches Err(e) ==> e == ParseError::Encoding,
    {
        let copy = self.data.clone();
        assert(copy@ =~= self.data@);
        match String::from_utf8(copy) {
            Ok(s) => Ok(s),
            Err(_) => Err(ParseError::Encoding),
        }
    }

    /// The chunk as it is written to a file: length, type code, data and
    /// checksum. Read again, these bytes are exactly this chunk.
    pub fn as_bytes(&self) -> (bytes: Vec<u8>)
        ensures
            bytes@ == self@.serialized(),
            parsed_whole(bytes@) == Ok::<ChunkView, ParseError>(self@),
    {
        proof {
            use_type_invariant(self);
            self.chunk_type.lemma_four_bytes();
            lemma_read_whole_of_written(self@);
        }
        let mut bytes: Vec<u8> = Vec::new();
        bytes.extend_from_slice(u32_to_be_bytes(self.length).as_slice());
        bytes.extend_from_slice(self.chunk_type.bytes().as_slice());
        bytes.extend_from_slice(self.data.as_slice());
        bytes.extend_from_slice(u32_to_be_bytes(self.crc).as_slice());
        assert(bytes@ =~= self@.serialized());
        bytes
    }
}

} // verus!
