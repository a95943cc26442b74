//! The four-byte type code of a chunk and the properties that the case of
//! its letters encodes.

use crate::error::ParseError;
use vstd::prelude::*;
use vstd::string::*;
use vstd::utf8::{
    encode_utf8, encode_utf8_decode_utf8, is_ascii_chars, is_ascii_chars_encode_utf8,
};

verus! {

/// Whether `b` is an upper-case ASCII letter, `A` to `Z`.
pub open spec fn is_upper_case(b: u8) -> bool {
    0x41 <= b <= 0x5a
}

/// Whether `b` is a lower-case ASCII letter, `a` to `z`.
pub open spec fn is_lower_case(b: u8) -> bool {
    0x61 <= b <= 0x7a
}

/// Whether `b` is an ASCII letter of either case.
pub open spec fn is_ascii_letter(b: u8) -> bool {
    is_upper_case(b) || is_lower_case(b)
}

/// Whether bit 5 of `b`, the bit of value 32, is zero.
pub open spec fn bit5_is_clear(b: u8) -> bool {
    b & 0x20 == 0
}

/// Whether `b` is four ASCII letters: what a type code written as text
/// must be.
pub open spec fn is_type_code(b: Seq<u8>) -> bool {
    &&& b.len() == 4
    &&& forall|i: int| 0 <= i < 4 ==> is_ascii_letter(#[trigger] b[i])
}

/// Whether `chars` are four ASCII letters.
pub open spec fn is_type_code_text(chars: Seq<char>) -> bool {
    &&& chars.len() == 4
    &&& forall|i: int|
        0 <= i < 4 ==> ('A' <= #[trigger] chars[i] <= 'Z') || ('a' <= chars[i] <= 'z')
}

/// The text of some bytes: each byte read as the character of the same
/// number, which for an ASCII byte is its ASCII character.
pub open spec fn text_of(b: Seq<u8>) -> Seq<char> {
    Seq::new(b.len(), |i: int| b[i] as char)
}

/// A chunk's type code: four raw bytes, kept exactly as given. Any four
/// bytes make a type code; whether they are a valid one is a property to
/// ask for.
#[derive(Clone, Copy, Debug)]
pub struct ChunkType {
    bytes: [u8; 4],
}

impl View for ChunkType {
    type V = Seq<u8>;

    closed spec fn view(&self) -> Seq<u8> {
        self.bytes@
    }
}

impl PartialEq for ChunkType {
    fn eq(&self, other: &Self) -> (r: bool) {
        let r = self.bytes[0] == other.bytes[0] && self.bytes[1] == other.bytes[1]
            && self.bytes[2] == other.bytes[2] && self.bytes[3] == other.bytes[3];
        proof {
            if r {
                assert(self@ =~= other@);
            }
        }
        r
    }
}

impl Eq for ChunkType {

}

impl vstd::std_specs::cmp::PartialEqSpecImpl for ChunkType {
    open spec fn obeys_eq_spec() -> bool {
        true
    }

    open spec fn eq_spec(&self, other: &Self) -> bool {
        self@ == other@
    }
}

impl From<[u8; 4]> for ChunkType {
    fn from(bytes: [u8; 4]) -> (r: ChunkType)
        ensures
            r@ == bytes@,
    {
        ChunkType { bytes }
    }
}

impl vstd::std_specs::convert::FromSpecImpl<[u8; 4]> for ChunkType {
    open spec fn obeys_from_spec() -> bool {
        true
    }

    closed spec fn from_spec(bytes: [u8; 4]) -> ChunkType {
        ChunkType { bytes }
    }
}

fn is_letter(b: u8) -> (r: bool)
    ensures
        r == is_ascii_letter(b),
{
    (0x41 <= b && b <= 0x5a) || (0x61 <= b && b <= 0x7a)
}

impl ChunkType {
    /// Every type code has exactly four bytes.
    pub proof fn lemma_four_bytes(self)
        ensures
            self@.len() == 4,
    {
    }

    /// Reads a type code from text, which must be exactly four ASCII
    /// letters; anything else is `InvalidTypeCode`. The bytes of the type
    /// code are the bytes of the text.
    pub fn from_str(s: &str) -> (r: Result<ChunkType, ParseError>)
        ensures
            r is Ok <==> is_type_code_text(s@),
            r matches Ok(t) ==> t@ == s.spec_bytes() && text_of(t@) == s@,
            r matches Err(e) ==> e == ParseError::InvalidTypeCode,
    {
        proof {
            lemma_type_code_text(s@);
        }
        let b = s.as_bytes();
        if b.len() != 4 {
            return Err(ParseError::InvalidTypeCode);
        }
        if is_letter(b[0]) && is_letter(b[1]) && is_letter(b[2]) && is_letter(b[3]) {
            let t = ChunkType { bytes: [b[0], b[1], b[2], b[3]] };
            assert(t@ =~= b@);
            Ok(t)
        } else {
            Err(ParseError::InvalidTypeCode)
        }
    }

    /// The four bytes of the type code.
    pub fn bytes(&self) -> (r: [u8; 4])
        ensures
            r@ == self@,
    {
        self.bytes
    }

    /// The type code as text.
    pub fn to_string(&self) -> (s: String)
        ensures
            s@ == text_of(self@),
    {
        let mut s = String::new();
        s.push(self.bytes[0] as char);
        s.push(self.bytes[1] as char);
        s.push(self.bytes[2] as char);
        s.push(self.bytes[3] as char);
        assert(s@ =~= text_of(self@));
        s
    }

    /// Whether the chunk is critical: bit 5 of the first byte is zero, as
    /// it is in an upper-case letter.
    pub fn is_critical(&self) -> (r: bool)
        ensures
            r == bit5_is_clear(self@[0]),
            is_ascii_letter(self@[0]) ==> r == is_upper_case(self@[0]),
    {
        proof {
            lemma_case_is_bit5(self.bytes[0]);
        }
        self.bytes[0] & 0x20 == 0
    }

    /// Whether the chunk is public: bit 5 of the second byte is zero, as
    /// it is in an upper-case letter.
    pub fn is_public(&self) -> (r: bool)
        ensures
            r == bit5_is_clear(self@[1]),
            is_ascii_letter(self@[1]) ==> r == is_upper_case(self@[1]),
    {
        proof {
            lemma_case_is_bit5(self.bytes[1]);
        }
        self.bytes[1] & 0x20 == 0
    }

    /// Whether the reserved bit is as it must be: bit 5 of the third byte
    /// is zero, as it is in an upper-case letter.
    pub fn is_reserved_bit_valid(&self) -> (r: bool)
        ensures
            r == bit5_is_clear(self@[2]),
            is_ascii_letter(self@[2]) ==> r == is_upper_case(self@[2]),
    {
        proof {
            lemma_case_is_bit5(self.bytes[2]);
        }
        self.bytes[2] & 0x20 == 0
    }

    /// Whether the chunk is safe to copy: bit 5 of the fourth byte is one,
    /// as it is in a lower-case letter.
    pub fn is_safe_to_copy(&self) -> (r: bool)
        ensures
            r == !bit5_is_clear(self@[3]),
            is_ascii_letter(self@[3]) ==> r == is_lower_case(self@[3]),
    {
        proof {
            lemma_case_is_bit5(self.bytes[3]);
        }
        self.bytes[3] & 0x20 != 0
    }

    /// Whether the type code is valid: four ASCII letters, the third of
    /// them with the reserved bit zero, which is to say in upper case.
    pub fn is_valid(&self) -> (r: bool)
        ensures
            r == (is_type_code(self@) && bit5_is_clear(self@[2])),
            r == (is_type_code(self@) && is_upper_case(self@[2])),
    {
        is_letter(self.bytes[0]) && is_letter(self.bytes[1]) && is_letter(self.bytes[2])
            && is_letter(self.bytes[3]) && self.is_reserved_bit_valid()
    }
}

/// Text is a type code exactly when its UTF-8 bytes are, and the text of
/// those bytes is then the text itself.
pub proof fn lemma_type_code_text(chars: Seq<char>)
    ensures
        is_type_code_text(chars) <==> is_type_code(encode_utf8(chars)),
        is_type_code_text(chars) ==> text_of(encode_utf8(chars)) == chars,
{
    let bytes = encode_utf8(chars);
    if is_type_code_text(chars) {
        assert(is_ascii_chars(chars));
        is_ascii_chars_encode_utf8(chars);
        assert(text_of(bytes) =~= chars);
    }
    if is_type_code(bytes) {
        let text = text_of(bytes);
        assert(is_ascii_chars(text));
        is_ascii_chars_encode_utf8(text);
        assert(encode_utf8(text) =~= bytes);
        encode_utf8_decode_utf8(text);
        encode_utf8_decode_utf8(chars);
        assert(text == chars);
    }
}

/// The case of a letter is its bit 5: zero in an upper-case letter, one in
/// a lower-case letter.
pub proof fn lemma_case_is_bit5(b: u8)
    ensures
        is_upper_case(b) ==> bit5_is_clear(b),
        is_lower_case(b) ==> !bit5_is_clear(b),
{
    assert((0x41 <= b <= 0x5a) ==> b & 0x20 == 0) by (bit_vector);
    assert((0x61 <= b <= 0x7a) ==> b & 0x20 != 0) by (bit_vector);
}

} // verus!
