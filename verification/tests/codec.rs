use pngme::chunk::{four_bytes_from_slice, Chunk, RawChunk};
use pngme::chunk_type::ChunkType;
use pngme::error::ParseError;

const MESSAGE: &str = "This is where your secret message will be!";

fn message_chunk_bytes(crc: u32) -> Vec<u8> {
    let mut bytes: Vec<u8> = Vec::new();
    bytes.extend_from_slice(&42u32.to_be_bytes());
    bytes.extend_from_slice("RuSt".as_bytes());
    bytes.extend_from_slice(MESSAGE.as_bytes());
    bytes.extend_from_slice(&crc.to_be_bytes());
    bytes
}

#[test]
fn four_bytes_of_a_slice_of_four() {
    assert_eq!(four_bytes_from_slice(&[1, 2, 3, 4]), Ok([1, 2, 3, 4]));
}

#[test]
fn four_bytes_of_another_length_fail() {
    assert_eq!(four_bytes_from_slice(&[]), Err(()));
    assert_eq!(four_bytes_from_slice(&[1, 2, 3]), Err(()));
    assert_eq!(four_bytes_from_slice(&[1, 2, 3, 4, 5]), Err(()));
}

#[test]
fn new_chunk_has_length_and_checksum() {
    let chunk = Chunk::new(ChunkType::from_str("RuSt").unwrap(), MESSAGE.as_bytes().to_vec());
    assert_eq!(chunk.length(), 42);
    assert_eq!(chunk.crc(), 2882656334);
    assert_eq!(chunk.chunk_type().bytes(), [82, 117, 83, 116]);
    assert_eq!(chunk.data(), MESSAGE.as_bytes());
    assert_eq!(chunk.data_as_string().unwrap(), MESSAGE);
}

#[test]
fn new_chunk_without_data() {
    let chunk = Chunk::new(ChunkType::from_str("IEND").unwrap(), Vec::new());
    assert_eq!(chunk.length(), 0);
    assert_eq!(chunk.crc(), 0xae42_6082);
    assert_eq!(chunk.data_as_string().unwrap(), "");
    assert_eq!(chunk.as_bytes(), vec![0, 0, 0, 0, 73, 69, 78, 68, 174, 66, 96, 130]);
}

#[test]
fn checksum_covers_type_and_data() {
    // The checksum of the data alone, or of the type alone, is another number.
    let chunk = Chunk::new(ChunkType::from_str("RuSt").unwrap(), vec![65, 66]);
    assert_eq!(chunk.crc(), 977689048);
    let other_type = Chunk::new(ChunkType::from_str("RuSu").unwrap(), vec![65, 66]);
    assert_ne!(other_type.crc(), chunk.crc());
    let other_data = Chunk::new(ChunkType::from_str("RuSt").unwrap(), vec![65, 67]);
    assert_ne!(other_data.crc(), chunk.crc());
}

#[test]
fn as_bytes_lays_out_the_four_fields() {
    let chunk = Chunk::new(ChunkType::from_str("RuSt").unwrap(), vec![65, 66]);
    assert_eq!(chunk.as_bytes(), vec![0, 0, 0, 2, 82, 117, 83, 116, 65, 66, 58, 70, 89, 216]);
    let header = Chunk::new(
        ChunkType::from_str("IHDR").unwrap(),
        vec![0, 0, 0, 1, 0, 0, 0, 1, 8, 0, 0, 0, 0],
    );
    assert_eq!(
        header.as_bytes(),
        vec![
            0, 0, 0, 13, 73, 72, 68, 82, 0, 0, 0, 1, 0, 0, 0, 1, 8, 0, 0, 0, 0, 58, 126, 155, 85
        ]
    );
}

#[test]
fn as_bytes_of_the_message_chunk() {
    let chunk = Chunk::new(ChunkType::from_str("RuSt").unwrap(), MESSAGE.as_bytes().to_vec());
    assert_eq!(chunk.as_bytes(), message_chunk_bytes(2882656334));
}

#[test]
fn take_from_reads_the_message_chunk() {
    let bytes = message_chunk_bytes(2882656334);
    let (chunk, rest) = Chunk::take_from(&bytes).unwrap();
    assert_eq!(rest, 0);
    assert_eq!(chunk.length(), 42);
    assert_eq!(chunk.chunk_type().to_string(), "RuSt");
    assert_eq!(chunk.data_as_string().unwrap(), MESSAGE);
    assert_eq!(chunk.crc(), 2882656334);
}

#[test]
fn take_from_refuses_a_wrong_checksum() {
    let bytes = message_chunk_bytes(2882656333);
    assert_eq!(Chunk::take_from(&bytes).unwrap_err(), ParseError::CrcMismatch);
    assert_eq!(Chunk::try_from(&bytes).unwrap_err(), ParseError::CrcMismatch);
}

#[test]
fn take_from_refuses_fewer_than_twelve_bytes() {
    let bytes = message_chunk_bytes(2882656334);
    for len in 0..12 {
        assert_eq!(Chunk::take_from(&bytes[..len]).unwrap_err(), ParseError::TooShort);
        assert_eq!(Chunk::try_from(&bytes[..len].to_vec()).unwrap_err(), ParseError::TooShort);
    }
}

#[test]
fn take_from_refuses_bytes_that_end_too_early() {
    let bytes = message_chunk_bytes(2882656334);
    for len in 12..bytes.len() {
        assert_eq!(Chunk::take_from(&bytes[..len]).unwrap_err(), ParseError::TruncatedData);
    }
    // the greatest length that the field can announce
    let huge = [255, 255, 255, 255, 82, 117, 83, 116, 0, 0, 0, 0, 0, 0, 0, 0];
    assert_eq!(Chunk::take_from(&huge).unwrap_err(), ParseError::TruncatedData);
    assert_eq!(Chunk::try_from(&huge.to_vec()).unwrap_err(), ParseError::TruncatedData);
}

#[test]
fn take_from_counts_the_bytes_that_follow() {
    let mut bytes = message_chunk_bytes(2882656334);
    bytes.extend_from_slice(&[0, 0, 0, 0, 73, 69, 78, 68, 174, 66, 96, 130]);
    bytes.push(7);
    let (first, rest) = Chunk::take_from(&bytes).unwrap();
    assert_eq!(rest, 13);
    assert_eq!(first.length(), 42);
    let (second, rest) = Chunk::take_from(&bytes[bytes.len() - rest..]).unwrap();
    assert_eq!(rest, 1);
    assert_eq!(second.chunk_type().to_string(), "IEND");
    assert_eq!(second.length(), 0);
    assert_eq!(
        Chunk::take_from(&bytes[bytes.len() - rest..]).unwrap_err(),
        ParseError::TooShort
    );
}

#[test]
fn try_from_refuses_bytes_that_follow() {
    let mut bytes = message_chunk_bytes(2882656334);
    bytes.push(0);
    assert_eq!(Chunk::try_from(&bytes).unwrap_err(), ParseError::TrailingData);
    assert!(Chunk::take_from(&bytes).is_ok());
}

#[test]
fn wrong_checksum_comes_before_trailing_data() {
    let mut bytes = message_chunk_bytes(2882656333);
    bytes.push(0);
    assert_eq!(Chunk::try_from(&bytes).unwrap_err(), ParseError::CrcMismatch);
}

#[test]
fn chunk_with_a_type_that_is_not_valid_is_read() {
    let bytes = vec![0, 0, 0, 1, 0, 1, 254, 255, 0, 82, 224, 51, 208];
    let chunk = Chunk::try_from(&bytes).unwrap();
    assert!(!chunk.chunk_type().is_valid());
    assert_eq!(chunk.chunk_type().bytes(), [0, 1, 254, 255]);
    assert_eq!(chunk.crc(), 1390425040);
    assert_eq!(chunk.as_bytes(), bytes);
}

#[test]
fn data_that_is_not_utf8_has_no_text() {
    let chunk = Chunk::new(ChunkType::from_str("tEXt").unwrap(), vec![104, 105, 255]);
    assert_eq!(chunk.data_as_string(), Err(ParseError::Encoding));
    // the chunk itself is as good as any
    assert_eq!(chunk.length(), 3);
    assert_eq!(chunk.crc(), 3910772387);
    let bytes = chunk.as_bytes();
    assert_eq!(bytes, vec![0, 0, 0, 3, 116, 69, 88, 116, 104, 105, 255, 233, 25, 166, 163]);
    assert_eq!(Chunk::try_from(&bytes).unwrap().data(), &[104, 105, 255]);
}

#[test]
fn data_in_utf8_is_decoded() {
    let text = "gr\u{fc}\u{df}e, \u{4e16}\u{754c} \u{1f600}";
    let chunk = Chunk::new(ChunkType::from_str("tEXt").unwrap(), text.as_bytes().to_vec());
    assert_eq!(chunk.data_as_string().unwrap(), text);
}

#[test]
fn written_chunk_is_read_back() {
    let types = ["RuSt", "IHDR", "tEXt", "zzzz"];
    let payloads: [Vec<u8>; 4] =
        [Vec::new(), vec![0], vec![255, 0, 255], (0..=255u8).cycle().take(1000).collect()];
    for name in types {
        for payload in payloads.iter() {
            let chunk = Chunk::new(ChunkType::from_str(name).unwrap(), payload.clone());
            let bytes = chunk.as_bytes();
            assert_eq!(bytes.len(), 12 + payload.len());
            let (back, rest) = Chunk::take_from(&bytes).unwrap();
            assert_eq!(rest, 0);
            assert_eq!(back.length(), chunk.length());
            assert_eq!(back.chunk_type().bytes(), chunk.chunk_type().bytes());
            assert_eq!(back.data(), chunk.data());
            assert_eq!(back.crc(), chunk.crc());
            assert_eq!(back.as_bytes(), bytes);
            let whole = Chunk::try_from(&bytes).unwrap();
            assert_eq!(whole.as_bytes(), bytes);
        }
    }
}

#[test]
fn length_counts_the_data() {
    for len in [0usize, 1, 2, 41, 42, 300, 70000] {
        let chunk = Chunk::new(ChunkType::from_str("RuSt").unwrap(), vec![7; len]);
        assert_eq!(chunk.length() as usize, chunk.data().len());
        assert_eq!(chunk.length() as usize, len);
        let (back, _) = Chunk::take_from(&chunk.as_bytes()).unwrap();
        assert_eq!(back.length() as usize, back.data().len());
        assert_eq!(back.length() as usize, len);
    }
}

#[test]
fn any_flipped_bit_of_type_or_data_is_a_crc_mismatch() {
    let bytes = message_chunk_bytes(2882656334);
    for at in 4..bytes.len() - 4 {
        for bit in 0..8 {
            let mut changed = bytes.clone();
            changed[at] ^= 1 << bit;
            assert_eq!(Chunk::take_from(&changed).unwrap_err(), ParseError::CrcMismatch);
            assert_eq!(Chunk::try_from(&changed).unwrap_err(), ParseError::CrcMismatch);
        }
    }
}

#[test]
fn any_flipped_bit_of_the_checksum_is_a_crc_mismatch() {
    let bytes = message_chunk_bytes(2882656334);
    for at in bytes.len() - 4..bytes.len() {
        for bit in 0..8 {
            let mut changed = bytes.clone();
            changed[at] ^= 1 << bit;
            assert_eq!(Chunk::take_from(&changed).unwrap_err(), ParseError::CrcMismatch);
        }
    }
}

#[test]
fn raw_chunk_holds_the_fields_as_found() {
    let mut bytes = message_chunk_bytes(2882656333);
    bytes.extend_from_slice(&[9, 9, 9]);
    let raw = RawChunk::take_from(&bytes).unwrap();
    assert_eq!(raw.chunk_type.bytes(), [82, 117, 83, 116]);
    assert_eq!(raw.data, MESSAGE.as_bytes());
    assert_eq!(raw.stored_crc, 2882656333);
    assert_eq!(raw.rest, 3);
}

#[test]
fn raw_chunk_fails_as_reading_fails() {
    let bytes = message_chunk_bytes(2882656334);
    assert_eq!(RawChunk::take_from(&bytes[..11]).unwrap_err(), ParseError::TooShort);
    assert_eq!(RawChunk::take_from(&bytes[..12]).unwrap_err(), ParseError::TruncatedData);
    assert_eq!(RawChunk::take_from(&bytes[..53]).unwrap_err(), ParseError::TruncatedData);
    assert!(RawChunk::take_from(&bytes[..54]).is_ok());
}

#[test]
fn raw_chunk_passes_with_its_own_checksum_only() {
    let bytes = message_chunk_bytes(2882656334);
    let raw = RawChunk::take_from(&bytes).unwrap();
    assert_eq!(raw.check_crc(2882656334), Ok(()));
    assert_eq!(raw.check_crc(2882656333), Err(ParseError::CrcMismatch));
    assert_eq!(raw.check_crc(0), Err(ParseError::CrcMismatch));
}

#[test]
fn errors_are_told_apart() {
    let all = [
        ParseError::InvalidTypeCode,
        ParseError::TooShort,
        ParseError::TruncatedData,
        ParseError::CrcMismatch,
        ParseError::TrailingData,
        ParseError::Encoding,
    ];
    for (i, a) in all.iter().enumerate() {
        for (j, b) in all.iter().enumerate() {
            assert_eq!(a == b, i == j);
        }
    }
}
