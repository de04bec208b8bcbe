use pngchunk::{ChunkType, ChunkTypeError};
use std::convert::TryFrom;
use std::str::FromStr;

#[test]
pub fn test_chunk_type_from_bytes() {
    let expected = [82, 117, 83, 116];
    let actual = ChunkType::try_from([82, 117, 83, 116]).unwrap();

    assert_eq!(expected, actual.bytes());
}

#[test]
pub fn test_chunk_type_from_str() {
    let expected = ChunkType::try_from([82, 117, 83, 116]).unwrap();
    let actual = ChunkType::from_str("RuSt").unwrap();
    assert_eq!(expected, actual);
}

#[test]
pub fn test_chunk_type_is_critical() {
    let chunk = ChunkType::from_str("RuSt").unwrap();
    assert!(chunk.is_critical());
}

#[test]
pub fn test_chunk_type_is_not_critical() {
    let chunk = ChunkType::from_str("ruSt").unwrap();
    assert!(!chunk.is_critical());
}

#[test]
pub fn test_chunk_type_is_public() {
    let chunk = ChunkType::from_str("RUSt").unwrap();
    assert!(chunk.is_public());
}

#[test]
pub fn test_chunk_type_is_not_public() {
    let chunk = ChunkType::from_str("RuSt").unwrap();
    assert!(!chunk.is_public());
}

#[test]
pub fn test_chunk_type_is_reserved_bit_valid() {
    let chunk = ChunkType::from_str("RuSt").unwrap();
    assert!(chunk.is_reserved_bit_valid());
}

#[test]
pub fn test_chunk_type_is_reserved_bit_invalid() {
    let chunk = ChunkType::from_str("Rust").unwrap();
    assert!(!chunk.is_reserved_bit_valid());
}

#[test]
pub fn test_chunk_type_is_safe_to_copy() {
    let chunk = ChunkType::from_str("RuSt").unwrap();
    assert!(chunk.is_safe_to_copy());
}

#[test]
pub fn test_chunk_type_is_unsafe_to_copy() {
    let chunk = ChunkType::from_str("RuST").unwrap();
    assert!(!chunk.is_safe_to_copy());
}

#[test]
pub fn test_valid_chunk_is_valid() {
    let chunk = ChunkType::from_str("RuSt").unwrap();
    assert!(chunk.is_valid());
}

#[test]
pub fn test_invalid_chunk_is_valid() {
    let chunk = ChunkType::from_str("Rust").unwrap();
    assert!(!chunk.is_valid());

    let chunk = ChunkType::from_str("Ru1t");
    assert!(chunk.is_err());
}

#[test]
pub fn test_chunk_type_string() {
    let chunk = ChunkType::from_str("RuSt").unwrap();
    assert_eq!(&chunk.to_string(), "RuSt");
}

#[test]
fn rust_flags_all_hold() {
    let t = ChunkType::from_str("RuSt").unwrap();
    assert!(t.is_valid());
    assert!(t.is_critical());
    assert!(!t.is_public());
    assert!(t.is_reserved_bit_valid());
    assert!(t.is_safe_to_copy());
}

#[test]
fn lowercase_third_letter_is_constructible_but_invalid() {
    let t = ChunkType::from_str("Rust").unwrap();
    assert_eq!(t.bytes(), [82, 117, 115, 116]);
    assert!(!t.is_reserved_bit_valid());
    assert!(!t.is_valid());
}

#[test]
fn digit_is_refused_with_its_byte() {
    assert_eq!(ChunkType::from_str("Ru1t"), Err(ChunkTypeError::InvalidByte(b'1')));
}

#[test]
fn first_bad_byte_wins() {
    assert_eq!(
        ChunkType::try_from([b'A', b'@', b'[', b'z']),
        Err(ChunkTypeError::InvalidByte(b'@'))
    );
    assert_eq!(
        ChunkType::try_from([b'A', b'b', b'C', 0xff]),
        Err(ChunkTypeError::InvalidByte(0xff))
    );
    assert_eq!(
        ChunkType::try_from([b'`', b'b', b'C', b'd']),
        Err(ChunkTypeError::InvalidByte(b'`'))
    );
}

#[test]
fn letter_range_edges() {
    assert!(ChunkType::try_from([b'A', b'Z', b'a', b'z']).is_ok());
    assert!(ChunkType::try_from([b'A', b'Z', b'a', b'{']).is_err());
}

#[test]
fn wrong_text_length_is_refused_before_bytes() {
    assert_eq!(ChunkType::from_str("abc"), Err(ChunkTypeError::InvalidLength));
    assert_eq!(ChunkType::from_str("abcde"), Err(ChunkTypeError::InvalidLength));
    assert_eq!(ChunkType::from_str(""), Err(ChunkTypeError::InvalidLength));
    assert_eq!(ChunkType::from_str("1234567"), Err(ChunkTypeError::InvalidLength));
    // two characters but four bytes: length passes, byte check refuses
    assert_eq!(ChunkType::from_str("éé"), Err(ChunkTypeError::InvalidByte(0xc3)));
}

#[test]
fn is_valid_rechecks_letters_on_public_field() {
    let t = ChunkType { bytes: [b'R', b'u', b'S', b'1'] };
    assert!(!t.is_valid());
    let t = ChunkType { bytes: [0xff, 0xfe, 0xfd, 0xfc] };
    assert_eq!(t.to_string(), "");
}
