use shielded_codec::compact_size::{
    read_byte_string, read_compact_size, write_byte_string, write_compact_size, MAX_COMPACT_SIZE,
};
use shielded_codec::error::{DecodeError, EncodeError};
use shielded_codec::reader::Reader;

fn encoded(size: usize) -> Vec<u8> {
    let mut out = Vec::new();
    write_compact_size(&mut out, size).unwrap();
    out
}

fn decoded(bytes: &[u8]) -> Result<(usize, usize), DecodeError> {
    let mut reader = Reader::new(bytes);
    let value = read_compact_size(&mut reader)?;
    Ok((value, reader.position()))
}

#[test]
fn compact_size_one_byte_values() {
    assert_eq!(encoded(0), vec![0]);
    assert_eq!(encoded(1), vec![1]);
    assert_eq!(encoded(252), vec![252]);
    assert_eq!(decoded(&[0]), Ok((0, 1)));
    assert_eq!(decoded(&[252, 9, 9]), Ok((252, 1)));
}

#[test]
fn compact_size_three_byte_values() {
    assert_eq!(encoded(253), vec![253, 253, 0]);
    assert_eq!(encoded(0x1234), vec![253, 0x34, 0x12]);
    assert_eq!(encoded(0xFFFF), vec![253, 0xFF, 0xFF]);
    assert_eq!(decoded(&[253, 253, 0]), Ok((253, 3)));
    assert_eq!(decoded(&[253, 0x34, 0x12, 7]), Ok((0x1234, 3)));
}

#[test]
fn compact_size_five_byte_values() {
    assert_eq!(encoded(0x1_0000), vec![254, 0, 0, 1, 0]);
    assert_eq!(encoded(0x0200_0000), vec![254, 0, 0, 0, 2]);
    assert_eq!(decoded(&[254, 0, 0, 1, 0]), Ok((0x1_0000, 5)));
    assert_eq!(decoded(&[254, 0, 0, 0, 2]), Ok((MAX_COMPACT_SIZE as usize, 5)));
}

#[test]
fn compact_size_above_the_limit_is_refused() {
    let mut out = vec![7u8];
    assert_eq!(
        write_compact_size(&mut out, MAX_COMPACT_SIZE as usize + 1),
        Err(EncodeError::TooLarge)
    );
    assert_eq!(out, vec![7u8]);
    assert_eq!(decoded(&[254, 1, 0, 0, 2]), Err(DecodeError::InvalidEncoding));
    assert_eq!(
        decoded(&[255, 0, 0, 0, 0, 1, 0, 0, 0]),
        Err(DecodeError::InvalidEncoding)
    );
}

#[test]
fn compact_size_with_a_shorter_encoding_is_refused() {
    assert_eq!(decoded(&[253, 252, 0]), Err(DecodeError::InvalidEncoding));
    assert_eq!(decoded(&[254, 0xFF, 0xFF, 0, 0]), Err(DecodeError::InvalidEncoding));
    assert_eq!(
        decoded(&[255, 0xFF, 0xFF, 0xFF, 0xFF, 0, 0, 0, 0]),
        Err(DecodeError::InvalidEncoding)
    );
}

#[test]
fn compact_size_truncated_is_end_of_input() {
    assert_eq!(decoded(&[]), Err(DecodeError::UnexpectedEndOfInput));
    assert_eq!(decoded(&[253, 1]), Err(DecodeError::UnexpectedEndOfInput));
    assert_eq!(decoded(&[254, 1, 2, 3]), Err(DecodeError::UnexpectedEndOfInput));
    assert_eq!(decoded(&[255, 1, 2, 3, 4, 5, 6, 7]), Err(DecodeError::UnexpectedEndOfInput));
}

#[test]
fn compact_size_reads_at_the_cursor() {
    let data = [9u8, 9, 253, 0x00, 0x01, 5];
    let mut reader = Reader::new(&data);
    reader.seek(2);
    assert_eq!(read_compact_size(&mut reader), Ok(256));
    assert_eq!(reader.position(), 5);
    assert_eq!(read_compact_size(&mut reader), Ok(5));
    assert_eq!(reader.position(), 6);
    assert_eq!(read_compact_size(&mut reader), Err(DecodeError::UnexpectedEndOfInput));
}

#[test]
fn byte_string_round_trip() {
    for len in [0usize, 1, 252, 253, 300, 0x1_0000] {
        let bytes: Vec<u8> = (0..len).map(|i| (i % 251) as u8).collect();
        let mut out = vec![0xAA];
        write_byte_string(&mut out, &bytes).unwrap();
        assert_eq!(out.len(), 1 + encoded(len).len() + len);
        let mut reader = Reader::new(&out);
        reader.seek(1);
        assert_eq!(read_byte_string(&mut reader), Ok(bytes));
        assert_eq!(reader.position(), out.len());
    }
}

#[test]
fn byte_string_too_long_is_refused_and_nothing_is_written() {
    let bytes = vec![0u8; MAX_COMPACT_SIZE as usize + 1];
    let mut out = vec![1u8, 2, 3];
    assert_eq!(write_byte_string(&mut out, &bytes), Err(EncodeError::TooLarge));
    assert_eq!(out, vec![1u8, 2, 3]);
}

#[test]
fn byte_string_shorter_than_announced_is_end_of_input() {
    let mut reader = Reader::new(&[3, 1, 2]);
    assert_eq!(read_byte_string(&mut reader), Err(DecodeError::UnexpectedEndOfInput));
}
