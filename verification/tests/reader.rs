use shielded_codec::error::DecodeError;
use shielded_codec::reader::{put_bytes, Reader};

#[test]
fn reader_reads_in_order() {
    let data = [1u8, 2, 3, 4, 5, 6, 7];
    let mut reader = Reader::new(&data);
    assert_eq!(reader.position(), 0);
    assert_eq!(reader.remaining(), 7);
    assert_eq!(reader.read_u8(), Ok(1));
    assert_eq!(reader.read_array::<2>(), Ok([2, 3]));
    assert_eq!(reader.read_vec(3), Ok(vec![4, 5, 6]));
    assert_eq!(reader.position(), 6);
    assert_eq!(reader.read_to_end(), vec![7]);
    assert_eq!(reader.remaining(), 0);
    assert_eq!(reader.read_u8(), Err(DecodeError::UnexpectedEndOfInput));
}

#[test]
fn reader_short_read_fails_and_stays() {
    let data = [1u8, 2, 3];
    let mut reader = Reader::new(&data);
    assert_eq!(reader.read_array::<4>(), Err(DecodeError::UnexpectedEndOfInput));
    assert_eq!(reader.position(), 0);
    assert_eq!(reader.read_vec(4), Err(DecodeError::UnexpectedEndOfInput));
    assert_eq!(reader.position(), 0);
    assert_eq!(reader.read_array::<3>(), Ok([1, 2, 3]));
    assert_eq!(reader.read_array::<0>(), Ok([]));
}

#[test]
fn reader_keeps_its_bytes() {
    let data = [9u8, 8, 7];
    let mut reader = Reader::new(&data);
    let _ = reader.read_u8();
    assert_eq!(reader.bytes(), &data);
}

#[test]
fn put_bytes_appends() {
    let mut out = vec![1u8];
    put_bytes(&mut out, &[2, 3]);
    put_bytes(&mut out, &[]);
    assert_eq!(out, vec![1, 2, 3]);
}
