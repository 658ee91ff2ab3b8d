//! The compact-size prefix: a variable-width unsigned integer that frames
//! every list and byte string of the wire format.

use vstd::prelude::*;
use crate::bytes::{
    has_at, le_bytes, le_value, lemma_has_at_concat, lemma_le_bytes_len, lemma_le_bytes_of_le_value,
    lemma_le_value_bound, lemma_le_value_of_le_bytes, lemma_pow256_values, Parsed,
};
use crate::error::{DecodeError, EncodeError};
use crate::reader::{consumed, parse_bytes, put_bytes, viewed, Reader};

verus! {

/// The largest value that a compact-size prefix may carry.
pub const MAX_COMPACT_SIZE: u64 = 0x0200_0000;

/// How many bytes follow a compact-size flag byte.
pub open spec fn compact_size_width(flag: u8) -> nat {
    if flag < 253 {
        0
    } else if flag == 253 {
        2
    } else if flag == 254 {
        4
    } else {
        8
    }
}

/// The smallest value that may be written behind a compact-size flag byte:
/// anything smaller has a shorter encoding.
pub open spec fn compact_size_floor(flag: u8) -> nat {
    if flag < 253 {
        0
    } else if flag == 253 {
        253
    } else if flag == 254 {
        0x1_0000
    } else {
        0x1_0000_0000
    }
}

/// The compact-size value at `pos`: a flag byte below 253 is the value; 253,
/// 254 and 255 announce a little-endian value of 2, 4 and 8 bytes. Truncated
/// input is `UnexpectedEndOfInput`; a value that has a shorter encoding, or
/// one above [`MAX_COMPACT_SIZE`], is `InvalidEncoding`.
pub open spec fn parse_compact_size(data: Seq<u8>, pos: int) -> Parsed<u64> {
    if !(0 <= pos < data.len()) {
        Err(DecodeError::UnexpectedEndOfInput)
    } else {
        let flag = data[pos];
        let width = compact_size_width(flag);
        if pos + 1 + width > data.len() {
            Err(DecodeError::UnexpectedEndOfInput)
        } else {
            let value = if flag < 253 {
                flag as nat
            } else {
                le_value(data.subrange(pos + 1, pos + 1 + width))
            };
            if value < compact_size_floor(flag) || value > MAX_COMPACT_SIZE {
                Err(DecodeError::InvalidEncoding)
            } else {
                Ok((value as u64, pos + 1 + width))
            }
        }
    }
}

/// The shortest compact-size encoding of `n`.
pub open spec fn compact_size_bytes(n: nat) -> Seq<u8> {
    if n < 253 {
        seq![n as u8]
    } else if n <= 0xFFFF {
        seq![253u8] + le_bytes(n, 2)
    } else if n <= 0xFFFF_FFFF {
        seq![254u8] + le_bytes(n, 4)
    } else {
        seq![255u8] + le_bytes(n, 8)
    }
}

/// A compact-size prefix followed by that many raw bytes.
pub open spec fn parse_byte_string(data: Seq<u8>, pos: int) -> Parsed<Seq<u8>> {
    match parse_compact_size(data, pos) {
        Ok((n, next)) => parse_bytes(data, next, n as nat),
        Err(e) => Err(e),
    }
}

/// The encoding that [`parse_byte_string`] reads.
pub open spec fn byte_string_bytes(s: Seq<u8>) -> Seq<u8> {
    compact_size_bytes(s.len()) + s
}

/// Calls `zcash_encoding::CompactSize::read` on a cursor over `input`, and
/// reports the value with the number of bytes that the call consumed. The
/// contract restates that function: one flag byte, then 0, 2, 4 or 8
/// little-endian bytes; an end-of-file error where they are missing, and an
/// invalid-input error for a non-minimal encoding or a value above the
/// consensus limit.
#[verifier::external_body]
fn compact_size_decode(input: &[u8]) -> (r: Result<(u64, u64), DecodeError>)
    ensures
        match r {
            Ok((value, used)) => parse_compact_size(input@, 0) matches Ok(p) && p.0 == value && p.1
                == used,
            Err(e) => parse_compact_size(input@, 0) matches Err(f) && f == e,
        },
{
    let mut cursor = std::io::Cursor::new(input);
    match zcash_encoding::CompactSize::read(&mut cursor) {
        Ok(value) => Ok((value, cursor.position())),
        Err(e) => match e.kind() {
            std::io::ErrorKind::UnexpectedEof => Err(DecodeError::UnexpectedEndOfInput),
            _ => Err(DecodeError::InvalidEncoding),
        },
    }
}

/// Calls `zcash_encoding::CompactSize::write` with `writer` as the sink. The
/// contract restates that function: it refuses a size above the consensus
/// limit before writing anything, and otherwise appends the shortest
/// encoding of the size.
#[verifier::external_body]
fn compact_size_encode(writer: &mut Vec<u8>, size: usize) -> (r: Result<(), EncodeError>)
    ensures
        r is Ok <==> size <= MAX_COMPACT_SIZE,
        r is Ok ==> final(writer)@ == old(writer)@ + compact_size_bytes(size as nat),
        r is Err ==> final(writer)@ == old(writer)@,
{
    match zcash_encoding::CompactSize::write(&mut *writer, size) {
        Ok(()) => Ok(()),
        Err(_) => Err(EncodeError::TooLarge),
    }
}

/// Parsing looks only at the bytes from `pos` on.
pub proof fn lemma_parse_compact_size_local(data: Seq<u8>, pos: int)
    requires
        0 <= pos <= data.len(),
    ensures
        match parse_compact_size(data.subrange(pos, data.len() as int), 0) {
            Ok((v, used)) => parse_compact_size(data, pos) matches Ok(p) && p.0 == v && p.1 == pos
                + used,
            Err(e) => parse_compact_size(data, pos) matches Err(f) && f == e,
        },
{
    let tail = data.subrange(pos, data.len() as int);
    if pos < data.len() {
        let flag = data[pos];
        let width = compact_size_width(flag);
        if pos + 1 + width <= data.len() {
            assert(tail.subrange(1, (1 + width) as int) =~= data.subrange(pos + 1, pos + 1 + width));
        }
    }
}

/// Reads a compact-size value.
pub fn read_compact_size(reader: &mut Reader) -> (r: Result<usize, DecodeError>)
    ensures
        consumed(
            *old(reader),
            *final(reader),
            match r {
                Ok(n) => Ok(n as u64),
                Err(e) => Err(e),
            },
            parse_compact_size(old(reader).data(), old(reader).pos()),
        ),
        r is Ok ==> r->Ok_0 <= MAX_COMPACT_SIZE,
{
    let start = reader.position();
    let data = reader.bytes();
    let tail = vstd::slice::slice_subrange(data, start, data.len());
    proof {
        lemma_parse_compact_size_local(data@, start as int);
    }
    match compact_size_decode(tail) {
        Ok((value, used)) => {
            let _ = reader.seek(start + used as usize);
            Ok(value as usize)
        },
        Err(e) => Err(e),
    }
}

/// Writes `size` as a compact-size value; refuses one above
/// [`MAX_COMPACT_SIZE`] and then leaves the buffer as it was.
pub fn write_compact_size(writer: &mut Vec<u8>, size: usize) -> (r: Result<(), EncodeError>)
    ensures
        r is Ok <==> size <= MAX_COMPACT_SIZE,
        r is Ok ==> final(writer)@ == old(writer)@ + compact_size_bytes(size as nat),
        r is Err ==> final(writer)@ == old(writer)@,
{
    compact_size_encode(writer, size)
}

/// Reads a compact-size length and then that many bytes.
pub fn read_byte_string(reader: &mut Reader) -> (r: Result<Vec<u8>, DecodeError>)
    ensures
        consumed(
            *old(reader),
            *final(reader),
            viewed(r),
            parse_byte_string(old(reader).data(), old(reader).pos()),
        ),
{
    let mut cursor = *reader;
    let n = read_compact_size(&mut cursor)?;
    let bytes = cursor.read_vec(n)?;
    *reader = cursor;
    Ok(bytes)
}

/// Writes the length of `bytes` as a compact-size value and then the bytes;
/// refuses a string longer than [`MAX_COMPACT_SIZE`] and then leaves the
/// buffer as it was.
pub fn write_byte_string(writer: &mut Vec<u8>, bytes: &[u8]) -> (r: Result<(), EncodeError>)
    ensures
        r is Ok <==> bytes@.len() <= MAX_COMPACT_SIZE,
        r is Ok ==> final(writer)@ == old(writer)@ + byte_string_bytes(bytes@),
        r is Err ==> final(writer)@ == old(writer)@,
{
    write_compact_size(writer, bytes.len())?;
    put_bytes(writer, bytes);
    Ok(())
}

/// A compact-size encoding is one, three, five or nine bytes long.
pub proof fn lemma_compact_size_bytes_len(n: nat)
    ensures
        compact_size_bytes(n).len() == 1 + compact_size_width(compact_size_bytes(n)[0]),
        1 <= compact_size_bytes(n).len() <= 9,
{
    lemma_le_bytes_len(n, 2);
    lemma_le_bytes_len(n, 4);
    lemma_le_bytes_len(n, 8);
}

/// Reading what was written gives the value back: wherever the encoding of
/// an admissible `n` stands, parsing there yields `n` and stops behind it.
pub proof fn lemma_compact_size_round_trip(data: Seq<u8>, pos: int, n: nat)
    requires
        n <= MAX_COMPACT_SIZE,
        has_at(data, pos, compact_size_bytes(n)),
    ensures
        parse_compact_size(data, pos) matches Ok(p) && p.0 == n && p.1 == pos + compact_size_bytes(
            n,
        ).len(),
{
    lemma_compact_size_bytes_len(n);
    lemma_pow256_values();
    if n < 253 {
        // the flag byte is the value
    } else if n <= 0xFFFF {
        assert(data.subrange(pos + 1, pos + 3) =~= le_bytes(n, 2)) by {
            lemma_has_at_concat(data, pos, seq![253u8], le_bytes(n, 2));
        }
        lemma_le_value_of_le_bytes(n, 2);
    } else {
        assert(data.subrange(pos + 1, pos + 5) =~= le_bytes(n, 4)) by {
            lemma_has_at_concat(data, pos, seq![254u8], le_bytes(n, 4));
        }
        lemma_le_value_of_le_bytes(n, 4);
    }
}

/// Reading a written byte string gives the string back.
pub proof fn lemma_byte_string_round_trip(data: Seq<u8>, pos: int, s: Seq<u8>)
    requires
        s.len() <= MAX_COMPACT_SIZE,
        has_at(data, pos, byte_string_bytes(s)),
    ensures
        parse_byte_string(data, pos) matches Ok(p) && p.0 == s && p.1 == pos + byte_string_bytes(
            s,
        ).len(),
{
    lemma_has_at_concat(data, pos, compact_size_bytes(s.len()), s);
    lemma_compact_size_round_trip(data, pos, s.len());
}

/// A compact size is read from its shortest encoding only: where a value
/// is parsed, the bytes there are the encoding of that value.
pub proof fn lemma_compact_size_canonical(data: Seq<u8>, pos: int)
    ensures
        parse_compact_size(data, pos) matches Ok(p) ==> p.0 <= MAX_COMPACT_SIZE && has_at(
            data,
            pos,
            compact_size_bytes(p.0 as nat),
        ) && p.1 == pos + compact_size_bytes(p.0 as nat).len(),
{
    if let Ok((n, next)) = parse_compact_size(data, pos) {
        let flag = data[pos];
        let width = compact_size_width(flag);
        let tail = data.subrange(pos + 1, pos + 1 + width);
        lemma_pow256_values();
        if flag < 253 {
            assert(data.subrange(pos, pos + 1) =~= seq![flag]);
        } else {
            lemma_le_value_bound(tail);
            lemma_le_bytes_of_le_value(tail);
            assert(data.subrange(pos, pos + 1 + width) =~= seq![flag] + tail);
        }
    }
}

/// A byte string is read from one encoding only: where a string is parsed,
/// the bytes there are the encoding of that string.
pub proof fn lemma_byte_string_canonical(data: Seq<u8>, pos: int)
    ensures
        parse_byte_string(data, pos) matches Ok(p) ==> p.0.len() <= MAX_COMPACT_SIZE && has_at(
            data,
            pos,
            byte_string_bytes(p.0),
        ) && p.1 == pos + byte_string_bytes(p.0).len(),
{
    lemma_compact_size_canonical(data, pos);
    if let Ok((s, next)) = parse_byte_string(data, pos) {
        lemma_has_at_concat(data, pos, compact_size_bytes(s.len()), s);
    }
}

} // verus!
