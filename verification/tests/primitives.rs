use shielded_codec::asset::{read_note_value, write_note_value, NoteValue};
use shielded_codec::error::DecodeError;
use shielded_codec::primitives::{
    read_amount, read_anchor, read_cmx, read_flags, read_nullifier, read_signature,
    read_value_commitment, read_verification_key, write_amount, write_anchor, write_cmx,
    write_flags, write_nullifier, write_signature, write_value_commitment,
    write_verification_key, Amount, Anchor, ExtractedNoteCommitment, Flags, Nullifier,
    Signature, ValueCommitment, VerificationKey, FLAGS_EXPECTED_UNSET, FLAG_OUTPUTS_ENABLED,
    FLAG_SPENDS_ENABLED, MAX_MONEY,
};
use shielded_codec::reader::Reader;

/// The encoding of some point: the first one that is found from the seed.
fn point(seed: u8) -> [u8; 32] {
    let mut bytes = [0u8; 32];
    bytes[0] = seed;
    bytes[1] = 1;
    while ValueCommitment::from_bytes(&bytes).is_none() {
        bytes[1] += 1;
    }
    bytes
}

/// The encoding of some field element.
fn field(seed: u8) -> [u8; 32] {
    let mut bytes = [0u8; 32];
    bytes[0] = seed;
    bytes[31] = 0x3F;
    bytes
}

/// The modulus of the base field of the Pallas curve, least significant
/// byte first.
const MODULUS: [u8; 32] = [
    0x01, 0x00, 0x00, 0x00, 0xed, 0x30, 0x2d, 0x99, 0x1b, 0xf9, 0x4c, 0x09, 0xfc, 0x98, 0x46,
    0x22, 0x00, 0x00, 0x00, 0x00, 0x00, 0x00, 0x00, 0x00, 0x00, 0x00, 0x00, 0x00, 0x00, 0x00,
    0x00, 0x40,
];

#[test]
fn non_canonical_encodings_are_refused() {
    let bad = [0xFFu8; 32];
    assert_eq!(read_nullifier(&mut Reader::new(&bad)), Err(DecodeError::InvalidEncoding));
    assert_eq!(
        read_value_commitment(&mut Reader::new(&bad)),
        Err(DecodeError::InvalidEncoding)
    );
    assert_eq!(read_anchor(&mut Reader::new(&bad)), Err(DecodeError::InvalidEncoding));
    assert_eq!(read_cmx(&mut Reader::new(&bad)), Err(DecodeError::InvalidEncoding));
    assert_eq!(
        read_verification_key(&mut Reader::new(&bad)),
        Err(DecodeError::InvalidEncoding)
    );
}

#[test]
fn the_modulus_is_the_first_field_element_that_is_refused() {
    assert_eq!(Nullifier::from_bytes(&MODULUS), None);
    assert_eq!(Anchor::from_bytes(&MODULUS), None);
    assert_eq!(ExtractedNoteCommitment::from_bytes(&MODULUS), None);
    let mut below = MODULUS;
    below[0] = 0;
    assert!(Nullifier::from_bytes(&below).is_some());
    assert!(Anchor::from_bytes(&below).is_some());
    assert!(ExtractedNoteCommitment::from_bytes(&below).is_some());
}

#[test]
fn the_curve_library_decides_about_32_zero_bytes() {
    let zero = [0u8; 32];
    // zero is the canonical encoding of the field element zero ...
    assert!(Nullifier::from_bytes(&zero).is_some());
    assert!(Anchor::from_bytes(&zero).is_some());
    assert!(ExtractedNoteCommitment::from_bytes(&zero).is_some());
    // ... and of the identity, which is a point
    assert!(ValueCommitment::from_bytes(&zero).is_some());
    assert!(VerificationKey::from_bytes(&zero).is_some());
}

#[test]
fn a_point_is_not_every_field_element() {
    let mut accepted = 0;
    let mut refused = 0;
    for seed in 1..=64u8 {
        let mut bytes = [0u8; 32];
        bytes[0] = seed;
        if ValueCommitment::from_bytes(&bytes).is_some() {
            accepted += 1;
            assert!(VerificationKey::from_bytes(&bytes).is_some());
        } else {
            refused += 1;
            assert!(VerificationKey::from_bytes(&bytes).is_none());
        }
        assert!(Nullifier::from_bytes(&bytes).is_some());
    }
    assert!(accepted > 0);
    assert!(refused > 0);
}

#[test]
fn checked_fields_round_trip() {
    let p = point(3);
    let f = field(9);
    let mut out = Vec::new();
    write_value_commitment(&mut out, &ValueCommitment::from_bytes(&p).unwrap());
    write_nullifier(&mut out, &Nullifier::from_bytes(&f).unwrap());
    write_verification_key(&mut out, &VerificationKey::from_bytes(&p).unwrap());
    write_cmx(&mut out, &ExtractedNoteCommitment::from_bytes(&f).unwrap());
    write_anchor(&mut out, &Anchor::from_bytes(&f).unwrap());
    assert_eq!(out.len(), 160);
    assert_eq!(&out[..32], &p);
    assert_eq!(&out[32..64], &f);
    let mut reader = Reader::new(&out);
    assert_eq!(read_value_commitment(&mut reader).unwrap().to_bytes(), p);
    assert_eq!(read_nullifier(&mut reader).unwrap().to_bytes(), f);
    assert_eq!(read_verification_key(&mut reader).unwrap().to_bytes(), p);
    assert_eq!(read_cmx(&mut reader).unwrap().to_bytes(), f);
    assert_eq!(read_anchor(&mut reader).unwrap().to_bytes(), f);
    assert_eq!(reader.position(), 160);
}

#[test]
fn a_refused_field_is_not_consumed() {
    let mut data = vec![1u8];
    data.extend_from_slice(&[0xFF; 32]);
    data.push(9);
    let mut reader = Reader::new(&data);
    assert_eq!(reader.read_u8(), Ok(1));
    assert_eq!(read_nullifier(&mut reader), Err(DecodeError::InvalidEncoding));
    assert_eq!(reader.position(), 1);
    assert_eq!(read_value_commitment(&mut reader), Err(DecodeError::InvalidEncoding));
    assert_eq!(reader.position(), 1);
    assert_eq!(read_flags(&mut reader), Err(DecodeError::InvalidEncoding));
    assert_eq!(reader.position(), 1);
    assert_eq!(read_signature(&mut reader), Err(DecodeError::UnexpectedEndOfInput));
    assert_eq!(reader.position(), 1);
    assert_eq!(reader.read_array::<33>().map(|bytes| bytes[32]), Ok(9));
    assert_eq!(reader.position(), 34);
    let too_much = i64::MAX.to_le_bytes();
    let mut reader = Reader::new(&too_much);
    assert_eq!(read_amount(&mut reader), Err(DecodeError::InvalidEncoding));
    assert_eq!(reader.position(), 0);
}

#[test]
fn fields_cut_short_are_end_of_input() {
    let short = [1u8; 31];
    assert_eq!(read_nullifier(&mut Reader::new(&short)), Err(DecodeError::UnexpectedEndOfInput));
    assert_eq!(read_anchor(&mut Reader::new(&short)), Err(DecodeError::UnexpectedEndOfInput));
    assert_eq!(read_signature(&mut Reader::new(&[0u8; 63])), Err(DecodeError::UnexpectedEndOfInput));
    assert_eq!(read_flags(&mut Reader::new(&[])), Err(DecodeError::UnexpectedEndOfInput));
    assert_eq!(read_amount(&mut Reader::new(&[0u8; 7])), Err(DecodeError::UnexpectedEndOfInput));
}

#[test]
fn signatures_are_any_64_bytes() {
    let mut bytes = [0u8; 64];
    for (i, b) in bytes.iter_mut().enumerate() {
        *b = 255 - i as u8;
    }
    let signature = read_signature(&mut Reader::new(&bytes)).unwrap();
    assert_eq!(signature, Signature::from_bytes(bytes));
    assert_eq!(signature.to_bytes(), bytes);
    let mut out = Vec::new();
    write_signature(&mut out, &signature);
    assert_eq!(out, bytes.to_vec());
}

#[test]
fn flag_bytes() {
    assert_eq!(FLAG_SPENDS_ENABLED, 1);
    assert_eq!(FLAG_OUTPUTS_ENABLED, 2);
    assert_eq!(FLAGS_EXPECTED_UNSET, 0b1111_1100);
    assert_eq!(Flags::from_byte(0), Some(Flags::from_parts(false, false)));
    assert_eq!(Flags::from_byte(1), Some(Flags::from_parts(true, false)));
    assert_eq!(Flags::from_byte(2), Some(Flags::from_parts(false, true)));
    assert_eq!(Flags::from_byte(3), Some(Flags::from_parts(true, true)));
    for byte in 4..=255u8 {
        assert_eq!(Flags::from_byte(byte), None);
        assert_eq!(read_flags(&mut Reader::new(&[byte])), Err(DecodeError::InvalidEncoding));
    }
    for byte in 0..4u8 {
        let flags = read_flags(&mut Reader::new(&[byte])).unwrap();
        assert_eq!(flags.to_byte(), byte);
        assert_eq!(flags.spends_enabled(), byte & 1 != 0);
        assert_eq!(flags.outputs_enabled(), byte & 2 != 0);
        let mut out = Vec::new();
        write_flags(&mut out, &flags);
        assert_eq!(out, vec![byte]);
    }
}

#[test]
fn amounts_are_signed_little_endian_within_the_monetary_range() {
    assert_eq!(MAX_MONEY, 21_000_000 * 100_000_000);
    let cases: [(i64, [u8; 8]); 6] = [
        (0, [0, 0, 0, 0, 0, 0, 0, 0]),
        (1, [1, 0, 0, 0, 0, 0, 0, 0]),
        (-1, [0xFF, 0xFF, 0xFF, 0xFF, 0xFF, 0xFF, 0xFF, 0xFF]),
        (0x0102_0304, [4, 3, 2, 1, 0, 0, 0, 0]),
        (MAX_MONEY, [0x00, 0x40, 0x07, 0x5A, 0xF0, 0x75, 0x07, 0x00]),
        (-MAX_MONEY, [0x00, 0xC0, 0xF8, 0xA5, 0x0F, 0x8A, 0xF8, 0xFF]),
    ];
    for (value, bytes) in cases {
        let amount = Amount::from_i64(value).unwrap();
        assert_eq!(amount.value(), value);
        let mut out = Vec::new();
        write_amount(&mut out, &amount);
        assert_eq!(out, bytes.to_vec());
        assert_eq!(read_amount(&mut Reader::new(&bytes)), Ok(amount));
    }
}

#[test]
fn amounts_outside_the_monetary_range_are_refused() {
    assert_eq!(Amount::from_i64(MAX_MONEY + 1), None);
    assert_eq!(Amount::from_i64(-MAX_MONEY - 1), None);
    assert_eq!(Amount::from_i64(i64::MIN), None);
    assert_eq!(Amount::from_u64(MAX_MONEY as u64 + 1), None);
    assert_eq!(Amount::from_u64(7).unwrap().value(), 7);
    assert_eq!(Amount::zero().value(), 0);
    let above = (MAX_MONEY + 1).to_le_bytes();
    assert_eq!(read_amount(&mut Reader::new(&above)), Err(DecodeError::InvalidEncoding));
    let below = (-MAX_MONEY - 1).to_le_bytes();
    assert_eq!(read_amount(&mut Reader::new(&below)), Err(DecodeError::InvalidEncoding));
}

#[test]
fn note_values_are_unsigned_little_endian() {
    let bytes = [8u8, 7, 6, 5, 4, 3, 2, 1];
    let value = read_note_value(&mut Reader::new(&bytes)).unwrap();
    assert_eq!(value, NoteValue::from_raw(0x0102_0304_0506_0708));
    assert_eq!(value.inner(), 0x0102_0304_0506_0708);
    let mut out = Vec::new();
    write_note_value(&mut out, &value);
    assert_eq!(out, bytes.to_vec());
    let all = [0xFFu8; 8];
    assert_eq!(read_note_value(&mut Reader::new(&all)), Ok(NoteValue::from_raw(u64::MAX)));
}
