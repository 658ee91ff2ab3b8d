use nonempty::NonEmpty;
use shielded_codec::asset::{read_asset, AssetBase, NoteValue};
use shielded_codec::error::{DecodeError, EncodeError};
use shielded_codec::issuance::{
    read_action, read_action_v5, read_authorization, read_bool, read_description, read_ik,
    read_issue_bundle, read_notes, read_reference_notes, read_v5_issue_bundle, read_v6_bundle,
    write_action, write_bool, write_notes, write_reference_notes, write_v5_issue_bundle,
    write_v6_bundle, DescriptionFraming, IssuanceFormat, IssuanceValidatingKey, IssueAction,
    IssueBundle, Signed,
};
use shielded_codec::note::{
    read_note, read_recipient, read_rho, read_rseed, write_note, Address, Note, RandomSeed, Rho,
};
use shielded_codec::primitives::ValueCommitment;
use shielded_codec::reader::Reader;

const NOTE: usize = 43 + 8 + 32 + 32 + 32;

fn point(seed: u8) -> [u8; 32] {
    let mut bytes = [0u8; 32];
    bytes[0] = seed;
    bytes[1] = 1;
    while ValueCommitment::from_bytes(&bytes).is_none() {
        bytes[1] += 1;
    }
    bytes
}

fn field(seed: u8) -> [u8; 32] {
    let mut bytes = [0u8; 32];
    bytes[0] = seed;
    bytes[31] = 0x3F;
    bytes
}

fn asset(seed: u8) -> AssetBase {
    AssetBase::from_bytes(&point(seed)).unwrap()
}

fn address(seed: u8) -> Address {
    let mut bytes = [seed; 43];
    bytes[11..].copy_from_slice(&point(seed));
    Address::from_raw_address_bytes(&bytes).unwrap()
}

fn note(seed: u8) -> Note {
    let rho = Rho::from_bytes(&field(seed)).unwrap();
    let mut seed_bytes = [seed; 32];
    let rseed = loop {
        if let Some(rseed) = RandomSeed::from_bytes(seed_bytes, &rho) {
            break rseed;
        }
        seed_bytes[0] = seed_bytes[0].wrapping_add(1);
    };
    Note::from_parts(
        address(seed),
        NoteValue::from_raw(1000 + seed as u64),
        asset(seed.wrapping_add(9)),
        rho,
        rseed,
    )
    .unwrap()
}

fn issue_action(seed: u8, notes: u8, finalize: bool) -> IssueAction {
    let desc = format!("asset {seed} \u{20ac}").into_bytes();
    IssueAction::from_parts(desc, (0..notes).map(|i| note(seed + i)).collect(), finalize).unwrap()
}

fn issue_bundle(actions: u8) -> IssueBundle {
    IssueBundle::from_parts(
        IssuanceValidatingKey::from_bytes(&point(120)).unwrap(),
        NonEmpty::from_vec((1..=actions).map(|i| issue_action(i * 10, i, i % 2 == 0)).collect())
            .unwrap(),
        vec![],
        Signed::from_data([0x5A; 64]),
    )
    .unwrap()
}

#[test]
fn v6_issue_bundle_round_trip() {
    for count in [1u8, 2, 3] {
        let bundle = issue_bundle(count);
        let mut out = Vec::new();
        write_v6_bundle(Some(&bundle), &mut out).unwrap();
        let mut reader = Reader::new(&out);
        assert_eq!(read_v6_bundle(&mut reader), Ok(Some(bundle)));
        assert_eq!(reader.position(), out.len());
    }
}

#[test]
fn v5_issue_bundle_round_trip_with_length_prefixed_descriptions() {
    for count in [1u8, 3] {
        let bundle = issue_bundle(count);
        let mut out = Vec::new();
        write_v5_issue_bundle(Some(&bundle), &mut out, DescriptionFraming::LengthPrefixed)
            .unwrap();
        let mut reader = Reader::new(&out);
        assert_eq!(
            read_v5_issue_bundle(&mut reader, DescriptionFraming::LengthPrefixed),
            Ok(Some(bundle))
        );
        assert_eq!(reader.position(), out.len());
    }
}

#[test]
fn the_two_formats_order_the_fields_of_an_action_differently() {
    let action = issue_action(3, 2, true);
    let desc = action.asset_desc().clone();
    let mut v6 = Vec::new();
    write_action(&mut v6, &action, IssuanceFormat::V6).unwrap();
    let mut v5 = Vec::new();
    write_action(
        &mut v5,
        &action,
        IssuanceFormat::V5(DescriptionFraming::LengthPrefixed),
    )
    .unwrap();
    let mut v5_to_end = Vec::new();
    write_action(
        &mut v5_to_end,
        &action,
        IssuanceFormat::V5(DescriptionFraming::ToEndOfInput),
    )
    .unwrap();
    assert_eq!(v6.len(), 1 + desc.len() + 1 + 2 * NOTE + 1);
    assert_eq!(v5.len(), v6.len());
    assert_eq!(v5_to_end.len(), v6.len() - 1);
    // newer: description, notes, flag
    assert_eq!(v6[0] as usize, desc.len());
    assert_eq!(&v6[1..1 + desc.len()], &desc[..]);
    assert_eq!(v6[1 + desc.len()], 2);
    assert_eq!(v6[v6.len() - 1], 1);
    // older: flag, notes, description
    assert_eq!(v5[0], 1);
    assert_eq!(v5[1], 2);
    assert_eq!(v5[2 + 2 * NOTE] as usize, desc.len());
    assert_eq!(&v5[3 + 2 * NOTE..], &desc[..]);
    assert_eq!(&v5_to_end[2 + 2 * NOTE..], &desc[..]);
    assert_eq!(read_action(&mut Reader::new(&v6)).as_ref(), Ok(&action));
    assert_eq!(
        read_action_v5(&mut Reader::new(&v5), DescriptionFraming::LengthPrefixed).as_ref(),
        Ok(&action)
    );
    assert_eq!(
        read_action_v5(&mut Reader::new(&v5_to_end), DescriptionFraming::ToEndOfInput).as_ref(),
        Ok(&action)
    );
}

#[test]
fn a_description_to_the_end_of_the_input_leaves_nothing_for_the_rest_of_a_bundle() {
    for count in [1u8, 2] {
        let bundle = issue_bundle(count);
        let mut out = Vec::new();
        write_v5_issue_bundle(Some(&bundle), &mut out, DescriptionFraming::ToEndOfInput).unwrap();
        let read = read_v5_issue_bundle(&mut Reader::new(&out), DescriptionFraming::ToEndOfInput);
        assert!(matches!(
            read,
            Err(DecodeError::UnexpectedEndOfInput) | Err(DecodeError::InvalidEncoding)
        ));
    }
    // one action, whose description takes the key and the signature with it
    let mut out = vec![1u8];
    write_action(
        &mut out,
        &issue_action(3, 1, false),
        IssuanceFormat::V5(DescriptionFraming::ToEndOfInput),
    )
    .unwrap();
    out.extend_from_slice(&[b'k'; 32]);
    out.extend_from_slice(&[b's'; 64]);
    assert_eq!(
        read_v5_issue_bundle(&mut Reader::new(&out), DescriptionFraming::ToEndOfInput),
        Err(DecodeError::UnexpectedEndOfInput)
    );
    // read by itself, such an action takes everything behind its notes
    let action = issue_action(3, 1, false);
    let mut out = Vec::new();
    write_action(&mut out, &action, IssuanceFormat::V5(DescriptionFraming::ToEndOfInput)).unwrap();
    out.extend_from_slice(b" and more");
    let mut reader = Reader::new(&out);
    let read = read_action_v5(&mut reader, DescriptionFraming::ToEndOfInput).unwrap();
    assert_eq!(reader.position(), out.len());
    let mut desc = action.asset_desc().clone();
    desc.extend_from_slice(b" and more");
    assert_eq!(read.asset_desc(), &desc);
    assert_eq!(read.notes(), action.notes());
}

#[test]
fn absent_issue_bundle_is_one_zero_byte() {
    let formats = [
        IssuanceFormat::V6,
        IssuanceFormat::V5(DescriptionFraming::LengthPrefixed),
        IssuanceFormat::V5(DescriptionFraming::ToEndOfInput),
    ];
    for format in formats {
        let mut out = Vec::new();
        shielded_codec::issuance::write_issue_bundle(None, &mut out, format).unwrap();
        assert_eq!(out, vec![0]);
        let data = [0u8, 7, 7, 7];
        let mut reader = Reader::new(&data);
        assert_eq!(read_issue_bundle(&mut reader, format), Ok(None));
        assert_eq!(reader.position(), 1);
    }
}

#[test]
fn issue_bundle_layout() {
    let bundle = issue_bundle(1);
    let mut out = Vec::new();
    write_v6_bundle(Some(&bundle), &mut out).unwrap();
    let desc = bundle.actions().first().asset_desc().len();
    assert_eq!(out.len(), 1 + (1 + desc + 1 + NOTE + 1) + 32 + 64);
    assert_eq!(out[0], 1);
    assert_eq!(&out[out.len() - 96..out.len() - 64], &point(120));
    assert_eq!(&out[out.len() - 64..], &[0x5A; 64]);
    let read = read_v6_bundle(&mut Reader::new(&out)).unwrap().unwrap();
    assert_eq!(read.ik().to_bytes(), point(120));
    assert_eq!(read.authorization().signature().to_bytes(), [0x5A; 64]);
    assert!(read.reference_notes().is_empty());
    assert_eq!(read.actions().len(), 1);
    assert!(!read.actions().first().is_finalized());
}

#[test]
fn reference_notes_are_neither_written_nor_read() {
    let with_notes = IssueBundle::from_parts(
        IssuanceValidatingKey::from_bytes(&point(120)).unwrap(),
        NonEmpty::new(issue_action(1, 1, false)),
        vec![note(3), note(4)],
        Signed::from_data([1; 64]),
    )
    .unwrap();
    assert_eq!(with_notes.reference_notes(), &vec![note(3), note(4)]);
    let without = IssueBundle::from_parts(
        IssuanceValidatingKey::from_bytes(&point(120)).unwrap(),
        NonEmpty::new(issue_action(1, 1, false)),
        vec![],
        Signed::from_data([1; 64]),
    )
    .unwrap();
    // two reference notes of one asset are no mapping
    assert!(IssueBundle::from_parts(
        IssuanceValidatingKey::from_bytes(&point(120)).unwrap(),
        NonEmpty::new(issue_action(1, 1, false)),
        vec![note(3), note(4), note(3)],
        Signed::from_data([1; 64]),
    )
    .is_none());
    let mut a = Vec::new();
    write_v6_bundle(Some(&with_notes), &mut a).unwrap();
    let mut b = Vec::new();
    write_v6_bundle(Some(&without), &mut b).unwrap();
    assert_eq!(a, b);
    assert_eq!(read_v6_bundle(&mut Reader::new(&a)), Ok(Some(without)));
    let mut out = vec![1u8];
    write_reference_notes(&mut out, &vec![note(3)]);
    assert_eq!(out, vec![1u8]);
    let mut reader = Reader::new(&[1, 2, 3]);
    assert_eq!(read_reference_notes(&mut reader), Ok(vec![]));
    assert_eq!(reader.position(), 0);
}

#[test]
fn note_layout_and_round_trip() {
    let note = note(5);
    let mut out = Vec::new();
    write_note(&mut out, &note);
    assert_eq!(out.len(), NOTE);
    assert_eq!(&out[..43], &note.recipient().to_raw_address_bytes());
    assert_eq!(&out[43..51], &1005u64.to_le_bytes());
    assert_eq!(&out[51..83], &point(14));
    assert_eq!(&out[83..115], &field(5));
    assert_eq!(&out[115..], &note.rseed().as_bytes()[..]);
    let mut reader = Reader::new(&out);
    assert_eq!(read_note(&mut reader), Ok(note));
    assert_eq!(reader.position(), NOTE);
    assert_eq!(note.value(), NoteValue::from_raw(1005));
    assert_eq!(note.asset(), asset(14));
    assert_eq!(note.rho().to_bytes(), field(5));
}

#[test]
fn a_bad_field_fails_the_note() {
    let mut out = Vec::new();
    write_note(&mut out, &note(5));
    // a recipient whose key is the identity
    let mut bad = out.clone();
    bad[11..43].copy_from_slice(&[0; 32]);
    assert_eq!(read_note(&mut Reader::new(&bad)), Err(DecodeError::InvalidEncoding));
    assert_eq!(read_recipient(&mut Reader::new(&bad)), Err(DecodeError::InvalidEncoding));
    // an asset that is no point
    let mut bad = out.clone();
    bad[51..83].copy_from_slice(&[0xFF; 32]);
    assert_eq!(read_note(&mut Reader::new(&bad)), Err(DecodeError::InvalidEncoding));
    assert_eq!(read_asset(&mut Reader::new(&bad[51..])), Err(DecodeError::InvalidEncoding));
    // a rho that is no field element
    let mut bad = out.clone();
    bad[83..115].copy_from_slice(&[0xFF; 32]);
    assert_eq!(read_note(&mut Reader::new(&bad)), Err(DecodeError::InvalidEncoding));
    assert_eq!(read_rho(&mut Reader::new(&bad[83..])), Err(DecodeError::InvalidEncoding));
    // a note cut short
    assert_eq!(
        read_note(&mut Reader::new(&out[..NOTE - 1])),
        Err(DecodeError::UnexpectedEndOfInput)
    );
    let rho = Rho::from_bytes(&field(5)).unwrap();
    assert_eq!(
        read_rseed(&mut Reader::new(&out[115..NOTE - 1]), &rho),
        Err(DecodeError::UnexpectedEndOfInput)
    );
    assert!(read_rseed(&mut Reader::new(&out[115..]), &rho).is_ok());
}

#[test]
fn the_finalization_flag_is_zero_or_one() {
    assert_eq!(read_bool(&mut Reader::new(&[0])), Ok(false));
    assert_eq!(read_bool(&mut Reader::new(&[1])), Ok(true));
    for byte in 2..=255u8 {
        assert_eq!(read_bool(&mut Reader::new(&[byte])), Err(DecodeError::InvalidEncoding));
    }
    assert_eq!(read_bool(&mut Reader::new(&[])), Err(DecodeError::UnexpectedEndOfInput));
    let mut out = Vec::new();
    write_bool(&mut out, true);
    write_bool(&mut out, false);
    assert_eq!(out, vec![1, 0]);
    let mut action = Vec::new();
    write_action(&mut action, &issue_action(1, 1, true), IssuanceFormat::V6).unwrap();
    let last = action.len() - 1;
    action[last] = 2;
    assert_eq!(read_action(&mut Reader::new(&action)), Err(DecodeError::InvalidEncoding));
}

#[test]
fn a_description_must_be_utf8() {
    assert!(IssueAction::from_parts(vec![0xFF], vec![note(1)], false).is_none());
    assert!(IssueAction::from_parts(vec![0xC3], vec![note(1)], false).is_none());
    assert!(IssueAction::from_parts(vec![0xC3, 0xA9], vec![note(1)], false).is_some());
    assert!(IssueAction::from_parts(vec![], vec![note(1)], false).is_some());
    assert_eq!(
        read_description(&mut Reader::new(&[2, 0xC3, 0xA9]), DescriptionFraming::LengthPrefixed),
        Ok(vec![0xC3, 0xA9])
    );
    assert_eq!(
        read_description(&mut Reader::new(&[2, 0xC3, 0x28]), DescriptionFraming::LengthPrefixed),
        Err(DecodeError::InvalidEncoding)
    );
    assert_eq!(
        read_description(&mut Reader::new(&[0xC3, 0x28]), DescriptionFraming::ToEndOfInput),
        Err(DecodeError::InvalidEncoding)
    );
    assert_eq!(
        read_description(&mut Reader::new(&[0xC3, 0xA9]), DescriptionFraming::ToEndOfInput),
        Ok(vec![0xC3, 0xA9])
    );
    assert_eq!(
        read_description(&mut Reader::new(&[3, 0xC3, 0xA9]), DescriptionFraming::LengthPrefixed),
        Err(DecodeError::UnexpectedEndOfInput)
    );
    let mut action = Vec::new();
    write_action(&mut action, &issue_action(1, 1, true), IssuanceFormat::V6).unwrap();
    action[1] = 0xFF;
    assert_eq!(read_action(&mut Reader::new(&action)), Err(DecodeError::InvalidEncoding));
}

#[test]
fn an_action_must_have_a_note() {
    assert!(IssueAction::from_parts(b"asset".to_vec(), vec![], true).is_none());
    assert_eq!(read_notes(&mut Reader::new(&[0])), Err(DecodeError::StructuralViolation));
    // description "a", no notes, finalized
    assert_eq!(
        read_action(&mut Reader::new(&[1, b'a', 0, 1])),
        Err(DecodeError::StructuralViolation)
    );
    assert_eq!(
        read_action_v5(&mut Reader::new(&[1, 0, 1, b'a']), DescriptionFraming::LengthPrefixed),
        Err(DecodeError::StructuralViolation)
    );
    let mut out = Vec::new();
    write_notes(&mut out, &vec![note(1), note(2)]).unwrap();
    assert_eq!(out.len(), 1 + 2 * NOTE);
    assert_eq!(read_notes(&mut Reader::new(&out)), Ok(vec![note(1), note(2)]));
}

#[test]
fn the_issuer_key_and_signature_are_framed() {
    let bundle = issue_bundle(1);
    let mut out = Vec::new();
    write_v6_bundle(Some(&bundle), &mut out).unwrap();
    let key_at = out.len() - 96;
    let mut bad = out.clone();
    bad[key_at..key_at + 32].copy_from_slice(&[0xFF; 32]);
    assert_eq!(read_v6_bundle(&mut Reader::new(&bad)), Err(DecodeError::InvalidEncoding));
    assert_eq!(
        read_v6_bundle(&mut Reader::new(&out[..out.len() - 1])),
        Err(DecodeError::UnexpectedEndOfInput)
    );
    assert_eq!(
        read_v6_bundle(&mut Reader::new(&out[..key_at + 10])),
        Err(DecodeError::UnexpectedEndOfInput)
    );
    assert_eq!(read_ik(&mut Reader::new(&point(3))).unwrap().to_bytes(), point(3));
    assert_eq!(read_ik(&mut Reader::new(&[0xFF; 32])), Err(DecodeError::InvalidEncoding));
    assert_eq!(IssuanceValidatingKey::from_bytes(&[0xFF; 32]), None);
    assert_eq!(
        read_authorization(&mut Reader::new(&[7; 64])),
        Ok(Signed::from_data([7; 64]))
    );
    assert_eq!(
        read_authorization(&mut Reader::new(&[7; 63])),
        Err(DecodeError::UnexpectedEndOfInput)
    );
}

#[test]
fn a_description_too_long_for_its_length_prefix_is_refused() {
    let long = IssueAction::from_parts(vec![b'a'; 0x0200_0001], vec![note(1)], false).unwrap();
    let mut out = vec![4u8];
    assert_eq!(write_action(&mut out, &long, IssuanceFormat::V6), Err(EncodeError::TooLarge));
    assert_eq!(
        write_action(&mut out, &long, IssuanceFormat::V5(DescriptionFraming::LengthPrefixed)),
        Err(EncodeError::TooLarge)
    );
    assert_eq!(out, vec![4u8]);
    let bundle = IssueBundle::from_parts(
        IssuanceValidatingKey::from_bytes(&point(120)).unwrap(),
        NonEmpty::from_vec(vec![issue_action(1, 1, false), long]).unwrap(),
        vec![],
        Signed::from_data([1; 64]),
    )
    .unwrap();
    assert_eq!(write_v6_bundle(Some(&bundle), &mut out), Err(EncodeError::TooLarge));
    assert_eq!(out, vec![4u8]);
    // without a length prefix there is no limit
    assert!(write_v5_issue_bundle(Some(&bundle), &mut out, DescriptionFraming::ToEndOfInput).is_ok());
}

#[test]
fn addresses_are_a_diversifier_and_a_key_other_than_the_identity() {
    let mut bytes = [3u8; 43];
    bytes[11..].copy_from_slice(&point(3));
    let address = Address::from_raw_address_bytes(&bytes).unwrap();
    assert_eq!(address.to_raw_address_bytes(), bytes);
    bytes[11..].copy_from_slice(&[0; 32]);
    assert_eq!(Address::from_raw_address_bytes(&bytes), None);
    bytes[11..].copy_from_slice(&[0xFF; 32]);
    assert_eq!(Address::from_raw_address_bytes(&bytes), None);
    assert_eq!(Rho::from_bytes(&[0xFF; 32]), None);
    assert_eq!(Rho::from_bytes(&field(1)).unwrap().to_bytes(), field(1));
}

#[test]
fn writing_an_issue_bundle_that_was_read_gives_the_same_bytes() {
    let bundle = issue_bundle(3);
    for format in [IssuanceFormat::V6, IssuanceFormat::V5(DescriptionFraming::LengthPrefixed)] {
        let mut out = Vec::new();
        shielded_codec::issuance::write_issue_bundle(Some(&bundle), &mut out, format).unwrap();
        let read = read_issue_bundle(&mut Reader::new(&out), format).unwrap().unwrap();
        let mut again = Vec::new();
        shielded_codec::issuance::write_issue_bundle(Some(&read), &mut again, format).unwrap();
        assert_eq!(again, out);
    }
}
