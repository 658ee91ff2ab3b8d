use nonempty::NonEmpty;
use shielded_codec::action::{
    read_action_without_auth, read_note_ciphertext, write_action_without_auth,
    write_note_ciphertext, Action, BundleFlavor, TransmittedNoteCiphertext,
    ENC_CIPHERTEXT_SIZE_MULTI_ASSET, ENC_CIPHERTEXT_SIZE_VANILLA, OUT_CIPHERTEXT_SIZE,
};
use shielded_codec::action_group::{
    read_action_group, read_action_groups, read_bundle, read_bundle_balance_metadata,
    read_orchard_swap_bundle, read_orchard_swap_bundle_with, read_orchard_zsa_bundle,
    read_orchard_zsa_bundle_with, write_action_group, write_bundle_balance_metadata,
    write_orchard_bundle, write_orchard_swap_bundle, write_orchard_zsa_bundle, ActionGroup,
    SwapBundle,
};
use shielded_codec::asset::{AssetBase, NATIVE_ASSET_BYTES};
use shielded_codec::bundle::{
    read_actions_without_auth, read_orchard_bundle, read_spend_auth_signatures, write_v5_bundle,
    Bundle,
};
use shielded_codec::burn::{write_bundle_burn, BurnPolicy};
use shielded_codec::error::{BurnError, DecodeError, EncodeError};
use shielded_codec::primitives::{
    Amount, Anchor, ExtractedNoteCommitment, Flags, Nullifier, Signature, ValueCommitment,
    VerificationKey,
};
use shielded_codec::reader::Reader;

const VANILLA_ACTION: usize = 32 * 4 + 32 + 580 + 80;
const MULTI_ASSET_ACTION: usize = 32 * 4 + 32 + 612 + 80;

fn point(seed: u8) -> [u8; 32] {
    let mut bytes = [0u8; 32];
    bytes[0] = seed;
    bytes[1] = 1;
    while ValueCommitment::from_bytes(&bytes).is_none() {
        bytes[1] += 1;
    }
    bytes
}

fn field(seed: u8) -> [u8; 32] {
    let mut bytes = [0u8; 32];
    bytes[0] = seed;
    bytes[31] = 0x3F;
    bytes
}

fn asset(seed: u8) -> AssetBase {
    let mut bytes = [0u8; 32];
    bytes[0] = seed;
    bytes[2] = 1;
    loop {
        if let Some(asset) = AssetBase::from_bytes(&bytes) {
            return asset;
        }
        bytes[1] += 1;
    }
}

fn amount(value: i64) -> Amount {
    Amount::from_i64(value).unwrap()
}

fn ciphertext(seed: u8, flavor: BundleFlavor) -> TransmittedNoteCiphertext {
    let size = flavor.enc_ciphertext_size();
    let enc: Vec<u8> = (0..size).map(|i| (i as u8).wrapping_mul(seed)).collect();
    TransmittedNoteCiphertext::from_parts([seed; 32], enc, [seed ^ 0x55; 80]).unwrap()
}

fn action(seed: u8, flavor: BundleFlavor) -> Action<Signature> {
    Action::from_parts(
        Nullifier::from_bytes(&field(seed)).unwrap(),
        VerificationKey::from_bytes(&point(seed)).unwrap(),
        ExtractedNoteCommitment::from_bytes(&field(seed.wrapping_add(100))).unwrap(),
        ciphertext(seed, flavor),
        ValueCommitment::from_bytes(&point(seed.wrapping_add(50))).unwrap(),
        Signature::from_bytes([seed.wrapping_add(7); 64]),
    )
}

fn actions(count: u8, flavor: BundleFlavor) -> NonEmpty<Action<Signature>> {
    NonEmpty::from_vec((1..=count).map(|seed| action(seed, flavor)).collect()).unwrap()
}

fn burn_list() -> Vec<(AssetBase, Amount)> {
    vec![(asset(1), amount(10)), (asset(2), amount(20))]
}

fn bundle(count: u8, flavor: BundleFlavor, burn: Vec<(AssetBase, Amount)>) -> Bundle {
    Bundle::from_parts(
        flavor,
        actions(count, flavor),
        Flags::from_parts(true, false),
        amount(-1234),
        burn,
        Anchor::from_bytes(&field(200)).unwrap(),
        vec![0xAB; 10],
        Signature::from_bytes([0xEE; 64]),
    )
    .unwrap()
}

fn encoded(bundle: &Bundle) -> Vec<u8> {
    let mut out = Vec::new();
    write_orchard_bundle(&mut out, Some(bundle)).unwrap();
    out
}

#[test]
fn v5_bundle_round_trip() {
    for count in [1u8, 2, 5] {
        let bundle = bundle(count, BundleFlavor::Vanilla, vec![]);
        let mut out = Vec::new();
        write_v5_bundle(&bundle, &mut out).unwrap();
        let mut reader = Reader::new(&out);
        assert_eq!(read_orchard_bundle(&mut reader), Ok(Some(bundle)));
        assert_eq!(reader.position(), out.len());
    }
}

#[test]
fn v5_bundle_layout() {
    let bundle = bundle(2, BundleFlavor::Vanilla, vec![]);
    let out = encoded(&bundle);
    assert_eq!(out.len(), 1 + 2 * VANILLA_ACTION + 1 + 8 + 32 + (1 + 10) + 2 * 64 + 64);
    assert_eq!(out[0], 2);
    // the first action: value commitment, nullifier, verification key, note commitment
    assert_eq!(&out[1..33], &point(51));
    assert_eq!(&out[33..65], &field(1));
    assert_eq!(&out[65..97], &point(1));
    assert_eq!(&out[97..129], &field(101));
    // its encrypted note: ephemeral key, payload, tail
    assert_eq!(&out[129..161], &[1u8; 32]);
    assert_eq!(&out[161 + 580..161 + 580 + 80], &[1u8 ^ 0x55; 80]);
    let after = 1 + 2 * VANILLA_ACTION;
    assert_eq!(out[after], 0b01);
    assert_eq!(&out[after + 1..after + 9], &(-1234i64).to_le_bytes());
    assert_eq!(&out[after + 9..after + 41], &field(200));
    assert_eq!(out[after + 41], 10);
    assert_eq!(&out[after + 42..after + 52], &[0xAB; 10]);
    // the signatures follow the proof, in the order of the actions
    assert_eq!(&out[after + 52..after + 116], &[8u8; 64]);
    assert_eq!(&out[after + 116..after + 180], &[9u8; 64]);
    assert_eq!(&out[after + 180..], &[0xEE; 64]);
}

#[test]
fn signatures_stay_with_their_actions() {
    let bundle = bundle(3, BundleFlavor::Vanilla, vec![]);
    let out = encoded(&bundle);
    let read = read_orchard_bundle(&mut Reader::new(&out)).unwrap().unwrap();
    let actions: Vec<_> = read.actions().iter().collect();
    assert_eq!(actions.len(), 3);
    for (i, action) in actions.iter().enumerate() {
        let seed = i as u8 + 1;
        assert_eq!(action.nullifier().to_bytes(), field(seed));
        assert_eq!(action.rk().to_bytes(), point(seed));
        assert_eq!(action.cmx().to_bytes(), field(seed + 100));
        assert_eq!(action.cv_net().to_bytes(), point(seed + 50));
        assert_eq!(action.encrypted_note().epk_bytes(), &[seed; 32]);
        assert_eq!(action.authorization().to_bytes(), [seed + 7; 64]);
    }
    assert_eq!(read.flags(), &Flags::from_parts(true, false));
    assert_eq!(read.value_balance().value(), -1234);
    assert_eq!(read.anchor().to_bytes(), field(200));
    assert_eq!(read.proof_bytes(), &vec![0xAB; 10]);
    assert_eq!(read.binding_signature().to_bytes(), [0xEE; 64]);
    assert!(read.burn().is_empty());
    assert_eq!(read.flavor(), BundleFlavor::Vanilla);
}

#[test]
fn absent_bundle_is_one_zero_byte() {
    let mut out = Vec::new();
    write_orchard_bundle(&mut out, None).unwrap();
    assert_eq!(out, vec![0]);
}

#[test]
fn zero_count_is_no_bundle_whatever_follows() {
    let data = [0u8, 0xFF, 0xFF, 3, 1, 2];
    let mut reader = Reader::new(&data);
    assert_eq!(read_orchard_bundle(&mut reader), Ok(None));
    assert_eq!(reader.position(), 1);
    let mut reader = Reader::new(&data);
    assert_eq!(read_orchard_zsa_bundle(&mut reader), Ok(None));
    assert_eq!(reader.position(), 1);
    let mut reader = Reader::new(&data);
    assert_eq!(read_orchard_swap_bundle(&mut reader), Ok(None));
    assert_eq!(reader.position(), 1);
    for flavor in [BundleFlavor::Vanilla, BundleFlavor::MultiAsset] {
        let mut reader = Reader::new(&data);
        assert_eq!(read_bundle(&mut reader, flavor), Ok(None));
        assert_eq!(reader.position(), 1);
    }
}

#[test]
fn v6_bundle_round_trip() {
    for (count, burn) in [(1u8, vec![]), (2, burn_list()), (4, burn_list())] {
        let bundle = bundle(count, BundleFlavor::MultiAsset, burn);
        let mut out = Vec::new();
        write_orchard_zsa_bundle(&mut out, &bundle).unwrap();
        let mut reader = Reader::new(&out);
        assert_eq!(read_orchard_zsa_bundle(&mut reader), Ok(Some(bundle)));
        assert_eq!(reader.position(), out.len());
    }
}

#[test]
fn v6_bundle_layout() {
    let bundle = bundle(2, BundleFlavor::MultiAsset, burn_list());
    let out = encoded(&bundle);
    assert_eq!(
        out.len(),
        1 + 1 + 2 * MULTI_ASSET_ACTION + 1 + 32 + (1 + 10) + 4 + 2 * 64 + 8 + (1 + 2 * 40) + 64
    );
    assert_eq!(out[0], 1);
    assert_eq!(out[1], 2);
    let after = 2 + 2 * MULTI_ASSET_ACTION;
    assert_eq!(out[after], 0b01);
    assert_eq!(&out[after + 1..after + 33], &field(200));
    assert_eq!(out[after + 33], 10);
    assert_eq!(&out[after + 44..after + 48], &[0, 0, 0, 0]);
    assert_eq!(&out[after + 48..after + 112], &[8u8; 64]);
    let balance = after + 48 + 128;
    assert_eq!(&out[balance..balance + 8], &(-1234i64).to_le_bytes());
    assert_eq!(out[balance + 8], 2);
    assert_eq!(&out[balance + 9..balance + 41], &asset(1).to_bytes());
    assert_eq!(&out[balance + 41..balance + 49], &10i64.to_le_bytes());
    assert_eq!(&out[out.len() - 64..], &[0xEE; 64]);
}

#[test]
fn bundles_are_read_in_the_format_of_the_flavor_asked_for() {
    let vanilla = bundle(2, BundleFlavor::Vanilla, vec![]);
    let multi = bundle(2, BundleFlavor::MultiAsset, burn_list());
    let out = encoded(&vanilla);
    assert_eq!(read_bundle(&mut Reader::new(&out), BundleFlavor::Vanilla), Ok(Some(vanilla)));
    let out = encoded(&multi);
    assert_eq!(
        read_bundle(&mut Reader::new(&out), BundleFlavor::MultiAsset),
        Ok(Some(multi))
    );
}

#[test]
fn reading_stops_behind_the_bundle() {
    let bundle = bundle(1, BundleFlavor::MultiAsset, burn_list());
    let mut out = vec![9u8, 9, 9];
    write_orchard_zsa_bundle(&mut out, &bundle).unwrap();
    let end = out.len();
    out.extend_from_slice(&[1, 2, 3, 4]);
    let mut reader = Reader::new(&out);
    assert!(reader.seek(3));
    assert_eq!(read_orchard_zsa_bundle(&mut reader), Ok(Some(bundle)));
    assert_eq!(reader.position(), end);
    assert_eq!(reader.read_to_end(), vec![1, 2, 3, 4]);
}

#[test]
fn group_count_two_is_refused() {
    let bundle = bundle(1, BundleFlavor::MultiAsset, vec![]);
    let mut out = encoded(&bundle);
    let group = out[1..out.len() - (8 + 1 + 64)].to_vec();
    out[0] = 2;
    assert_eq!(
        read_orchard_zsa_bundle(&mut Reader::new(&out)),
        Err(DecodeError::StructuralViolation)
    );
    // even where the second group is there
    let mut two = vec![2u8];
    two.extend_from_slice(&group);
    two.extend_from_slice(&group);
    two.extend_from_slice(&out[out.len() - (8 + 1 + 64)..]);
    assert_eq!(
        read_orchard_zsa_bundle(&mut Reader::new(&two)),
        Err(DecodeError::StructuralViolation)
    );
    assert_eq!(
        read_action_groups(&mut Reader::new(&two), true),
        Err(DecodeError::StructuralViolation)
    );
    assert_eq!(read_action_groups(&mut Reader::new(&two), false).unwrap().len(), 2);
    // a count that is written in a longer form than it needs is no count at all
    assert_eq!(
        read_orchard_zsa_bundle(&mut Reader::new(&[253, 1, 0])),
        Err(DecodeError::InvalidEncoding)
    );
    assert_eq!(
        read_orchard_zsa_bundle(&mut Reader::new(&[253, 0, 1])),
        Err(DecodeError::StructuralViolation)
    );
}

#[test]
fn group_without_actions_is_refused() {
    let data = [1u8, 0, 0, 0, 0];
    assert_eq!(
        read_orchard_zsa_bundle(&mut Reader::new(&data)),
        Err(DecodeError::StructuralViolation)
    );
    assert_eq!(
        read_action_group(&mut Reader::new(&data[1..])),
        Err(DecodeError::StructuralViolation)
    );
}

#[test]
fn time_limit_other_than_zero_is_refused() {
    let bundle = bundle(1, BundleFlavor::MultiAsset, vec![]);
    let mut out = encoded(&bundle);
    let limit = 2 + MULTI_ASSET_ACTION + 1 + 32 + 11;
    assert_eq!(&out[limit..limit + 4], &[0, 0, 0, 0]);
    out[limit + 2] = 1;
    assert_eq!(
        read_orchard_zsa_bundle(&mut Reader::new(&out)),
        Err(DecodeError::StructuralViolation)
    );
}

#[test]
fn a_missing_spend_auth_signature_is_end_of_input() {
    let bundle = bundle(3, BundleFlavor::Vanilla, vec![]);
    let out = encoded(&bundle);
    // three actions, but the input ends behind the second signature
    let cut = out.len() - 64 - 64;
    assert_eq!(
        read_orchard_bundle(&mut Reader::new(&out[..cut])),
        Err(DecodeError::UnexpectedEndOfInput)
    );
    // and with the third signature but no binding signature
    assert_eq!(
        read_orchard_bundle(&mut Reader::new(&out[..out.len() - 1])),
        Err(DecodeError::UnexpectedEndOfInput)
    );
    let multi = self::bundle(3, BundleFlavor::MultiAsset, vec![]);
    let out = encoded(&multi);
    let cut = out.len() - (8 + 1 + 64) - 64;
    assert_eq!(
        read_orchard_zsa_bundle(&mut Reader::new(&out[..cut])),
        Err(DecodeError::UnexpectedEndOfInput)
    );
}

#[test]
fn every_cut_of_a_bundle_is_end_of_input() {
    let bundle = bundle(1, BundleFlavor::Vanilla, vec![]);
    let out = encoded(&bundle);
    for cut in [1, 2, 33, 100, VANILLA_ACTION, VANILLA_ACTION + 5, out.len() - 65, out.len() - 1] {
        assert_eq!(
            read_orchard_bundle(&mut Reader::new(&out[..cut])),
            Err(DecodeError::UnexpectedEndOfInput)
        );
    }
}

#[test]
fn a_bad_field_fails_the_whole_bundle() {
    let bundle = bundle(2, BundleFlavor::Vanilla, vec![]);
    let out = encoded(&bundle);
    // the nullifier of the second action
    let mut bad = out.clone();
    let at = 1 + VANILLA_ACTION + 32;
    bad[at..at + 32].copy_from_slice(&[0xFF; 32]);
    assert_eq!(read_orchard_bundle(&mut Reader::new(&bad)), Err(DecodeError::InvalidEncoding));
    // the flag byte
    let mut bad = out.clone();
    bad[1 + 2 * VANILLA_ACTION] = 4;
    assert_eq!(read_orchard_bundle(&mut Reader::new(&bad)), Err(DecodeError::InvalidEncoding));
    // the anchor
    let mut bad = out.clone();
    let at = 1 + 2 * VANILLA_ACTION + 9;
    bad[at..at + 32].copy_from_slice(&[0xFF; 32]);
    assert_eq!(read_orchard_bundle(&mut Reader::new(&bad)), Err(DecodeError::InvalidEncoding));
    // the value balance
    let mut bad = out.clone();
    let at = 1 + 2 * VANILLA_ACTION + 1;
    bad[at..at + 8].copy_from_slice(&i64::MAX.to_le_bytes());
    assert_eq!(read_orchard_bundle(&mut Reader::new(&bad)), Err(DecodeError::InvalidEncoding));
}

#[test]
fn a_bad_burn_list_fails_the_whole_bundle() {
    let bundle = bundle(1, BundleFlavor::MultiAsset, vec![]);
    let out = encoded(&bundle);
    let count_at = out.len() - 64 - 1;
    assert_eq!(out[count_at], 0);
    let cases = [
        (
            vec![(asset(1), amount(10)), (asset(1), amount(20)), (asset(2), amount(10))],
            BurnError::DuplicateAsset,
        ),
        (
            vec![(AssetBase::from_bytes(&NATIVE_ASSET_BYTES).unwrap(), amount(20))],
            BurnError::NativeAsset,
        ),
        (vec![(asset(1), amount(0))], BurnError::NonPositiveAmount),
        (vec![(asset(1), amount(-3))], BurnError::NonPositiveAmount),
    ];
    for (burn, error) in cases {
        let mut bad = out[..count_at].to_vec();
        write_bundle_burn(&mut bad, &burn).unwrap();
        bad.extend_from_slice(&out[count_at + 1..]);
        assert_eq!(
            read_orchard_zsa_bundle(&mut Reader::new(&bad)),
            Err(DecodeError::BurnInvariantViolation(error))
        );
    }
}

#[test]
fn parts_that_do_not_fit_make_no_bundle() {
    let make = |flavor, action_flavor, burn| {
        Bundle::from_parts(
            flavor,
            actions(2, action_flavor),
            Flags::from_parts(true, true),
            amount(0),
            burn,
            Anchor::from_bytes(&field(1)).unwrap(),
            vec![],
            Signature::from_bytes([0; 64]),
        )
    };
    assert!(make(BundleFlavor::Vanilla, BundleFlavor::Vanilla, vec![]).is_some());
    assert!(make(BundleFlavor::MultiAsset, BundleFlavor::MultiAsset, burn_list()).is_some());
    assert!(make(BundleFlavor::Vanilla, BundleFlavor::MultiAsset, vec![]).is_none());
    assert!(make(BundleFlavor::MultiAsset, BundleFlavor::Vanilla, vec![]).is_none());
    assert!(make(BundleFlavor::Vanilla, BundleFlavor::Vanilla, burn_list()).is_none());
    let duplicate = vec![(asset(1), amount(1)), (asset(1), amount(2))];
    assert!(make(BundleFlavor::MultiAsset, BundleFlavor::MultiAsset, duplicate).is_none());
    let zero = vec![(asset(1), amount(0))];
    assert!(make(BundleFlavor::MultiAsset, BundleFlavor::MultiAsset, zero).is_none());
}

#[test]
fn a_bundle_is_written_only_in_the_format_of_its_flavor() {
    let vanilla = bundle(1, BundleFlavor::Vanilla, vec![]);
    let multi = bundle(1, BundleFlavor::MultiAsset, vec![]);
    let mut out = vec![5u8];
    assert_eq!(write_v5_bundle(&multi, &mut out), Err(EncodeError::FlavorMismatch));
    assert_eq!(write_orchard_zsa_bundle(&mut out, &vanilla), Err(EncodeError::FlavorMismatch));
    assert_eq!(write_action_group(&mut out, &vanilla, 0), Err(EncodeError::FlavorMismatch));
    assert_eq!(out, vec![5u8]);
}

#[test]
fn a_proof_too_long_for_its_length_prefix_is_refused() {
    let bundle = Bundle::from_parts(
        BundleFlavor::Vanilla,
        actions(1, BundleFlavor::Vanilla),
        Flags::from_parts(true, true),
        amount(0),
        vec![],
        Anchor::from_bytes(&field(1)).unwrap(),
        vec![0u8; 0x0200_0001],
        Signature::from_bytes([0; 64]),
    )
    .unwrap();
    let mut out = vec![5u8];
    assert_eq!(write_v5_bundle(&bundle, &mut out), Err(EncodeError::TooLarge));
    assert_eq!(write_orchard_bundle(&mut out, Some(&bundle)), Err(EncodeError::TooLarge));
    assert_eq!(out, vec![5u8]);
}

#[test]
fn actions_are_read_without_authorization() {
    for (flavor, size) in [
        (BundleFlavor::Vanilla, VANILLA_ACTION),
        (BundleFlavor::MultiAsset, MULTI_ASSET_ACTION),
    ] {
        let signed = action(4, flavor);
        let mut out = Vec::new();
        write_action_without_auth(&mut out, &signed);
        assert_eq!(out.len(), size);
        let mut reader = Reader::new(&out);
        let read = read_action_without_auth(&mut reader, flavor).unwrap();
        assert_eq!(reader.position(), size);
        assert_eq!(read.authorization(), &());
        assert_eq!(read.clone().with_authorization(Signature::from_bytes([11; 64])), signed);
        assert_eq!(read.authorized_by(Signature::from_bytes([11; 64])), signed);
    }
}

#[test]
fn actions_and_their_signatures_are_read_in_two_passes() {
    let mut out = vec![2u8];
    write_action_without_auth(&mut out, &action(1, BundleFlavor::Vanilla));
    write_action_without_auth(&mut out, &action(2, BundleFlavor::Vanilla));
    out.extend_from_slice(&[8u8; 64]);
    out.extend_from_slice(&[9u8; 64]);
    let mut reader = Reader::new(&out);
    let unsigned = read_actions_without_auth(&mut reader, BundleFlavor::Vanilla).unwrap();
    assert_eq!(unsigned.len(), 2);
    let signed = read_spend_auth_signatures(&mut reader, &unsigned).unwrap();
    assert_eq!(
        signed,
        vec![action(1, BundleFlavor::Vanilla), action(2, BundleFlavor::Vanilla)]
    );
    assert_eq!(reader.position(), out.len());
}

#[test]
fn encrypted_notes_have_the_length_of_their_flavor() {
    assert_eq!(ENC_CIPHERTEXT_SIZE_VANILLA, 580);
    assert_eq!(ENC_CIPHERTEXT_SIZE_MULTI_ASSET, 612);
    assert_eq!(OUT_CIPHERTEXT_SIZE, 80);
    assert_eq!(BundleFlavor::Vanilla.enc_ciphertext_size(), 580);
    assert_eq!(BundleFlavor::MultiAsset.enc_ciphertext_size(), 612);
    assert!(TransmittedNoteCiphertext::from_parts([0; 32], vec![0; 579], [0; 80]).is_none());
    assert!(TransmittedNoteCiphertext::from_parts([0; 32], vec![0; 611], [0; 80]).is_none());
    assert!(TransmittedNoteCiphertext::from_parts([0; 32], vec![], [0; 80]).is_none());
    let note = ciphertext(3, BundleFlavor::MultiAsset);
    assert_eq!(note.payload_flavor(), BundleFlavor::MultiAsset);
    assert_eq!(ciphertext(3, BundleFlavor::Vanilla).payload_flavor(), BundleFlavor::Vanilla);
    let mut out = Vec::new();
    write_note_ciphertext(&mut out, &note);
    assert_eq!(out.len(), 32 + 612 + 80);
    assert_eq!(&out[32..32 + 612], &note.enc_ciphertext()[..]);
    assert_eq!(&out[32 + 612..], &note.out_ciphertext()[..]);
    assert_eq!(
        read_note_ciphertext(&mut Reader::new(&out), BundleFlavor::MultiAsset),
        Ok(note.clone())
    );
    // read as a single-asset note, the same bytes give a shorter payload
    let short = read_note_ciphertext(&mut Reader::new(&out), BundleFlavor::Vanilla).unwrap();
    assert_eq!(short.enc_ciphertext().len(), 580);
    assert_eq!(
        read_note_ciphertext(&mut Reader::new(&out[..700]), BundleFlavor::MultiAsset),
        Err(DecodeError::UnexpectedEndOfInput)
    );
}

#[test]
fn balance_metadata_round_trip() {
    let mut out = Vec::new();
    let burn = burn_list();
    write_bundle_balance_metadata(&mut out, &amount(77), &burn, &Signature::from_bytes([3; 64]))
        .unwrap();
    assert_eq!(out.len(), 8 + 1 + 80 + 64);
    assert_eq!(
        read_bundle_balance_metadata(&mut Reader::new(&out), BurnPolicy::Positive),
        Ok((amount(77), burn, Signature::from_bytes([3; 64])))
    );
}

fn group(count: u8, timelimit: u32) -> ActionGroup {
    ActionGroup::from_parts(
        actions(count, BundleFlavor::MultiAsset),
        Flags::from_parts(false, true),
        Anchor::from_bytes(&field(count)).unwrap(),
        vec![count; 3],
        timelimit,
    )
    .unwrap()
}

#[test]
fn swap_bundle_round_trip() {
    let bundle = SwapBundle::from_parts(
        vec![group(1, 0), group(3, 0)],
        amount(5),
        burn_list(),
        Signature::from_bytes([1; 64]),
    )
    .unwrap();
    let mut out = Vec::new();
    write_orchard_swap_bundle(&mut out, &bundle).unwrap();
    assert_eq!(out[0], 2);
    let mut reader = Reader::new(&out);
    let read = read_orchard_swap_bundle(&mut reader).unwrap().unwrap();
    assert_eq!(reader.position(), out.len());
    assert_eq!(read, bundle);
    assert_eq!(read.action_groups().len(), 2);
    assert_eq!(read.action_groups()[1].actions().len(), 3);
    assert_eq!(read.action_groups()[1].timelimit(), 0);
    assert_eq!(read.action_groups()[1].proof_bytes(), &vec![3u8; 3]);
    assert_eq!(read.action_groups()[0].flags(), &Flags::from_parts(false, true));
    assert_eq!(read.action_groups()[0].anchor().to_bytes(), field(1));
    assert_eq!(read.value_balance().value(), 5);
    assert_eq!(read.burn(), &burn_list());
    assert_eq!(read.binding_signature().to_bytes(), [1; 64]);
}

#[test]
fn swap_bundle_with_a_time_limit_is_written_but_not_read_back() {
    let bundle = SwapBundle::from_parts(
        vec![group(1, 0x0102_0304)],
        amount(5),
        vec![],
        Signature::from_bytes([1; 64]),
    )
    .unwrap();
    let mut out = Vec::new();
    write_orchard_swap_bundle(&mut out, &bundle).unwrap();
    let limit = 2 + MULTI_ASSET_ACTION + 1 + 32 + 4;
    assert_eq!(&out[limit..limit + 4], &[4, 3, 2, 1]);
    assert_eq!(
        read_orchard_swap_bundle(&mut Reader::new(&out)),
        Err(DecodeError::StructuralViolation)
    );
}

#[test]
fn groups_and_swap_bundles_refuse_parts_that_do_not_fit() {
    assert!(ActionGroup::from_parts(
        actions(1, BundleFlavor::Vanilla),
        Flags::from_parts(false, true),
        Anchor::from_bytes(&field(1)).unwrap(),
        vec![],
        0,
    )
    .is_none());
    assert!(SwapBundle::from_parts(
        vec![],
        amount(0),
        vec![(asset(1), amount(0))],
        Signature::from_bytes([0; 64]),
    )
    .is_none());
    let group = group(2, 0);
    let (actions, flags, anchor, proof_bytes, timelimit) = group.into_parts();
    assert_eq!(actions.len(), 2);
    assert_eq!(flags, Flags::from_parts(false, true));
    assert_eq!(anchor.to_bytes(), field(2));
    assert_eq!(proof_bytes, vec![2u8; 3]);
    assert_eq!(timelimit, 0);
}

fn bundle_with_negative_burn() -> Bundle {
    Bundle::from_parts_with(
        BundleFlavor::MultiAsset,
        BurnPolicy::Nonzero,
        actions(2, BundleFlavor::MultiAsset),
        Flags::from_parts(true, true),
        amount(9),
        vec![(asset(1), amount(-10)), (asset(2), amount(20))],
        Anchor::from_bytes(&field(3)).unwrap(),
        vec![1, 2, 3],
        Signature::from_bytes([4; 64]),
    )
    .unwrap()
}

#[test]
fn a_bundle_is_read_back_under_the_burn_policy_it_is_held_to() {
    let bundle = bundle_with_negative_burn();
    assert_eq!(bundle.burn_policy(), BurnPolicy::Nonzero);
    let out = encoded(&bundle);
    assert_eq!(
        read_orchard_zsa_bundle_with(&mut Reader::new(&out), BurnPolicy::Nonzero),
        Ok(Some(bundle))
    );
    assert_eq!(
        read_orchard_zsa_bundle_with(&mut Reader::new(&out), BurnPolicy::Positive),
        Err(DecodeError::BurnInvariantViolation(BurnError::NonPositiveAmount))
    );
    assert_eq!(
        read_orchard_zsa_bundle(&mut Reader::new(&out)),
        Err(DecodeError::BurnInvariantViolation(BurnError::NonPositiveAmount))
    );
    // the same bytes, read under different policies, give bundles that differ in the policy
    let positive = self::bundle(1, BundleFlavor::MultiAsset, burn_list());
    assert_eq!(positive.burn_policy(), BurnPolicy::Positive);
    let out = encoded(&positive);
    let lenient = read_orchard_zsa_bundle_with(&mut Reader::new(&out), BurnPolicy::Nonzero)
        .unwrap()
        .unwrap();
    assert_eq!(lenient.burn_policy(), BurnPolicy::Nonzero);
    assert_eq!(lenient.burn(), positive.burn());
    assert!(lenient != positive);
}

#[test]
fn a_zero_burn_amount_is_refused_under_either_policy() {
    let bundle = self::bundle(1, BundleFlavor::MultiAsset, vec![]);
    let out = encoded(&bundle);
    let count_at = out.len() - 64 - 1;
    let mut bad = out[..count_at].to_vec();
    write_bundle_burn(&mut bad, &vec![(asset(1), amount(0))]).unwrap();
    bad.extend_from_slice(&out[count_at + 1..]);
    assert_eq!(
        read_orchard_zsa_bundle_with(&mut Reader::new(&bad), BurnPolicy::Nonzero),
        Err(DecodeError::BurnInvariantViolation(BurnError::ZeroAmount))
    );
    assert_eq!(
        read_orchard_zsa_bundle_with(&mut Reader::new(&bad), BurnPolicy::Positive),
        Err(DecodeError::BurnInvariantViolation(BurnError::NonPositiveAmount))
    );
}

#[test]
fn the_burn_policy_is_a_part_that_must_fit() {
    let make = |flavor, policy, burn| {
        Bundle::from_parts_with(
            flavor,
            policy,
            actions(1, flavor),
            Flags::from_parts(true, true),
            amount(0),
            burn,
            Anchor::from_bytes(&field(1)).unwrap(),
            vec![],
            Signature::from_bytes([0; 64]),
        )
    };
    assert!(make(BundleFlavor::Vanilla, BurnPolicy::Positive, vec![]).is_some());
    assert!(make(BundleFlavor::Vanilla, BurnPolicy::Nonzero, vec![]).is_none());
    assert!(make(BundleFlavor::MultiAsset, BurnPolicy::Nonzero, vec![]).is_some());
    let negative = vec![(asset(1), amount(-1))];
    assert!(make(BundleFlavor::MultiAsset, BurnPolicy::Nonzero, negative.clone()).is_some());
    assert!(make(BundleFlavor::MultiAsset, BurnPolicy::Positive, negative).is_none());
    let zero = vec![(asset(1), amount(0))];
    assert!(make(BundleFlavor::MultiAsset, BurnPolicy::Nonzero, zero).is_none());
}

#[test]
fn swap_bundle_under_the_nonzero_policy() {
    let bundle = SwapBundle::from_parts_with(
        BurnPolicy::Nonzero,
        vec![group(2, 0)],
        amount(5),
        vec![(asset(1), amount(-1))],
        Signature::from_bytes([1; 64]),
    )
    .unwrap();
    assert_eq!(bundle.burn_policy(), BurnPolicy::Nonzero);
    let mut out = Vec::new();
    write_orchard_swap_bundle(&mut out, &bundle).unwrap();
    assert_eq!(
        read_orchard_swap_bundle_with(&mut Reader::new(&out), BurnPolicy::Nonzero),
        Ok(Some(bundle))
    );
    assert_eq!(
        read_orchard_swap_bundle(&mut Reader::new(&out)),
        Err(DecodeError::BurnInvariantViolation(BurnError::NonPositiveAmount))
    );
    assert!(SwapBundle::from_parts(
        vec![group(2, 0)],
        amount(5),
        vec![(asset(1), amount(-1))],
        Signature::from_bytes([1; 64]),
    )
    .is_none());
}

#[test]
fn writing_what_was_read_gives_the_same_bytes() {
    for bundle in [
        self::bundle(3, BundleFlavor::Vanilla, vec![]),
        self::bundle(2, BundleFlavor::MultiAsset, burn_list()),
        bundle_with_negative_burn(),
    ] {
        let out = encoded(&bundle);
        let read = match bundle.flavor() {
            BundleFlavor::Vanilla => read_orchard_bundle(&mut Reader::new(&out)),
            BundleFlavor::MultiAsset => {
                read_orchard_zsa_bundle_with(&mut Reader::new(&out), bundle.burn_policy())
            }
        }
        .unwrap()
        .unwrap();
        assert_eq!(encoded(&read), out);
    }
}

#[test]
fn a_failed_read_leaves_the_reader_where_it_was() {
    let bundle = self::bundle(2, BundleFlavor::MultiAsset, burn_list());
    let mut out = vec![7u8; 5];
    write_orchard_zsa_bundle(&mut out, &bundle).unwrap();
    let whole = out.len();
    for cut in [6, 7, 40, 5 + 2 + MULTI_ASSET_ACTION, whole - 200, whole - 64, whole - 1] {
        let mut reader = Reader::new(&out[..cut]);
        assert!(reader.seek(5));
        assert_eq!(
            read_orchard_zsa_bundle(&mut reader),
            Err(DecodeError::UnexpectedEndOfInput)
        );
        assert_eq!(reader.position(), 5);
    }
    // a bad anchor behind two good actions
    let at = 5 + 2 + 2 * MULTI_ASSET_ACTION + 1;
    out[at..at + 32].copy_from_slice(&[0xFF; 32]);
    let mut reader = Reader::new(&out);
    assert!(reader.seek(5));
    assert_eq!(read_orchard_zsa_bundle(&mut reader), Err(DecodeError::InvalidEncoding));
    assert_eq!(reader.position(), 5);
    assert_eq!(
        read_action_without_auth(&mut reader, BundleFlavor::MultiAsset),
        Err(DecodeError::InvalidEncoding)
    );
    assert_eq!(reader.position(), 5);
    assert!(reader.seek(7));
    assert!(read_action_without_auth(&mut reader, BundleFlavor::MultiAsset).is_ok());
    assert_eq!(reader.position(), 7 + MULTI_ASSET_ACTION);
}
