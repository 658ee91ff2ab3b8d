use pasta_curves::arithmetic::CurveExt;
use pasta_curves::group::GroupEncoding;
use shielded_codec::asset::{AssetBase, NATIVE_ASSET_BYTES};
use shielded_codec::burn::{
    read_asset_burn, read_bundle_burn, read_bundle_burn_with, validate_bundle_burn,
    validate_bundle_burn_with, write_asset_burn, write_bundle_burn, BurnPolicy,
};
use shielded_codec::error::{BurnError, DecodeError};
use shielded_codec::primitives::Amount;
use shielded_codec::reader::Reader;

/// An asset for a name: the first encoding of a point that is found from
/// bytes made of the name.
fn asset(name: &str) -> AssetBase {
    let mut bytes = [0u8; 32];
    let mut state: u32 = 0x811C_9DC5;
    for (i, b) in name.bytes().cycle().take(31).enumerate() {
        state = (state ^ b as u32).wrapping_mul(0x0100_0193);
        bytes[i] = (state >> 24) as u8;
    }
    loop {
        if let Some(asset) = AssetBase::from_bytes(&bytes) {
            return asset;
        }
        bytes[0] = bytes[0].wrapping_add(1);
        if bytes[0] == 0 {
            bytes[1] = bytes[1].wrapping_add(1);
        }
    }
}

fn get_burn_tuple(asset_desc: &str, value: i64) -> (AssetBase, Amount) {
    (asset(asset_desc), Amount::from_i64(value).unwrap())
}

fn native() -> AssetBase {
    AssetBase::from_bytes(&NATIVE_ASSET_BYTES).unwrap()
}

#[test]
fn validate_bundle_burn_success() {
    let bundle_burn = vec![
        get_burn_tuple("Asset 1", 10),
        get_burn_tuple("Asset 2", 20),
        get_burn_tuple("Asset 3", 10),
    ];

    let result = validate_bundle_burn(&bundle_burn);

    assert!(result.is_ok());
}

#[test]
fn validate_bundle_burn_duplicate_asset() {
    let bundle_burn = vec![
        get_burn_tuple("Asset 1", 10),
        get_burn_tuple("Asset 1", 20),
        get_burn_tuple("Asset 3", 10),
    ];

    let result = validate_bundle_burn(&bundle_burn);

    assert_eq!(result, Err(BurnError::DuplicateAsset));
}

#[test]
fn validate_bundle_burn_native_asset() {
    let bundle_burn = vec![
        get_burn_tuple("Asset 1", 10),
        (native(), Amount::from_u64(20).unwrap()),
        get_burn_tuple("Asset 3", 10),
    ];

    let result = validate_bundle_burn(&bundle_burn);

    assert_eq!(result, Err(BurnError::NativeAsset));
}

#[test]
fn validate_bundle_burn_zero_amount() {
    let bundle_burn = vec![
        get_burn_tuple("Asset 1", 10),
        get_burn_tuple("Asset 2", 0),
        get_burn_tuple("Asset 3", 10),
    ];

    let result = validate_bundle_burn(&bundle_burn);

    assert_eq!(result, Err(BurnError::NonPositiveAmount));
}

#[test]
fn read_write_bundle_burn_success() {
    let bundle_burn = (1..10)
        .map(|i| get_burn_tuple(&format!("Asset {i}"), i * 10))
        .collect::<Vec<_>>();

    let mut buffer = Vec::new();
    write_bundle_burn(&mut buffer, &bundle_burn).unwrap();

    let mut cursor = Reader::new(&buffer);
    let result = read_bundle_burn(&mut cursor).unwrap();

    assert_eq!(result, bundle_burn);
}

#[test]
fn read_bundle_burn_duplicate_asset() {
    let bundle_burn = vec![
        get_burn_tuple("Asset 1", 10),
        get_burn_tuple("Asset 1", 20),
        get_burn_tuple("Asset 3", 10),
    ];

    let mut buffer = Vec::new();

    write_bundle_burn(&mut buffer, &bundle_burn).unwrap();

    let mut cursor = Reader::new(&buffer);

    let result = read_bundle_burn(&mut cursor);

    assert!(
        matches!(result, Err(DecodeError::BurnInvariantViolation(ref err))
            if err.message() == BurnError::DuplicateAsset.message())
    );
}

#[test]
fn burn_list_of_the_native_asset_alone() {
    let bundle_burn = vec![(native(), Amount::from_i64(20).unwrap())];
    assert_eq!(validate_bundle_burn(&bundle_burn), Err(BurnError::NativeAsset));
    assert_eq!(
        validate_bundle_burn_with(&bundle_burn, BurnPolicy::Nonzero),
        Err(BurnError::NativeAsset)
    );
}

#[test]
fn burn_list_with_a_zero_amount_alone() {
    let bundle_burn = vec![get_burn_tuple("Asset A", 0)];
    assert_eq!(
        validate_bundle_burn_with(&bundle_burn, BurnPolicy::Positive),
        Err(BurnError::NonPositiveAmount)
    );
    assert_eq!(
        validate_bundle_burn_with(&bundle_burn, BurnPolicy::Nonzero),
        Err(BurnError::ZeroAmount)
    );
}

#[test]
fn burn_policies_differ_on_negative_amounts() {
    let bundle_burn = vec![get_burn_tuple("Asset A", -5)];
    assert_eq!(
        validate_bundle_burn_with(&bundle_burn, BurnPolicy::Positive),
        Err(BurnError::NonPositiveAmount)
    );
    assert_eq!(validate_bundle_burn_with(&bundle_burn, BurnPolicy::Nonzero), Ok(()));
}

#[test]
fn burn_errors_are_tried_in_order() {
    // a repeated native asset with a zero amount is first of all a duplicate
    let bundle_burn = vec![
        (native(), Amount::from_i64(1).unwrap()),
        (native(), Amount::from_i64(0).unwrap()),
    ];
    assert_eq!(validate_bundle_burn(&bundle_burn), Err(BurnError::NativeAsset));
    let bundle_burn = vec![
        get_burn_tuple("Asset A", 1),
        get_burn_tuple("Asset B", 0),
        get_burn_tuple("Asset A", 1),
    ];
    assert_eq!(validate_bundle_burn(&bundle_burn), Err(BurnError::NonPositiveAmount));
    let bundle_burn = vec![
        get_burn_tuple("Asset A", 1),
        get_burn_tuple("Asset A", 0),
    ];
    assert_eq!(validate_bundle_burn(&bundle_burn), Err(BurnError::DuplicateAsset));
    // the native asset with a zero amount is first of all the native asset
    let bundle_burn = vec![(native(), Amount::from_i64(0).unwrap())];
    assert_eq!(validate_bundle_burn(&bundle_burn), Err(BurnError::NativeAsset));
}

#[test]
fn empty_burn_list_is_valid() {
    assert_eq!(validate_bundle_burn(&vec![]), Ok(()));
    let mut buffer = Vec::new();
    write_bundle_burn(&mut buffer, &vec![]).unwrap();
    assert_eq!(buffer, vec![0]);
    assert_eq!(read_bundle_burn(&mut Reader::new(&buffer)), Ok(vec![]));
}

#[test]
fn burn_entry_layout() {
    let entry = get_burn_tuple("Asset 1", 0x0102);
    let mut buffer = Vec::new();
    write_asset_burn(&mut buffer, &entry);
    assert_eq!(buffer.len(), 40);
    assert_eq!(&buffer[..32], &entry.0.to_bytes());
    assert_eq!(&buffer[32..], &[2, 1, 0, 0, 0, 0, 0, 0]);
    let mut reader = Reader::new(&buffer);
    assert_eq!(read_asset_burn(&mut reader), Ok(entry));
    assert_eq!(reader.position(), 40);
}

#[test]
fn burn_list_read_under_the_nonzero_policy() {
    let bundle_burn = vec![get_burn_tuple("Asset 1", -1), get_burn_tuple("Asset 2", 3)];
    let mut buffer = Vec::new();
    write_bundle_burn(&mut buffer, &bundle_burn).unwrap();
    assert_eq!(
        read_bundle_burn_with(&mut Reader::new(&buffer), BurnPolicy::Nonzero),
        Ok(bundle_burn)
    );
    assert_eq!(
        read_bundle_burn(&mut Reader::new(&buffer)),
        Err(DecodeError::BurnInvariantViolation(BurnError::NonPositiveAmount))
    );
}

#[test]
fn burn_list_cut_short_is_end_of_input() {
    let bundle_burn = vec![get_burn_tuple("Asset 1", 1), get_burn_tuple("Asset 2", 3)];
    let mut buffer = Vec::new();
    write_bundle_burn(&mut buffer, &bundle_burn).unwrap();
    buffer.truncate(buffer.len() - 1);
    assert_eq!(
        read_bundle_burn(&mut Reader::new(&buffer)),
        Err(DecodeError::UnexpectedEndOfInput)
    );
}

#[test]
fn burn_entry_with_a_bad_asset_or_amount_is_refused() {
    let mut buffer = vec![1u8];
    buffer.extend_from_slice(&[0xFF; 32]);
    buffer.extend_from_slice(&[1, 0, 0, 0, 0, 0, 0, 0]);
    assert_eq!(
        read_bundle_burn(&mut Reader::new(&buffer)),
        Err(DecodeError::InvalidEncoding)
    );
    let mut buffer = vec![1u8];
    buffer.extend_from_slice(&asset("Asset 1").to_bytes());
    buffer.extend_from_slice(&[0xFF, 0xFF, 0xFF, 0xFF, 0xFF, 0xFF, 0xFF, 0x7F]);
    assert_eq!(
        read_bundle_burn(&mut Reader::new(&buffer)),
        Err(DecodeError::InvalidEncoding)
    );
}

#[test]
fn burn_error_messages() {
    assert_eq!(BurnError::DuplicateAsset.message(), "Encountered a duplicate asset to burn.");
    assert_eq!(BurnError::NativeAsset.message(), "Cannot burn a native asset.");
    assert_eq!(
        BurnError::NonPositiveAmount.message(),
        "Cannot burn an asset with a nonpositive amount."
    );
    assert_eq!(BurnError::ZeroAmount.message(), "Cannot burn an asset with a zero amount.");
}

#[test]
fn native_asset_is_the_value_base() {
    let base = pasta_curves::pallas::Point::hash_to_curve("z.cash:Orchard-cv")(b"v");
    assert_eq!(base.to_bytes(), NATIVE_ASSET_BYTES);
    assert!(native().is_native());
    assert!(!asset("Asset 1").is_native());
}

#[test]
fn the_identity_is_no_asset() {
    assert_eq!(AssetBase::from_bytes(&[0u8; 32]), None);
    assert_eq!(AssetBase::from_bytes(&[0xFFu8; 32]), None);
    let a = asset("Asset 1");
    assert_eq!(AssetBase::from_bytes(&a.to_bytes()), Some(a));
    assert!(a.same_as(&asset("Asset 1")));
    assert!(!a.same_as(&asset("Asset 2")));
}
