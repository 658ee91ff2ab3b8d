use shielded_codec::sighash::{
    to_issuance_version, to_orchard_version, IssueSighashVersion, OrchardSighashVersion,
    SighashInfo, SighashRegistry,
};

#[test]
fn registry_tags_are_version_zero_without_data() {
    let registry = SighashRegistry::new();
    let info = registry.orchard_info(OrchardSighashVersion::V0);
    assert_eq!(info.version, 0);
    assert!(info.associated_data.is_empty());
    assert_eq!(info.to_bytes(), vec![0]);
    let info = registry.issuance_info(IssueSighashVersion::V0);
    assert_eq!(info.to_bytes(), vec![0]);
}

#[test]
fn registry_is_a_bijection() {
    let registry = SighashRegistry::new();
    for kind in [OrchardSighashVersion::V0] {
        let tag = registry.orchard_info(kind).to_bytes();
        assert_eq!(to_orchard_version(&registry, tag), Some(kind));
    }
    for kind in [IssueSighashVersion::V0] {
        let tag = registry.issuance_info(kind).to_bytes();
        assert_eq!(to_issuance_version(&registry, tag), Some(kind));
    }
}

#[test]
fn registry_knows_no_other_tag() {
    let registry = SighashRegistry::new();
    assert_eq!(to_orchard_version(&registry, vec![]), None);
    assert_eq!(to_orchard_version(&registry, vec![1]), None);
    assert_eq!(to_orchard_version(&registry, vec![0, 0]), None);
    assert_eq!(to_orchard_version(&registry, vec![0, 7]), None);
    assert_eq!(to_issuance_version(&registry, vec![]), None);
    assert_eq!(to_issuance_version(&registry, vec![255]), None);
    assert_eq!(to_issuance_version(&registry, vec![0, 0]), None);
    assert_eq!(registry.orchard_version(&[0]), Some(OrchardSighashVersion::V0));
    assert_eq!(registry.issuance_version(&[0]), Some(IssueSighashVersion::V0));
}

#[test]
fn sighash_info_bytes() {
    let info = SighashInfo { version: 3, associated_data: vec![1, 2] };
    assert_eq!(info.to_bytes(), vec![3, 1, 2]);
    assert_eq!(SighashInfo::from_bytes(&[3, 1, 2]), Some(info));
    assert_eq!(SighashInfo::from_bytes(&[]), None);
    assert_eq!(
        SighashInfo::from_bytes(&[0]),
        Some(SighashInfo { version: 0, associated_data: vec![] })
    );
}
