use std::sync::Arc;

use up_rust::frame::metadata::PayloadEncoding;
use up_rust::frame::native::byte_order_from_probe;
use up_rust::frame::native::{
    NativeByteOrder, NativeContract, NativeField, NativeProfile, NativeProfileAgreement, NativeProfileError,
    NativeProfileMode, NativeProfileTable, NativeRepresentation, NativeTypeToken,
};

fn scalar(name: &str) -> NativeRepresentation {
    NativeRepresentation::new(name, 0, 4, 4, NativeByteOrder::LittleEndian, vec![]).unwrap()
}

fn encoding(id: u32) -> PayloadEncoding {
    PayloadEncoding::from_id(id).unwrap()
}

fn profile(id: u32, name: &str) -> NativeProfile {
    NativeProfile::new(
        "vehicle",
        1,
        NativeProfileMode::Table(NativeProfileTable::new(vec![(encoding(id), scalar(name))]).unwrap()),
    )
    .unwrap()
}

fn check_table_rejects_non_private(id: u32) {
    assert_eq!(
        NativeProfileTable::new(vec![(encoding(id), scalar("u32"))]),
        Err(NativeProfileError::NonPrivateEncoding(encoding(id)))
    );
}

#[test]
fn table_rejects_non_private_allocations_contract_defined() {
    check_table_rejects_non_private(0);
}

#[test]
fn table_rejects_non_private_allocations_unassigned() {
    check_table_rejects_non_private(8);
}

#[test]
fn table_rejects_non_private_allocations_registry_range() {
    check_table_rejects_non_private(0xDFFF);
}

#[test]
fn table_rejects_non_private_allocations_reserved_range() {
    check_table_rejects_non_private(0xEFFF);
}

fn check_table_keeps_encoding_separate_from_token(id: u32) {
    let profile = profile(id, "u32");
    let agreement = NativeProfileAgreement::new(Arc::new(profile.clone()), &profile).unwrap();
    let identity = agreement.identity_for(&scalar("u32")).unwrap();
    assert_eq!(identity.encoding().registry_id(), Some(id));
    assert_eq!(identity.token(), scalar("u32").token());
    assert!(agreement.verify_representation(identity.encoding(), identity.token(), &scalar("i32")).is_err());
}

#[test]
fn table_keeps_encoding_separate_from_token_first_private_id() {
    check_table_keeps_encoding_separate_from_token(0xF000);
}

#[test]
fn table_keeps_encoding_separate_from_token_last_private_id() {
    check_table_keeps_encoding_separate_from_token(0xFFFF);
}

fn check_duplicate_allocation_fails(id: u32, name: &str) {
    assert!(NativeProfileTable::new(vec![(encoding(0xF000), scalar("u32")), (encoding(id), scalar(name))]).is_err());
}

#[test]
fn duplicate_allocations_fail_same_id_and_representation() {
    check_duplicate_allocation_fails(0xF000, "u32");
}

#[test]
fn duplicate_allocations_fail_same_id_other_representation() {
    check_duplicate_allocation_fails(0xF000, "i32");
}

#[test]
fn duplicate_allocations_fail_same_token_other_id() {
    check_duplicate_allocation_fails(0xF001, "u32");
}

#[test]
fn independently_computed_token_vector_is_frozen() {
    // Python hashlib.sha256 over the documented representation-v1 bytes.
    assert_eq!(scalar("u32").token().as_u32(), 0x5c78_f597);
}

#[test]
fn real_short_token_collision_is_rejected() {
    // Independently found by hashing scalar names collision.0..collision.61243.
    // Distinct full SHA-256 digests share the same first four bytes.
    let first = scalar("collision.50200");
    let second = scalar("collision.61243");
    assert_ne!(first.canonical_bytes(), second.canonical_bytes());
    assert_eq!(first.token(), NativeTypeToken::from_u32(0x5042_d387));
    assert_eq!(first.token(), second.token());
    assert!(matches!(
        NativeProfileTable::new(vec![(encoding(0xF000), first), (encoding(0xF001), second)]),
        Err(NativeProfileError::TokenCollision(_))
    ));
}

fn check_route_rejects_peer_disagreement(domain: &str, version: u32, id: u32, name: &str) {
    let local = profile(0xF000, "u32");
    let peer = NativeProfile::new(domain, version, profile(id, name).mode().clone()).unwrap();
    assert!(matches!(NativeProfileAgreement::new(Arc::new(local), &peer), Err(NativeProfileError::ProfileMismatch)));
}

#[test]
fn route_rejects_peer_disagreement_different_assignment() {
    check_route_rejects_peer_disagreement("vehicle", 1, 0xF001, "u32");
}

#[test]
fn route_rejects_peer_disagreement_different_scalar() {
    check_route_rejects_peer_disagreement("vehicle", 1, 0xF000, "i32");
}

#[test]
fn route_rejects_peer_disagreement_different_domain() {
    check_route_rejects_peer_disagreement("other", 1, 0xF000, "u32");
}

#[test]
fn route_rejects_peer_disagreement_different_generation() {
    check_route_rejects_peer_disagreement("vehicle", 2, 0xF000, "u32");
}

#[test]
fn canonical_table_order_is_independent_of_registration_order() {
    let entries = vec![(encoding(0xF002), scalar("u32")), (encoding(0xF001), scalar("i32"))];
    let first = NativeProfile::new(
        "vehicle",
        1,
        NativeProfileMode::Table(NativeProfileTable::new(entries.clone()).unwrap()),
    )
    .unwrap();
    let second = NativeProfile::new(
        "vehicle",
        1,
        NativeProfileMode::Table(NativeProfileTable::new(entries.into_iter().rev().collect()).unwrap()),
    )
    .unwrap();
    assert_eq!(first.canonical_bytes(), second.canonical_bytes());
    assert_eq!(first.content_digest(), second.content_digest());
    assert!(NativeProfileAgreement::new(Arc::new(first), &second).is_ok());
}

#[test]
fn contract_defined_requires_exact_operation_and_representation() {
    let contract = NativeContract::new("vehicle.temperature.event.v1", scalar("u32")).unwrap();
    let local = NativeProfile::new("vehicle", 1, NativeProfileMode::ContractDefined(contract)).unwrap();
    let agreement = NativeProfileAgreement::new(Arc::new(local.clone()), &local).unwrap();
    let identity = agreement.identity_for(&scalar("u32")).unwrap();
    assert_eq!(identity.encoding(), PayloadEncoding::implicit());
    assert!(agreement.identity_for(&scalar("i32")).is_err());
    assert!(agreement.identity_for_encoding(encoding(0xF000)).is_none());
    let peer = NativeProfile::new(
        "vehicle",
        1,
        NativeProfileMode::ContractDefined(NativeContract::new("different.operation", scalar("u32")).unwrap()),
    )
    .unwrap();
    assert!(NativeProfileAgreement::new(Arc::new(local), &peer).is_err());
}

#[test]
fn fields_distinguish_equal_sized_representations() {
    let make = |name| {
        NativeRepresentation::new(
            "Packet",
            1,
            4,
            4,
            NativeByteOrder::LittleEndian,
            vec![NativeField::new("value", 0, scalar(name))],
        )
        .unwrap()
    };
    assert_ne!(make("u32").token(), make("i32").token());
    assert_ne!(make("u32").canonical_bytes(), make("i32").canonical_bytes());
}

fn check_successor_rejects_invalid_generation(domain: &str, version: u32) {
    let current = profile(0xF000, "u32");
    let agreement = NativeProfileAgreement::new(Arc::new(current.clone()), &current).unwrap();
    let next = NativeProfile::new(domain, version, profile(0xF001, "u32").mode().clone()).unwrap();
    assert!(agreement.successor(Arc::new(next.clone()), &next).is_err());
}

#[test]
fn successor_rejects_invalid_generation_changed_table_same_version() {
    check_successor_rejects_invalid_generation("vehicle", 1);
}

#[test]
fn successor_rejects_invalid_generation_domain_change() {
    check_successor_rejects_invalid_generation("other", 2);
}

#[test]
fn successor_preserves_in_flight_generation() {
    let current = profile(0xF000, "u32");
    let old = NativeProfileAgreement::new(Arc::new(current.clone()), &current).unwrap();
    let next = NativeProfile::new("vehicle", 2, profile(0xF001, "u32").mode().clone()).unwrap();
    assert!(old.successor(Arc::new(next.clone()), &current).is_err());
    let new = old.successor(Arc::new(next.clone()), &next).unwrap();
    assert_eq!(old.identity_for(&scalar("u32")).unwrap().encoding(), encoding(0xF000));
    assert_eq!(new.identity_for(&scalar("u32")).unwrap().encoding(), encoding(0xF001));
}

fn check_invalid_field_layout(offset: u64) {
    assert!(NativeRepresentation::new(
        "Packet",
        1,
        8,
        4,
        NativeByteOrder::LittleEndian,
        vec![NativeField::new("a", 0, scalar("u32")), NativeField::new("b", offset, scalar("i32"))]
    )
    .is_err());
}

#[test]
fn invalid_field_layout_is_rejected_overlap() {
    check_invalid_field_layout(0);
}

#[test]
fn invalid_field_layout_is_rejected_misaligned() {
    check_invalid_field_layout(2);
}

#[test]
fn invalid_field_layout_is_rejected_out_of_bounds() {
    check_invalid_field_layout(8);
}

#[test]
fn invalid_field_layout_is_rejected_overflow() {
    check_invalid_field_layout(u64::MAX);
}

#[test]
fn valid_two_field_layout_is_accepted() {
    let r = NativeRepresentation::new(
        "Packet",
        1,
        8,
        4,
        NativeByteOrder::LittleEndian,
        vec![NativeField::new("a", 0, scalar("u32")), NativeField::new("b", 4, scalar("i32"))],
    )
    .unwrap();
    assert_eq!(r.name(), "Packet");
    assert_eq!(r.size(), 8);
    assert_eq!(r.alignment(), 4);
}

#[test]
fn repeated_fields_and_zero_length_arrays() {
    let array = NativeRepresentation::new(
        "Array",
        1,
        16,
        4,
        NativeByteOrder::LittleEndian,
        vec![NativeField::repeated("items", 0, 4, scalar("u32"))],
    );
    assert!(array.is_ok());
    let empty = NativeRepresentation::new(
        "Empty",
        1,
        0,
        4,
        NativeByteOrder::LittleEndian,
        vec![NativeField::repeated("items", 0, 0, scalar("u32"))],
    );
    assert!(empty.is_ok());
    let too_many = NativeRepresentation::new(
        "Array",
        1,
        16,
        4,
        NativeByteOrder::LittleEndian,
        vec![NativeField::repeated("items", 0, 5, scalar("u32"))],
    );
    assert!(too_many.is_err());
}

#[test]
fn scalar_canonical_bytes_are_exact() {
    let mut expected = b"uprotocol.native-representation.v1\0".to_vec();
    expected.extend_from_slice(&3u64.to_le_bytes());
    expected.extend_from_slice(b"u32");
    expected.extend_from_slice(&0u32.to_le_bytes());
    expected.extend_from_slice(&4u64.to_le_bytes());
    expected.extend_from_slice(&4u64.to_le_bytes());
    expected.push(1);
    expected.extend_from_slice(&0u64.to_le_bytes());
    assert_eq!(scalar("u32").canonical_bytes(), expected);
}

#[test]
fn byte_order_changes_the_token() {
    let big = NativeRepresentation::new("u32", 0, 4, 4, NativeByteOrder::BigEndian, vec![]).unwrap();
    assert_ne!(big.token(), scalar("u32").token());
}

#[test]
fn native_byte_order_is_the_targets() {
    let expected =
        if u16::from_ne_bytes([1, 0]) == 1 { NativeByteOrder::LittleEndian } else { NativeByteOrder::BigEndian };
    assert_eq!(NativeByteOrder::native(), expected);
}

#[test]
fn carried_identity_is_verified_against_the_profile() {
    let profile = profile(0xF000, "u32");
    let agreement = NativeProfileAgreement::new(Arc::new(profile.clone()), &profile).unwrap();
    let token = scalar("u32").token();
    assert!(agreement.verify_carried(encoding(0xF000), token).is_ok());
    assert_eq!(agreement.verify_carried(encoding(0xF000), NativeTypeToken::from_u32(token.as_u32() ^ 1)), Err(NativeProfileError::IdentityMismatch));
    assert_eq!(agreement.verify_carried(encoding(0xF001), token), Err(NativeProfileError::UnknownEncoding(encoding(0xF001))));
    let identity = agreement.identity_for_encoding(encoding(0xF000)).unwrap();
    assert_eq!(identity.token(), token);
    assert_eq!(agreement.identity_for(&scalar("i32")), Err(NativeProfileError::UnknownRepresentation));
}

#[test]
fn profile_rejects_empty_domain_and_zero_version() {
    let mode = profile(0xF000, "u32").mode().clone();
    assert!(matches!(NativeProfile::new("", 1, mode.clone()), Err(NativeProfileError::InvalidProfile(_))));
    assert!(matches!(NativeProfile::new("vehicle", 0, mode), Err(NativeProfileError::InvalidProfile(_))));
    assert!(matches!(NativeContract::new("", scalar("u32")), Err(NativeProfileError::InvalidProfile(_))));
}

#[test]
fn table_entries_come_out_in_ascending_id_order() {
    let table = NativeProfileTable::new(vec![
        (encoding(0xF003), scalar("u8")),
        (encoding(0xF001), scalar("u32")),
        (encoding(0xF002), scalar("i32")),
    ])
    .unwrap();
    let ids: Vec<Option<u32>> = table.entries().iter().map(|(e, _)| e.registry_id()).collect();
    assert_eq!(ids, vec![Some(0xF001), Some(0xF002), Some(0xF003)]);
}

#[test]
fn native_error_text_is_exact() {
    assert_eq!(NativeProfileError::IdentityMismatch.to_string(), "native encoding/type token mismatch");
    assert_eq!(
        NativeProfileError::TokenCollision(NativeTypeToken::from_u32(42)).to_string(),
        "native type token collision: NativeTypeToken(42)"
    );
}

#[test]
fn cloned_agreement_keeps_its_generation() {
    let current = profile(0xF000, "u32");
    let agreement = NativeProfileAgreement::new(Arc::new(current.clone()), &current).unwrap();
    let copy = agreement.clone();
    assert_eq!(copy.profile(), agreement.profile());
    assert_eq!(copy.identity_for(&scalar("u32")).unwrap(), agreement.identity_for(&scalar("u32")).unwrap());
}

#[test]
fn content_digest_depends_on_the_profile_content() {
    assert_ne!(profile(0xF000, "u32").content_digest(), profile(0xF001, "u32").content_digest());
    assert_eq!(profile(0xF000, "u32").content_digest(), profile(0xF000, "u32").content_digest());
}

#[test]
fn byte_order_follows_the_probe() {
    assert_eq!(byte_order_from_probe(1), NativeByteOrder::LittleEndian);
    assert_eq!(byte_order_from_probe(256), NativeByteOrder::BigEndian);
    let expected = if u16::from_ne_bytes([1, 0]) == 1 { NativeByteOrder::LittleEndian } else { NativeByteOrder::BigEndian };
    assert_eq!(NativeByteOrder::native(), expected);
}
