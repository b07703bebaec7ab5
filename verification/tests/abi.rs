use up_rust::frame::abi::{
    UFrameAbiError, UFrameMetadataAbiV1, UFRAME_ABI_MAGIC, UFRAME_ABI_SIZE, UFRAME_ABI_TOKEN_CAPACITY,
    UFRAME_ABI_VERSION,
};
use up_rust::frame::metadata::{FramePriority, PayloadEncoding, UFrameMetadata, UFrameMetadataError};
use up_rust::{Duration, UCode, UUri};

fn topic() -> UUri {
    UUri::try_from_parts("vehicle", 0x4210, 0x01, 0x9000).expect("topic")
}

fn method() -> UUri {
    UUri::try_from_parts("vehicle", 0x4210, 0x01, 0x00b1).expect("method")
}

fn reply_to() -> UUri {
    UUri::try_from_parts("cloud", 0x10ab, 0x02, 0x0000).expect("reply-to")
}

#[test]
fn minimal_publish_metadata_round_trips_through_profile() {
    let metadata = UFrameMetadata::publish(topic()).build().expect("metadata");
    let abi = UFrameMetadataAbiV1::try_from_metadata(&metadata, None).expect("profile");
    let (decoded, payload_size) = abi.try_to_metadata().expect("metadata");
    assert_eq!(decoded, metadata);
    assert_eq!(payload_size, None);
}

#[test]
fn fully_populated_request_round_trips_through_profile() {
    let metadata = UFrameMetadata::request(method(), reply_to(), Duration::from_millis(250))
        .with_priority(FramePriority::CS6)
        .with_comm_status(UCode::OK)
        .with_permission_level(3)
        .with_token("token-value")
        .with_traceparent("00-4bf92f3577b34da6a3ce929d0e0e4736-00f067aa0ba902b7-01")
        .with_payload_encoding(
            PayloadEncoding::custom("up.xcdr-v2", "application/vnd.uprotocol.xcdr-v2").expect("encoding"),
        )
        .build()
        .expect("metadata");

    let abi = UFrameMetadataAbiV1::try_from_metadata(&metadata, Some(64)).expect("profile");
    let (decoded, payload_size) = abi.try_to_metadata().expect("metadata");
    assert_eq!(decoded, metadata);
    assert_eq!(payload_size, Some(64));
}

#[test]
fn oversized_token_fails_instead_of_truncating() {
    let metadata = UFrameMetadata::publish(topic())
        .with_token(&"t".repeat(UFRAME_ABI_TOKEN_CAPACITY + 1))
        .build()
        .expect("metadata");
    assert_eq!(
        UFrameMetadataAbiV1::try_from_metadata(&metadata, None).unwrap_err(),
        UFrameAbiError::CapacityExceeded { field: "token" }
    );
}

#[test]
fn payload_size_and_encoding_presence_must_agree() {
    let metadata = UFrameMetadata::publish(topic()).build().expect("metadata");
    assert!(matches!(
        UFrameMetadataAbiV1::try_from_metadata(&metadata, Some(8)).unwrap_err(),
        UFrameAbiError::Metadata(UFrameMetadataError::PayloadWithoutEncoding)
    ));

    let metadata = UFrameMetadata::publish(topic())
        .with_payload_encoding(PayloadEncoding::raw())
        .build()
        .expect("metadata");
    assert!(matches!(
        UFrameMetadataAbiV1::try_from_metadata(&metadata, None).unwrap_err(),
        UFrameAbiError::Metadata(UFrameMetadataError::EncodingWithoutPayload)
    ));
}

#[test]
fn structural_validation_rejects_corrupted_profiles() {
    let metadata = UFrameMetadata::publish(topic()).build().expect("metadata");
    let abi = UFrameMetadataAbiV1::try_from_metadata(&metadata, None).expect("profile");

    let mut bad = abi;
    bad.magic = *b"XXXX";
    assert!(bad.try_to_metadata().is_err());

    let mut bad = abi;
    bad.presence |= 1 << 30;
    assert!(bad.try_to_metadata().is_err());

    let mut bad = abi;
    bad._reserved_tail = [1; 4];
    assert!(bad.try_to_metadata().is_err());
}

#[test]
fn profile_header_fields_are_fixed() {
    let metadata = UFrameMetadata::publish(topic()).build().expect("metadata");
    let abi = UFrameMetadataAbiV1::try_from_metadata(&metadata, None).expect("profile");
    assert_eq!(abi.magic, UFRAME_ABI_MAGIC);
    assert_eq!(abi.magic, *b"UFA1");
    assert_eq!(abi.version, UFRAME_ABI_VERSION);
    assert_eq!(usize::from(abi.metadata_size), UFRAME_ABI_SIZE);
    assert_eq!(abi.kind, 1);
    assert_eq!(abi.presence, 0);
    assert_eq!(abi.source.ue_id, 0x4210);
    assert_eq!(abi.source.resource_id, 0x9000);
    assert_eq!(usize::from(abi.source.authority_name_len), "vehicle".len());
    assert_eq!(&abi.source.authority_name[..7], b"vehicle");
    assert!(abi.source.authority_name[7..].iter().all(|b| *b == 0));
}

#[test]
fn token_at_capacity_round_trips_through_profile() {
    let token = "t".repeat(UFRAME_ABI_TOKEN_CAPACITY);
    let metadata = UFrameMetadata::publish(topic()).with_token(&token).build().expect("metadata");
    let abi = UFrameMetadataAbiV1::try_from_metadata(&metadata, None).expect("profile");
    assert_eq!(usize::from(abi.token.len), UFRAME_ABI_TOKEN_CAPACITY);
    let (decoded, _) = abi.try_to_metadata().expect("metadata");
    assert_eq!(decoded.token(), Some(token.as_str()));
}

#[test]
fn wrong_version_is_rejected() {
    let metadata = UFrameMetadata::publish(topic()).build().expect("metadata");
    let mut bad = UFrameMetadataAbiV1::try_from_metadata(&metadata, None).expect("profile");
    bad.version = 2;
    assert!(matches!(bad.try_to_metadata(), Err(UFrameAbiError::InvalidProfile(_))));
}

#[test]
fn short_metadata_size_is_rejected() {
    let metadata = UFrameMetadata::publish(topic()).build().expect("metadata");
    let mut bad = UFrameMetadataAbiV1::try_from_metadata(&metadata, None).expect("profile");
    bad.metadata_size = 8;
    assert!(matches!(bad.try_to_metadata(), Err(UFrameAbiError::InvalidProfile(_))));
}

#[test]
fn abi_error_text_names_the_field() {
    let err = UFrameAbiError::CapacityExceeded { field: "token" };
    assert_eq!(err.to_string(), "value of `token` exceeds the ABI profile capacity");
}

#[test]
fn native_type_token_does_not_fit_the_profile() {
    let metadata = UFrameMetadata::publish(topic())
        .with_payload_encoding(PayloadEncoding::raw())
        .with_native_type_token(up_rust::frame::native::NativeTypeToken::from_u32(9))
        .build()
        .expect("metadata");
    assert_eq!(
        UFrameMetadataAbiV1::try_from_metadata(&metadata, Some(1)).unwrap_err(),
        UFrameAbiError::CapacityExceeded { field: "native_type_token" }
    );
}

fn invalid_profile_text(abi: &UFrameMetadataAbiV1) -> String {
    match abi.try_to_metadata() {
        Err(UFrameAbiError::InvalidProfile(text)) => text,
        other => panic!("expected an invalid profile, got {other:?}"),
    }
}

#[test]
fn profile_diagnostics_name_the_failing_check() {
    let metadata = UFrameMetadata::request(method(), reply_to(), Duration::from_millis(250))
        .with_comm_status(UCode::OK)
        .with_token("token-value")
        .build()
        .expect("metadata");
    let good = UFrameMetadataAbiV1::try_from_metadata(&metadata, None).expect("profile");

    let mut bad = good.clone();
    bad.magic = [0, 0, 0, 0];
    assert_eq!(invalid_profile_text(&bad), "wrong magic");

    let mut bad = good.clone();
    bad.version = 2;
    assert_eq!(invalid_profile_text(&bad), "unsupported profile version 2");

    let mut bad = good.clone();
    bad.metadata_size = 8;
    assert_eq!(invalid_profile_text(&bad), "declared metadata_size is smaller than profile v1");

    let mut bad = good.clone();
    bad.presence |= 0x8000_0000;
    assert_eq!(invalid_profile_text(&bad), "unknown presence bits");

    let mut bad = good.clone();
    bad._reserved0 = 1;
    assert_eq!(invalid_profile_text(&bad), "reserved fields must be zero");

    let mut bad = good.clone();
    bad.kind = 0xee;
    assert_eq!(invalid_profile_text(&bad), "unknown kind code 238");

    let mut bad = good.clone();
    bad.priority = 0xee;
    assert_eq!(invalid_profile_text(&bad), "unknown priority code 238");

    let mut bad = good.clone();
    bad.id.msb = 0;
    assert!(invalid_profile_text(&bad).starts_with("invalid id: "));

    let mut bad = good.clone();
    bad.source.authority_name_len = 200;
    assert_eq!(invalid_profile_text(&bad), "`source` length 200 exceeds capacity 128");

    let mut bad = good.clone();
    bad.source.authority_name[0] = b' ';
    assert_eq!(invalid_profile_text(&bad), "invalid `source`: invalid authority name");

    let mut bad = good.clone();
    bad.sink.authority_name[0] = 0xff;
    let text = invalid_profile_text(&bad);
    assert!(text.starts_with("`sink` is not UTF-8: "), "{text}");

    let mut bad = good.clone();
    bad.comm_status = 99;
    assert_eq!(invalid_profile_text(&bad), "unknown communication status code 99");

    let mut bad = good.clone();
    bad.token.len = 600;
    assert_eq!(invalid_profile_text(&bad), "`token` length 600 exceeds capacity 510");

    let mut bad = good.clone();
    bad.payload_size = 5;
    assert_eq!(invalid_profile_text(&bad), "payload_size must be zero without a payload encoding");
}

#[test]
fn payload_encoding_slot_diagnostics() {
    let metadata = UFrameMetadata::publish(topic())
        .with_payload_encoding(PayloadEncoding::raw())
        .build()
        .expect("metadata");
    let good = UFrameMetadataAbiV1::try_from_metadata(&metadata, Some(4)).expect("profile");

    let mut bad = good.clone();
    bad.payload_encoding.component_flags = 4;
    assert_eq!(invalid_profile_text(&bad), "unknown payload encoding component flags");

    let mut bad = good.clone();
    bad.payload_encoding.literal_id_len = 65;
    assert_eq!(invalid_profile_text(&bad), "`payload_encoding.literal_id` length 65 exceeds capacity 64");

    let mut bad = good.clone();
    bad.payload_encoding.content_type_len = 101;
    assert_eq!(invalid_profile_text(&bad), "`payload_encoding.content_type` length 101 exceeds capacity 100");
}

#[test]
fn unknown_flag_bits_are_rejected() {
    let metadata = UFrameMetadata::publish(topic()).build().expect("metadata");
    let mut bad = UFrameMetadataAbiV1::try_from_metadata(&metadata, None).expect("profile");
    bad.flags |= 0b0000_0010;
    assert_eq!(invalid_profile_text(&bad), "unknown flag bits");
}
