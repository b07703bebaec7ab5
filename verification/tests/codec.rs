use up_rust::frame::codec::{
    decode_frame_metadata_fields, encode_frame_metadata_fields, encode_frame_metadata_fields_into,
    UFrameFieldsError, FIELD_NATIVE_TYPE_TOKEN, FIELD_PAYLOAD_ENCODING,
};
use up_rust::frame::metadata::{FramePriority, PayloadEncoding, UFrameMetadata, UFrameMetadataError};
use up_rust::frame::native::NativeTypeToken;
use up_rust::{Duration, UCode, UUri};

fn topic() -> UUri {
    UUri::try_from_parts("vehicle", 0x4210, 0x01, 0x9000).expect("topic")
}

fn method() -> UUri {
    UUri::try_from_parts("vehicle", 0x4210, 0x01, 0x00b1).expect("method")
}

fn reply_to() -> UUri {
    UUri::try_from_parts("cloud", 0x10ab, 0x02, 0x0000).expect("reply-to")
}

#[test]
fn minimal_publish_metadata_round_trips() {
    let metadata = UFrameMetadata::publish(topic()).build().expect("metadata");
    let bytes = encode_frame_metadata_fields(&metadata).expect("encode");
    let decoded = decode_frame_metadata_fields(&bytes).expect("decode");
    assert_eq!(decoded, metadata);
}

fn check_native_token_field(token: u32) {
    let base = UFrameMetadata::publish(topic())
        .with_payload_encoding(PayloadEncoding::implicit())
        .build()
        .unwrap();
    let baseline = encode_frame_metadata_fields(&base).unwrap();
    let metadata = base.with_native_type_token(NativeTypeToken::from_u32(token)).unwrap();
    let bytes = encode_frame_metadata_fields(&metadata).unwrap();
    assert_eq!(bytes.len(), baseline.len() + 4);
    assert_eq!(bytes.get(baseline.len()..).unwrap(), token.to_le_bytes());
    let presence = u32::from_le_bytes(bytes.get(4..8).unwrap().try_into().unwrap());
    assert_eq!(presence, FIELD_PAYLOAD_ENCODING | FIELD_NATIVE_TYPE_TOKEN);
    assert_ne!(presence & !0xFF, 0, "historical readers must reject the new bit");
    assert_eq!(decode_frame_metadata_fields(&bytes).unwrap(), metadata);
}

#[test]
fn native_token_has_its_own_variable_field_and_presence_zero() {
    check_native_token_field(0);
}

#[test]
fn native_token_has_its_own_variable_field_and_presence_all_bits() {
    check_native_token_field(u32::MAX);
}

fn check_native_token_required(missing: usize) {
    let metadata = UFrameMetadata::publish(topic())
        .with_payload_encoding(PayloadEncoding::implicit())
        .with_native_type_token(NativeTypeToken::from_u32(7))
        .build()
        .unwrap();
    let mut bytes = encode_frame_metadata_fields(&metadata).unwrap();
    bytes.truncate(bytes.len() - missing);
    assert!(decode_frame_metadata_fields(&bytes).is_err());
}

#[test]
fn native_token_field_is_required_when_present_one_byte_missing() {
    check_native_token_required(1);
}

#[test]
fn native_token_field_is_required_when_present_complete_token_missing() {
    check_native_token_required(4);
}

#[test]
fn decoded_native_token_without_encoding_is_rejected() {
    let metadata = UFrameMetadata::publish(topic()).build().unwrap();
    let mut bytes = encode_frame_metadata_fields(&metadata).unwrap();
    bytes.get_mut(4..8).unwrap().copy_from_slice(&FIELD_NATIVE_TYPE_TOKEN.to_le_bytes());
    bytes.extend_from_slice(&0_u32.to_le_bytes());
    assert!(decode_frame_metadata_fields(&bytes).is_err());
}

fn fully_populated_request() -> UFrameMetadata {
    UFrameMetadata::request(method(), reply_to(), Duration::from_millis(250))
        .with_priority(FramePriority::CS5)
        .with_comm_status(UCode::OK)
        .with_permission_level(4)
        .with_token("bearer-token")
        .with_traceparent("00-4bf92f3577b34da6a3ce929d0e0e4736-00f067aa0ba902b7-01")
        .with_payload_encoding(PayloadEncoding::from_id(0xFBEE).expect("private-use id"))
        .build()
        .expect("metadata")
}

#[test]
fn fully_populated_request_metadata_round_trips() {
    let metadata = fully_populated_request();
    let bytes = encode_frame_metadata_fields(&metadata).expect("encode");
    let decoded = decode_frame_metadata_fields(&bytes).expect("decode");
    assert_eq!(decoded, metadata);
}

fn check_caller_owned_encoding(token: Option<u32>) {
    let mut metadata = UFrameMetadata::request(method(), reply_to(), Duration::from_millis(250))
        .with_priority(FramePriority::CS5)
        .with_token("bearer-token")
        .with_payload_encoding(PayloadEncoding::protobuf())
        .build()
        .expect("metadata");
    if let Some(token) = token {
        metadata = metadata.with_native_type_token(NativeTypeToken::from_u32(token)).unwrap();
    }
    let standalone = encode_frame_metadata_fields(&metadata).expect("standalone encode");
    let mut framed = b"prefix".to_vec();
    encode_frame_metadata_fields_into(&metadata, &mut framed).expect("append encode");
    assert_eq!(framed.get(..6), Some(&b"prefix"[..]));
    assert_eq!(framed.get(6..), Some(standalone.as_slice()));
}

#[test]
fn caller_owned_encoding_matches_standalone_field_block_no_token() {
    check_caller_owned_encoding(None);
}

#[test]
fn caller_owned_encoding_matches_standalone_field_block_zero_token() {
    check_caller_owned_encoding(Some(0));
}

#[test]
fn caller_owned_encoding_matches_standalone_field_block_full_token() {
    check_caller_owned_encoding(Some(u32::MAX));
}

fn check_encoding_round_trip(id: u32) {
    let encoding = PayloadEncoding::from_id(id).unwrap();
    let metadata = UFrameMetadata::publish(topic())
        .with_payload_encoding(encoding.clone())
        .build()
        .expect("metadata");
    let decoded =
        decode_frame_metadata_fields(&encode_frame_metadata_fields(&metadata).expect("encode")).expect("decode");
    assert_eq!(decoded.payload_encoding(), Some(&encoding));
}

#[test]
fn encoding_round_trips_contract_defined_zero() {
    check_encoding_round_trip(0);
}

#[test]
fn encoding_round_trips_protobuf() {
    check_encoding_round_trip(2);
}

#[test]
fn encoding_round_trips_unassigned() {
    check_encoding_round_trip(8);
}

#[test]
fn encoding_round_trips_reserved() {
    check_encoding_round_trip(0xE000);
}

#[test]
fn encoding_round_trips_private_maximum() {
    check_encoding_round_trip(0xFFFF);
}

#[test]
fn trailing_bytes_are_rejected() {
    let metadata = UFrameMetadata::publish(topic()).build().expect("metadata");
    let mut bytes = encode_frame_metadata_fields(&metadata).expect("encode");
    bytes.push(0);
    assert!(matches!(decode_frame_metadata_fields(&bytes), Err(UFrameFieldsError::Malformed(_))));
}

#[test]
fn unknown_presence_bits_are_rejected() {
    let metadata = UFrameMetadata::publish(topic()).build().expect("metadata");
    let mut bytes = encode_frame_metadata_fields(&metadata).expect("encode");
    *bytes.get_mut(5).expect("presence byte") |= 0x02_u8;
    assert!(matches!(decode_frame_metadata_fields(&bytes), Err(UFrameFieldsError::Malformed(_))));
}

#[test]
fn unsupported_version_is_rejected() {
    let metadata = UFrameMetadata::publish(topic()).build().expect("metadata");
    let mut bytes = encode_frame_metadata_fields(&metadata).expect("encode");
    *bytes.first_mut().expect("version byte") = 2;
    assert!(matches!(decode_frame_metadata_fields(&bytes), Err(UFrameFieldsError::Malformed(_))));
}

#[test]
fn oversized_traceparent_fails_instead_of_truncating() {
    let metadata = UFrameMetadata::publish(topic())
        .with_traceparent(&"t".repeat(256))
        .build()
        .expect("metadata");
    assert_eq!(
        encode_frame_metadata_fields(&metadata).unwrap_err(),
        UFrameFieldsError::ValueTooLong { field: "traceparent" }
    );
}

#[test]
fn publish_field_block_has_exact_fixed_header() {
    let metadata = UFrameMetadata::publish(topic()).build().expect("metadata");
    let bytes = encode_frame_metadata_fields(&metadata).expect("encode");
    // version, kind (publish = 1), absent priority, reserved, empty presence mask
    assert_eq!(&bytes[..8], &[1, 1, 0, 0, 0, 0, 0, 0]);
    // 24 header bytes, then ue_id, resource_id, major version, authority length and name
    assert_eq!(bytes.len(), 24 + 4 + 2 + 1 + 1 + "vehicle".len());
    assert_eq!(&bytes[24..28], &0x4210_u32.to_le_bytes());
    assert_eq!(&bytes[28..30], &0x9000_u16.to_le_bytes());
    assert_eq!(bytes[30], 1);
    assert_eq!(bytes[31], 7);
    assert_eq!(&bytes[32..], b"vehicle");
}

#[test]
fn empty_input_is_malformed() {
    assert!(matches!(decode_frame_metadata_fields(&[]), Err(UFrameFieldsError::Malformed(_))));
}

#[test]
fn nonzero_reserved_byte_is_rejected() {
    let metadata = UFrameMetadata::publish(topic()).build().expect("metadata");
    let mut bytes = encode_frame_metadata_fields(&metadata).expect("encode");
    bytes[3] = 1;
    assert!(matches!(decode_frame_metadata_fields(&bytes), Err(UFrameFieldsError::Malformed(_))));
}

#[test]
fn unknown_kind_code_is_rejected() {
    let metadata = UFrameMetadata::publish(topic()).build().expect("metadata");
    let mut bytes = encode_frame_metadata_fields(&metadata).expect("encode");
    bytes[1] = 9;
    assert!(matches!(decode_frame_metadata_fields(&bytes), Err(UFrameFieldsError::Malformed(_))));
}

#[test]
fn decoded_metadata_that_breaks_kind_rules_is_a_metadata_error() {
    let metadata = UFrameMetadata::publish(topic()).build().expect("metadata");
    let mut bytes = encode_frame_metadata_fields(&metadata).expect("encode");
    // a request frame needs a sink, a TTL and an RPC priority: none are present
    bytes[1] = 2;
    assert!(matches!(
        decode_frame_metadata_fields(&bytes),
        Err(UFrameFieldsError::Metadata(UFrameMetadataError::InvalidMetadata(_)))
    ));
}

#[test]
fn oversized_token_fails_in_field_block() {
    let metadata = UFrameMetadata::publish(topic())
        .with_token(&"t".repeat(70_000))
        .build()
        .expect("metadata");
    assert_eq!(
        encode_frame_metadata_fields(&metadata).unwrap_err(),
        UFrameFieldsError::ValueTooLong { field: "token" }
    );
}

#[test]
fn fields_error_text_names_the_field() {
    let err = UFrameFieldsError::ValueTooLong { field: "traceparent" };
    assert_eq!(err.to_string(), "frame metadata field `traceparent` does not fit the field block");
    let err: UFrameFieldsError = UFrameMetadataError::PayloadWithoutEncoding.into();
    assert_eq!(err.to_string(), "invalid frame metadata: payload bytes require a payload encoding");
}

#[test]
fn invalid_utf8_authority_is_malformed() {
    let metadata = UFrameMetadata::publish(topic()).build().expect("metadata");
    let mut bytes = encode_frame_metadata_fields(&metadata).expect("encode");
    // the authority "vehicle" starts after the 32-byte fixed part of the source block
    bytes[32] = 0xFF;
    assert!(matches!(decode_frame_metadata_fields(&bytes), Err(UFrameFieldsError::Malformed(_))));
}

fn malformed_text(bytes: &[u8]) -> String {
    match decode_frame_metadata_fields(bytes) {
        Err(UFrameFieldsError::Malformed(text)) => text,
        other => panic!("expected a malformed field block, got {other:?}"),
    }
}

#[test]
fn header_diagnostics_name_the_failing_check() {
    let metadata = UFrameMetadata::publish(topic()).build().expect("metadata");
    let bytes = encode_frame_metadata_fields(&metadata).expect("encode");

    assert_eq!(malformed_text(&[]), "needed 1 byte(s) at offset 0, input has 0 byte(s)");
    assert_eq!(malformed_text(&bytes[..6]), "needed 4 byte(s) at offset 4, input has 6 byte(s)");

    let mut version = bytes.clone();
    version[0] = 2;
    assert_eq!(malformed_text(&version), "unsupported field block version 2");

    let mut kind = bytes.clone();
    kind[1] = 0xee;
    assert_eq!(malformed_text(&kind), "unknown frame message kind code");

    let mut priority = bytes.clone();
    priority[2] = 0xee;
    assert_eq!(malformed_text(&priority), "unknown frame priority code 238");

    let mut reserved = bytes.clone();
    reserved[3] = 1;
    assert_eq!(malformed_text(&reserved), "reserved byte must be zero");

    let mut presence = bytes.clone();
    presence[7] |= 0x80;
    assert_eq!(malformed_text(&presence), "unknown presence bits 0x80000000");
}

#[test]
fn encode_into_keeps_the_bytes_written_before_an_oversized_value() {
    let metadata = UFrameMetadata::publish(topic())
        .with_token(&"t".repeat(70_000))
        .build()
        .expect("metadata");
    let mut out = vec![0xaa, 0xbb];
    assert_eq!(
        encode_frame_metadata_fields_into(&metadata, &mut out).unwrap_err(),
        UFrameFieldsError::ValueTooLong { field: "token" }
    );
    // prefix, header and frame id, then the source URI block
    let source_len = 8 + "vehicle".len();
    assert_eq!(out.len(), 2 + 8 + 16 + source_len);
    assert_eq!(&out[..2], &[0xaa, 0xbb]);
    assert_eq!(out[2], 1);
    assert_eq!(&out[2 + 24..2 + 28], &0x4210_u32.to_le_bytes());
    assert_eq!(&out[out.len() - 7..], b"vehicle");
}

#[test]
fn field_diagnostics_name_the_failing_field() {
    let metadata = UFrameMetadata::publish(topic())
        .with_traceparent("00-0af7651916cd43dd8448eb211c80319c-b7ad6b7169203331-01")
        .build()
        .expect("metadata");
    let bytes = encode_frame_metadata_fields(&metadata).expect("encode");

    // cut inside the frame id: the second half of the UUID is missing
    assert_eq!(malformed_text(&bytes[..20]), "needed 8 byte(s) at offset 16, input has 20 byte(s)");

    // the frame id is not a UUIDv7
    let mut id = bytes.clone();
    id[8 + 1] = 0x00;
    assert!(malformed_text(&id).starts_with("invalid UUID: "));

    // one byte too many
    let mut trailing = bytes.clone();
    trailing.push(0);
    assert_eq!(malformed_text(&trailing), "1 trailing byte(s)");

    // the last traceparent byte is not UTF-8
    let mut utf8 = bytes.clone();
    let last = utf8.len() - 1;
    utf8[last] = 0xff;
    let text = malformed_text(&utf8);
    assert!(text.starts_with("field `traceparent` is not UTF-8: "), "{text}");
    let traceparent = &utf8[utf8.len() - 55..];
    let error = std::str::from_utf8(traceparent).unwrap_err().to_string();
    assert!(text.ends_with(&error), "{text}");

    // an authority name byte that a registered name may not hold
    let mut authority = bytes.clone();
    let source_authority = 8 + 16 + 8;
    authority[source_authority] = b' ';
    assert_eq!(malformed_text(&authority), "invalid UUri: invalid authority name");
}

#[test]
fn unknown_communication_status_is_reported_with_its_signed_code() {
    let metadata = UFrameMetadata::request(method(), reply_to(), Duration::from_millis(250))
        .with_comm_status(UCode::OK)
        .build()
        .expect("metadata");
    let bytes = encode_frame_metadata_fields(&metadata).expect("encode");
    // header, frame id, TTL, then the communication status
    assert_eq!(&bytes[32..36], &0_i32.to_le_bytes());
    let mut negative = bytes.clone();
    negative[32..36].copy_from_slice(&(-3_i32).to_le_bytes());
    assert_eq!(malformed_text(&negative), "unknown communication status code -3");
    let mut large = bytes.clone();
    large[32..36].copy_from_slice(&17_i32.to_le_bytes());
    assert_eq!(malformed_text(&large), "unknown communication status code 17");
}
