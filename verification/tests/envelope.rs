use up_rust::frame::codec::encode_frame_metadata_fields;
use up_rust::frame::envelope::{
    NativeUFrameEnvelope, UFrameWireError, UFrameWireFormat, NATIVE_ENVELOPE_HEADER_LEN, NATIVE_ENVELOPE_MAGIC,
};
use up_rust::frame::metadata::{PayloadEncoding, UFrameMetadata, UFrameMetadataError};
use up_rust::owned_frame::UOwnedFrame;
use up_rust::{Bytes, UUri};

fn topic() -> UUri {
    UUri::try_from_parts("vehicle", 0x4210, 0x01, 0x9000).expect("topic")
}

#[test]
fn protobuf_umessage_frame_rejects_invalid_metadata() {
    // metadata without a payload encoding, as projected from a plain publish message
    let metadata = UFrameMetadata::publish(topic()).build().expect("metadata");
    // payload bytes without a payload encoding violate the frame invariant
    let frame = UOwnedFrame::new_unchecked(metadata, Some(Bytes::from_static(b"payload")));
    let error = frame.validate().unwrap_err();
    assert!(matches!(error, UFrameMetadataError::PayloadWithoutEncoding));
}

#[test]
fn native_envelope_round_trips_private_range_encoding_frame() {
    let metadata = UFrameMetadata::publish(topic())
        .with_payload_encoding(PayloadEncoding::from_id(0xFBEE).expect("private-use id"))
        .build()
        .expect("metadata");
    let frame = UOwnedFrame::with_payload(metadata, Bytes::from_static(b"native payload")).expect("frame");

    let encoded = NativeUFrameEnvelope::serialize_frame(&frame).expect("serialize frame");
    let decoded = NativeUFrameEnvelope::deserialize_frame(&encoded).expect("deserialize");

    assert_eq!(decoded, frame);
}

#[test]
fn native_envelope_preserves_present_empty_payload() {
    let metadata = UFrameMetadata::publish(topic())
        .with_payload_encoding(PayloadEncoding::raw())
        .build()
        .expect("metadata");
    let frame = UOwnedFrame::with_payload(metadata, Bytes::new()).expect("frame");

    let decoded =
        NativeUFrameEnvelope::deserialize_frame(&NativeUFrameEnvelope::serialize_frame(&frame).expect("serialize"))
            .expect("deserialize");

    assert!(decoded.has_payload());
    assert_eq!(decoded.payload(), Some(&Bytes::new()));
}

#[test]
fn native_envelope_round_trips_absent_payload() {
    let metadata = UFrameMetadata::publish(topic()).build().expect("metadata");
    let frame = UOwnedFrame::without_payload(metadata).expect("frame");

    let decoded =
        NativeUFrameEnvelope::deserialize_frame(&NativeUFrameEnvelope::serialize_frame(&frame).expect("serialize"))
            .expect("deserialize");

    assert!(!decoded.has_payload());
    assert_eq!(decoded, frame);
}

#[test]
fn native_envelope_rejects_corrupted_input() {
    let metadata = UFrameMetadata::publish(topic()).build().expect("metadata");
    let frame = UOwnedFrame::without_payload(metadata).expect("frame");
    let encoded = NativeUFrameEnvelope::serialize_frame(&frame).expect("serialize");

    let mut bad = encoded.to_vec();
    *bad.first_mut().expect("magic byte") = b'X';
    assert!(NativeUFrameEnvelope::deserialize_frame(&bad).is_err());

    let mut bad = encoded.to_vec();
    bad.push(0);
    assert!(NativeUFrameEnvelope::deserialize_frame(&bad).is_err());
}

#[test]
fn native_envelope_layout_is_header_fields_then_payload() {
    let metadata = UFrameMetadata::publish(topic())
        .with_payload_encoding(PayloadEncoding::raw())
        .build()
        .expect("metadata");
    let fields = encode_frame_metadata_fields(&metadata).expect("fields");
    let frame = UOwnedFrame::with_payload(metadata, Bytes::from_static(b"abc")).expect("frame");
    let encoded = NativeUFrameEnvelope::serialize_frame(&frame).expect("serialize");

    assert_eq!(&encoded[..4], &NATIVE_ENVELOPE_MAGIC);
    assert_eq!(&encoded[..4], b"UPFE");
    assert_eq!(&encoded[4..8], &[1, 1, 0, 0]);
    assert_eq!(&encoded[8..12], &(fields.len() as u32).to_le_bytes());
    assert_eq!(&encoded[12..20], &3u64.to_le_bytes());
    assert_eq!(&encoded[NATIVE_ENVELOPE_HEADER_LEN..NATIVE_ENVELOPE_HEADER_LEN + fields.len()], fields.as_slice());
    assert_eq!(&encoded[NATIVE_ENVELOPE_HEADER_LEN + fields.len()..], b"abc");
}

#[test]
fn native_envelope_rejects_payload_bytes_marked_absent() {
    let metadata = UFrameMetadata::publish(topic())
        .with_payload_encoding(PayloadEncoding::raw())
        .build()
        .expect("metadata");
    let frame = UOwnedFrame::with_payload(metadata, Bytes::from_static(b"abc")).expect("frame");
    let mut bad = NativeUFrameEnvelope::serialize_frame(&frame).expect("serialize").to_vec();
    bad[5] = 0;
    assert!(NativeUFrameEnvelope::deserialize_frame(&bad).is_err());
}

#[test]
fn native_envelope_rejects_truncated_header() {
    assert_eq!(
        NativeUFrameEnvelope::deserialize_frame(b"UPFE"),
        Err(UFrameWireError::InvalidFrame("input shorter than envelope header".to_string()))
    );
}

fn envelope_of_publish() -> Vec<u8> {
    let metadata = UFrameMetadata::publish(topic()).build().expect("metadata");
    let frame = UOwnedFrame::without_payload(metadata).expect("frame");
    NativeUFrameEnvelope::serialize_frame(&frame).expect("serialize").to_vec()
}

fn invalid_frame_text(src: &[u8]) -> String {
    match NativeUFrameEnvelope::deserialize_frame(src) {
        Err(UFrameWireError::InvalidFrame(text)) => text,
        other => panic!("unexpected {other:?}"),
    }
}

#[test]
fn native_envelope_header_errors_name_the_failed_check() {
    let mut bad = envelope_of_publish();
    bad[0] = b'X';
    assert_eq!(invalid_frame_text(&bad), "wrong envelope magic");

    let mut bad = envelope_of_publish();
    bad[4] = 2;
    assert_eq!(invalid_frame_text(&bad), "unsupported envelope version 2");

    let mut bad = envelope_of_publish();
    bad[5] = 7;
    assert_eq!(invalid_frame_text(&bad), "invalid payload presence marker 7");

    let mut bad = envelope_of_publish();
    bad[7] = 1;
    assert_eq!(invalid_frame_text(&bad), "reserved envelope bytes must be zero");

    let mut bad = envelope_of_publish();
    bad[8..12].copy_from_slice(&u32::MAX.to_le_bytes());
    assert_eq!(invalid_frame_text(&bad), "input shorter than declared metadata length");

    let mut bad = envelope_of_publish();
    bad.push(0);
    assert_eq!(invalid_frame_text(&bad), "payload length disagrees with envelope header");
}

#[test]
fn native_envelope_reports_field_block_errors() {
    let mut bad = envelope_of_publish();
    bad[20] = 9; // field block version
    assert!(invalid_frame_text(&bad).starts_with("malformed frame metadata fields: "));
}

#[test]
fn native_envelope_refuses_metadata_that_does_not_fit_the_field_block() {
    let metadata = UFrameMetadata::publish(topic()).with_traceparent(&"t".repeat(256)).build().expect("metadata");
    let frame = UOwnedFrame::without_payload(metadata).expect("frame");
    assert_eq!(
        NativeUFrameEnvelope::serialize_frame(&frame).unwrap_err(),
        UFrameWireError::InvalidFrame("frame metadata field `traceparent` does not fit the field block".to_string())
    );
}

#[test]
fn native_envelope_names_its_media_type() {
    assert_eq!(NativeUFrameEnvelope::content_type(), "application/vnd.uprotocol.uframe;version=1");
}
