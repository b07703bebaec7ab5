use up_rust::frame::metadata::{
    try_project_attributes_to_frame_metadata, try_project_umessage_to_frame_metadata, PayloadEncoding, UFrameMetadata,
    UFrameMetadataError,
};
use up_rust::owned_frame::UOwnedFrame;
use up_rust::{Bytes, UAttributes, UMessageType, UPayloadFormat, UPriority, UUri, UUID};

fn topic() -> UUri {
    UUri::try_from_parts("vehicle", 0x4210, 0x01, 0x9000).expect("failed to create topic")
}

fn publish_attributes() -> UAttributes {
    UAttributes {
        type_: UMessageType::Publish,
        id: UUID::build(),
        source: topic(),
        sink: None,
        priority: Some(UPriority::CS1),
        commstatus: None,
        ttl: None,
        permission_level: None,
        token: None,
        traceparent: None,
        reqid: None,
        payload_format: None,
        payload_encoding_registry_id: None,
        payload_encoding: None,
        payload_content_type: None,
    }
}

fn metadata_without_encoding() -> UFrameMetadata {
    try_project_attributes_to_frame_metadata(&publish_attributes(), None).expect("metadata")
}

fn metadata_with_encoding() -> UFrameMetadata {
    try_project_attributes_to_frame_metadata(&publish_attributes(), Some(PayloadEncoding::raw())).expect("metadata")
}

#[test]
fn owned_frame_rejects_payload_without_encoding() {
    let error = UOwnedFrame::with_payload(metadata_without_encoding(), Bytes::from_static(b"payload")).unwrap_err();

    assert_eq!(error, UFrameMetadataError::PayloadWithoutEncoding);
}

#[test]
fn owned_frame_rejects_encoding_without_payload() {
    let error = UOwnedFrame::without_payload(metadata_with_encoding()).unwrap_err();

    assert_eq!(error, UFrameMetadataError::EncodingWithoutPayload);
}

#[test]
fn owned_frame_accepts_absent_payload_without_encoding() {
    let frame = UOwnedFrame::without_payload(metadata_without_encoding()).unwrap();

    assert!(!frame.has_payload());
    assert_eq!(frame.payload_bytes(), &[] as &[u8]);
    assert!(frame.metadata().payload_encoding().is_none());
}

#[test]
fn owned_frame_accepts_present_empty_payload_with_standard_encoding() {
    let frame = UOwnedFrame::with_payload(metadata_with_encoding(), Bytes::new()).unwrap();

    assert!(frame.has_payload());
    assert_eq!(frame.payload(), Some(&Bytes::new()));
    assert_eq!(frame.payload_bytes(), &[] as &[u8]);
    assert_eq!(frame.metadata().payload_encoding(), Some(&PayloadEncoding::raw()));
}

#[test]
fn unchecked_frame_validates_to_the_same_frame() {
    let expected = metadata_with_encoding();
    let frame = UOwnedFrame::new_unchecked(expected.clone(), Some(Bytes::from_static(b"abc")));
    let checked = frame.validate().expect("valid frame");
    assert_eq!(checked.payload_bytes(), b"abc");
    let (metadata, payload) = checked.into_parts();
    assert_eq!(metadata, expected);
    assert_eq!(payload, Some(Bytes::from_static(b"abc")));
}

#[test]
fn frame_projects_back_to_a_legacy_message() {
    let frame = UOwnedFrame::with_payload(metadata_with_encoding(), Bytes::from_static(b"abc")).unwrap();
    let message = frame.to_umessage().expect("projection");
    assert_eq!(message.payload(), Some(Bytes::from_static(b"abc")));
    assert_eq!(message.payload_format(), Some(UPayloadFormat::Raw));
    assert_eq!(message.id(), frame.metadata().id());
}

#[test]
fn cloned_frame_is_equal() {
    let frame = UOwnedFrame::with_payload(metadata_with_encoding(), Bytes::from_static(b"abc")).unwrap();
    assert_eq!(frame.clone(), frame);
    assert_eq!(frame.clone().into_payload(), Some(Bytes::from_static(b"abc")));
}

#[test]
fn frame_round_trips_through_a_legacy_message_with_raw_payload() {
    let frame = UOwnedFrame::with_payload(metadata_with_encoding(), Bytes::from_static(b"raw payload")).unwrap();
    let message = frame.to_umessage().expect("projection");
    let metadata = try_project_umessage_to_frame_metadata(&message).expect("metadata");
    let back = UOwnedFrame::new(metadata, message.payload()).expect("frame");
    assert_eq!(back, frame);
}

#[test]
fn frame_round_trips_through_a_legacy_message_without_payload() {
    let frame = UOwnedFrame::without_payload(metadata_without_encoding()).unwrap();
    let message = frame.to_umessage().expect("projection");
    assert_eq!(message.payload_format(), Some(UPayloadFormat::Unspecified));
    let metadata = try_project_umessage_to_frame_metadata(&message).expect("metadata");
    assert_eq!(metadata.payload_encoding(), None);
    let back = UOwnedFrame::new(metadata, message.payload()).expect("frame");
    assert!(!back.has_payload());
    assert_eq!(back, frame);
}
