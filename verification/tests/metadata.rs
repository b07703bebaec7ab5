use up_rust::frame::codec::{decode_frame_metadata_fields, encode_frame_metadata_fields};
use up_rust::frame::metadata::{
    try_project_attributes_to_frame_metadata, try_project_frame_to_umessage, try_project_umessage_to_frame_metadata,
    FrameMessageKind, FramePriority, PayloadEncoding, UFrameMetadata, UFrameMetadataError,
};
use up_rust::{
    Bytes, Duration, UAttributes, UCode, UMessage, UMessageType, UPayloadFormat, UPriority, UUri, UUID,
};

fn topic() -> UUri {
    UUri::try_from_parts("vehicle", 0x4210, 0x01, 0x9000).expect("failed to create test URI")
}

fn method() -> UUri {
    UUri::try_from_parts("vehicle", 0x4210, 0x01, 0x00b1).expect("failed to create method URI")
}

fn reply_to() -> UUri {
    UUri::try_from_parts("cloud", 0x10ab, 0x02, 0x0000).expect("failed to create reply URI")
}

/// The attributes of a publish message on `topic`, as a message builder
/// produces them: a fresh id and priority CS1.
fn publish_attributes(topic: UUri, payload_format: Option<UPayloadFormat>) -> UAttributes {
    UAttributes {
        type_: UMessageType::Publish,
        id: UUID::build(),
        source: topic,
        sink: None,
        priority: Some(UPriority::CS1),
        commstatus: None,
        ttl: None,
        permission_level: None,
        token: None,
        traceparent: None,
        reqid: None,
        payload_format,
        payload_encoding_registry_id: None,
        payload_encoding: None,
        payload_content_type: None,
    }
}

fn publish_message() -> UMessage {
    UMessage::new(publish_attributes(topic(), None), None)
}

fn publish_message_with_payload(payload: Bytes, format: UPayloadFormat) -> UMessage {
    UMessage::new(publish_attributes(topic(), Some(format)), Some(payload))
}

#[test]
fn builder_constructs_native_publish_metadata() {
    let metadata = UFrameMetadata::publish(topic())
        .with_priority(FramePriority::CS1)
        .with_traceparent("00-4bf92f3577b34da6a3ce929d0e0e4736-00f067aa0ba902b7-01")
        .with_payload_encoding(PayloadEncoding::json())
        .build()
        .expect("metadata");

    assert_eq!(metadata.kind(), FrameMessageKind::Publish);
    assert_eq!(metadata.source(), &topic());
    assert!(metadata.sink().is_none());
    assert_eq!(metadata.priority(), Some(FramePriority::CS1));
    assert_eq!(metadata.payload_encoding(), Some(&PayloadEncoding::json()));
}

#[test]
fn builder_rejects_publish_with_low_rpc_shape() {
    // request without ttl
    let error = UFrameMetadata::request(method(), reply_to(), Duration::zero()).build().unwrap_err();
    assert!(matches!(error, UFrameMetadataError::InvalidMetadata(_)));

    // rpc priority below CS4
    let error = UFrameMetadata::request(method(), reply_to(), Duration::from_secs(5))
        .with_priority(FramePriority::CS2)
        .build()
        .unwrap_err();
    assert!(matches!(error, UFrameMetadataError::InvalidMetadata(_)));
}

#[test]
fn builder_constructs_request_and_response_metadata() {
    let request = UFrameMetadata::request(method(), reply_to(), Duration::from_secs(5))
        .build()
        .expect("request metadata");
    assert_eq!(request.kind(), FrameMessageKind::Request);
    assert_eq!(request.priority(), Some(FramePriority::CS4));
    assert_eq!(request.ttl(), Some(Duration::from_secs(5)));

    let response = UFrameMetadata::response(method(), reply_to(), request.id().clone())
        .build()
        .expect("response metadata");
    assert_eq!(response.kind(), FrameMessageKind::Response);
    assert_eq!(response.reqid(), Some(request.id()));
}

#[test]
fn message_without_payload_projects_to_metadata_without_encoding() {
    let message = publish_message();

    let metadata = try_project_umessage_to_frame_metadata(&message).expect("metadata");

    assert!(message.payload().is_none());
    assert!(metadata.payload_encoding().is_none());
    assert_eq!(metadata.id(), message.id());
    assert_eq!(metadata.kind(), FrameMessageKind::Publish);
}

#[test]
fn message_method_without_payload_projects_to_metadata_without_encoding() {
    let message = publish_message();

    let metadata = message.to_frame_metadata_unencoded().expect("metadata");

    assert!(metadata.payload_encoding().is_none());
}

#[test]
fn message_method_with_payload_requires_explicit_encoding() {
    let message = publish_message_with_payload(Bytes::from_static(b"payload"), UPayloadFormat::Unspecified);

    assert_eq!(message.to_frame_metadata_unencoded().unwrap_err(), UFrameMetadataError::PayloadWithoutEncoding);
    assert_eq!(
        message.to_frame_metadata(PayloadEncoding::raw()).expect("explicit encoding").payload_encoding(),
        Some(&PayloadEncoding::raw())
    );
}

#[test]
fn message_method_rejects_encoding_without_payload() {
    let message = publish_message();

    assert_eq!(message.to_frame_metadata(PayloadEncoding::raw()).unwrap_err(), UFrameMetadataError::EncodingWithoutPayload);
}

#[test]
fn attributes_unencoded_method_rejects_declared_encoding() {
    let message = publish_message_with_payload(Bytes::new(), UPayloadFormat::Raw);

    assert_eq!(
        message.attributes().to_frame_metadata_unencoded().unwrap_err(),
        UFrameMetadataError::EncodingWithoutPayload
    );
}

#[test]
fn empty_present_payload_keeps_encoding() {
    let message = publish_message_with_payload(Bytes::new(), UPayloadFormat::Raw);

    let metadata = try_project_umessage_to_frame_metadata(&message).expect("metadata");

    assert_eq!(message.payload(), Some(Bytes::new()));
    assert_eq!(metadata.payload_encoding(), Some(&PayloadEncoding::raw()));

    let projected = try_project_frame_to_umessage(metadata, Some(Bytes::new())).expect("projected message");
    assert_eq!(projected.payload(), Some(Bytes::new()));
    assert_eq!(projected.payload_format(), Some(UPayloadFormat::Raw));
}

#[test]
fn standard_payload_formats_round_trip() {
    for format in [
        UPayloadFormat::Protobuf,
        UPayloadFormat::ProtobufWrappedInAny,
        UPayloadFormat::Raw,
        UPayloadFormat::Json,
        UPayloadFormat::Text,
        UPayloadFormat::Someip,
        UPayloadFormat::SomeipTlv,
        UPayloadFormat::Shm,
    ] {
        let message = publish_message_with_payload(Bytes::from_static(b"payload"), format);
        let metadata = try_project_umessage_to_frame_metadata(&message).expect("metadata");
        let encoding = metadata.payload_encoding().expect("encoding");
        assert_eq!(encoding.to_legacy_format(), Some(format));
        assert!(encoding.registry_id().is_some());
        assert!(encoding.literal_id().is_some());
        assert!(encoding.content_type().is_some());

        let projected =
            try_project_frame_to_umessage(metadata, Some(Bytes::from_static(b"payload"))).expect("projected message");
        assert_eq!(projected.payload(), Some(Bytes::from_static(b"payload")));
        assert_eq!(projected.payload_format(), Some(format));
    }
}

#[test]
fn unspecified_payload_format_with_payload_is_rejected() {
    let message = publish_message_with_payload(Bytes::from_static(b"payload"), UPayloadFormat::Unspecified);

    let error = try_project_umessage_to_frame_metadata(&message).unwrap_err();

    assert_eq!(error, UFrameMetadataError::PayloadWithoutEncoding);
}

#[test]
fn attribute_projection_rejects_payload_format_mismatch() {
    let message = publish_message_with_payload(Bytes::from_static(b"payload"), UPayloadFormat::Raw);

    let error =
        try_project_attributes_to_frame_metadata(message.attributes(), Some(PayloadEncoding::json())).unwrap_err();

    assert!(matches!(error, UFrameMetadataError::InvalidMetadata(_)));
}

#[test]
fn custom_encoding_projection_to_umessage_carries_open_identity() {
    let metadata = UFrameMetadata::publish(topic())
        .with_payload_encoding(PayloadEncoding::custom("up.native", "application/vnd.example.native").unwrap())
        .build()
        .expect("metadata");

    let message = try_project_frame_to_umessage(metadata, Some(Bytes::from_static(b"payload"))).expect("projection");

    assert_eq!(
        message.attributes().open_payload_encoding_parts(),
        (None, Some("up.native"), Some("application/vnd.example.native"))
    );
}

#[test]
fn sub_millisecond_ttl_is_rejected_by_legacy_projection_not_truncated() {
    let metadata = UFrameMetadata::request(
        method(),
        reply_to(),
        Duration::from_micros(1_500), // 1.5 ms
    )
    .build()
    .expect("metadata");

    let error = metadata.try_project_to_attributes().unwrap_err();
    assert!(matches!(error, UFrameMetadataError::FieldNotRepresentable { field: "ttl", .. }));
}

#[test]
fn custom_encoding_is_validated() {
    assert_eq!(
        PayloadEncoding::custom("", "application/vnd.example.native").unwrap_err(),
        UFrameMetadataError::EmptyCustomEncodingId
    );
    assert_eq!(PayloadEncoding::custom("native", "").unwrap_err(), UFrameMetadataError::EmptyCustomEncodingContentType);
    assert!(matches!(
        PayloadEncoding::custom("native", "not a media type"),
        Err(UFrameMetadataError::InvalidCustomEncodingContentType(_))
    ));
    assert_eq!(PayloadEncoding::from_parts(None, None, None).unwrap_err(), UFrameMetadataError::EmptyPayloadEncoding);
    assert!(matches!(
        PayloadEncoding::custom("up.raw", "application/octet-stream"),
        Err(UFrameMetadataError::RegisteredPayloadEncodingAlias { .. })
    ));
}

#[test]
fn registered_literal_decodes_to_canonical_encoding() {
    let encoding =
        PayloadEncoding::from_parts(None, Some("up.raw".to_string()), Some("application/octet-stream".to_string()))
            .expect("canonicalized");

    assert_eq!(encoding, PayloadEncoding::raw());
}

#[test]
fn attributes_reject_both_encoding_mechanisms() {
    let message = publish_message_with_payload(Bytes::from_static(b"x"), UPayloadFormat::Raw);
    let mut attributes = message.attributes().clone();
    attributes.payload_encoding = Some("up.xcdr-v2".to_string());

    let error = try_project_attributes_to_frame_metadata(&attributes, None).unwrap_err();

    assert!(matches!(error, UFrameMetadataError::InvalidMetadata(_)));
}

#[test]
fn attributes_reject_registered_encoding_in_open_fields() {
    // attributes of a message carrying an open custom identity
    let mut attributes = publish_attributes(topic(), None);
    attributes.payload_encoding = Some("up.xcdr-v2".to_string());
    attributes.payload_content_type = Some("application/vnd.uprotocol.xcdr-v2".to_string());
    let message = UMessage::new(attributes, Some(Bytes::from_static(b"x")));
    assert!(try_project_umessage_to_frame_metadata(&message).is_ok());

    let mut attributes = message.attributes().clone();
    attributes.payload_encoding = Some("up.raw".to_string());
    attributes.payload_content_type = Some("application/octet-stream".to_string());

    let error = try_project_attributes_to_frame_metadata(&attributes, None).unwrap_err();

    assert!(matches!(error, UFrameMetadataError::InvalidMetadata(_)));
}

#[test]
fn legacy_reserved_registry_ids_are_value_compatible() {
    for (encoding, format) in [
        (PayloadEncoding::protobuf_wrapped_in_any(), UPayloadFormat::ProtobufWrappedInAny),
        (PayloadEncoding::protobuf(), UPayloadFormat::Protobuf),
        (PayloadEncoding::json(), UPayloadFormat::Json),
        (PayloadEncoding::someip(), UPayloadFormat::Someip),
        (PayloadEncoding::someip_tlv(), UPayloadFormat::SomeipTlv),
        (PayloadEncoding::raw(), UPayloadFormat::Raw),
        (PayloadEncoding::text(), UPayloadFormat::Text),
        (PayloadEncoding::shm(), UPayloadFormat::Shm),
    ] {
        assert_eq!(
            encoding.registry_id(),
            Some(u32::try_from(format.as_i32()).expect("legacy format code is positive"))
        );
        assert_eq!(PayloadEncoding::try_from_legacy_format(format).expect("projection"), encoding);
        assert_eq!(encoding.to_legacy_format(), Some(format));
    }
    assert!(PayloadEncoding::try_from_legacy_format(UPayloadFormat::Unspecified).is_err());
}

#[test]
fn pr328_enum_names_compile() {
    assert_eq!(UCode::InvalidArgument as i32, 3);
    assert_eq!(UCode::Unimplemented as i32, 12);
    assert_eq!(UCode::InvalidArgument.value(), 3);
    assert_eq!(UCode::Unimplemented.value(), 12);
    assert_eq!(UPayloadFormat::ProtobufWrappedInAny.as_i32(), 1);
    assert_eq!(UPayloadFormat::Someip.as_i32(), 4);
    assert_eq!(UPayloadFormat::SomeipTlv.as_i32(), 5);
}

#[test]
fn projected_metadata_survives_field_block_round_trip() {
    let cases: [(&str, u32, u8, u16, &[u8]); 4] = [
        ("a", 1, 1, 0x8000, b""),
        ("vehicle7", 0x4210, 0x12, 0x9000, b"x"),
        ("z0123456789a", 0xFFFE, 0xFE, 0xFFFD, b"payload bytes"),
        ("cloud", 0x10ab, 2, 0xA001, &[0u8; 63]),
    ];
    for (authority, ue_id, version, resource, payload) in cases {
        let topic = UUri::try_from_parts(authority, ue_id, version, resource).expect("valid parts");
        let message = if payload.is_empty() {
            UMessage::new(publish_attributes(topic, None), None)
        } else {
            UMessage::new(publish_attributes(topic, Some(UPayloadFormat::Raw)), Some(Bytes::copy_from_slice(payload)))
        };
        let metadata = try_project_umessage_to_frame_metadata(&message).expect("metadata");
        let bytes = encode_frame_metadata_fields(&metadata).expect("encode");
        assert_eq!(decode_frame_metadata_fields(&bytes).expect("decode"), metadata);
    }
}

#[test]
fn frame_kind_and_priority_wire_codes_round_trip() {
    for kind in [
        FrameMessageKind::Publish,
        FrameMessageKind::Request,
        FrameMessageKind::Response,
        FrameMessageKind::Notification,
    ] {
        assert_eq!(FrameMessageKind::from_wire_code(kind.wire_code()), Some(kind));
        assert_eq!(FrameMessageKind::from_legacy_type(kind.to_legacy_type()), kind);
    }
    assert_eq!(FrameMessageKind::Publish.wire_code(), 1);
    assert_eq!(FrameMessageKind::Notification.wire_code(), 4);
    assert_eq!(FrameMessageKind::from_wire_code(0), None);
    assert_eq!(FrameMessageKind::from_wire_code(5), None);
    assert_eq!(FramePriority::CS0.wire_code(), 1);
    assert_eq!(FramePriority::CS6.wire_code(), 7);
    assert_eq!(FramePriority::from_wire_code(0), None);
    assert_eq!(FramePriority::from_wire_code(8), None);
    assert_eq!(FramePriority::from_wire_code(5), Some(FramePriority::CS4));
    assert_eq!(FramePriority::from_legacy_priority(UPriority::CS3), FramePriority::CS3);
    assert_eq!(FramePriority::CS2.to_legacy_priority(), UPriority::CS2);
}

#[test]
fn metadata_error_texts_are_exact() {
    assert_eq!(UFrameMetadataError::PayloadWithoutEncoding.to_string(), "payload bytes require a payload encoding");
    assert_eq!(
        UFrameMetadataError::FieldNotRepresentable { field: "ttl", reason: "sub-millisecond".to_string() }.to_string(),
        "frame metadata field `ttl` cannot be represented by legacy types: sub-millisecond"
    );
}

#[test]
fn encoding_description_and_compatibility() {
    let raw = PayloadEncoding::raw();
    assert!(raw.is_compatible_with(&PayloadEncoding::from_id(6).unwrap()));
    assert!(!raw.is_compatible_with(&PayloadEncoding::json()));
    assert!(PayloadEncoding::from_id(0xF001).unwrap().is_private_use());
    assert!(!raw.is_private_use());
    assert_eq!(raw.custom_identity(), Some(("up.raw", "application/octet-stream")));
    assert!(PayloadEncoding::from_id(0x1_0000).is_err());
}

#[test]
fn metadata_with_comm_status_keeps_it() {
    let metadata = UFrameMetadata::publish(topic()).with_comm_status(UCode::NotFound).build().expect("metadata");
    assert_eq!(metadata.comm_status(), Some(UCode::NotFound));
}

#[test]
fn metadata_projected_to_attributes_and_back_is_unchanged() {
    let request = UFrameMetadata::request(method(), reply_to(), Duration::from_millis(1500))
        .with_priority(FramePriority::CS5)
        .with_comm_status(UCode::OK)
        .with_permission_level(7)
        .with_token("tok")
        .with_traceparent("00-4bf92f3577b34da6a3ce929d0e0e4736-00f067aa0ba902b7-01")
        .build()
        .expect("metadata");
    let attributes = request.try_project_to_attributes().expect("representable");
    assert_eq!(attributes.ttl, Some(1500));
    assert_eq!(try_project_attributes_to_frame_metadata(&attributes, None).expect("metadata"), request);

    let custom = UFrameMetadata::publish(topic())
        .with_payload_encoding(PayloadEncoding::custom("up.native", "application/vnd.example.native").unwrap())
        .build()
        .expect("metadata");
    let attributes = custom.try_project_to_attributes().expect("representable");
    assert_eq!(try_project_attributes_to_frame_metadata(&attributes, None).expect("metadata"), custom);
}

#[test]
fn unrepresentable_ttl_reasons_name_the_span() {
    let metadata = UFrameMetadata::request(method(), reply_to(), Duration::from_micros(1_500)).build().expect("metadata");
    match metadata.try_project_to_attributes().unwrap_err() {
        UFrameMetadataError::FieldNotRepresentable { field, reason } => {
            assert_eq!(field, "ttl");
            assert_eq!(reason, "1.5ms has sub-millisecond precision; legacy TTL is in whole milliseconds");
        }
        other => panic!("unexpected {other:?}"),
    }
    let metadata =
        UFrameMetadata::request(method(), reply_to(), Duration::from_secs(5_000_000)).build().expect("metadata");
    match metadata.try_project_to_attributes().unwrap_err() {
        UFrameMetadataError::FieldNotRepresentable { field, reason } => {
            assert_eq!(field, "ttl");
            assert_eq!(reason, "5000000s exceeds the legacy 32-bit millisecond TTL range");
        }
        other => panic!("unexpected {other:?}"),
    }
}

#[test]
fn native_type_token_is_not_dropped_by_the_legacy_projection() {
    let metadata = UFrameMetadata::publish(topic())
        .with_payload_encoding(PayloadEncoding::raw())
        .with_native_type_token(up_rust::frame::native::NativeTypeToken::from_u32(9))
        .build()
        .expect("metadata");
    assert!(matches!(
        metadata.try_project_to_attributes().unwrap_err(),
        UFrameMetadataError::FieldNotRepresentable { field: "native_type_token", .. }
    ));
}

#[test]
fn duration_debug_text_is_std_rendering() {
    assert_eq!(Duration::from_millis(1500).debug_text(), "1.5s");
    assert_eq!(Duration::from_nanos(7).debug_text(), "7ns");
    assert_eq!(Duration::from_micros(2).debug_text(), format!("{:?}", std::time::Duration::from_micros(2)));
}

fn invalid_metadata_text(error: UFrameMetadataError) -> String {
    match error {
        UFrameMetadataError::InvalidMetadata(text) => text,
        other => panic!("expected invalid metadata, got {other:?}"),
    }
}

#[test]
fn validation_reports_every_broken_rule_in_order() {
    let error = UFrameMetadata::request(method(), reply_to(), Duration::zero())
        .with_priority(FramePriority::CS2)
        .build()
        .unwrap_err();
    assert_eq!(
        invalid_metadata_text(error),
        "request frame TTL must be greater than zero; RPC frame must have a priority of at least CS4"
    );

    let error = UFrameMetadata::publish(method()).build().unwrap_err();
    assert_eq!(invalid_metadata_text(error), "invalid source URI: resource ID does not map to an event");

    let error = UFrameMetadata::notification(topic(), method()).build().unwrap_err();
    assert_eq!(invalid_metadata_text(error), "sink is not a valid notification destination");

    let error = UFrameMetadata::request(topic(), topic(), Duration::from_secs(1)).build().unwrap_err();
    assert_eq!(
        invalid_metadata_text(error),
        "invalid source URI: resource ID is not an RPC response resource ID; \
         invalid sink URI: resource ID does not map to an RPC method"
    );
}

#[test]
fn payload_encoding_conflicts_name_the_contradiction() {
    let error = PayloadEncoding::from_parts(Some(3), Some("up.raw".to_string()), None).unwrap_err();
    assert_eq!(
        invalid_metadata_text(error),
        "payload encoding registry id 3 conflicts with `up.raw`"
    );
    let error =
        PayloadEncoding::from_parts(None, Some("up.json".to_string()), Some("text/plain".to_string())).unwrap_err();
    assert_eq!(
        invalid_metadata_text(error),
        "payload encoding literal `up.json` conflicts with content type `text/plain`"
    );
}

#[test]
fn attribute_projection_rejections_say_why() {
    let mut both = publish_attributes(topic(), Some(UPayloadFormat::Json));
    both.payload_encoding = Some("vendor.custom".to_string());
    let error = try_project_attributes_to_frame_metadata(&both, None).unwrap_err();
    assert_eq!(
        invalid_metadata_text(error),
        "attributes declare both a concrete payload_format and open payload-encoding fields; exactly one mechanism is allowed"
    );

    let mut registered = publish_attributes(topic(), None);
    registered.payload_encoding_registry_id = Some(3);
    let error = try_project_attributes_to_frame_metadata(&registered, None).unwrap_err();
    assert_eq!(
        invalid_metadata_text(error),
        "registered-range payload encodings must use payload_format, not open payload-encoding fields"
    );

    let json = publish_attributes(topic(), Some(UPayloadFormat::Json));
    let error = try_project_attributes_to_frame_metadata(&json, Some(PayloadEncoding::raw())).unwrap_err();
    assert_eq!(
        invalid_metadata_text(error),
        "attribute payload format `up.json` does not match payload encoding `up.raw`"
    );
}

#[test]
fn legacy_numbers_are_the_wire_codes() {
    for kind in [
        FrameMessageKind::Publish,
        FrameMessageKind::Request,
        FrameMessageKind::Response,
        FrameMessageKind::Notification,
    ] {
        assert_eq!(kind.to_legacy_type().as_i32(), i32::from(kind.wire_code()));
    }
    for priority in [
        FramePriority::CS0,
        FramePriority::CS1,
        FramePriority::CS2,
        FramePriority::CS3,
        FramePriority::CS4,
        FramePriority::CS5,
        FramePriority::CS6,
    ] {
        assert_eq!(priority.to_legacy_priority().as_i32(), i32::from(priority.wire_code()));
        assert_eq!(FramePriority::from_legacy_priority(priority.to_legacy_priority()), priority);
    }
    assert_eq!(UPriority::CS4.as_i32(), 5);
}

#[test]
fn priorities_order_by_wire_code() {
    let all = [
        FramePriority::CS0,
        FramePriority::CS1,
        FramePriority::CS2,
        FramePriority::CS3,
        FramePriority::CS4,
        FramePriority::CS5,
        FramePriority::CS6,
    ];
    for p in all {
        for q in all {
            assert_eq!(p < q, p.wire_code() < q.wire_code());
            assert_eq!(p.cmp(&q), p.wire_code().cmp(&q.wire_code()));
        }
    }
}

#[test]
fn registered_encodings_build_and_decode() {
    let metadata = UFrameMetadata::publish(topic())
        .with_payload_encoding(PayloadEncoding::raw())
        .build()
        .expect("metadata");
    assert_eq!(metadata.payload_encoding(), Some(&PayloadEncoding::raw()));
    assert_eq!(
        PayloadEncoding::from_parts(None, Some("up.raw".to_string()), Some("application/octet-stream".to_string())),
        Ok(PayloadEncoding::raw())
    );
    assert!(matches!(
        PayloadEncoding::custom("up.raw", "application/octet-stream"),
        Err(UFrameMetadataError::RegisteredPayloadEncodingAlias { .. })
    ));
}
