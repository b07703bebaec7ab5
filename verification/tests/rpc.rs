use up_rust::communication::in_memory_rpc_client::{
    accept_response, handle_response_message, rpc_step, PendingRequests, RpcEvent,
};
use up_rust::communication::in_memory_rpc_server::{
    rpc_invalid_request_answerable, rpc_reply_for_outcome, rpc_request_payload, rpc_request_timeout_ms,
    rpc_response_attributes, validate_origin_filter, validate_sink_filter, RpcReply,
};
use up_rust::communication::rpc::ServiceInvocationError;
use up_rust::{Bytes, UAttributes, UCode, UMessage, UMessageType, UPayloadFormat, UPriority, UStatus, UUri, UUID};

fn method() -> UUri {
    UUri::try_from_parts("vehicle", 0x4210, 0x01, 0x00b1).expect("method")
}

fn reply_to() -> UUri {
    UUri::try_from_parts("cloud", 0x10ab, 0x02, 0x0000).expect("reply-to")
}

fn attributes(type_: UMessageType, id: UUID) -> UAttributes {
    UAttributes {
        type_,
        id,
        source: reply_to(),
        sink: Some(method()),
        priority: Some(UPriority::CS5),
        commstatus: None,
        ttl: None,
        permission_level: None,
        token: None,
        traceparent: None,
        reqid: None,
        payload_format: None,
        payload_encoding_registry_id: None,
        payload_encoding: None,
        payload_content_type: None,
    }
}

fn response(reqid: UUID, commstatus: Option<UCode>, payload: Option<Bytes>) -> UMessage {
    let mut a = attributes(UMessageType::Response, UUID::build());
    a.reqid = Some(reqid);
    a.commstatus = commstatus;
    UMessage::new(a, payload)
}

#[test]
fn pending_request_ids_are_unique() {
    let mut pending = PendingRequests::new();
    let id = UUID::build();
    assert!(pending.try_add_pending_request(id).is_ok());
    assert!(pending.contains(&id));
    match pending.try_add_pending_request(id) {
        Err(ServiceInvocationError::AlreadyExists(m)) => assert_eq!(m, "RPC request with given ID already pending"),
        other => panic!("unexpected {other:?}"),
    }
    assert!(pending.remove_pending_request(&id));
    assert!(!pending.contains(&id));
    assert!(!pending.remove_pending_request(&id));
}

#[test]
fn each_event_ends_the_invocation() {
    let mut pending = PendingRequests::new();
    let id = UUID::build();
    let other = UUID::build();
    pending.try_add_pending_request(id).unwrap();
    pending.try_add_pending_request(other).unwrap();

    let r = rpc_step(&mut pending, &id, RpcEvent::TimedOut);
    assert!(matches!(r, Err(ServiceInvocationError::DeadlineExceeded)));
    assert!(!pending.contains(&id));
    assert!(pending.contains(&other));

    pending.try_add_pending_request(id).unwrap();
    let r = rpc_step(&mut pending, &id, RpcEvent::SendFailed(UStatus::fail_with_code(UCode::Unavailable, "down")));
    assert!(matches!(r, Err(ServiceInvocationError::Unavailable(m)) if m == "down"));
    assert!(!pending.contains(&id));

    pending.try_add_pending_request(id).unwrap();
    let r = rpc_step(&mut pending, &id, RpcEvent::ResponseLost);
    assert!(matches!(r, Err(ServiceInvocationError::Internal(m)) if m == "error receiving response message"));

    pending.try_add_pending_request(id).unwrap();
    let msg = response(id, Some(UCode::OK), Some(Bytes::from_static(b"result")));
    let r = rpc_step(&mut pending, &id, RpcEvent::Response(msg, None)).unwrap();
    let (bytes, format) = r.expect("payload");
    assert_eq!(bytes, Bytes::from_static(b"result"));
    assert_eq!(format, UPayloadFormat::Unspecified);
    assert!(!pending.contains(&id));
    assert!(pending.contains(&other));
}

#[test]
fn failed_responses_yield_their_status() {
    let id = UUID::build();
    let msg = response(id, Some(UCode::NotFound), None);
    let r = handle_response_message(&msg, None);
    assert!(matches!(r, Err(ServiceInvocationError::NotFound(m)) if m == "failed to invoke service operation"));
    let r = handle_response_message(&msg, Some(UStatus::fail_with_code(UCode::PermissionDenied, "no access")));
    assert!(matches!(r, Err(ServiceInvocationError::PermissionDenied(m)) if m == "no access"));
    let ok = response(id, None, None);
    assert!(matches!(handle_response_message(&ok, None), Ok(None)));
}

#[test]
fn only_responses_to_pending_requests_are_delivered() {
    let mut pending = PendingRequests::new();
    let id = UUID::build();
    pending.try_add_pending_request(id).unwrap();
    let unknown = response(UUID::build(), None, None);
    assert!(!accept_response(&mut pending, &unknown));
    let request = UMessage::new(attributes(UMessageType::Request, id), None);
    assert!(!accept_response(&mut pending, &request));
    assert!(pending.contains(&id));
    assert!(accept_response(&mut pending, &response(id, None, None)));
    assert!(!pending.contains(&id));
    assert!(!accept_response(&mut pending, &response(id, None, None)));
}

#[test]
fn request_timeout_defaults_to_ten_seconds() {
    let mut a = attributes(UMessageType::Request, UUID::build());
    assert_eq!(rpc_request_timeout_ms(&a), 10_000);
    a.ttl = Some(250);
    assert_eq!(rpc_request_timeout_ms(&a), 250);
}

#[test]
fn requests_hand_their_payload_with_its_format() {
    let mut a = attributes(UMessageType::Request, UUID::build());
    a.payload_format = Some(UPayloadFormat::Json);
    let msg = UMessage::new(a, Some(Bytes::from_static(b"{}")));
    let (bytes, format) = rpc_request_payload(&msg).expect("payload");
    assert_eq!(bytes, Bytes::from_static(b"{}"));
    assert_eq!(format, UPayloadFormat::Json);
}

#[test]
fn outcomes_are_answered_with_payload_or_status() {
    match rpc_reply_for_outcome(None) {
        RpcReply::Failure(s) => {
            assert_eq!(s.code, UCode::DeadlineExceeded);
            assert_eq!(s.message.as_deref(), Some("request timed out"));
        },
        RpcReply::Success(_) => panic!("expected a failure"),
    }
    match rpc_reply_for_outcome(Some(Err(ServiceInvocationError::NotFound("gone".to_string())))) {
        RpcReply::Failure(s) => {
            assert_eq!(s.code, UCode::NotFound);
            assert_eq!(s.message.as_deref(), Some("gone"));
        },
        RpcReply::Success(_) => panic!("expected a failure"),
    }
    match rpc_reply_for_outcome(Some(Ok(Some((Bytes::from_static(b"x"), UPayloadFormat::Raw))))) {
        RpcReply::Success(Some((b, f))) => {
            assert_eq!(b, Bytes::from_static(b"x"));
            assert_eq!(f, UPayloadFormat::Raw);
        },
        _ => panic!("expected the payload"),
    }
}

#[test]
fn response_attributes_answer_the_request() {
    let request_id = UUID::build();
    let mut request = attributes(UMessageType::Request, request_id);
    request.ttl = Some(500);
    let id = UUID::build();
    let a = rpc_response_attributes(&request, id, Some(UCode::NotFound), Some(UPayloadFormat::Protobuf)).expect("attributes");
    assert_eq!(a.type_, UMessageType::Response);
    assert_eq!(a.id, id);
    assert_eq!(a.source, method());
    assert_eq!(a.sink, Some(reply_to()));
    assert_eq!(a.reqid, Some(request_id));
    assert_eq!(a.priority, Some(UPriority::CS5));
    assert_eq!(a.ttl, Some(500));
    assert_eq!(a.commstatus, Some(UCode::NotFound));
    assert_eq!(a.payload_format, Some(UPayloadFormat::Protobuf));

    request.sink = None;
    let s = rpc_response_attributes(&request, id, None, None).unwrap_err();
    assert_eq!(s.code, UCode::InvalidArgument);
    assert!(rpc_invalid_request_answerable(&request));
}

#[test]
fn endpoint_filters_are_checked() {
    assert!(validate_sink_filter(&method()).is_ok());
    assert_eq!(
        validate_sink_filter(&reply_to()).unwrap_err(),
        "RPC endpoint's resource ID must be in range [0x0001, 0x7FFF]"
    );
    assert!(validate_origin_filter(None).is_ok());
    assert!(validate_origin_filter(Some(&reply_to())).is_ok());
    assert_eq!(validate_origin_filter(Some(&method())).unwrap_err(), "origin filter's resource ID must be 0");
}
