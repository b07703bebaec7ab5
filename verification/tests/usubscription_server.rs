use up_rust::core_entities::usubscription::{
    FetchSubscriptionsResponse, SubscribeResponse, SubscriptionInfo, SubscriptionStatus, RESOURCE_ID_RESET,
    RESOURCE_ID_SUBSCRIBE,
};
use up_rust::core_entities::usubscription_proto::{SubscribeRequestProto, UUriProto, UnsubscribeRequestProto};
use up_rust::core_entities::usubscription_server::{
    extract_usubscription_request, finish_usubscription_request, pack_usubscription_response,
    USubscriptionRequest, USubscriptionRequestKind, USubscriptionRequestProto, USubscriptionRequestStep,
    USubscriptionResponse, USubscriptionResponseProto,
};
use up_rust::{UCode, UUri};

#[test]
fn missing_payload_is_an_invalid_argument() {
    for id in [1u16, 4, 6, 0x77] {
        match extract_usubscription_request(id, false) {
            USubscriptionRequestStep::Done(Err(s)) => {
                assert_eq!(s.get_code(), UCode::InvalidArgument);
                assert_eq!(s.get_message(), "missing request payload");
            }
            other => panic!("unexpected {other:?}"),
        }
    }
}

#[test]
fn payload_operations_ask_for_their_message() {
    assert!(matches!(
        extract_usubscription_request(RESOURCE_ID_SUBSCRIBE, true),
        USubscriptionRequestStep::Decode(USubscriptionRequestKind::Subscribe)
    ));
    assert!(matches!(
        extract_usubscription_request(2, true),
        USubscriptionRequestStep::Decode(USubscriptionRequestKind::Unsubscribe)
    ));
    assert!(matches!(
        extract_usubscription_request(3, true),
        USubscriptionRequestStep::Decode(USubscriptionRequestKind::FetchSubscriptions)
    ));
}

#[test]
fn bare_operations_are_finished_at_once() {
    assert!(matches!(
        extract_usubscription_request(4, true),
        USubscriptionRequestStep::Done(Ok(USubscriptionRequest::RegisterForNotification(())))
    ));
    assert!(matches!(
        extract_usubscription_request(5, true),
        USubscriptionRequestStep::Done(Ok(USubscriptionRequest::UnregisterForNotification(())))
    ));
    assert!(matches!(
        extract_usubscription_request(RESOURCE_ID_RESET, true),
        USubscriptionRequestStep::Done(Ok(USubscriptionRequest::Reset(())))
    ));
}

#[test]
fn unknown_resource_ids_are_unimplemented() {
    match extract_usubscription_request(0x00af, true) {
        USubscriptionRequestStep::Done(Err(s)) => {
            assert_eq!(s.get_code(), UCode::Unimplemented);
            assert_eq!(s.get_message(), "unsupported uSubscription resource id: 0x00af");
        }
        other => panic!("unexpected {other:?}"),
    }
    match extract_usubscription_request(0xBEEF, true) {
        USubscriptionRequestStep::Done(Err(s)) => {
            assert_eq!(s.get_message(), "unsupported uSubscription resource id: 0xbeef");
        }
        other => panic!("unexpected {other:?}"),
    }
}

#[test]
fn decoding_failures_are_internal_errors() {
    let s = finish_usubscription_request(Err("truncated message".to_string())).unwrap_err();
    assert_eq!(s.get_code(), UCode::Internal);
    assert_eq!(s.get_message(), "truncated message");
}

#[test]
fn decoded_messages_become_requests() {
    let topic = UUri::try_from_parts("vehicle", 0x1234, 1, 0x8001).unwrap();
    let proto = SubscribeRequestProto {
        topic: Some(UUriProto::from_uri(&topic)),
        sample_period: Some(100),
        ..SubscribeRequestProto::default()
    };
    match finish_usubscription_request(Ok(USubscriptionRequestProto::Subscribe(proto))).unwrap() {
        USubscriptionRequest::Subscribe(q) => assert_eq!(q.topic, topic),
        other => panic!("unexpected {other:?}"),
    }
    let missing = UnsubscribeRequestProto::default();
    let s = finish_usubscription_request(Ok(USubscriptionRequestProto::Unsubscribe(missing))).unwrap_err();
    assert_eq!(s.get_code(), UCode::InvalidArgument);
}

#[test]
fn responses_pack_to_their_messages() {
    let topic = UUri::try_from_parts("vehicle", 0x1234, 1, 0x8001).unwrap();
    let packed = pack_usubscription_response(USubscriptionResponse::Subscribe(SubscribeResponse {
        topic: topic.clone(),
        status: SubscriptionStatus::Subscribed,
    }))
    .unwrap();
    match packed {
        Some(USubscriptionResponseProto::Subscribe(p)) => {
            assert_eq!(p.topic, Some(UUriProto::from_uri(&topic)));
            assert_eq!(p.status, 2);
        }
        other => panic!("unexpected {other:?}"),
    }
    let info = SubscriptionInfo::new(topic.clone(), topic, SubscriptionStatus::Unsubscribed, None, None);
    let packed =
        pack_usubscription_response(USubscriptionResponse::FetchSubscriptions(FetchSubscriptionsResponse {
            subscriptions: vec![info],
        }))
        .unwrap();
    assert!(matches!(packed, Some(USubscriptionResponseProto::FetchSubscriptions(p)) if p.subscriptions.len() == 1));
    assert_eq!(pack_usubscription_response(USubscriptionResponse::Unsubscribe(())).unwrap(), None);
    assert_eq!(pack_usubscription_response(USubscriptionResponse::Reset(())).unwrap(), None);
}
