use up_rust::core_entities::usubscription::{
    FetchSubscriptionsRequest, FetchSubscriptionsResponse, SubscribeRequest, SubscribeResponse, SubscriptionInfo,
    SubscriptionStatus, UnsubscribeRequest,
};
use up_rust::core_entities::usubscription_proto::{
    protobuf_timestamp_as_system_time, system_time_as_protobuf_timestamp, FetchSubscriptionsRequestProto,
    FetchSubscriptionsResponseProto, SubscribeRequestProto, SubscribeResponseProto, SubscriptionInfoProto,
    TimestampProto, UUriProto, UnsubscribeRequestProto,
};
use up_rust::{Duration, SystemTime, UCode, UUri};

fn invalid_uri_proto() -> UUriProto {
    // an invalid UUri, with a too-large resource ID
    UUriProto { authority_name: String::new(), ue_id: 0, ue_version_major: 0, resource_id: 0xFFFF_FFFF }
}

#[test]
fn test_system_time_as_protobuf_timestamp() {
    assert!(system_time_as_protobuf_timestamp(None).is_ok_and(|ts| ts.is_none()));

    let time = SystemTime::from_unix_epoch(Duration::new(1, 234_000_000));
    assert!(system_time_as_protobuf_timestamp(Some(time))
        .is_ok_and(|ts| { ts == Some(TimestampProto { seconds: 1, nanos: 234_000_000 }) }));
}

#[test]
fn test_protobuf_timestamp_as_system_time_maps_none() {
    assert!(protobuf_timestamp_as_system_time(None).is_ok_and(|dt| dt.is_none()));
}

fn timestamp_to_time(seconds: i64, nanos: i32) -> Result<Option<SystemTime>, up_rust::UStatus> {
    let timestamp = TimestampProto { seconds, nanos };
    protobuf_timestamp_as_system_time(Some(&timestamp))
}

#[test]
fn test_protobuf_timestamp_as_system_time_succeeds_for_valid_timestamp() {
    assert!(matches!(timestamp_to_time(10, 234_000_000), Ok(Some(_))));
}

#[test]
fn test_protobuf_timestamp_as_system_time_succeeds_before_unix_epoch() {
    assert!(matches!(timestamp_to_time(-10, 234_000_000), Ok(Some(_))));
}

#[test]
fn test_protobuf_timestamp_as_system_time_fails_for_nanos_below_range() {
    assert!(matches!(timestamp_to_time(10, -1), Err(up_rust::UStatus { .. })));
}

#[test]
fn test_protobuf_timestamp_as_system_time_fails_for_nanos_above_range() {
    assert!(matches!(timestamp_to_time(10, 1_000_000_000), Err(up_rust::UStatus { .. })));
}

#[test]
fn test_timestamp_conversion_round_trip() {
    let time = SystemTime::from_unix_epoch(Duration::new(1_700_000_000, 123_456_789));
    let timestamp =
        system_time_as_protobuf_timestamp(Some(time)).expect("conversion to protobuf timestamp should succeed");
    let round_tripped =
        protobuf_timestamp_as_system_time(timestamp.as_ref()).expect("conversion back to system time should succeed");
    assert_eq!(round_tripped, Some(time));
}

#[test]
fn timestamp_before_epoch_round_trips_with_forward_nanos() {
    let time = SystemTime::unix_epoch().checked_sub(Duration::new(10, 1)).expect("representable");
    let timestamp = system_time_as_protobuf_timestamp(Some(time)).unwrap().unwrap();
    assert_eq!(timestamp, TimestampProto { seconds: -11, nanos: 999_999_999 });
    assert_eq!(protobuf_timestamp_as_system_time(Some(&timestamp)).unwrap(), Some(time));
}

#[test]
fn test_fetch_subscriptions_request_rejects_invalid_subscriber_filter() {
    let proto = FetchSubscriptionsRequestProto { topic_filter: None, subscriber_filter: Some(invalid_uri_proto()) };
    let result = FetchSubscriptionsRequest::try_from(&proto);
    assert!(result.is_err());
    assert_eq!(result.unwrap_err().get_code(), UCode::InvalidArgument);
}

#[test]
fn test_fetch_subscriptions_request_rejects_invalid_topic_filter() {
    let proto = FetchSubscriptionsRequestProto { topic_filter: Some(invalid_uri_proto()), subscriber_filter: None };
    let result = FetchSubscriptionsRequest::try_from(&proto);
    assert!(result.is_err());
    assert_eq!(result.unwrap_err().get_code(), UCode::InvalidArgument);
}

#[test]
fn test_subscribe_request_rejects_missing_topic() {
    let proto = SubscribeRequestProto::default();
    let result = SubscribeRequest::try_from(&proto);
    assert!(result.is_err());
    assert_eq!(result.unwrap_err().get_code(), UCode::InvalidArgument);
}

#[test]
fn test_unsubscribe_request_rejects_missing_topic() {
    let proto = UnsubscribeRequestProto::default();
    let result = UnsubscribeRequest::try_from(&proto);
    assert!(result.is_err());
    assert_eq!(result.unwrap_err().get_code(), UCode::InvalidArgument);
}

#[test]
fn test_subscribe_request_preserves_sample_period() {
    let proto = SubscribeRequestProto {
        topic: Some(UUriProto::from_uri(&UUri::try_from_parts("", 0x1234, 1, 0x8000).unwrap())),
        sample_period: Some(500),
        ..SubscribeRequestProto::default()
    };
    let request = SubscribeRequest::try_from(&proto).unwrap();
    assert_eq!(request.sample_period, Some(Duration::from_millis(500)));
}

#[test]
fn subscribe_request_conversion_does_not_validate_but_construction_does() {
    let wildcard = UUri::try_from_parts("", 0x1234, 1, 0xFFFF).unwrap();
    let proto = SubscribeRequestProto { topic: Some(UUriProto::from_uri(&wildcard)), ..SubscribeRequestProto::default() };
    let request = SubscribeRequest::try_from(&proto).expect("conversion keeps the topic");
    assert_eq!(request.topic, wildcard);
    let now = SystemTime::from_unix_epoch(Duration::from_secs(1000));
    assert_eq!(SubscribeRequest::new_at(&wildcard, None, None, &now).unwrap_err().get_code(), UCode::InvalidArgument);
    assert_eq!(request.validate_at(&now).unwrap_err().get_code(), UCode::InvalidArgument);
}

#[test]
fn subscribe_response_round_trips_through_proto() {
    let response = SubscribeResponse {
        topic: UUri::try_from_parts("vehicle", 0x1234, 1, 0x8001).unwrap(),
        status: SubscriptionStatus::Subscribed,
    };
    let proto = SubscribeResponseProto::from(&response);
    assert_eq!(SubscribeResponse::try_from(&proto).unwrap(), response);
}

#[test]
fn fetch_subscriptions_response_round_trips_through_proto() {
    let info = SubscriptionInfo::new(
        UUri::try_from_parts("vehicle", 0x1234, 1, 0x8001).unwrap(),
        UUri::try_from_parts("app", 0x77, 2, 0).unwrap(),
        SubscriptionStatus::SubscribePending,
        Some(SystemTime::from_unix_epoch(Duration::new(1_700_000_000, 5))),
        Some(Duration::from_millis(250)),
    );
    let response = FetchSubscriptionsResponse { subscriptions: vec![info] };
    let proto = FetchSubscriptionsResponseProto::try_from(&response).unwrap();
    assert_eq!(proto.subscriptions.len(), 1);
    assert_eq!(proto.subscriptions[0].sample_period, Some(250));
    assert_eq!(FetchSubscriptionsResponse::try_from(&proto).unwrap(), response);
}

#[test]
fn subscription_info_rejects_unknown_status() {
    let proto = SubscriptionInfoProto {
        topic: Some(UUriProto::from_uri(&UUri::try_from_parts("vehicle", 0x1234, 1, 0x8001).unwrap())),
        subscriber: Some(UUriProto::from_uri(&UUri::try_from_parts("app", 0x77, 2, 0).unwrap())),
        status: 99,
        expiration: None,
        sample_period: None,
    };
    assert!(SubscriptionInfo::try_from(&proto).is_err());
}

#[test]
fn subscribe_request_with_past_expiration_is_rejected() {
    let topic = UUri::try_from_parts("vehicle", 0x1234, 1, 0x8001).unwrap();
    let now = SystemTime::from_unix_epoch(Duration::from_secs(1000));
    let past = Some(SystemTime::from_unix_epoch(Duration::from_secs(10)));
    let future = Some(SystemTime::from_unix_epoch(Duration::from_secs(2000)));
    assert_eq!(SubscribeRequest::new_at(&topic, past, None, &now).unwrap_err().get_code(), UCode::InvalidArgument);
    assert!(SubscribeRequest::new_at(&topic, future, Some(Duration::from_millis(10)), &now).is_ok());
}
