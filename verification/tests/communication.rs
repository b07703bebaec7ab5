use up_rust::communication::notification::NotificationError;
use up_rust::communication::pubsub::{PubSubError, SubscriptionChangeHandler};
use up_rust::communication::rpc::ServiceInvocationError;
use up_rust::core_entities::usubscription::SubscriptionStatus;
use up_rust::{UCode, UStatus, UUri};

fn status(code: UCode, message: &str) -> UStatus {
    UStatus::fail_with_code(code, message)
}

#[test]
fn status_codes_with_variants_map_to_them() {
    assert!(matches!(
        ServiceInvocationError::from_status(status(UCode::AlreadyExists, "exists")),
        ServiceInvocationError::AlreadyExists(m) if m == "exists"
    ));
    assert!(matches!(
        ServiceInvocationError::from_status(status(UCode::DeadlineExceeded, "late")),
        ServiceInvocationError::DeadlineExceeded
    ));
    assert!(matches!(
        ServiceInvocationError::from_status(status(UCode::NotFound, "gone")),
        ServiceInvocationError::NotFound(m) if m == "gone"
    ));
    assert!(matches!(
        ServiceInvocationError::from_status(status(UCode::Unauthenticated, "who")),
        ServiceInvocationError::Unauthenticated
    ));
    assert!(matches!(
        ServiceInvocationError::from_status(status(UCode::Unimplemented, "later")),
        ServiceInvocationError::Unimplemented(m) if m == "later"
    ));
}

#[test]
fn other_status_codes_become_transport_errors() {
    let s = status(UCode::DataLoss, "lost");
    match ServiceInvocationError::from_status(s.clone()) {
        ServiceInvocationError::RpcError(inner) => assert_eq!(inner, s),
        other => panic!("unexpected {other:?}"),
    }
}

#[test]
fn missing_status_message_becomes_empty_text() {
    let s = UStatus { code: UCode::Internal, message: None };
    assert!(matches!(ServiceInvocationError::from_status(s), ServiceInvocationError::Internal(m) if m.is_empty()));
}

#[test]
fn invocation_errors_map_back_to_statuses() {
    let s = ServiceInvocationError::PermissionDenied("no".to_string()).into_status();
    assert_eq!(s.get_code(), UCode::PermissionDenied);
    assert_eq!(s.get_message(), "no");
    let s = ServiceInvocationError::DeadlineExceeded.into_status();
    assert_eq!(s.get_code(), UCode::DeadlineExceeded);
    assert_eq!(s.get_message(), "request timed out");
    let s = ServiceInvocationError::Unauthenticated.into_status();
    assert_eq!(s.get_code(), UCode::Unauthenticated);
    assert_eq!(s.get_message(), "client must authenticate");
    let s = ServiceInvocationError::RpcError(status(UCode::DataLoss, "lost")).into_status();
    assert_eq!(s.get_code(), UCode::Unknown);
    assert_eq!(s.get_message(), "unknown");
}

#[test]
fn status_round_trip_keeps_code_and_message() {
    for code in [
        UCode::AlreadyExists,
        UCode::FailedPrecondition,
        UCode::Internal,
        UCode::InvalidArgument,
        UCode::NotFound,
        UCode::PermissionDenied,
        UCode::ResourceExhausted,
        UCode::Unavailable,
        UCode::Unimplemented,
    ] {
        let back = ServiceInvocationError::from_status(status(code, "text")).into_status();
        assert_eq!(back.get_code(), code);
        assert_eq!(back.get_message(), "text");
    }
    let back = ServiceInvocationError::from_status(status(UCode::Aborted, "text")).into_status();
    assert_eq!(back.get_code(), UCode::Unknown);
}

struct Recorder;

impl SubscriptionChangeHandler for Recorder {
    fn on_subscription_change(&self, topic: UUri, new_status: SubscriptionStatus) {
        assert_eq!(topic.resource_id(), 0x8001);
        assert_eq!(new_status, SubscriptionStatus::Subscribed);
    }
}

#[test]
fn subscription_change_handlers_can_be_implemented() {
    let handler: &dyn SubscriptionChangeHandler = &Recorder;
    handler.on_subscription_change(UUri::try_from_parts("vehicle", 0x10, 1, 0x8001).unwrap(), SubscriptionStatus::Subscribed);
}

#[test]
fn error_types_carry_their_detail() {
    let e = NotificationError::InvalidArgument("bad".to_string());
    assert!(matches!(e, NotificationError::InvalidArgument(m) if m == "bad"));
    let e = PubSubError::PublishError(status(UCode::Unavailable, "down"));
    assert!(matches!(e, PubSubError::PublishError(s) if s.get_code() == UCode::Unavailable));
}
