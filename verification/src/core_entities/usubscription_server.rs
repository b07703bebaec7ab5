//! Server-side request dispatch and response packing of the uSubscription
//! service.
//!
//! Decoding a request payload, and encoding a response message, are protobuf
//! work on the caller's side: `extract_usubscription_request` says which
//! message a request payload must be decoded as (or finishes the request),
//! `finish_usubscription_request` turns the decoded message into the request,
//! and `pack_usubscription_response` yields the protobuf message to encode.
use vstd::prelude::*;

use crate::core_entities::usubscription::{
    FetchSubscriptionsRequest, FetchSubscriptionsResponse, SubscribeRequest, SubscribeResponse, UnsubscribeRequest,
    RESOURCE_ID_FETCH_SUBSCRIPTIONS, RESOURCE_ID_REGISTER_FOR_NOTIFICATIONS, RESOURCE_ID_RESET,
    RESOURCE_ID_SUBSCRIBE, RESOURCE_ID_UNREGISTER_FOR_NOTIFICATIONS, RESOURCE_ID_UNSUBSCRIBE,
};
use crate::core_entities::usubscription_proto::{
    fetch_request_read_from, fetch_request_readable, status_number, subscribe_request_read_from,
    subscribe_request_readable, subscription_proto_of, uri_from_proto, FetchSubscriptionsRequestProto,
    FetchSubscriptionsResponseProto, SubscribeRequestProto, SubscribeResponseProto, UnsubscribeRequestProto,
};
use crate::text::{append_hex4, hex4};
use crate::ustatus::{status_message, UCode, UStatus};

verus! {

/// A decoded uSubscription request, tagged by the operation it belongs to.
#[derive(Debug, PartialEq)]
pub enum USubscriptionRequest {
    /// A subscribe request.
    Subscribe(SubscribeRequest),
    /// An unsubscribe request.
    Unsubscribe(UnsubscribeRequest),
    /// A fetch-subscriptions request.
    FetchSubscriptions(FetchSubscriptionsRequest),
    /// A register-for-notifications request.
    RegisterForNotification(()),
    /// An unregister-for-notifications request.
    UnregisterForNotification(()),
    /// A reset request.
    Reset(()),
}

/// A uSubscription response, tagged by the operation it belongs to.
#[derive(Debug, PartialEq)]
pub enum USubscriptionResponse {
    /// The response to a subscribe request.
    Subscribe(SubscribeResponse),
    /// The response to an unsubscribe request.
    Unsubscribe(()),
    /// The response to a fetch-subscriptions request.
    FetchSubscriptions(FetchSubscriptionsResponse),
    /// The response to a register-for-notifications request.
    RegisterForNotification(()),
    /// The response to an unregister-for-notifications request.
    UnregisterForNotification(()),
    /// The response to a reset request.
    Reset(()),
}

impl Clone for USubscriptionRequest {
    fn clone(&self) -> (c: USubscriptionRequest) {
        match self {
            USubscriptionRequest::Subscribe(q) => USubscriptionRequest::Subscribe(q.clone()),
            USubscriptionRequest::Unsubscribe(q) => USubscriptionRequest::Unsubscribe(q.clone()),
            USubscriptionRequest::FetchSubscriptions(q) => USubscriptionRequest::FetchSubscriptions(q.clone()),
            USubscriptionRequest::RegisterForNotification(_) => USubscriptionRequest::RegisterForNotification(()),
            USubscriptionRequest::UnregisterForNotification(_) => USubscriptionRequest::UnregisterForNotification(()),
            USubscriptionRequest::Reset(_) => USubscriptionRequest::Reset(()),
        }
    }
}

impl Clone for USubscriptionResponse {
    fn clone(&self) -> (c: USubscriptionResponse) {
        match self {
            USubscriptionResponse::Subscribe(r) => USubscriptionResponse::Subscribe(r.clone()),
            USubscriptionResponse::Unsubscribe(_) => USubscriptionResponse::Unsubscribe(()),
            USubscriptionResponse::FetchSubscriptions(r) => USubscriptionResponse::FetchSubscriptions(r.clone()),
            USubscriptionResponse::RegisterForNotification(_) => USubscriptionResponse::RegisterForNotification(()),
            USubscriptionResponse::UnregisterForNotification(_) => USubscriptionResponse::UnregisterForNotification(()),
            USubscriptionResponse::Reset(_) => USubscriptionResponse::Reset(()),
        }
    }
}

/// The protobuf message that the payload of a request must be decoded as.
#[derive(Clone, Copy, Debug, PartialEq, Eq, Structural)]
pub enum USubscriptionRequestKind {
    /// A `SubscribeRequest` message.
    Subscribe,
    /// An `UnsubscribeRequest` message.
    Unsubscribe,
    /// A `FetchSubscriptionsRequest` message.
    FetchSubscriptions,
}

/// A request payload decoded as the protobuf message of its operation.
#[derive(Clone, Debug, PartialEq)]
pub enum USubscriptionRequestProto {
    /// A decoded `SubscribeRequest` message.
    Subscribe(SubscribeRequestProto),
    /// A decoded `UnsubscribeRequest` message.
    Unsubscribe(UnsubscribeRequestProto),
    /// A decoded `FetchSubscriptionsRequest` message.
    FetchSubscriptions(FetchSubscriptionsRequestProto),
}

/// What extracting a request needs next: decoding its payload as the given
/// message, or nothing more (the request, or the reason it fails).
#[derive(Debug)]
pub enum USubscriptionRequestStep {
    /// Decode the payload as this message, then call `finish_usubscription_request`.
    Decode(USubscriptionRequestKind),
    /// The finished extraction.
    Done(Result<USubscriptionRequest, UStatus>),
}

/// The protobuf message that a response is encoded as.
#[derive(Clone, Debug, PartialEq)]
pub enum USubscriptionResponseProto {
    /// A `SubscribeResponse` message.
    Subscribe(SubscribeResponseProto),
    /// A `FetchSubscriptionsResponse` message.
    FetchSubscriptions(FetchSubscriptionsResponseProto),
}

/// The message a request to resource `id` decodes as, for the operations
/// whose request carries one.
pub open spec fn request_kind_of(id: u16) -> Option<USubscriptionRequestKind> {
    if id == RESOURCE_ID_SUBSCRIBE {
        Some(USubscriptionRequestKind::Subscribe)
    } else if id == RESOURCE_ID_UNSUBSCRIBE {
        Some(USubscriptionRequestKind::Unsubscribe)
    } else if id == RESOURCE_ID_FETCH_SUBSCRIPTIONS {
        Some(USubscriptionRequestKind::FetchSubscriptions)
    } else {
        None
    }
}

/// The request to resource `id` that carries nothing beyond its operation.
pub open spec fn bare_request_of(id: u16) -> Option<USubscriptionRequest> {
    if id == RESOURCE_ID_REGISTER_FOR_NOTIFICATIONS {
        Some(USubscriptionRequest::RegisterForNotification(()))
    } else if id == RESOURCE_ID_UNREGISTER_FOR_NOTIFICATIONS {
        Some(USubscriptionRequest::UnregisterForNotification(()))
    } else if id == RESOURCE_ID_RESET {
        Some(USubscriptionRequest::Reset(()))
    } else {
        None
    }
}

/// The text of the failure for a resource id that names no operation.
pub open spec fn unsupported_resource_text(id: u16) -> Seq<char> {
    "unsupported uSubscription resource id: "@ + hex4(id)
}

/// The first step of decoding a uSubscription request to resource
/// `resource_id`, whose payload is present or not.
///
/// A missing payload fails with `InvalidArgument` ("missing request
/// payload"), whatever the operation. The subscribe, unsubscribe and fetch
/// operations then need their payload decoded as their message; the
/// notification (un)registration and reset operations are finished; any
/// other resource id fails with `Unimplemented`.
pub fn extract_usubscription_request(resource_id: u16, has_payload: bool) -> (r: USubscriptionRequestStep)
    ensures
        !has_payload ==> (r matches USubscriptionRequestStep::Done(Err(s)) && s.code == UCode::InvalidArgument
            && status_message(s) == "missing request payload"@),
        has_payload && request_kind_of(resource_id) is Some
            ==> r == USubscriptionRequestStep::Decode(request_kind_of(resource_id).unwrap()),
        has_payload && bare_request_of(resource_id) is Some
            ==> r == USubscriptionRequestStep::Done(Ok(bare_request_of(resource_id).unwrap())),
        has_payload && request_kind_of(resource_id) is None && bare_request_of(resource_id) is None
            ==> (r matches USubscriptionRequestStep::Done(Err(s)) && s.code == UCode::Unimplemented
            && status_message(s) == unsupported_resource_text(resource_id)),
{
    if !has_payload {
        return USubscriptionRequestStep::Done(Err(UStatus::fail_with_code(UCode::InvalidArgument, "missing request payload")));
    }
    if resource_id == RESOURCE_ID_SUBSCRIBE {
        USubscriptionRequestStep::Decode(USubscriptionRequestKind::Subscribe)
    } else if resource_id == RESOURCE_ID_UNSUBSCRIBE {
        USubscriptionRequestStep::Decode(USubscriptionRequestKind::Unsubscribe)
    } else if resource_id == RESOURCE_ID_FETCH_SUBSCRIPTIONS {
        USubscriptionRequestStep::Decode(USubscriptionRequestKind::FetchSubscriptions)
    } else if resource_id == RESOURCE_ID_REGISTER_FOR_NOTIFICATIONS {
        USubscriptionRequestStep::Done(Ok(USubscriptionRequest::RegisterForNotification(())))
    } else if resource_id == RESOURCE_ID_UNREGISTER_FOR_NOTIFICATIONS {
        USubscriptionRequestStep::Done(Ok(USubscriptionRequest::UnregisterForNotification(())))
    } else if resource_id == RESOURCE_ID_RESET {
        USubscriptionRequestStep::Done(Ok(USubscriptionRequest::Reset(())))
    } else {
        let mut text = String::from_str("unsupported uSubscription resource id: ");
        append_hex4(&mut text, resource_id);
        USubscriptionRequestStep::Done(Err(UStatus { code: UCode::Unimplemented, message: Some(text) }))
    }
}

/// Finishes decoding a request from its payload decoded as the message of
/// its operation, or from the text of the decoder's failure.
///
/// A decoding failure fails with `Internal` carrying its text; a decoded
/// message becomes the request it holds, and fails with `InvalidArgument`
/// where it holds none.
pub fn finish_usubscription_request(decoded: Result<USubscriptionRequestProto, String>) -> (r: Result<USubscriptionRequest, UStatus>)
    ensures
        decoded matches Err(text) ==> (r matches Err(s) && s.code == UCode::Internal && status_message(s) == text@),
        decoded matches Ok(USubscriptionRequestProto::Subscribe(p)) ==> {
            &&& r is Ok <==> subscribe_request_readable(p)
            &&& r matches Ok(q) ==> (q matches USubscriptionRequest::Subscribe(x) && subscribe_request_read_from(p, x))
            &&& r matches Err(s) ==> s.code == UCode::InvalidArgument
        },
        decoded matches Ok(USubscriptionRequestProto::Unsubscribe(p)) ==> {
            &&& r is Ok <==> (p.topic matches Some(t) && uri_from_proto(t) is Some)
            &&& r matches Ok(q) ==> (q matches USubscriptionRequest::Unsubscribe(x)
                && (p.topic matches Some(t) && uri_from_proto(t) == Some(x.topic@)))
            &&& r matches Err(s) ==> s.code == UCode::InvalidArgument
        },
        decoded matches Ok(USubscriptionRequestProto::FetchSubscriptions(p)) ==> {
            &&& r is Ok <==> fetch_request_readable(p)
            &&& r matches Ok(q) ==> (q matches USubscriptionRequest::FetchSubscriptions(x) && fetch_request_read_from(p, x))
            &&& r matches Err(s) ==> s.code == UCode::InvalidArgument
        },
{
    match decoded {
        Err(text) => Err(UStatus { code: UCode::Internal, message: Some(text) }),
        Ok(USubscriptionRequestProto::Subscribe(p)) => match SubscribeRequest::try_from(&p) {
            Ok(q) => Ok(USubscriptionRequest::Subscribe(q)),
            Err(s) => Err(s),
        },
        Ok(USubscriptionRequestProto::Unsubscribe(p)) => match UnsubscribeRequest::try_from(&p) {
            Ok(q) => Ok(USubscriptionRequest::Unsubscribe(q)),
            Err(s) => Err(s),
        },
        Ok(USubscriptionRequestProto::FetchSubscriptions(p)) => match FetchSubscriptionsRequest::try_from(&p) {
            Ok(q) => Ok(USubscriptionRequest::FetchSubscriptions(q)),
            Err(s) => Err(s),
        },
    }
}

/// The protobuf message that a uSubscription response is encoded as:
/// subscribe and fetch responses have one, the other operations' responses
/// have no payload.
pub fn pack_usubscription_response(usubscription_response: USubscriptionResponse) -> (r: Result<Option<USubscriptionResponseProto>, UStatus>)
    ensures
        r is Ok,
        usubscription_response matches USubscriptionResponse::Subscribe(resp) ==> (r matches Ok(Some(USubscriptionResponseProto::Subscribe(p)))
            && (p.topic matches Some(t) && t.authority_name@ == resp.topic@.authority && t.ue_id == resp.topic@.ue_id
                && t.ue_version_major == resp.topic@.version && t.resource_id == resp.topic@.resource)
            && p.status == status_number(resp.status)),
        usubscription_response matches USubscriptionResponse::FetchSubscriptions(resp) ==> (r matches Ok(Some(USubscriptionResponseProto::FetchSubscriptions(p)))
            && p.subscriptions@.len() == resp.subscriptions@.len()
            && forall|i: int| 0 <= i < resp.subscriptions@.len()
                ==> subscription_proto_of(#[trigger] p.subscriptions@[i], resp.subscriptions@[i]@)),
        !(usubscription_response is Subscribe) && !(usubscription_response is FetchSubscriptions) ==> r == Ok::<Option<USubscriptionResponseProto>, UStatus>(None),
{
    match usubscription_response {
        USubscriptionResponse::Subscribe(response) => Ok(Some(USubscriptionResponseProto::Subscribe(SubscribeResponseProto::from(&response)))),
        USubscriptionResponse::FetchSubscriptions(response) => {
            let p = FetchSubscriptionsResponseProto::try_from(&response)?;
            Ok(Some(USubscriptionResponseProto::FetchSubscriptions(p)))
        },
        USubscriptionResponse::Unsubscribe(_) => Ok(None),
        USubscriptionResponse::RegisterForNotification(_) => Ok(None),
        USubscriptionResponse::UnregisterForNotification(_) => Ok(None),
        USubscriptionResponse::Reset(_) => Ok(None),
    }
}

} // verus!
