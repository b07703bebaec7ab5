//! The decisions of an RPC server that dispatches requests to in-memory
//! handlers: how long a handler may take, what the outcome of a request is
//! answered with, and the attributes of that answer. Running the handler,
//! timing it and sending the answer are left to the caller.
use vstd::prelude::*;

use crate::communication::rpc::{invocation_error_code, invocation_error_message, ServiceInvocationError};
use crate::communication::in_memory_rpc_client::payload_view;
use crate::uattributes::{clone_opt_bytes, opt_bytes_view, UAttributes, UMessage, UMessageType, UPayloadFormat};
use crate::ustatus::{status_message, UCode, UStatus};
use crate::uri::UUri;
use crate::uuid::UUID;
use bytes::Bytes;

verus! {

/// The time-to-live of a request in milliseconds: its own, else 10 seconds.
pub fn rpc_request_timeout_ms(request: &UAttributes) -> (t: u32)
    ensures
        t == match request@.ttl {
            Some(v) => v,
            None => 10_000u32,
        },
{
    match request.ttl {
        Some(v) => v,
        None => 10_000,
    }
}

/// The payload a request hands to its handler: its bytes with its format
/// (`Unspecified` when it declares none).
pub fn rpc_request_payload(request: &UMessage) -> (p: Option<(Bytes, UPayloadFormat)>)
    ensures
        payload_view(p) == match opt_bytes_view(request.payload) {
            Some(bytes) => Some((bytes, match request.attributes.payload_format {
                Some(f) => f,
                None => UPayloadFormat::Unspecified,
            })),
            None => None,
        },
{
    let format = match request.payload_format() {
        Some(f) => f,
        None => UPayloadFormat::Unspecified,
    };
    match clone_opt_bytes(&request.payload) {
        Some(b) => Some((b, format)),
        None => None,
    }
}

/// What a request is answered with.
pub enum RpcReply {
    /// The handler's output payload (if any).
    Success(Option<(Bytes, UPayloadFormat)>),
    /// A failure status, sent as the answer's status and payload.
    Failure(UStatus),
}

/// The answer to the outcome of a request: `None` when the handler did not
/// finish within the request's time-to-live, else what it returned.
///
/// A handler's output is answered as it is; a handler's error with the
/// status it stands for; a timeout with `DeadlineExceeded`.
pub fn rpc_reply_for_outcome(
    outcome: Option<Result<Option<(Bytes, UPayloadFormat)>, ServiceInvocationError>>,
) -> (r: RpcReply)
    ensures
        match outcome {
            Some(Ok(p)) => r matches RpcReply::Success(q) && payload_view(q) == payload_view(p),
            Some(Err(e)) => r matches RpcReply::Failure(s) && s.code == invocation_error_code(e)
                && s.message is Some && status_message(s) == invocation_error_message(e),
            None => r matches RpcReply::Failure(s) && s.code == UCode::DeadlineExceeded
                && s.message is Some && status_message(s) == "request timed out"@,
        },
{
    match outcome {
        Some(Ok(p)) => RpcReply::Success(p),
        Some(Err(e)) => RpcReply::Failure(e.into_status()),
        None => RpcReply::Failure(ServiceInvocationError::DeadlineExceeded.into_status()),
    }
}

/// The attributes of the response to `request`, with message id `id`:
/// a response from the request's sink to its source, answering the
/// request's id, with the request's priority and time-to-live, status
/// `failure` and payload format `payload_format`.
///
/// Fails with `InvalidArgument` when the request names no sink to answer
/// from.
pub fn rpc_response_attributes(
    request: &UAttributes,
    id: UUID,
    failure: Option<UCode>,
    payload_format: Option<UPayloadFormat>,
) -> (r: Result<UAttributes, UStatus>)
    ensures
        r is Ok <==> request@.sink is Some,
        r matches Ok(a) ==> {
            &&& a@.type_ == UMessageType::Response
            &&& a@.id == id
            &&& a@.source == request@.sink.unwrap()
            &&& a@.sink == Some(request@.source)
            &&& a@.reqid == Some(request@.id)
            &&& a@.priority == request@.priority
            &&& a@.ttl == request@.ttl
            &&& a@.commstatus == failure
            &&& a@.payload_format == payload_format
            &&& a@.permission_level is None
            &&& a@.token is None
            &&& a@.traceparent is None
            &&& a@.payload_encoding_registry_id is None
            &&& a@.payload_encoding is None
            &&& a@.payload_content_type is None
        },
        r matches Err(s) ==> s.code == UCode::InvalidArgument
            && (s.message matches Some(m) && m@ == "request has no sink to respond from"@),
{
    match &request.sink {
        None => Err(UStatus::fail_with_code(UCode::InvalidArgument, "request has no sink to respond from")),
        Some(sink) => Ok(UAttributes {
            type_: UMessageType::Response,
            id,
            source: sink.clone(),
            sink: Some(request.source.clone()),
            priority: request.priority,
            commstatus: failure,
            ttl: request.ttl,
            permission_level: None,
            token: None,
            traceparent: None,
            reqid: Some(request.id),
            payload_format,
            payload_encoding_registry_id: None,
            payload_encoding: None,
            payload_content_type: None,
        }),
    }
}

/// Checks the sink filter of an RPC endpoint: its resource id must be that
/// of a method. The error is the reason an invalid filter is rejected for.
pub fn validate_sink_filter(filter: &UUri) -> (r: Result<(), String>)
    ensures
        r is Ok <==> (1 <= filter@.resource && filter@.resource < 0x8000),
        r matches Err(m) ==> m@ == "RPC endpoint's resource ID must be in range [0x0001, 0x7FFF]"@,
{
    if !filter.is_rpc_method() {
        return Err(String::from_str("RPC endpoint's resource ID must be in range [0x0001, 0x7FFF]"));
    }
    Ok(())
}

/// Checks the origin filter of an RPC endpoint, if any: its resource id must
/// be 0 (a reply-to address). The error is the reason an invalid filter is
/// rejected for.
pub fn validate_origin_filter(filter: Option<&UUri>) -> (r: Result<(), String>)
    ensures
        r is Ok <==> match filter {
            Some(u) => u@.resource == 0,
            None => true,
        },
        r matches Err(m) ==> m@ == "origin filter's resource ID must be 0"@,
{
    if let Some(uri) = filter {
        if !uri.is_rpc_response() {
            return Err(String::from_str("origin filter's resource ID must be 0"));
        }
    }
    Ok(())
}

/// Whether an invalid request can still be answered (with an
/// `InvalidArgument` status): its source must be an RPC reply-to address.
pub fn rpc_invalid_request_answerable(request: &UAttributes) -> (b: bool)
    ensures
        b == (request@.source.resource == 0),
{
    request.source.is_rpc_response()
}

} // verus!
