//! The decisions of an RPC client that keeps its pending requests in memory:
//! which requests are pending, what a response message yields, and how each
//! outcome of an invocation ends it. Sending, waiting and timing are left to
//! the caller, which reports each outcome as an `RpcEvent`.
use vstd::prelude::*;

use crate::communication::rpc::{is_invocation_error_for, ServiceInvocationError};
use crate::payload_bytes::bytes_contents;
use crate::uattributes::{clone_opt_bytes, opt_bytes_view, UMessage, UMessageType, UPayloadFormat};
use crate::ustatus::{status_message, UCode, UStatus};
use crate::uuid::UUID;
use bytes::Bytes;

verus! {

/// The payload a successful response carries: its bytes and its format
/// (`Unspecified` when the response declares none).
pub open spec fn response_payload_view(msg: UMessage) -> Option<(Seq<u8>, UPayloadFormat)> {
    match opt_bytes_view(msg.payload) {
        Some(bytes) => Some((bytes, match msg.attributes.payload_format {
            Some(f) => f,
            None => UPayloadFormat::Unspecified,
        })),
        None => None,
    }
}

/// The contents of an optional payload with its format.
pub open spec fn payload_view(p: Option<(Bytes, UPayloadFormat)>) -> Option<(Seq<u8>, UPayloadFormat)> {
    match p {
        Some((b, f)) => Some((bytes_contents(b), f)),
        None => None,
    }
}

/// Whether `s` is the status that a failed response with code `code`
/// reports: the status its payload carries when it carries one, else a
/// status with that code and a generic message.
pub open spec fn is_failure_status(code: UCode, payload_status: Option<UStatus>, s: UStatus) -> bool {
    match payload_status {
        Some(p) => s == p,
        None => s.code == code && s.message is Some
            && status_message(s) == "failed to invoke service operation"@,
    }
}

/// Whether `r` is what response `msg` yields: its payload when its status
/// is absent or `OK`, else the invocation error of its failure status.
pub open spec fn is_response_result(
    msg: UMessage,
    payload_status: Option<UStatus>,
    r: Result<Option<(Bytes, UPayloadFormat)>, ServiceInvocationError>,
) -> bool {
    match msg.attributes.commstatus {
        None | Some(UCode::OK) => r matches Ok(p) && payload_view(p) == response_payload_view(msg),
        Some(code) => r matches Err(e) && exists|s: UStatus|
            is_failure_status(code, payload_status, s) && #[trigger] is_invocation_error_for(e, s),
    }
}

/// A response without status or with status `OK` yields its own payload
/// bytes with the payload format it declares (`Unspecified` when it declares
/// none), or no payload when it carries none; a response with any other
/// status yields an error, which is that of the status its payload carries
/// when it carries one.
pub proof fn lemma_response_result(
    msg: UMessage,
    payload_status: Option<UStatus>,
    r: Result<Option<(Bytes, UPayloadFormat)>, ServiceInvocationError>,
)
    requires
        is_response_result(msg, payload_status, r),
    ensures
        (msg.attributes.commstatus is None || msg.attributes.commstatus == Some(UCode::OK)) ==> {
            &&& r is Ok
            &&& (msg.payload is None ==> (r matches Ok(p) && p is None))
            &&& (msg.payload matches Some(b) ==> (r matches Ok(Some((c, f))) && bytes_contents(c) == bytes_contents(b)
                && (msg.attributes.payload_format matches Some(g) ==> f == g)
                && (msg.attributes.payload_format is None ==> f == UPayloadFormat::Unspecified)))
        },
        (msg.attributes.commstatus matches Some(code) && code != UCode::OK) ==> {
            &&& r is Err
            &&& (payload_status matches Some(s) ==> (r matches Err(e) && is_invocation_error_for(e, s)))
        },
{
    if let Some(code) = msg.attributes.commstatus {
        if code != UCode::OK {
            if let Err(e) = r {
                if let Some(p) = payload_status {
                    let s = choose|s: UStatus| is_failure_status(code, payload_status, s) && #[trigger] is_invocation_error_for(e, s);
                    assert(s == p);
                }
            }
        }
    }
}

/// What an RPC response message yields.
///
/// A response without status or with status `OK` yields its payload (with
/// format `Unspecified` when it declares none). A failed response yields the
/// invocation error of the status that `payload_status` holds (the status
/// decoded from its payload, `None` when the payload holds none), else of a
/// status with the response's code and a generic message.
pub fn handle_response_message(
    msg: &UMessage,
    payload_status: Option<UStatus>,
) -> (r: Result<Option<(Bytes, UPayloadFormat)>, ServiceInvocationError>)
    ensures
        is_response_result(*msg, payload_status, r),
{
    match msg.attributes.commstatus {
        None | Some(UCode::OK) => {
            let format = match msg.payload_format() {
                Some(f) => f,
                None => UPayloadFormat::Unspecified,
            };
            match clone_opt_bytes(&msg.payload) {
                Some(b) => Ok(Some((b, format))),
                None => Ok(None),
            }
        },
        Some(code) => {
            let status = match payload_status {
                Some(s) => s,
                None => UStatus::fail_with_code(code, "failed to invoke service operation"),
            };
            let ghost s = status;
            let e = ServiceInvocationError::from_status(status);
            assert(is_invocation_error_for(e, s));
            Err(e)
        },
    }
}

/// The requests of an RPC client that await their response, by request id;
/// no id is pending twice.
pub struct PendingRequests {
    ids: Vec<UUID>,
}

impl View for PendingRequests {
    type V = Seq<UUID>;

    closed spec fn view(&self) -> Seq<UUID> {
        self.ids@
    }
}

impl PendingRequests {
    /// No id is pending twice.
    #[verifier::type_invariant]
    spec fn inv(self) -> bool {
        self.ids@.no_duplicates()
    }

    /// No request is pending.
    pub fn new() -> (p: PendingRequests)
        ensures
            p@ == Seq::<UUID>::empty(),
    {
        PendingRequests { ids: Vec::new() }
    }

    /// Whether request `id` is pending.
    pub fn contains(&self, id: &UUID) -> (b: bool)
        ensures
            b == self@.contains(*id),
    {
        let mut i: usize = 0;
        while i < self.ids.len()
            invariant
                i <= self.ids@.len(),
                forall|k: int| 0 <= k < i ==> self.ids@[k] != *id,
            decreases self.ids@.len() - i,
        {
            if self.ids[i].is_same(id) {
                assert(self@[i as int] == *id);
                return true;
            }
            i = i + 1;
        }
        false
    }

    /// Starts awaiting the response to request `id`.
    ///
    /// Fails with `AlreadyExists` when a request with that id is already
    /// pending; the pending requests are then unchanged.
    pub fn try_add_pending_request(&mut self, id: UUID) -> (r: Result<(), ServiceInvocationError>)
        ensures
            r is Ok <==> !old(self)@.contains(id),
            r is Ok ==> final(self)@ == old(self)@.push(id),
            r matches Err(e) ==> final(self)@ == old(self)@
                && (e matches ServiceInvocationError::AlreadyExists(m) && m@ == "RPC request with given ID already pending"@),
    {
        proof {
            use_type_invariant(&*self);
        }
        if self.contains(&id) {
            return Err(ServiceInvocationError::AlreadyExists(
                String::from_str("RPC request with given ID already pending"),
            ));
        }
        let mut ids: Vec<UUID> = Vec::new();
        std::mem::swap(&mut ids, &mut self.ids);
        let ghost before = ids@;
        ids.push(id);
        proof {
            assert forall|a: int, b: int| 0 <= a < b < ids@.len() implies ids@[a] != ids@[b] by {
                if b == ids@.len() - 1 {
                    assert(before[a] == ids@[a]);
                    assert(before.contains(before[a]));
                } else {
                    assert(before[a] == ids@[a] && before[b] == ids@[b]);
                }
            }
        }
        self.ids = ids;
        Ok(())
    }

    /// Stops awaiting the response to request `id`; returns whether it was
    /// pending. The other pending requests stay, in their order.
    pub fn remove_pending_request(&mut self, id: &UUID) -> (b: bool)
        ensures
            b == old(self)@.contains(*id),
            final(self)@ == old(self)@.filter(other_than(*id)),
            !final(self)@.contains(*id),
    {
        proof {
            use_type_invariant(&*self);
        }
        let ghost target = *id;
        let ghost ids = self.ids@;
        let mut kept: Vec<UUID> = Vec::new();
        let mut found = false;
        let mut i: usize = 0;
        while i < self.ids.len()
            invariant
                ids == self.ids@,
                i <= ids.len(),
                ids.no_duplicates(),
                kept@ == ids.take(i as int).filter(other_than(target)),
                kept@.no_duplicates(),
                forall|x: UUID| kept@.contains(x) ==> ids.take(i as int).contains(x),
                found == ids.take(i as int).contains(target),
                target == *id,
            decreases ids.len() - i,
        {
            let x = self.ids[i];
            let ghost next = ids.take(i + 1);
            assert(next =~= ids.take(i as int).push(x));
            proof {
                ids.take(i as int).lemma_filter_push(x, other_than(target));
            }
            if x.is_same(id) {
                found = true;
            } else {
                assert(!kept@.contains(x)) by {
                    if kept@.contains(x) {
                        let k = choose|k: int| 0 <= k < i && ids.take(i as int)[k] == x;
                        assert(ids[k] == ids[i as int]);
                    }
                }
                let ghost before = kept@;
                kept.push(x);
                assert(kept@ == before.push(x));
                assert forall|a: int, b: int| 0 <= a < b < kept@.len() implies kept@[a] != kept@[b] by {
                    if b == kept@.len() - 1 {
                        assert(before[a] == kept@[a]);
                        assert(before.contains(kept@[a]));
                    } else {
                        assert(before[a] == kept@[a] && before[b] == kept@[b]);
                    }
                }
                assert forall|y: UUID| kept@.contains(y) implies next.contains(y) by {
                    let k = choose|k: int| 0 <= k < kept@.len() && kept@[k] == y;
                    if k < kept@.len() - 1 {
                        assert(before[k] == y);
                        assert(before.contains(y));
                        assert(ids.take(i as int).contains(y));
                        let j = choose|j: int| 0 <= j < i && ids.take(i as int)[j] == y;
                        assert(next[j] == y);
                    } else {
                        assert(next[i as int] == y);
                    }
                }
            }
            assert(next.contains(target) == (ids.take(i as int).contains(target) || x == target)) by {
                if x == target {
                    assert(next[i as int] == target);
                }
                if ids.take(i as int).contains(target) {
                    let k = choose|k: int| 0 <= k < i && ids.take(i as int)[k] == target;
                    assert(next[k] == target);
                }
                if next.contains(target) && x != target {
                    let k = choose|k: int| 0 <= k < i + 1 && next[k] == target;
                    assert(ids.take(i as int)[k] == target);
                }
            }
            i = i + 1;
        }
        assert(ids.take(ids.len() as int) =~= ids);
        self.ids = kept;
        proof {
            if self.ids@.contains(target) {
                let k = choose|k: int| 0 <= k < self.ids@.len() && self.ids@[k] == target;
                ids.lemma_filter_pred(other_than(target), k);
            }
        }
        found
    }
}

/// The predicate of ids other than `id`.
pub open spec fn other_than(id: UUID) -> spec_fn(UUID) -> bool {
    |x: UUID| x != id
}

/// What ends an RPC invocation once its request is pending.
pub enum RpcEvent {
    /// Sending the request failed with this status.
    SendFailed(UStatus),
    /// No response arrived within the request's time-to-live.
    TimedOut,
    /// The response arrived, with the status decoded from its payload (if any).
    Response(UMessage, Option<UStatus>),
    /// The response could not be received.
    ResponseLost,
}

/// Ends the invocation of pending request `id` on `event`, which no longer
/// awaits its response afterwards (the other pending requests stay).
///
/// A failed send ends with the invocation error of its status, a timeout with
/// `DeadlineExceeded`, a lost response with `Internal`, and a response with
/// what `handle_response_message` yields for it.
pub fn rpc_step(state: &mut PendingRequests, id: &UUID, event: RpcEvent) -> (r: Result<Option<(Bytes, UPayloadFormat)>, ServiceInvocationError>)
    ensures
        final(state)@ == old(state)@.filter(other_than(*id)),
        !final(state)@.contains(*id),
        match event {
            RpcEvent::SendFailed(s) => r matches Err(e) && is_invocation_error_for(e, s),
            RpcEvent::TimedOut => r matches Err(ServiceInvocationError::DeadlineExceeded),
            RpcEvent::Response(m, st) => is_response_result(m, st, r),
            RpcEvent::ResponseLost => r matches Err(ServiceInvocationError::Internal(m))
                && m@ == "error receiving response message"@,
        },
{
    state.remove_pending_request(id);
    match event {
        RpcEvent::SendFailed(s) => Err(ServiceInvocationError::from_status(s)),
        RpcEvent::TimedOut => Err(ServiceInvocationError::DeadlineExceeded),
        RpcEvent::Response(m, st) => handle_response_message(&m, st),
        RpcEvent::ResponseLost => Err(ServiceInvocationError::Internal(String::from_str("error receiving response message"))),
    }
}

/// Whether message `msg` answers a pending request: a response whose request
/// id is pending. Such a request stops pending (its response is delivered);
/// any other message leaves the pending requests unchanged (it is ignored).
pub fn accept_response(state: &mut PendingRequests, msg: &UMessage) -> (deliver: bool)
    ensures
        deliver == (msg.attributes.type_ == UMessageType::Response && msg.attributes.reqid is Some
            && old(state)@.contains(msg.attributes.reqid.unwrap())),
        deliver ==> final(state)@ == old(state)@.filter(other_than(msg.attributes.reqid.unwrap())),
        !deliver ==> final(state)@ == old(state)@,
{
    let is_response = match msg.attributes.type_ {
        UMessageType::Response => true,
        _ => false,
    };
    if !is_response {
        return false;
    }
    match &msg.attributes.reqid {
        Some(r) => {
            if state.contains(r) {
                state.remove_pending_request(r)
            } else {
                false
            }
        },
        None => false,
    }
}

} // verus!
