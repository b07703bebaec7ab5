//! The uSubscription messages in the shape of their protobuf schema, and the
//! checked conversions between them and the library's request and response
//! types. Decoding from and encoding to protobuf bytes is the caller's part.
use vstd::prelude::*;
use vstd::string::*;

use crate::core_entities::usubscription::{
    FetchSubscriptionsRequest, FetchSubscriptionsResponse, SubscribeRequest, SubscribeResponse,
    SubscriptionInfo, SubscriptionInfoModel, SubscriptionStatus, UnsubscribeRequest,
    UnsubscribeResponse,
};
use crate::text::concat_str;
use crate::time::{Duration, SystemTime};
use crate::uri::{valid_authority, UUri, UUriError, UUriModel};
use crate::ustatus::{UCode, UStatus};

verus! {

/// A URI as the protobuf schema carries it: the version and resource id are
/// 32-bit fields there.
#[derive(Clone, Debug, PartialEq, Eq)]
pub struct UUriProto {
    pub authority_name: String,
    pub ue_id: u32,
    pub ue_version_major: u32,
    pub resource_id: u32,
}

impl Default for UUriProto {
    fn default() -> (r: UUriProto)
        ensures
            r.authority_name@ == Seq::<char>::empty(),
            r.ue_id == 0,
            r.ue_version_major == 0,
            r.resource_id == 0,
    {
        UUriProto { authority_name: String::new(), ue_id: 0, ue_version_major: 0, resource_id: 0 }
    }
}

/// A protobuf timestamp: whole seconds relative to the Unix epoch plus
/// nanoseconds counting forward (`0..1_000_000_000` in a valid timestamp).
#[derive(Clone, Copy, Debug, PartialEq, Eq)]
pub struct TimestampProto {
    pub seconds: i64,
    pub nanos: i32,
}

/// The protobuf subscribe request.
#[derive(Clone, Debug, PartialEq, Eq)]
pub struct SubscribeRequestProto {
    pub topic: Option<UUriProto>,
    pub expiration: Option<TimestampProto>,
    pub sample_period: Option<u32>,
}

impl Default for SubscribeRequestProto {
    fn default() -> (r: SubscribeRequestProto)
        ensures
            r.topic is None,
            r.expiration is None,
            r.sample_period is None,
    {
        SubscribeRequestProto { topic: None, expiration: None, sample_period: None }
    }
}

/// The protobuf unsubscribe request.
#[derive(Clone, Debug, PartialEq, Eq)]
pub struct UnsubscribeRequestProto {
    pub topic: Option<UUriProto>,
}

impl Default for UnsubscribeRequestProto {
    fn default() -> (r: UnsubscribeRequestProto)
        ensures
            r.topic is None,
    {
        UnsubscribeRequestProto { topic: None }
    }
}

/// The protobuf unsubscribe response (no fields).
#[derive(Clone, Copy, Debug, PartialEq, Eq)]
pub struct UnsubscribeResponseProto {}

/// The protobuf subscribe response; `status` is the wire number of the status.
#[derive(Clone, Debug, PartialEq, Eq)]
pub struct SubscribeResponseProto {
    pub topic: Option<UUriProto>,
    pub status: i32,
}

/// The protobuf fetch-subscriptions request.
#[derive(Clone, Debug, PartialEq, Eq)]
pub struct FetchSubscriptionsRequestProto {
    pub topic_filter: Option<UUriProto>,
    pub subscriber_filter: Option<UUriProto>,
}

/// The protobuf subscription record; `status` is the wire number of the status.
#[derive(Clone, Debug, PartialEq, Eq)]
pub struct SubscriptionInfoProto {
    pub topic: Option<UUriProto>,
    pub subscriber: Option<UUriProto>,
    pub status: i32,
    pub expiration: Option<TimestampProto>,
    pub sample_period: Option<u32>,
}

/// The protobuf fetch-subscriptions response.
#[derive(Clone, Debug, PartialEq, Eq)]
pub struct FetchSubscriptionsResponseProto {
    pub subscriptions: Vec<SubscriptionInfoProto>,
}

// ---------------------------------------------------------------------------
// URIs, statuses and timestamps
// ---------------------------------------------------------------------------

/// The URI a protobuf URI stands for, when its version fits 8 bits, its
/// resource id 16 bits and its authority is a valid authority name.
pub open spec fn uri_from_proto(p: UUriProto) -> Option<UUriModel> {
    if p.ue_version_major <= 0xFF && p.resource_id <= 0xFFFF && valid_authority(p.authority_name@) {
        Some(UUriModel {
            authority: p.authority_name@,
            ue_id: p.ue_id,
            version: p.ue_version_major as u8,
            resource: p.resource_id as u16,
        })
    } else {
        None
    }
}

impl UUriProto {
    /// The protobuf form of a URI.
    pub fn from_uri(uri: &UUri) -> (p: UUriProto)
        ensures
            uri_from_proto(p) == (if uri@.wf() { Some(uri@) } else { None }),
            p.authority_name@ == uri@.authority,
            p.ue_id == uri@.ue_id,
            p.ue_version_major == uri@.version,
            p.resource_id == uri@.resource,
    {
        UUriProto {
            authority_name: uri.authority_name().to_string(),
            ue_id: uri.ue_id(),
            ue_version_major: uri.uentity_major_version() as u32,
            resource_id: uri.resource_id() as u32,
        }
    }

    /// The URI this protobuf URI stands for.
    ///
    /// Fails when the version does not fit 8 bits, the resource id does not
    /// fit 16 bits, or the authority is not a valid authority name.
    pub fn to_uri(&self) -> (r: Result<UUri, UUriError>)
        ensures
            r is Ok <==> uri_from_proto(*self) is Some,
            r matches Ok(u) ==> Some(u@) == uri_from_proto(*self),
    {
        if self.ue_version_major > 0xFF {
            return Err(UUriError::ValidationError(String::from_str("uEntity version must be an 8 bit integer")));
        }
        if self.resource_id > 0xFFFF {
            return Err(UUriError::ValidationError(String::from_str("resource ID must be a 16 bit integer")));
        }
        UUri::try_from_parts(self.authority_name.as_str(), self.ue_id, self.ue_version_major as u8, self.resource_id as u16)
    }
}

/// The wire number of a subscription status.
pub open spec fn status_number(s: SubscriptionStatus) -> i32 {
    match s {
        SubscriptionStatus::Unsubscribed => 0,
        SubscriptionStatus::SubscribePending => 1,
        SubscriptionStatus::Subscribed => 2,
        SubscriptionStatus::UnsubscribePending => 3,
    }
}

/// The subscription status numbered `n` on the wire, if any.
pub open spec fn status_of_number(n: i32) -> Option<SubscriptionStatus> {
    if n == 0 {
        Some(SubscriptionStatus::Unsubscribed)
    } else if n == 1 {
        Some(SubscriptionStatus::SubscribePending)
    } else if n == 2 {
        Some(SubscriptionStatus::Subscribed)
    } else if n == 3 {
        Some(SubscriptionStatus::UnsubscribePending)
    } else {
        None
    }
}

/// The wire numbers of the subscription statuses are those of the protobuf
/// `SubscriptionStatus` enum: Unsubscribed 0, SubscribePending 1,
/// Subscribed 2, UnsubscribePending 3; every other number names no status.
pub proof fn lemma_status_wire_numbers(n: i32)
    ensures
        status_number(SubscriptionStatus::Unsubscribed) == 0,
        status_number(SubscriptionStatus::SubscribePending) == 1,
        status_number(SubscriptionStatus::Subscribed) == 2,
        status_number(SubscriptionStatus::UnsubscribePending) == 3,
        status_of_number(0) == Some(SubscriptionStatus::Unsubscribed),
        status_of_number(1) == Some(SubscriptionStatus::SubscribePending),
        status_of_number(2) == Some(SubscriptionStatus::Subscribed),
        status_of_number(3) == Some(SubscriptionStatus::UnsubscribePending),
        !(0 <= n <= 3) ==> status_of_number(n) is None,
{
}

/// Returns the wire number of a subscription status.
pub fn status_to_proto(status: SubscriptionStatus) -> (n: i32)
    ensures
        n == status_number(status),
        status_of_number(n) == Some(status),
{
    match status {
        SubscriptionStatus::Unsubscribed => 0,
        SubscriptionStatus::SubscribePending => 1,
        SubscriptionStatus::Subscribed => 2,
        SubscriptionStatus::UnsubscribePending => 3,
    }
}

/// Reads a subscription status from its wire number.
///
/// Fails with `InvalidArgument` for a number that names no status.
pub fn require_status(n: i32) -> (r: Result<SubscriptionStatus, UStatus>)
    ensures
        r is Ok <==> status_of_number(n) is Some,
        r matches Ok(s) ==> status_of_number(n) == Some(s),
        r matches Err(e) ==> e.code == UCode::InvalidArgument,
{
    if n == 0 {
        Ok(SubscriptionStatus::Unsubscribed)
    } else if n == 1 {
        Ok(SubscriptionStatus::SubscribePending)
    } else if n == 2 {
        Ok(SubscriptionStatus::Subscribed)
    } else if n == 3 {
        Ok(SubscriptionStatus::UnsubscribePending)
    } else {
        Err(UStatus::fail_with_code(UCode::InvalidArgument, "subscription status missing"))
    }
}

/// The time a protobuf timestamp denotes, in nanoseconds since the epoch.
pub open spec fn timestamp_nanos(ts: TimestampProto) -> int {
    ts.seconds * 1_000_000_000 + ts.nanos
}

/// Converts an optional point in time to a protobuf timestamp: whole
/// seconds (rounded down) and nonnegative nanoseconds.
pub fn system_time_as_protobuf_timestamp(time: Option<SystemTime>) -> (r: Result<Option<TimestampProto>, UStatus>)
    ensures
        r is Ok,
        time is None ==> r == Ok::<Option<TimestampProto>, UStatus>(None),
        time matches Some(t) ==> (r matches Ok(Some(ts)) && timestamp_nanos(ts) == t.nanos_since_epoch()
            && 0 <= ts.nanos < 1_000_000_000),
{
    match time {
        None => Ok(None),
        Some(t) => {
            let ts = match t.duration_since_epoch() {
                Ok(after) => {
                    let ghost n = t.nanos_since_epoch();
                    assert(after.spec_secs() <= i64::MAX) by (nonlinear_arith)
                        requires
                            after.total_nanos() == n,
                            n <= crate::time::max_time_nanos(),
                            after.total_nanos() == after.spec_secs() * 1_000_000_000 + after.spec_subsec_nanos(),
                    ;
                    TimestampProto { seconds: after.as_secs() as i64, nanos: after.subsec_nanos() as i32 }
                },
                Err(before) => {
                    let ghost n = t.nanos_since_epoch();
                    let whole = before.as_secs();
                    let sub = before.subsec_nanos();
                    assert(whole <= 0x8000_0000_0000_0000u64) by (nonlinear_arith)
                        requires
                            before.total_nanos() == -n,
                            n >= crate::time::min_time_nanos(),
                            before.total_nanos() == whole * 1_000_000_000 + sub,
                    ;
                    if sub == 0 {
                        let seconds = (-(whole as i128)) as i64;
                        TimestampProto { seconds, nanos: 0 }
                    } else {
                        assert(whole < 0x8000_0000_0000_0000u64) by (nonlinear_arith)
                            requires
                                sub < 1_000_000_000,
                                before.total_nanos() == -n,
                                n >= crate::time::min_time_nanos(),
                                before.total_nanos() == whole * 1_000_000_000 + sub,
                                sub > 0,
                        ;
                        let seconds = (-(whole as i128) - 1) as i64;
                        TimestampProto { seconds, nanos: (1_000_000_000 - sub) as i32 }
                    }
                },
            };
            Ok(Some(ts))
        },
    }
}

/// Converts an optional protobuf timestamp to the point in time it denotes.
///
/// Fails with `InvalidArgument` when the nanoseconds lie outside
/// `0..1_000_000_000`.
pub fn protobuf_timestamp_as_system_time(ts: Option<&TimestampProto>) -> (r: Result<Option<SystemTime>, UStatus>)
    ensures
        ts is None ==> r == Ok::<Option<SystemTime>, UStatus>(None),
        ts matches Some(t) ==> {
            &&& r is Ok <==> 0 <= t.nanos < 1_000_000_000
            &&& r matches Ok(o) ==> (o matches Some(x) && x.wf() && x.nanos_since_epoch() == timestamp_nanos(*t))
            &&& r matches Err(e) ==> e.code == UCode::InvalidArgument
        },
{
    match ts {
        None => Ok(None),
        Some(ts) => {
            if ts.nanos < 0 || ts.nanos >= 1_000_000_000 {
                return Err(UStatus::fail_with_code(UCode::InvalidArgument, "invalid timestamp: nanos value out of range"));
            }
            let nanos = ts.nanos as u32;
            let epoch = SystemTime::unix_epoch();
            let time = if ts.seconds >= 0 {
                let d = Duration::new(ts.seconds as u64, nanos);
                epoch.checked_add(d)
            } else {
                let whole = (-((ts.seconds as i128) + 1)) as u64;
                let d = Duration::new(whole, 1_000_000_000 - nanos);
                assert(d.total_nanos() == -timestamp_nanos(*ts)) by (nonlinear_arith)
                    requires
                        d.total_nanos() == whole * 1_000_000_000 + (1_000_000_000 - nanos),
                        whole == -(ts.seconds + 1),
                        nanos == ts.nanos,
                ;
                epoch.checked_sub(d)
            };
            match time {
                Some(t) => Ok(Some(t)),
                None => {
                    assert(false) by (nonlinear_arith)
                        requires
                            time is None,
                            ts.seconds >= 0 ==> timestamp_nanos(*ts) > crate::time::max_time_nanos(),
                            ts.seconds < 0 ==> timestamp_nanos(*ts) < crate::time::min_time_nanos(),
                            i64::MIN <= ts.seconds <= i64::MAX,
                            0 <= ts.nanos < 1_000_000_000,
                    ;
                    Err(UStatus::fail_with_code(UCode::InvalidArgument, "invalid timestamp: seconds value out of range"))
                },
            }
        },
    }
}

/// A point in time survives the trip through a protobuf timestamp.
pub proof fn lemma_timestamp_round_trip(t: SystemTime, ts: TimestampProto, back: SystemTime)
    requires
        t.wf(),
        back.wf(),
        timestamp_nanos(ts) == t.nanos_since_epoch(),
        back.nanos_since_epoch() == timestamp_nanos(ts),
    ensures
        back == t,
{
    SystemTime::lemma_determined_by_nanos(back, t);
}

/// Reads the required topic of a request: fails with `InvalidArgument` when
/// it is missing or not a valid URI.
pub fn require_topic(topic: &Option<UUriProto>) -> (r: Result<UUri, UStatus>)
    ensures
        r is Ok <==> (*topic matches Some(p) && uri_from_proto(p) is Some),
        r matches Ok(u) ==> (*topic matches Some(p) && uri_from_proto(p) == Some(u@)),
        r matches Err(e) ==> e.code == UCode::InvalidArgument,
{
    match topic {
        None => Err(UStatus::fail_with_code(UCode::InvalidArgument, "missing topic")),
        Some(p) => match p.to_uri() {
            Ok(u) => Ok(u),
            Err(UUriError::ValidationError(message)) => {
                let text = concat_str("invalid topic URI: ", message.as_str());
                Err(UStatus::fail_with_code(UCode::InvalidArgument, text.as_str()))
            },
        },
    }
}

/// The sample period carried on the wire: whole milliseconds, at most `u32::MAX`.
pub open spec fn sample_period_millis(d: Duration) -> u32 {
    if d.total_nanos() / 1_000_000 > u32::MAX { u32::MAX } else { (d.total_nanos() / 1_000_000) as u32 }
}

fn sample_period_to_proto(p: Option<Duration>) -> (r: Option<u32>)
    ensures
        p is None ==> r is None,
        p matches Some(d) ==> r == Some(sample_period_millis(d)),
{
    match p {
        None => None,
        Some(d) => {
            let millis = d.as_millis();
            if millis > 0xFFFF_FFFFu128 { Some(0xFFFF_FFFFu32) } else { Some(millis as u32) }
        },
    }
}

fn sample_period_from_proto(p: Option<u32>) -> (r: Option<Duration>)
    ensures
        p is None ==> r is None,
        p matches Some(ms) ==> (r matches Some(d) && d.total_nanos() == ms as nat * 1_000_000),
{
    match p {
        None => None,
        Some(ms) => Some(Duration::from_millis(ms as u64)),
    }
}

// ---------------------------------------------------------------------------
// Requests and responses
// ---------------------------------------------------------------------------

/// Whether a subscribe request can be read from protobuf form `p`: its
/// topic is present and valid, its expiration (if any) a valid timestamp.
pub open spec fn subscribe_request_readable(p: SubscribeRequestProto) -> bool {
    (p.topic matches Some(t) && uri_from_proto(t) is Some) && (p.expiration matches Some(ts) ==> 0 <= ts.nanos < 1_000_000_000)
}

/// Whether `q` is the subscribe request that protobuf form `p` holds.
pub open spec fn subscribe_request_read_from(p: SubscribeRequestProto, q: SubscribeRequest) -> bool {
    &&& (p.topic matches Some(t) && uri_from_proto(t) == Some(q.topic@))
    &&& (p.expiration matches Some(ts) ==> (q.expiration matches Some(e) && e.nanos_since_epoch() == timestamp_nanos(ts)))
    &&& (p.expiration is None ==> q.expiration is None)
    &&& (p.sample_period matches Some(ms) ==> (q.sample_period matches Some(d) && d.total_nanos() == ms as nat * 1_000_000))
    &&& (p.sample_period is None ==> q.sample_period is None)
}

impl SubscribeRequest {
    /// Reads a subscribe request from its protobuf form.
    ///
    /// Fails with `InvalidArgument` when the topic is missing or invalid, or
    /// the expiration timestamp is invalid.
    pub fn try_from(proto: &SubscribeRequestProto) -> (r: Result<SubscribeRequest, UStatus>)
        ensures
            r is Ok <==> subscribe_request_readable(*proto),
            r matches Ok(q) ==> subscribe_request_read_from(*proto, q),
            r matches Err(e) ==> e.code == UCode::InvalidArgument,
    {
        let topic = require_topic(&proto.topic)?;
        let expiration = protobuf_timestamp_as_system_time(proto.expiration.as_ref())?;
        Ok(SubscribeRequest { topic, expiration, sample_period: sample_period_from_proto(proto.sample_period) })
    }
}

impl SubscribeRequestProto {
    /// The protobuf form of a subscribe request: sample periods travel as
    /// whole milliseconds, at most `u32::MAX`.
    pub fn try_from(request: &SubscribeRequest) -> (r: Result<SubscribeRequestProto, UStatus>)
        ensures
            r matches Ok(p) ==> {
                &&& (p.topic matches Some(t) && t.authority_name@ == request.topic@.authority && t.ue_id == request.topic@.ue_id
                    && t.ue_version_major == request.topic@.version && t.resource_id == request.topic@.resource)
                &&& (request.expiration matches Some(e) ==> (p.expiration matches Some(ts) && timestamp_nanos(ts) == e.nanos_since_epoch()))
                &&& (request.expiration is None ==> p.expiration is None)
                &&& (request.sample_period matches Some(d) ==> p.sample_period == Some(sample_period_millis(d)))
                &&& (request.sample_period is None ==> p.sample_period is None)
            },
            r is Ok,
    {
        let expiration = system_time_as_protobuf_timestamp(request.expiration)?;
        Ok(SubscribeRequestProto {
            topic: Some(UUriProto::from_uri(&request.topic)),
            expiration,
            sample_period: sample_period_to_proto(request.sample_period),
        })
    }
}

impl UnsubscribeRequest {
    /// Reads an unsubscribe request from its protobuf form.
    ///
    /// Fails with `InvalidArgument` when the topic is missing or invalid.
    pub fn try_from(proto: &UnsubscribeRequestProto) -> (r: Result<UnsubscribeRequest, UStatus>)
        ensures
            r is Ok <==> (proto.topic matches Some(p) && uri_from_proto(p) is Some),
            r matches Ok(q) ==> (proto.topic matches Some(p) && uri_from_proto(p) == Some(q.topic@)),
            r matches Err(e) ==> e.code == UCode::InvalidArgument,
    {
        let topic = require_topic(&proto.topic)?;
        Ok(UnsubscribeRequest { topic })
    }
}

impl UnsubscribeRequestProto {
    /// The protobuf form of an unsubscribe request.
    pub fn try_from(request: &UnsubscribeRequest) -> (r: Result<UnsubscribeRequestProto, UStatus>)
        ensures
            r matches Ok(p) ==> (p.topic matches Some(t) && t.authority_name@ == request.topic@.authority
                && t.ue_id == request.topic@.ue_id && t.ue_version_major == request.topic@.version
                && t.resource_id == request.topic@.resource),
            r is Ok,
    {
        Ok(UnsubscribeRequestProto { topic: Some(UUriProto::from_uri(&request.topic)) })
    }
}

impl UnsubscribeResponse {
    /// Reads an unsubscribe response from its (empty) protobuf form.
    pub fn from(_proto: &UnsubscribeResponseProto) -> (r: UnsubscribeResponse) {
        UnsubscribeResponse {}
    }
}

impl UnsubscribeResponseProto {
    /// The (empty) protobuf form of an unsubscribe response.
    pub fn from(_response: &UnsubscribeResponse) -> (r: UnsubscribeResponseProto) {
        UnsubscribeResponseProto {}
    }
}

impl SubscribeResponse {
    /// Reads a subscribe response from its protobuf form.
    ///
    /// Fails with `InvalidArgument` when the topic is missing or invalid or
    /// the status number names no status.
    pub fn try_from(proto: &SubscribeResponseProto) -> (r: Result<SubscribeResponse, UStatus>)
        ensures
            r is Ok <==> (proto.topic matches Some(p) && uri_from_proto(p) is Some) && status_of_number(proto.status) is Some,
            r matches Ok(q) ==> (proto.topic matches Some(p) && uri_from_proto(p) == Some(q.topic@))
                && status_of_number(proto.status) == Some(q.status),
            r matches Err(e) ==> e.code == UCode::InvalidArgument,
    {
        let topic = require_topic(&proto.topic)?;
        let status = require_status(proto.status)?;
        Ok(SubscribeResponse { topic, status })
    }
}

impl SubscribeResponseProto {
    /// The protobuf form of a subscribe response.
    pub fn from(response: &SubscribeResponse) -> (p: SubscribeResponseProto)
        ensures
            p.topic matches Some(t) && t.authority_name@ == response.topic@.authority && t.ue_id == response.topic@.ue_id
                && t.ue_version_major == response.topic@.version && t.resource_id == response.topic@.resource,
            p.status == status_number(response.status),
    {
        SubscribeResponseProto { topic: Some(UUriProto::from_uri(&response.topic)), status: status_to_proto(response.status) }
    }
}

/// Reads an optional filter URI; `Err` with the given message when present and invalid.
fn optional_filter(filter: &Option<UUriProto>, message: &str) -> (r: Result<Option<UUri>, UStatus>)
    ensures
        r is Ok <==> (*filter matches Some(p) ==> uri_from_proto(p) is Some),
        r matches Ok(o) ==> match *filter {
            Some(p) => (o matches Some(u) && uri_from_proto(p) == Some(u@)),
            None => o is None,
        },
        r matches Err(e) ==> e.code == UCode::InvalidArgument && (e.message matches Some(m) && m@ == message@),
{
    match filter {
        None => Ok(None),
        Some(p) => match p.to_uri() {
            Ok(u) => Ok(Some(u)),
            Err(_) => Err(UStatus::fail_with_code(UCode::InvalidArgument, message)),
        },
    }
}

/// Whether a fetch request can be read from protobuf form `p`: each filter
/// that is present is a valid URI.
pub open spec fn fetch_request_readable(p: FetchSubscriptionsRequestProto) -> bool {
    (p.subscriber_filter matches Some(f) ==> uri_from_proto(f) is Some) && (p.topic_filter matches Some(f) ==> uri_from_proto(f) is Some)
}

/// Whether `q` is the fetch request that protobuf form `p` holds.
pub open spec fn fetch_request_read_from(p: FetchSubscriptionsRequestProto, q: FetchSubscriptionsRequest) -> bool {
    (match p.topic_filter {
        Some(f) => (q.topic_filter matches Some(u) && uri_from_proto(f) == Some(u@)),
        None => q.topic_filter is None,
    }) && (match p.subscriber_filter {
        Some(f) => (q.subscriber_filter matches Some(u) && uri_from_proto(f) == Some(u@)),
        None => q.subscriber_filter is None,
    })
}

impl FetchSubscriptionsRequest {
    /// Reads a fetch request from its protobuf form.
    ///
    /// Fails with `InvalidArgument` when the subscriber filter (checked
    /// first) or the topic filter is present and not a valid URI.
    pub fn try_from(proto: &FetchSubscriptionsRequestProto) -> (r: Result<FetchSubscriptionsRequest, UStatus>)
        ensures
            r is Ok <==> fetch_request_readable(*proto),
            r matches Ok(q) ==> fetch_request_read_from(*proto, q),
            r matches Err(e) ==> e.code == UCode::InvalidArgument,
    {
        let subscriber_filter = optional_filter(&proto.subscriber_filter, "invalid subscriber filter")?;
        let topic_filter = optional_filter(&proto.topic_filter, "invalid topic filter")?;
        Ok(FetchSubscriptionsRequest { topic_filter, subscriber_filter })
    }
}

impl FetchSubscriptionsRequestProto {
    /// The protobuf form of a fetch request.
    pub fn from(request: &FetchSubscriptionsRequest) -> (p: FetchSubscriptionsRequestProto)
        ensures
            request.topic_filter is None <==> p.topic_filter is None,
            request.subscriber_filter is None <==> p.subscriber_filter is None,
            request.topic_filter matches Some(u) ==> (p.topic_filter matches Some(t) && uri_from_proto(t) == (if u@.wf() { Some(u@) } else { None })),
            request.subscriber_filter matches Some(u) ==> (p.subscriber_filter matches Some(t) && uri_from_proto(t) == (if u@.wf() { Some(u@) } else { None })),
    {
        let topic_filter = match &request.topic_filter {
            None => None,
            Some(u) => Some(UUriProto::from_uri(u)),
        };
        let subscriber_filter = match &request.subscriber_filter {
            None => None,
            Some(u) => Some(UUriProto::from_uri(u)),
        };
        FetchSubscriptionsRequestProto { topic_filter, subscriber_filter }
    }
}

/// Whether a protobuf subscription record is readable: topic and subscriber
/// present and valid, a known status, a valid expiration timestamp.
pub open spec fn subscription_proto_readable(p: SubscriptionInfoProto) -> bool {
    &&& (p.subscriber matches Some(s) && uri_from_proto(s) is Some)
    &&& (p.topic matches Some(t) && uri_from_proto(t) is Some)
    &&& status_of_number(p.status) is Some
    &&& (p.expiration matches Some(ts) ==> 0 <= ts.nanos < 1_000_000_000)
}

/// Whether `info` is what protobuf record `p` holds.
pub open spec fn subscription_read_from(p: SubscriptionInfoProto, info: SubscriptionInfoModel) -> bool {
    &&& (p.subscriber matches Some(s) && uri_from_proto(s) == Some(info.subscriber))
    &&& (p.topic matches Some(t) && uri_from_proto(t) == Some(info.topic))
    &&& status_of_number(p.status) == Some(info.status)
    &&& (p.expiration matches Some(ts) ==> (info.expiration matches Some(e) && e.nanos_since_epoch() == timestamp_nanos(ts)))
    &&& (p.expiration is None ==> info.expiration is None)
    &&& (p.sample_period matches Some(ms) ==> (info.min_sample_period matches Some(d) && d.total_nanos() == ms as nat * 1_000_000))
    &&& (p.sample_period is None ==> info.min_sample_period is None)
}

impl SubscriptionInfo {
    /// Reads a subscription record from its protobuf form.
    ///
    /// Fails with `InvalidArgument` when the subscriber or topic is missing
    /// or invalid, the status number names no status, or the expiration
    /// timestamp is invalid.
    pub fn try_from(proto: &SubscriptionInfoProto) -> (r: Result<SubscriptionInfo, UStatus>)
        ensures
            r is Ok <==> subscription_proto_readable(*proto),
            r matches Ok(info) ==> subscription_read_from(*proto, info@),
            r matches Err(e) ==> e.code == UCode::InvalidArgument,
    {
        let subscriber = match &proto.subscriber {
            None => return Err(UStatus::fail_with_code(UCode::InvalidArgument, "subscriber missing")),
            Some(s) => match s.to_uri() {
                Ok(u) => u,
                Err(_) => return Err(UStatus::fail_with_code(UCode::InvalidArgument, "invalid subscriber")),
            },
        };
        let topic = require_topic(&proto.topic)?;
        let status = require_status(proto.status)?;
        let expiration = protobuf_timestamp_as_system_time(proto.expiration.as_ref())?;
        Ok(SubscriptionInfo::new(topic, subscriber, status, expiration, sample_period_from_proto(proto.sample_period)))
    }
}

/// Whether `p` is the protobuf form of subscription record `info`.
pub open spec fn subscription_proto_of(p: SubscriptionInfoProto, info: SubscriptionInfoModel) -> bool {
    &&& (p.subscriber matches Some(s) && s.authority_name@ == info.subscriber.authority && s.ue_id == info.subscriber.ue_id
        && s.ue_version_major == info.subscriber.version && s.resource_id == info.subscriber.resource)
    &&& (p.topic matches Some(t) && t.authority_name@ == info.topic.authority && t.ue_id == info.topic.ue_id
        && t.ue_version_major == info.topic.version && t.resource_id == info.topic.resource)
    &&& p.status == status_number(info.status)
    &&& (info.expiration matches Some(e) ==> (p.expiration matches Some(ts) && timestamp_nanos(ts) == e.nanos_since_epoch()
        && 0 <= ts.nanos < 1_000_000_000))
    &&& (info.expiration is None ==> p.expiration is None)
    &&& (info.min_sample_period matches Some(d) ==> p.sample_period == Some(sample_period_millis(d)))
    &&& (info.min_sample_period is None ==> p.sample_period is None)
}

/// A subscription record survives the trip through its protobuf form when
/// its URIs are valid and its sample period is a whole number of
/// milliseconds within 32 bits: the protobuf form is readable and reads back
/// as the same record.
pub proof fn lemma_subscription_record_round_trip(p: SubscriptionInfoProto, info: SubscriptionInfoModel, back: SubscriptionInfoModel)
    requires
        info.topic.wf(),
        info.subscriber.wf(),
        info.expiration matches Some(e) ==> e.wf(),
        info.min_sample_period matches Some(d) ==> d.wf() && d.total_nanos() % 1_000_000 == 0
            && d.total_nanos() / 1_000_000 <= u32::MAX,
        back.expiration matches Some(e) ==> e.wf(),
        back.min_sample_period matches Some(d) ==> d.wf(),
        subscription_proto_of(p, info),
        subscription_read_from(p, back),
    ensures
        subscription_proto_readable(p),
        back == info,
{
    if let Some(e) = info.expiration {
        SystemTime::lemma_determined_by_nanos(back.expiration.unwrap(), e);
    }
    if let Some(d) = info.min_sample_period {
        let ms = sample_period_millis(d);
        assert(ms as nat * 1_000_000 == d.total_nanos()) by (nonlinear_arith)
            requires
                ms == d.total_nanos() / 1_000_000,
                d.total_nanos() % 1_000_000 == 0,
        ;
        Duration::lemma_determined_by_total(back.min_sample_period.unwrap(), d);
    }
    assert(status_of_number(status_number(info.status)) == Some(info.status));
}

impl SubscriptionInfoProto {
    /// The protobuf form of a subscription record.
    pub fn try_from(info: &SubscriptionInfo) -> (r: Result<SubscriptionInfoProto, UStatus>)
        ensures
            r matches Ok(p) ==> subscription_proto_of(p, info@),
            r is Ok,
    {
        let expiration = system_time_as_protobuf_timestamp(*info.expiration())?;
        Ok(SubscriptionInfoProto {
            subscriber: Some(UUriProto::from_uri(info.subscriber())),
            topic: Some(UUriProto::from_uri(info.topic())),
            status: status_to_proto(*info.status()),
            expiration,
            sample_period: sample_period_to_proto(*info.min_sample_period()),
        })
    }
}

impl FetchSubscriptionsResponse {
    /// Reads a fetch response from its protobuf form, record by record.
    ///
    /// Fails with the first unreadable record's error.
    pub fn try_from(proto: &FetchSubscriptionsResponseProto) -> (r: Result<FetchSubscriptionsResponse, UStatus>)
        ensures
            r is Ok <==> forall|i: int| 0 <= i < proto.subscriptions@.len() ==> subscription_proto_readable(#[trigger] proto.subscriptions@[i]),
            r matches Ok(resp) ==> resp.subscriptions@.len() == proto.subscriptions@.len()
                && forall|i: int| 0 <= i < proto.subscriptions@.len() ==> subscription_read_from(#[trigger] proto.subscriptions@[i], resp.subscriptions@[i]@),
            r matches Err(e) ==> e.code == UCode::InvalidArgument,
    {
        let mut subscriptions: Vec<SubscriptionInfo> = Vec::new();
        let n = proto.subscriptions.len();
        let mut i: usize = 0;
        while i < n
            invariant
                n == proto.subscriptions@.len(),
                i <= n,
                subscriptions@.len() == i,
                forall|k: int| 0 <= k < i ==> subscription_proto_readable(#[trigger] proto.subscriptions@[k]),
                forall|k: int| 0 <= k < i ==> subscription_read_from(#[trigger] proto.subscriptions@[k], subscriptions@[k]@),
            decreases n - i,
        {
            let info = SubscriptionInfo::try_from(&proto.subscriptions[i])?;
            subscriptions.push(info);
            i = i + 1;
        }
        Ok(FetchSubscriptionsResponse { subscriptions })
    }
}

impl FetchSubscriptionsResponseProto {
    /// The protobuf form of a fetch response, record by record.
    pub fn try_from(response: &FetchSubscriptionsResponse) -> (r: Result<FetchSubscriptionsResponseProto, UStatus>)
        ensures
            r matches Ok(p) ==> p.subscriptions@.len() == response.subscriptions@.len()
                && forall|i: int| 0 <= i < response.subscriptions@.len()
                    ==> subscription_proto_of(#[trigger] p.subscriptions@[i], response.subscriptions@[i]@),
            r is Ok,
    {
        let mut subscriptions: Vec<SubscriptionInfoProto> = Vec::new();
        let n = response.subscriptions.len();
        let mut i: usize = 0;
        while i < n
            invariant
                n == response.subscriptions@.len(),
                i <= n,
                subscriptions@.len() == i,
                forall|k: int| 0 <= k < i ==> subscription_proto_of(#[trigger] subscriptions@[k], response.subscriptions@[k]@),
            decreases n - i,
        {
            let p = SubscriptionInfoProto::try_from(&response.subscriptions[i])?;
            subscriptions.push(p);
            i = i + 1;
        }
        Ok(FetchSubscriptionsResponseProto { subscriptions })
    }
}

} // verus!
