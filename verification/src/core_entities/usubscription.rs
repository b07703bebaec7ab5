//! Client-side types of the uSubscription service: subscription records,
//! requests with their validation, and the service's addresses.
use vstd::prelude::*;
use vstd::string::*;

use crate::text::concat_str;
use crate::time::{Duration, SystemTime};
use crate::uri::{UUri, UUriError, UUriModel};
use crate::ustatus::{UCode, UStatus};

verus! {

/// The uEntity type id of the uSubscription service.
pub const USUBSCRIPTION_TYPE_ID: u16 = 0;
/// The (latest) major version of the uSubscription service.
pub const USUBSCRIPTION_VERSION_MAJOR: u8 = 4;
/// Resource id of the _subscribe_ operation.
pub const RESOURCE_ID_SUBSCRIBE: u16 = 1;
/// Resource id of the _unsubscribe_ operation.
pub const RESOURCE_ID_UNSUBSCRIBE: u16 = 2;
/// Resource id of the _fetch subscriptions_ operation.
pub const RESOURCE_ID_FETCH_SUBSCRIPTIONS: u16 = 3;
/// Resource id of the _register for notifications_ operation.
pub const RESOURCE_ID_REGISTER_FOR_NOTIFICATIONS: u16 = 4;
/// Resource id of the _unregister for notifications_ operation.
pub const RESOURCE_ID_UNREGISTER_FOR_NOTIFICATIONS: u16 = 5;
/// Resource id of the _reset_ operation.
pub const RESOURCE_ID_RESET: u16 = 6;
/// Resource id of the subscription change notification topic.
pub const RESOURCE_ID_SUBSCRIPTION_CHANGE: u16 = 0x8000;

/// The state of a subscription.
#[derive(Clone, Copy, Debug, PartialEq, Eq, Structural, Hash)]
pub enum SubscriptionStatus {
    /// No subscription exists.
    Unsubscribed,
    /// The subscription is being established.
    SubscribePending,
    /// The subscription is established.
    Subscribed,
    /// The subscription is being removed.
    UnsubscribePending,
}

/// Abstract value of a [`SubscriptionInfo`].
pub ghost struct SubscriptionInfoModel {
    pub topic: UUriModel,
    pub subscriber: UUriModel,
    pub status: SubscriptionStatus,
    pub expiration: Option<SystemTime>,
    pub min_sample_period: Option<Duration>,
}

/// Information about a client-topic subscription kept by the uSubscription
/// service: topic, subscriber, status and optional delivery constraints.
#[derive(Clone, Debug, PartialEq)]
pub struct SubscriptionInfo {
    topic: UUri,
    subscriber: UUri,
    status: SubscriptionStatus,
    expiration: Option<SystemTime>,
    min_sample_period: Option<Duration>,
}

impl View for SubscriptionInfo {
    type V = SubscriptionInfoModel;

    closed spec fn view(&self) -> SubscriptionInfoModel {
        SubscriptionInfoModel {
            topic: self.topic@,
            subscriber: self.subscriber@,
            status: self.status,
            expiration: self.expiration,
            min_sample_period: self.min_sample_period,
        }
    }
}

impl SubscriptionInfo {
    /// Creates a subscription record. Without `expiration` the subscription
    /// lasts until explicitly ended; `min_sample_period` is the least time
    /// between two events forwarded to a remote subscriber.
    pub fn new(topic: UUri, subscriber: UUri, status: SubscriptionStatus, expiration: Option<SystemTime>, min_sample_period: Option<Duration>) -> (s: SubscriptionInfo)
        ensures
            s@ == (SubscriptionInfoModel { topic: topic@, subscriber: subscriber@, status, expiration, min_sample_period }),
    {
        SubscriptionInfo { topic, subscriber, status, expiration, min_sample_period }
    }

    /// Returns the subscribed topic.
    pub fn topic(&self) -> (u: &UUri)
        ensures
            u@ == self@.topic,
    {
        &self.topic
    }

    /// Returns the subscriber.
    pub fn subscriber(&self) -> (u: &UUri)
        ensures
            u@ == self@.subscriber,
    {
        &self.subscriber
    }

    /// Returns the subscription status.
    pub fn status(&self) -> (s: &SubscriptionStatus)
        ensures
            *s == self@.status,
    {
        &self.status
    }

    /// Returns the expiration time, if any.
    pub fn expiration(&self) -> (e: &Option<SystemTime>)
        ensures
            *e == self@.expiration,
    {
        &self.expiration
    }

    /// Returns the minimum sample period, if any.
    pub fn min_sample_period(&self) -> (p: &Option<Duration>)
        ensures
            *p == self@.min_sample_period,
    {
        &self.min_sample_period
    }

    /// Returns whether the subscription has status `state`.
    pub fn has_status(&self, state: SubscriptionStatus) -> (b: bool)
        ensures
            b == (self@.status == state),
    {
        self.status == state
    }
}

/// Whether `expiration` lies strictly after `now` (no expiration always does).
pub open spec fn expiration_in_future(expiration: Option<SystemTime>, now: SystemTime) -> bool {
    match expiration {
        Some(e) => e.nanos_since_epoch() > now.nanos_since_epoch(),
        None => true,
    }
}

/// Whether a sample period, when present, is longer than zero.
pub open spec fn sample_period_positive(sample_period: Option<Duration>) -> bool {
    match sample_period {
        Some(p) => p.total_nanos() > 0,
        None => true,
    }
}

/// Whether a subscription request's options are valid at time `now`: its
/// topic is a valid event topic, its expiration is in the future and its
/// sample period is longer than zero.
pub open spec fn subscribe_request_valid_at(topic: UUriModel, expiration: Option<SystemTime>, sample_period: Option<Duration>, now: SystemTime) -> bool {
    topic.is_valid_event() && expiration_in_future(expiration, now) && sample_period_positive(sample_period)
}

/// The message reporting the first invalid option of a subscription request at `now`.
pub open spec fn subscribe_request_error_message(topic: UUriModel, expiration: Option<SystemTime>, now: SystemTime) -> Option<Seq<char>> {
    if !topic.is_valid_event() {
        None
    } else if !expiration_in_future(expiration, now) {
        Some("expiration must be a timestamp in the future"@)
    } else {
        Some("sample_period must be greater than zero"@)
    }
}

/// A request to subscribe to a topic.
#[derive(Clone, Debug, PartialEq)]
pub struct SubscribeRequest {
    /// The topic to subscribe to.
    pub topic: UUri,
    /// The point in time at which the subscription expires.
    pub expiration: Option<SystemTime>,
    /// The least time between two events forwarded to the subscriber.
    pub sample_period: Option<Duration>,
}

impl SubscribeRequest {
    /// Checks that `topic` is a valid, wildcard-free event topic.
    pub fn validate_topic(topic: &UUri) -> (r: Result<(), UStatus>)
        ensures
            r is Ok <==> topic@.is_valid_event(),
            r matches Err(s) ==> s.code == UCode::InvalidArgument,
    {
        match topic.verify_event() {
            Ok(()) => Ok(()),
            Err(UUriError::ValidationError(message)) => {
                let text = concat_str("topic URI is not a valid event source: ", message.as_str());
                Err(UStatus::fail_with_code(UCode::InvalidArgument, text.as_str()))
            },
        }
    }

    /// Checks that `expiration`, when present, lies after `now`.
    pub fn validate_expiration_at(expiration: &Option<SystemTime>, now: &SystemTime) -> (r: Result<(), UStatus>)
        ensures
            r is Ok <==> expiration_in_future(*expiration, *now),
            r matches Err(s) ==> s.code == UCode::InvalidArgument
                && (s.message matches Some(m) && m@ == "expiration must be a timestamp in the future"@),
    {
        if let Some(expiration) = expiration {
            if expiration.is_at_or_before(now) {
                return Err(UStatus::fail_with_code(UCode::InvalidArgument, "expiration must be a timestamp in the future"));
            }
        }
        Ok(())
    }

    /// Checks that `expiration`, when present, lies after the current time.
    /// Whether a present expiration passes depends on the clock.
    pub fn validate_expiration(expiration: &Option<SystemTime>) -> (r: Result<(), UStatus>)
        ensures
            expiration is None ==> r is Ok,
            r matches Err(s) ==> s.code == UCode::InvalidArgument
                && (s.message matches Some(m) && m@ == "expiration must be a timestamp in the future"@),
    {
        let now = SystemTime::now();
        Self::validate_expiration_at(expiration, &now)
    }

    /// Checks that `sample_period`, when present, is longer than zero.
    pub fn validate_sample_period(sample_period: &Option<Duration>) -> (r: Result<(), UStatus>)
        ensures
            r is Ok <==> sample_period_positive(*sample_period),
            r matches Err(s) ==> s.code == UCode::InvalidArgument
                && (s.message matches Some(m) && m@ == "sample_period must be greater than zero"@),
    {
        if let Some(sample_period) = sample_period {
            if sample_period.is_zero() {
                return Err(UStatus::fail_with_code(UCode::InvalidArgument, "sample_period must be greater than zero"));
            }
        }
        Ok(())
    }

    /// Creates a request whose options are checked against time `now`.
    ///
    /// Fails with `InvalidArgument` when the topic is not a valid event
    /// topic, the expiration is not after `now`, or the sample period is zero
    /// (checked in that order).
    pub fn new_at(topic: &UUri, expiration: Option<SystemTime>, sample_period: Option<Duration>, now: &SystemTime) -> (r: Result<SubscribeRequest, UStatus>)
        ensures
            r is Ok <==> subscribe_request_valid_at(topic@, expiration, sample_period, *now),
            r matches Ok(q) ==> q.topic@ == topic@ && q.expiration == expiration && q.sample_period == sample_period,
            r matches Err(s) ==> s.code == UCode::InvalidArgument && (subscribe_request_error_message(topic@, expiration, *now) matches Some(t)
                ==> (s.message matches Some(m) && m@ == t)),
    {
        Self::validate_topic(topic)?;
        Self::validate_expiration_at(&expiration, now)?;
        Self::validate_sample_period(&sample_period)?;
        Ok(SubscribeRequest { topic: topic.clone(), expiration, sample_period })
    }

    /// Creates a request whose options are checked against the current time.
    ///
    /// Fails with `InvalidArgument` when the topic is not a valid event
    /// topic, the expiration is not in the future, or the sample period is zero.
    pub fn new(topic: &UUri, expiration: Option<SystemTime>, sample_period: Option<Duration>) -> (r: Result<SubscribeRequest, UStatus>)
        ensures
            r matches Ok(q) ==> q.topic@ == topic@ && q.expiration == expiration && q.sample_period == sample_period
                && topic@.is_valid_event() && sample_period_positive(sample_period),
            !topic@.is_valid_event() || !sample_period_positive(sample_period) ==> r is Err,
            r matches Err(s) ==> s.code == UCode::InvalidArgument,
    {
        let now = SystemTime::now();
        Self::new_at(topic, expiration, sample_period, &now)
    }

    /// Checks this request's options against time `now`, as `new_at` does.
    pub fn validate_at(&self, now: &SystemTime) -> (r: Result<(), UStatus>)
        ensures
            r is Ok <==> subscribe_request_valid_at(self.topic@, self.expiration, self.sample_period, *now),
            r matches Err(s) ==> s.code == UCode::InvalidArgument,
    {
        Self::validate_topic(&self.topic)?;
        Self::validate_expiration_at(&self.expiration, now)?;
        Self::validate_sample_period(&self.sample_period)?;
        Ok(())
    }

    /// Checks this request's options against the current time: a valid event
    /// topic, an expiration in the future and a sample period above zero.
    pub fn validate(&self) -> (r: Result<(), UStatus>)
        ensures
            r is Ok ==> self.topic@.is_valid_event() && sample_period_positive(self.sample_period),
            !self.topic@.is_valid_event() || !sample_period_positive(self.sample_period) ==> r is Err,
            r matches Err(s) ==> s.code == UCode::InvalidArgument,
    {
        let now = SystemTime::now();
        self.validate_at(&now)
    }
}

/// The response to a [`SubscribeRequest`].
#[derive(Clone, Debug, PartialEq)]
pub struct SubscribeResponse {
    /// The topic the subscription refers to.
    pub topic: UUri,
    /// The resulting status of the subscription.
    pub status: SubscriptionStatus,
}

/// A request to unsubscribe from a topic.
#[derive(Clone, Debug, PartialEq)]
pub struct UnsubscribeRequest {
    /// The topic to unsubscribe from.
    pub topic: UUri,
}

/// The response to an [`UnsubscribeRequest`].
#[derive(Clone, Copy, Debug, PartialEq, Eq)]
pub struct UnsubscribeResponse {}

/// A request to fetch subscription information, optionally filtered.
#[derive(Clone, Debug, PartialEq)]
pub struct FetchSubscriptionsRequest {
    /// Only subscriptions whose topic this filter matches.
    pub topic_filter: Option<UUri>,
    /// Only subscriptions whose subscriber this filter matches.
    pub subscriber_filter: Option<UUri>,
}

/// The response to a [`FetchSubscriptionsRequest`].
#[derive(Clone, Debug, PartialEq)]
pub struct FetchSubscriptionsResponse {
    /// The matching subscriptions.
    pub subscriptions: Vec<SubscriptionInfo>,
}

/// The address of a resource of the local uSubscription service: empty
/// authority, the service's entity id and major version, `resource_id`.
pub fn usubscription_uri(resource_id: u16) -> (u: UUri)
    ensures
        u@ == (UUriModel {
            authority: Seq::<char>::empty(),
            ue_id: USUBSCRIPTION_TYPE_ID as u32,
            version: USUBSCRIPTION_VERSION_MAJOR,
            resource: resource_id,
        }),
{
    proof {
        reveal_strlit("");
        assert(""@ =~= Seq::<char>::empty());
    }
    match UUri::try_from_parts("", USUBSCRIPTION_TYPE_ID as u32, USUBSCRIPTION_VERSION_MAJOR, resource_id) {
        Ok(u) => u,
        Err(_) => {
            assert(false);
            UUri::try_from_parts("", 0, 0, 0).unwrap()
        },
    }
}

} // verus!
