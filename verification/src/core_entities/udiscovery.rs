//! Types of the uDiscovery service.
use vstd::prelude::*;

use crate::uri::UUri;

verus! {

/// The uEntity (type) identifier of the uDiscovery service.
pub const UDISCOVERY_TYPE_ID: u32 = 1;
/// The (latest) major version of the uDiscovery service.
pub const UDISCOVERY_VERSION_MAJOR: u8 = 3;
/// The resource identifier of uDiscovery's _find services_ operation.
pub const RESOURCE_ID_FIND_SERVICES: u16 = 1;
/// The resource identifier of uDiscovery's _get service topics_ operation.
pub const RESOURCE_ID_GET_SERVICE_TOPICS: u16 = 2;

/// Information about a topic that a service publishes to.
#[derive(Clone, Debug)]
pub struct TopicInfo {
    pub(crate) topic: UUri,
    pub(crate) message_type: String,
    pub(crate) permission_level: Option<u32>,
    pub(crate) ttl: u32,
}

/// Abstract value of a [`TopicInfo`].
pub ghost struct TopicInfoModel {
    pub topic: crate::uri::UUriModel,
    pub message_type: Seq<char>,
    pub permission_level: Option<u32>,
    pub ttl: u32,
}

impl View for TopicInfo {
    type V = TopicInfoModel;

    closed spec fn view(&self) -> TopicInfoModel {
        TopicInfoModel {
            topic: self.topic@,
            message_type: self.message_type@,
            permission_level: self.permission_level,
            ttl: self.ttl,
        }
    }
}

impl TopicInfo {
    /// Creates topic information.
    pub fn new(topic: UUri, message_type: &str, permission_level: Option<u32>, ttl: u32) -> (t: TopicInfo)
        ensures
            t@ == (TopicInfoModel { topic: topic@, message_type: message_type@, permission_level, ttl }),
    {
        TopicInfo { topic, message_type: message_type.to_string(), permission_level, ttl }
    }

    /// Returns the topic URI.
    pub fn topic(&self) -> (u: &UUri)
        ensures
            u@ == self@.topic,
    {
        &self.topic
    }

    /// Returns the message type name.
    pub fn message_type(&self) -> (s: &str)
        ensures
            s@ == self@.message_type,
    {
        self.message_type.as_str()
    }

    /// Returns the permission level, if any.
    pub fn permission_level(&self) -> (p: Option<u32>)
        ensures
            p == self@.permission_level,
    {
        self.permission_level
    }

    /// Returns the time-to-live in seconds.
    pub fn ttl(&self) -> (t: u32)
        ensures
            t == self@.ttl,
    {
        self.ttl
    }
}

} // verus!
