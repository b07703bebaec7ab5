//! Legacy message attributes (`UAttributes`) and messages (`UMessage`).
use vstd::prelude::*;

use crate::payload_bytes::{bytes_clone, bytes_contents};
use crate::uri::{UUri, UUriModel};
use crate::ustatus::UCode;
use crate::uuid::UUID;
use bytes::Bytes;

verus! {

/// Legacy message type.
#[derive(Clone, Copy, Debug, PartialEq, Eq, Hash)]
pub enum UMessageType {
    Publish,
    Request,
    Response,
    Notification,
}

/// Legacy priority class (numbered 1 to 7 on the wire).
#[derive(Clone, Copy, Debug, PartialEq, Eq, Hash)]
pub enum UPriority {
    CS0,
    CS1,
    CS2,
    CS3,
    CS4,
    CS5,
    CS6,
}

/// The protobuf number of a legacy message type.
pub open spec fn message_type_value(t: UMessageType) -> int {
    match t {
        UMessageType::Publish => 1,
        UMessageType::Request => 2,
        UMessageType::Response => 3,
        UMessageType::Notification => 4,
    }
}

impl UMessageType {
    /// Returns the protobuf number of this message type.
    pub fn as_i32(&self) -> (v: i32)
        ensures
            v as int == message_type_value(*self),
    {
        match self {
            UMessageType::Publish => 1,
            UMessageType::Request => 2,
            UMessageType::Response => 3,
            UMessageType::Notification => 4,
        }
    }
}

/// The protobuf number of a legacy priority (1 for CS0 to 7 for CS6).
pub open spec fn priority_value(p: UPriority) -> int {
    match p {
        UPriority::CS0 => 1,
        UPriority::CS1 => 2,
        UPriority::CS2 => 3,
        UPriority::CS3 => 4,
        UPriority::CS4 => 5,
        UPriority::CS5 => 6,
        UPriority::CS6 => 7,
    }
}

impl UPriority {
    /// Returns the protobuf number of this priority.
    pub fn as_i32(&self) -> (v: i32)
        ensures
            v as int == priority_value(*self),
    {
        match self {
            UPriority::CS0 => 1,
            UPriority::CS1 => 2,
            UPriority::CS2 => 3,
            UPriority::CS3 => 4,
            UPriority::CS4 => 5,
            UPriority::CS5 => 6,
            UPriority::CS6 => 7,
        }
    }
}

/// Legacy closed payload format enumeration (numbered 0 to 8 in declaration order).
#[derive(Clone, Copy, Debug, PartialEq, Eq, Hash)]
pub enum UPayloadFormat {
    Unspecified,
    ProtobufWrappedInAny,
    Protobuf,
    Json,
    Someip,
    SomeipTlv,
    Raw,
    Text,
    Shm,
}

/// The number of a legacy payload format.
pub open spec fn payload_format_value(f: UPayloadFormat) -> int {
    match f {
        UPayloadFormat::Unspecified => 0,
        UPayloadFormat::ProtobufWrappedInAny => 1,
        UPayloadFormat::Protobuf => 2,
        UPayloadFormat::Json => 3,
        UPayloadFormat::Someip => 4,
        UPayloadFormat::SomeipTlv => 5,
        UPayloadFormat::Raw => 6,
        UPayloadFormat::Text => 7,
        UPayloadFormat::Shm => 8,
    }
}

impl UPayloadFormat {
    /// Returns the number of this payload format.
    pub fn as_i32(&self) -> (v: i32)
        ensures
            v as int == payload_format_value(*self),
    {
        match self {
            UPayloadFormat::Unspecified => 0,
            UPayloadFormat::ProtobufWrappedInAny => 1,
            UPayloadFormat::Protobuf => 2,
            UPayloadFormat::Json => 3,
            UPayloadFormat::Someip => 4,
            UPayloadFormat::SomeipTlv => 5,
            UPayloadFormat::Raw => 6,
            UPayloadFormat::Text => 7,
            UPayloadFormat::Shm => 8,
        }
    }
}

/// Legacy message attributes.
#[derive(Debug, PartialEq)]
pub struct UAttributes {
    pub type_: UMessageType,
    pub id: UUID,
    pub source: UUri,
    pub sink: Option<UUri>,
    pub priority: Option<UPriority>,
    pub commstatus: Option<UCode>,
    pub ttl: Option<u32>,
    pub permission_level: Option<u32>,
    pub token: Option<String>,
    pub traceparent: Option<String>,
    pub reqid: Option<UUID>,
    pub payload_format: Option<UPayloadFormat>,
    pub payload_encoding_registry_id: Option<u32>,
    pub payload_encoding: Option<String>,
    pub payload_content_type: Option<String>,
}

/// Abstract value of `UAttributes`.
pub ghost struct AttributesModel {
    pub type_: UMessageType,
    pub id: UUID,
    pub source: UUriModel,
    pub sink: Option<UUriModel>,
    pub priority: Option<UPriority>,
    pub commstatus: Option<UCode>,
    pub ttl: Option<u32>,
    pub permission_level: Option<u32>,
    pub token: Option<Seq<char>>,
    pub traceparent: Option<Seq<char>>,
    pub reqid: Option<UUID>,
    pub payload_format: Option<UPayloadFormat>,
    pub payload_encoding_registry_id: Option<u32>,
    pub payload_encoding: Option<Seq<char>>,
    pub payload_content_type: Option<Seq<char>>,
}

impl View for UAttributes {
    type V = AttributesModel;

    open spec fn view(&self) -> AttributesModel {
        AttributesModel {
            type_: self.type_,
            id: self.id,
            source: self.source@,
            sink: opt_uri_view(self.sink),
            priority: self.priority,
            commstatus: self.commstatus,
            ttl: self.ttl,
            permission_level: self.permission_level,
            token: opt_str_view(self.token),
            traceparent: opt_str_view(self.traceparent),
            reqid: self.reqid,
            payload_format: self.payload_format,
            payload_encoding_registry_id: self.payload_encoding_registry_id,
            payload_encoding: opt_str_view(self.payload_encoding),
            payload_content_type: opt_str_view(self.payload_content_type),
        }
    }
}

/// The view of an optional URI.
pub open spec fn opt_uri_view(u: Option<UUri>) -> Option<UUriModel> {
    match u {
        Some(u) => Some(u@),
        None => None,
    }
}

/// The view of an optional string.
pub open spec fn opt_str_view(s: Option<String>) -> Option<Seq<char>> {
    match s {
        Some(s) => Some(s@),
        None => None,
    }
}

/// Clones an optional URI.
pub fn clone_opt_uri(u: &Option<UUri>) -> (r: Option<UUri>)
    ensures
        opt_uri_view(r) == opt_uri_view(*u),
{
    match u {
        Some(u) => Some(u.clone()),
        None => None,
    }
}

/// Clones an optional string.
pub fn clone_opt_string(s: &Option<String>) -> (r: Option<String>)
    ensures
        opt_str_view(r) == opt_str_view(*s),
{
    match s {
        Some(s) => Some(s.clone()),
        None => None,
    }
}

/// Borrows an optional string as an optional `&str`.
pub fn opt_as_str(s: &Option<String>) -> (r: Option<&str>)
    ensures
        r is Some <==> s is Some,
        r matches Some(x) ==> s matches Some(y) && x@ == y@,
{
    match s {
        Some(s) => Some(s.as_str()),
        None => None,
    }
}

impl UAttributes {
    /// Returns the legacy payload format, if set.
    pub fn payload_format(&self) -> (f: Option<UPayloadFormat>)
        ensures
            f == self.payload_format,
    {
        self.payload_format
    }

    /// Returns the open payload-encoding identity fields
    /// `(registry id, literal id, content type)`.
    pub fn open_payload_encoding_parts(&self) -> (p: (Option<u32>, Option<&str>, Option<&str>))
        ensures
            p.0 == self.payload_encoding_registry_id,
            p.1 is Some <==> self.payload_encoding is Some,
            p.1 matches Some(x) ==> self.payload_encoding matches Some(y) && x@ == y@,
            p.2 is Some <==> self.payload_content_type is Some,
            p.2 matches Some(x) ==> self.payload_content_type matches Some(y) && x@ == y@,
    {
        (
            self.payload_encoding_registry_id,
            opt_as_str(&self.payload_encoding),
            opt_as_str(&self.payload_content_type),
        )
    }

    /// Returns whether any open payload-encoding identity field is set.
    pub fn has_open_payload_encoding(&self) -> (b: bool)
        ensures
            b == (self.payload_encoding_registry_id is Some || self.payload_encoding is Some
                || self.payload_content_type is Some),
    {
        self.payload_encoding_registry_id.is_some() || self.payload_encoding.is_some()
            || self.payload_content_type.is_some()
    }
}

/// Error returned when a message cannot be built.
#[derive(Clone, Debug, PartialEq, Eq)]
pub enum UMessageError {
    /// The attributes are not valid for the message.
    AttributesValidationError(String),
}

/// A legacy message: attributes plus optional payload bytes.
#[derive(Debug, PartialEq)]
pub struct UMessage {
    pub attributes: UAttributes,
    pub payload: Option<Bytes>,
}

/// The contents of an optional payload buffer.
pub open spec fn opt_bytes_view(p: Option<Bytes>) -> Option<Seq<u8>> {
    match p {
        Some(b) => Some(bytes_contents(b)),
        None => None,
    }
}

/// Clones an optional payload buffer.
pub fn clone_opt_bytes(p: &Option<Bytes>) -> (r: Option<Bytes>)
    ensures
        opt_bytes_view(r) == opt_bytes_view(*p),
{
    match p {
        Some(b) => Some(bytes_clone(b)),
        None => None,
    }
}

impl Clone for UAttributes {
    fn clone(&self) -> (c: UAttributes)
        ensures
            c@ == self@,
    {
        UAttributes {
            type_: self.type_,
            id: self.id,
            source: self.source.clone(),
            sink: clone_opt_uri(&self.sink),
            priority: self.priority,
            commstatus: self.commstatus,
            ttl: self.ttl,
            permission_level: self.permission_level,
            token: clone_opt_string(&self.token),
            traceparent: clone_opt_string(&self.traceparent),
            reqid: self.reqid,
            payload_format: self.payload_format,
            payload_encoding_registry_id: self.payload_encoding_registry_id,
            payload_encoding: clone_opt_string(&self.payload_encoding),
            payload_content_type: clone_opt_string(&self.payload_content_type),
        }
    }
}

impl Clone for UMessage {
    fn clone(&self) -> (c: UMessage)
        ensures
            c.attributes@ == self.attributes@,
            opt_bytes_view(c.payload) == opt_bytes_view(self.payload),
    {
        UMessage { attributes: self.attributes.clone(), payload: clone_opt_bytes(&self.payload) }
    }
}

impl UMessage {
    /// Creates a message from attributes and an optional payload.
    pub fn new(attributes: UAttributes, payload: Option<Bytes>) -> (m: UMessage)
        ensures
            m.attributes == attributes,
            m.payload == payload,
    {
        UMessage { attributes, payload }
    }

    /// Returns the message attributes.
    pub fn attributes(&self) -> (a: &UAttributes)
        ensures
            *a == self.attributes,
    {
        &self.attributes
    }

    /// Returns a copy of the payload, if present.
    pub fn payload(&self) -> (p: Option<Bytes>)
        ensures
            opt_bytes_view(p) == opt_bytes_view(self.payload),
    {
        clone_opt_bytes(&self.payload)
    }

    /// Returns whether the message carries a payload (possibly empty).
    pub fn has_payload(&self) -> (b: bool)
        ensures
            b == self.payload is Some,
    {
        self.payload.is_some()
    }

    /// Returns the message id.
    pub fn id(&self) -> (id: &UUID)
        ensures
            *id == self.attributes.id,
    {
        &self.attributes.id
    }

    /// Returns the legacy payload format, if set.
    pub fn payload_format(&self) -> (f: Option<UPayloadFormat>)
        ensures
            f == self.attributes.payload_format,
    {
        self.attributes.payload_format
    }
}

} // verus!
