//! Semantic native frame metadata.
//!
//! `UFrameMetadata` carries the semantic fields of a native uProtocol frame
//! directly. Legacy compatibility lives at the edges as fallible projections
//! to and from `UAttributes` / `UMessage`: a projection fails, it never
//! truncates or silently drops information.
use vstd::prelude::*;

use crate::frame::native::NativeTypeToken;
use crate::payload_bytes::bytes_contents;
use crate::text::{append_decimal, concat3, concat_str, decimal, str_eq, str_is_empty};
use crate::time::{std_duration_debug, Duration};
use crate::uattributes::{
    clone_opt_string, clone_opt_uri, opt_bytes_view, opt_str_view, opt_uri_view,
    message_type_value, payload_format_value, priority_value, AttributesModel, UAttributes, UMessage, UMessageType, UPayloadFormat,
    UPriority,
};
use crate::uri::{event_error_text, rpc_method_error_text, rpc_response_error_text, wildcard_error_text, UUri, UUriModel};
use crate::ustatus::UCode;
use crate::uuid::UUID;
use bytes::Bytes;

verus! {

// ---------------------------------------------------------------------------
// FrameMessageKind
// ---------------------------------------------------------------------------

/// Semantic kind of a native frame.
#[derive(Clone, Copy, Debug, PartialEq, Eq, Hash)]
pub enum FrameMessageKind {
    /// An event published to a topic.
    Publish,
    /// A directed notification to one consumer.
    Notification,
    /// An RPC request.
    Request,
    /// An RPC response.
    Response,
}

/// Wire code of a frame kind: 1 = Publish, 2 = Request, 3 = Response, 4 = Notification.
pub open spec fn kind_wire_code(k: FrameMessageKind) -> u8 {
    match k {
        FrameMessageKind::Publish => 1,
        FrameMessageKind::Request => 2,
        FrameMessageKind::Response => 3,
        FrameMessageKind::Notification => 4,
    }
}

/// The frame kind denoted by a wire code, if any.
pub open spec fn kind_from_wire_code(code: u8) -> Option<FrameMessageKind> {
    if code == 1 {
        Some(FrameMessageKind::Publish)
    } else if code == 2 {
        Some(FrameMessageKind::Request)
    } else if code == 3 {
        Some(FrameMessageKind::Response)
    } else if code == 4 {
        Some(FrameMessageKind::Notification)
    } else {
        None
    }
}

/// Frame kinds and their wire codes correspond one to one.
pub proof fn lemma_kind_wire_code_round_trip(k: FrameMessageKind, code: u8)
    ensures
        kind_from_wire_code(kind_wire_code(k)) == Some(k),
        kind_from_wire_code(code) matches Some(j) ==> kind_wire_code(j) == code,
{
}

/// The frame kind of a legacy message type.
pub open spec fn kind_from_legacy(t: UMessageType) -> FrameMessageKind {
    match t {
        UMessageType::Publish => FrameMessageKind::Publish,
        UMessageType::Notification => FrameMessageKind::Notification,
        UMessageType::Request => FrameMessageKind::Request,
        UMessageType::Response => FrameMessageKind::Response,
    }
}

/// The legacy message type of a frame kind.
pub open spec fn kind_to_legacy(k: FrameMessageKind) -> UMessageType {
    match k {
        FrameMessageKind::Publish => UMessageType::Publish,
        FrameMessageKind::Notification => UMessageType::Notification,
        FrameMessageKind::Request => UMessageType::Request,
        FrameMessageKind::Response => UMessageType::Response,
    }
}

impl FrameMessageKind {
    /// Returns the wire code of this kind.
    pub fn wire_code(self) -> (c: u8)
        ensures
            c == kind_wire_code(self),
    {
        match self {
            FrameMessageKind::Publish => 1,
            FrameMessageKind::Request => 2,
            FrameMessageKind::Response => 3,
            FrameMessageKind::Notification => 4,
        }
    }

    /// Returns the kind denoted by a wire code; `None` for reserved codes.
    pub fn from_wire_code(code: u8) -> (k: Option<FrameMessageKind>)
        ensures
            k == kind_from_wire_code(code),
    {
        match code {
            1 => Some(FrameMessageKind::Publish),
            2 => Some(FrameMessageKind::Request),
            3 => Some(FrameMessageKind::Response),
            4 => Some(FrameMessageKind::Notification),
            _ => None,
        }
    }

    /// Projects a legacy message type to a frame kind, whose wire code is the
    /// type's protobuf number.
    pub fn from_legacy_type(value: UMessageType) -> (k: FrameMessageKind)
        ensures
            k == kind_from_legacy(value),
            kind_wire_code(k) as int == message_type_value(value),
            kind_to_legacy(k) == value,
    {
        match value {
            UMessageType::Publish => FrameMessageKind::Publish,
            UMessageType::Notification => FrameMessageKind::Notification,
            UMessageType::Request => FrameMessageKind::Request,
            UMessageType::Response => FrameMessageKind::Response,
        }
    }

    /// Projects this kind to the legacy message type, whose protobuf number
    /// is this kind's wire code.
    pub fn to_legacy_type(self) -> (t: UMessageType)
        ensures
            t == kind_to_legacy(self),
            message_type_value(t) == kind_wire_code(self) as int,
            kind_from_legacy(t) == self,
    {
        match self {
            FrameMessageKind::Publish => UMessageType::Publish,
            FrameMessageKind::Notification => UMessageType::Notification,
            FrameMessageKind::Request => UMessageType::Request,
            FrameMessageKind::Response => UMessageType::Response,
        }
    }
}

// ---------------------------------------------------------------------------
// FramePriority
// ---------------------------------------------------------------------------

/// QoS class of a native frame, from CS0 (lowest) to CS6 (highest).
#[derive(Clone, Copy, Debug, PartialEq, Eq, Hash, Ord)]
pub enum FramePriority {
    CS0,
    CS1,
    CS2,
    CS3,
    CS4,
    CS5,
    CS6,
}

/// Wire code of a priority: 1..=7 for CS0..=CS6 (0 means absent on the wire).
pub open spec fn priority_wire_code(p: FramePriority) -> u8 {
    match p {
        FramePriority::CS0 => 1,
        FramePriority::CS1 => 2,
        FramePriority::CS2 => 3,
        FramePriority::CS3 => 4,
        FramePriority::CS4 => 5,
        FramePriority::CS5 => 6,
        FramePriority::CS6 => 7,
    }
}

/// The priority denoted by a wire code, if any.
pub open spec fn priority_from_wire_code(code: u8) -> Option<FramePriority> {
    if code == 1 {
        Some(FramePriority::CS0)
    } else if code == 2 {
        Some(FramePriority::CS1)
    } else if code == 3 {
        Some(FramePriority::CS2)
    } else if code == 4 {
        Some(FramePriority::CS3)
    } else if code == 5 {
        Some(FramePriority::CS4)
    } else if code == 6 {
        Some(FramePriority::CS5)
    } else if code == 7 {
        Some(FramePriority::CS6)
    } else {
        None
    }
}

/// Priorities and their wire codes correspond one to one.
pub proof fn lemma_priority_wire_code_round_trip(p: FramePriority, code: u8)
    ensures
        priority_from_wire_code(priority_wire_code(p)) == Some(p),
        priority_from_wire_code(code) matches Some(q) ==> priority_wire_code(q) == code,
{
}

/// The frame priority of a legacy priority.
pub open spec fn priority_from_legacy(p: UPriority) -> FramePriority {
    match p {
        UPriority::CS0 => FramePriority::CS0,
        UPriority::CS1 => FramePriority::CS1,
        UPriority::CS2 => FramePriority::CS2,
        UPriority::CS3 => FramePriority::CS3,
        UPriority::CS4 => FramePriority::CS4,
        UPriority::CS5 => FramePriority::CS5,
        UPriority::CS6 => FramePriority::CS6,
    }
}

/// The legacy priority of a frame priority.
pub open spec fn priority_to_legacy(p: FramePriority) -> UPriority {
    match p {
        FramePriority::CS0 => UPriority::CS0,
        FramePriority::CS1 => UPriority::CS1,
        FramePriority::CS2 => UPriority::CS2,
        FramePriority::CS3 => UPriority::CS3,
        FramePriority::CS4 => UPriority::CS4,
        FramePriority::CS5 => UPriority::CS5,
        FramePriority::CS6 => UPriority::CS6,
    }
}

impl FramePriority {
    /// Returns the wire code of this priority.
    pub fn wire_code(self) -> (c: u8)
        ensures
            c == priority_wire_code(self),
    {
        match self {
            FramePriority::CS0 => 1,
            FramePriority::CS1 => 2,
            FramePriority::CS2 => 3,
            FramePriority::CS3 => 4,
            FramePriority::CS4 => 5,
            FramePriority::CS5 => 6,
            FramePriority::CS6 => 7,
        }
    }

    /// Returns the priority denoted by a wire code; `None` for 0 and reserved codes.
    pub fn from_wire_code(code: u8) -> (p: Option<FramePriority>)
        ensures
            p == priority_from_wire_code(code),
    {
        match code {
            1 => Some(FramePriority::CS0),
            2 => Some(FramePriority::CS1),
            3 => Some(FramePriority::CS2),
            4 => Some(FramePriority::CS3),
            5 => Some(FramePriority::CS4),
            6 => Some(FramePriority::CS5),
            7 => Some(FramePriority::CS6),
            _ => None,
        }
    }

    /// Projects a legacy priority to a frame priority, whose wire code is the
    /// legacy priority's protobuf number.
    pub fn from_legacy_priority(value: UPriority) -> (p: FramePriority)
        ensures
            p == priority_from_legacy(value),
            priority_wire_code(p) as int == priority_value(value),
            priority_to_legacy(p) == value,
    {
        match value {
            UPriority::CS0 => FramePriority::CS0,
            UPriority::CS1 => FramePriority::CS1,
            UPriority::CS2 => FramePriority::CS2,
            UPriority::CS3 => FramePriority::CS3,
            UPriority::CS4 => FramePriority::CS4,
            UPriority::CS5 => FramePriority::CS5,
            UPriority::CS6 => FramePriority::CS6,
        }
    }

    /// Projects this priority to the legacy priority, whose protobuf number
    /// is this priority's wire code.
    pub fn to_legacy_priority(self) -> (p: UPriority)
        ensures
            p == priority_to_legacy(self),
            priority_value(p) == priority_wire_code(self) as int,
            priority_from_legacy(p) == self,
    {
        match self {
            FramePriority::CS0 => UPriority::CS0,
            FramePriority::CS1 => UPriority::CS1,
            FramePriority::CS2 => UPriority::CS2,
            FramePriority::CS3 => UPriority::CS3,
            FramePriority::CS4 => UPriority::CS4,
            FramePriority::CS5 => UPriority::CS5,
            FramePriority::CS6 => UPriority::CS6,
        }
    }
}

// ---------------------------------------------------------------------------
// Errors
// ---------------------------------------------------------------------------

/// Errors returned by native frame metadata operations and projections.
#[derive(Clone, Debug, PartialEq, Eq)]
pub enum UFrameMetadataError {
    /// A payload encoding was constructed without any identity component.
    EmptyPayloadEncoding,
    /// A payload encoding literal id is empty.
    EmptyCustomEncodingId,
    /// A payload encoding content type is empty.
    EmptyCustomEncodingContentType,
    /// A payload encoding content type is not a valid media type.
    InvalidCustomEncodingContentType(String),
    /// `UPayloadFormat::Unspecified` is not a concrete payload encoding.
    UnspecifiedPayloadFormat,
    /// Payload bytes require a payload encoding.
    PayloadWithoutEncoding,
    /// A payload encoding requires payload bytes.
    EncodingWithoutPayload,
    /// A native payload encoding cannot be represented by legacy types.
    EncodingNotRepresentable { encoding: String },
    /// An open identity used a literal reserved for a registered legacy row.
    RegisteredPayloadEncodingAlias { literal_id: String, registered: String },
    /// A semantic field cannot be represented by legacy types.
    FieldNotRepresentable { field: &'static str, reason: String },
    /// The metadata violates the validity rules for its frame message kind.
    InvalidMetadata(String),
    /// Building a `UMessage` from projected metadata failed.
    MessageBuildError(String),
}

/// The human-readable text of a metadata error.
pub open spec fn metadata_error_text(e: UFrameMetadataError) -> Seq<char> {
    match e {
        UFrameMetadataError::EmptyPayloadEncoding => "payload encoding must have at least one identity component"@,
        UFrameMetadataError::EmptyCustomEncodingId => "custom payload encoding id is empty"@,
        UFrameMetadataError::EmptyCustomEncodingContentType => "custom payload encoding content_type is empty"@,
        UFrameMetadataError::InvalidCustomEncodingContentType(m) => "custom payload encoding content_type is invalid: "@ + m@,
        UFrameMetadataError::UnspecifiedPayloadFormat => "UPayloadFormat::Unspecified is not a concrete payload encoding"@,
        UFrameMetadataError::PayloadWithoutEncoding => "payload bytes require a payload encoding"@,
        UFrameMetadataError::EncodingWithoutPayload => "payload encoding requires payload bytes"@,
        UFrameMetadataError::EncodingNotRepresentable { encoding } =>
            "payload encoding `"@ + encoding@ + "` cannot be represented by legacy UPayloadFormat"@,
        UFrameMetadataError::RegisteredPayloadEncodingAlias { literal_id, registered } =>
            "payload encoding literal `"@ + literal_id@ + "` aliases registered encoding `"@ + registered@
                + "`; use the registered spelling"@,
        UFrameMetadataError::FieldNotRepresentable { field, reason } =>
            "frame metadata field `"@ + field@ + "` cannot be represented by legacy types: "@ + reason@,
        UFrameMetadataError::InvalidMetadata(m) => "invalid frame metadata: "@ + m@,
        UFrameMetadataError::MessageBuildError(m) => "failed to build UMessage from frame metadata: "@ + m@,
    }
}

impl UFrameMetadataError {
    /// Returns the human-readable text of this error.
    pub fn to_string(&self) -> (s: String)
        ensures
            s@ == metadata_error_text(*self),
    {
        match self {
            UFrameMetadataError::EmptyPayloadEncoding => String::from_str("payload encoding must have at least one identity component"),
            UFrameMetadataError::EmptyCustomEncodingId => String::from_str("custom payload encoding id is empty"),
            UFrameMetadataError::EmptyCustomEncodingContentType => String::from_str("custom payload encoding content_type is empty"),
            UFrameMetadataError::InvalidCustomEncodingContentType(m) => concat_str("custom payload encoding content_type is invalid: ", m.as_str()),
            UFrameMetadataError::UnspecifiedPayloadFormat => String::from_str("UPayloadFormat::Unspecified is not a concrete payload encoding"),
            UFrameMetadataError::PayloadWithoutEncoding => String::from_str("payload bytes require a payload encoding"),
            UFrameMetadataError::EncodingWithoutPayload => String::from_str("payload encoding requires payload bytes"),
            UFrameMetadataError::EncodingNotRepresentable { encoding } =>
                concat3("payload encoding `", encoding.as_str(), "` cannot be represented by legacy UPayloadFormat"),
            UFrameMetadataError::RegisteredPayloadEncodingAlias { literal_id, registered } => {
                let head = concat3("payload encoding literal `", literal_id.as_str(), "` aliases registered encoding `");
                concat3(head.as_str(), registered.as_str(), "`; use the registered spelling")
            },
            UFrameMetadataError::FieldNotRepresentable { field, reason } => {
                let head = concat3("frame metadata field `", field, "` cannot be represented by legacy types: ");
                concat_str(head.as_str(), reason.as_str())
            },
            UFrameMetadataError::InvalidMetadata(m) => concat_str("invalid frame metadata: ", m.as_str()),
            UFrameMetadataError::MessageBuildError(m) => concat_str("failed to build UMessage from frame metadata: ", m.as_str()),
        }
    }
}

fn invalid_metadata(message: &str) -> (e: UFrameMetadataError)
    ensures
        e matches UFrameMetadataError::InvalidMetadata(t) && t@ == message@,
{
    UFrameMetadataError::InvalidMetadata(String::from_str(message))
}

// ---------------------------------------------------------------------------
// Media types
// ---------------------------------------------------------------------------

/// What `mediatype::MediaType::parse` reports for `content_type`: `None` when
/// the text parses as an RFC 6838 media type, else the parser's error message.
pub uninterp spec fn media_type_parse_error(content_type: Seq<char>) -> Option<Seq<char>>;

/// Parses `content_type` with `mediatype::MediaType::parse` and returns the
/// rendered parse error, if any. The contract ties the outcome to the name
/// `media_type_parse_error`, and states that the eight registered legacy
/// media types parse (each is a type and subtype of letters, digits, `-`
/// and `_`, without suffix or parameters, which the crate's grammar
/// accepts); which other texts parse is the crate's grammar.
#[verifier::external_body]
fn parse_media_type(content_type: &str) -> (r: Option<String>)
    ensures
        r is None <==> media_type_parse_error(content_type@) is None,
        r matches Some(m) ==> media_type_parse_error(content_type@) == Some(m@),
        is_registered_media_type(content_type@) ==> r is None,
{
    match mediatype::MediaType::parse(content_type) {
        Ok(_) => None,
        Err(error) => Some(error.to_string()),
    }
}

// ---------------------------------------------------------------------------
// PayloadEncoding
// ---------------------------------------------------------------------------

/// Abstract value of a payload encoding identity.
pub ghost struct PayloadEncodingModel {
    pub registry_id: Option<u32>,
    pub literal_id: Option<Seq<char>>,
    pub content_type: Option<Seq<char>>,
}

/// Open identity of the payload representation of a native frame: up to three
/// components, a numeric registry id, a literal id and an RFC 6838 media type.
///
/// Registry ids `1..=8` are reserved for the encodings of the legacy
/// `UPayloadFormat` values; `0` is the explicit contract-defined (implicit)
/// encoding; `0xF000..=0xFFFF` are private-use ids.
#[derive(Debug, PartialEq, Eq, Hash)]
pub struct PayloadEncoding {
    registry_id: Option<u32>,
    literal_id: Option<String>,
    content_type: Option<String>,
}

impl View for PayloadEncoding {
    type V = PayloadEncodingModel;

    closed spec fn view(&self) -> PayloadEncodingModel {
        PayloadEncodingModel {
            registry_id: self.registry_id,
            literal_id: opt_str_view(self.literal_id),
            content_type: opt_str_view(self.content_type),
        }
    }
}

impl Clone for PayloadEncoding {
    fn clone(&self) -> (r: PayloadEncoding)
        ensures
            r@ == self@,
    {
        proof { use_type_invariant(self); }
        PayloadEncoding {
            registry_id: self.registry_id,
            literal_id: clone_opt_string(&self.literal_id),
            content_type: clone_opt_string(&self.content_type),
        }
    }
}

/// Whether `id` is reserved for a legacy payload format.
pub open spec fn is_legacy_id(id: u32) -> bool {
    1 <= id <= 8
}

/// Literal id of the legacy encoding with registry id `id`.
pub open spec fn legacy_literal(id: u32) -> Seq<char> {
    if id == 1 {
        "up.protobuf-wrapped-in-any"@
    } else if id == 2 {
        "up.protobuf"@
    } else if id == 3 {
        "up.json"@
    } else if id == 4 {
        "up.someip"@
    } else if id == 5 {
        "up.someip-tlv"@
    } else if id == 6 {
        "up.raw"@
    } else if id == 7 {
        "up.text"@
    } else {
        "up.shm"@
    }
}

/// Media type of the legacy encoding with registry id `id`.
pub open spec fn legacy_content_type(id: u32) -> Seq<char> {
    if id == 1 {
        "application/x-protobuf"@
    } else if id == 2 {
        "application/protobuf"@
    } else if id == 3 {
        "application/json"@
    } else if id == 4 {
        "application/x-someip"@
    } else if id == 5 {
        "application/x-someip_tlv"@
    } else if id == 6 {
        "application/octet-stream"@
    } else if id == 7 {
        "text/plain"@
    } else {
        "application/x-shm"@
    }
}

/// Whether `c` is the media type of one of the eight legacy rows.
pub open spec fn is_registered_media_type(c: Seq<char>) -> bool {
    c == legacy_content_type(1) || c == legacy_content_type(2) || c == legacy_content_type(3)
        || c == legacy_content_type(4) || c == legacy_content_type(5) || c == legacy_content_type(6)
        || c == legacy_content_type(7) || c == legacy_content_type(8)
}

/// Whether media type `c` is accepted: a registered legacy media type (each
/// of which the media type parser accepts), or any text the parser accepts.
pub open spec fn media_type_accepted(c: Seq<char>) -> bool {
    is_registered_media_type(c) || media_type_parse_error(c) is None
}

/// The full registered identity of the legacy encoding with registry id `id`.
pub open spec fn legacy_encoding(id: u32) -> PayloadEncodingModel {
    PayloadEncodingModel {
        registry_id: Some(id),
        literal_id: Some(legacy_literal(id)),
        content_type: Some(legacy_content_type(id)),
    }
}

/// The registry id of the first legacy encoding whose literal id is `lit`.
pub open spec fn legacy_id_by_literal(lit: Seq<char>) -> Option<u32> {
    if lit == legacy_literal(1) {
        Some(1u32)
    } else if lit == legacy_literal(2) {
        Some(2u32)
    } else if lit == legacy_literal(3) {
        Some(3u32)
    } else if lit == legacy_literal(4) {
        Some(4u32)
    } else if lit == legacy_literal(5) {
        Some(5u32)
    } else if lit == legacy_literal(6) {
        Some(6u32)
    } else if lit == legacy_literal(7) {
        Some(7u32)
    } else if lit == legacy_literal(8) {
        Some(8u32)
    } else {
        None
    }
}

/// Whether a payload encoding identity is well formed: some component is
/// present, present strings are nonempty, and a present content type parses
/// as a media type.
pub open spec fn encoding_valid(e: PayloadEncodingModel) -> bool {
    &&& !(e.registry_id is None && e.literal_id is None && e.content_type is None)
    &&& (e.literal_id matches Some(l) ==> l.len() > 0)
    &&& (e.content_type matches Some(c) ==> c.len() > 0 && media_type_accepted(c))
}

/// Whether `err` is the error reported for the first rule that an invalid
/// payload encoding identity `e` breaks.
pub open spec fn is_encoding_error_for(e: PayloadEncodingModel, err: UFrameMetadataError) -> bool {
    if e.registry_id is None && e.literal_id is None && e.content_type is None {
        err is EmptyPayloadEncoding
    } else if e.literal_id matches Some(l) && l.len() == 0 {
        err is EmptyCustomEncodingId
    } else if e.content_type matches Some(c) && c.len() == 0 {
        err is EmptyCustomEncodingContentType
    } else {
        err matches UFrameMetadataError::InvalidCustomEncodingContentType(m)
            && e.content_type matches Some(c) && media_type_parse_error(c) == Some(m@)
    }
}

/// The canonical spelling of a payload encoding identity: an identity that
/// names a legacy row (by registry id, else by literal id) becomes that row's
/// full registered identity; `None` when its components contradict the row.
pub open spec fn canonical_encoding(e: PayloadEncodingModel) -> Option<PayloadEncodingModel> {
    let rid = e.registry_id.unwrap();
    let lit = e.literal_id.unwrap();
    if e.registry_id is Some && is_legacy_id(rid) {
        if (e.literal_id is Some && lit != legacy_literal(rid))
            || (e.content_type is Some && e.content_type.unwrap() != legacy_content_type(rid)) {
            None
        } else {
            Some(legacy_encoding(rid))
        }
    } else if e.literal_id is Some && legacy_id_by_literal(lit) is Some {
        let id = legacy_id_by_literal(lit).unwrap();
        if e.content_type is Some && e.content_type.unwrap() != legacy_content_type(id) {
            None
        } else {
            Some(legacy_encoding(id))
        }
    } else {
        Some(e)
    }
}

/// The identity denoted by a bare registry id: the full legacy identity for
/// ids `1..=8`, else the id alone.
pub open spec fn encoding_from_id(id: u32) -> PayloadEncodingModel {
    if is_legacy_id(id) {
        legacy_encoding(id)
    } else {
        PayloadEncodingModel { registry_id: Some(id), literal_id: None, content_type: None }
    }
}

/// The legacy payload format numbered `v`, if any.
pub open spec fn legacy_format_of(v: u32) -> Option<UPayloadFormat> {
    if v == 1 {
        Some(UPayloadFormat::ProtobufWrappedInAny)
    } else if v == 2 {
        Some(UPayloadFormat::Protobuf)
    } else if v == 3 {
        Some(UPayloadFormat::Json)
    } else if v == 4 {
        Some(UPayloadFormat::Someip)
    } else if v == 5 {
        Some(UPayloadFormat::SomeipTlv)
    } else if v == 6 {
        Some(UPayloadFormat::Raw)
    } else if v == 7 {
        Some(UPayloadFormat::Text)
    } else if v == 8 {
        Some(UPayloadFormat::Shm)
    } else {
        None
    }
}

/// The legacy payload format of an encoding identity, if its registry id is
/// a legacy id.
pub open spec fn encoding_legacy_format(e: PayloadEncodingModel) -> Option<UPayloadFormat> {
    match e.registry_id {
        Some(id) => legacy_format_of(id),
        None => None,
    }
}

/// The diagnostic identity of an encoding: its literal id, else
/// `registry:<id>`, else its content type, else `<empty>`.
pub open spec fn encoding_description(e: PayloadEncodingModel) -> Seq<char> {
    if e.literal_id is Some {
        e.literal_id.unwrap()
    } else if e.registry_id is Some {
        "registry:"@ + decimal(e.registry_id.unwrap() as nat)
    } else if e.content_type is Some {
        e.content_type.unwrap()
    } else {
        "<empty>"@
    }
}

/// Why identity components contradict the legacy row they name: the
/// registry id (with the identity's description), else the literal id and
/// its content type.
pub open spec fn canonical_conflict_text(e: PayloadEncodingModel) -> Seq<char> {
    if e.registry_id is Some && is_legacy_id(e.registry_id.unwrap()) {
        "payload encoding registry id "@ + decimal(e.registry_id.unwrap() as nat) + " conflicts with `"@
            + encoding_description(e) + "`"@
    } else {
        "payload encoding literal `"@ + e.literal_id.unwrap() + "` conflicts with content type `"@
            + (if e.content_type is Some { e.content_type.unwrap() } else { "<absent>"@ }) + "`"@
    }
}

/// The description of identity components, as `describe` gives it.
fn describe_parts(registry_id: Option<u32>, literal_id: &Option<String>, content_type: &Option<String>) -> (s: String)
    ensures
        s@ == encoding_description(parts_model(registry_id, *literal_id, *content_type)),
{
    if let Some(literal) = literal_id {
        return literal.clone();
    }
    if let Some(id) = registry_id {
        let mut out = String::from_str("registry:");
        append_decimal(&mut out, id);
        return out;
    }
    match content_type {
        Some(c) => c.clone(),
        None => String::from_str("<empty>"),
    }
}

fn legacy_literal_str(id: u32) -> (s: &'static str)
    requires
        is_legacy_id(id),
    ensures
        s@ == legacy_literal(id),
{
    if id == 1 {
        "up.protobuf-wrapped-in-any"
    } else if id == 2 {
        "up.protobuf"
    } else if id == 3 {
        "up.json"
    } else if id == 4 {
        "up.someip"
    } else if id == 5 {
        "up.someip-tlv"
    } else if id == 6 {
        "up.raw"
    } else if id == 7 {
        "up.text"
    } else {
        "up.shm"
    }
}

fn legacy_content_type_str(id: u32) -> (s: &'static str)
    requires
        is_legacy_id(id),
    ensures
        s@ == legacy_content_type(id),
{
    if id == 1 {
        "application/x-protobuf"
    } else if id == 2 {
        "application/protobuf"
    } else if id == 3 {
        "application/json"
    } else if id == 4 {
        "application/x-someip"
    } else if id == 5 {
        "application/x-someip_tlv"
    } else if id == 6 {
        "application/octet-stream"
    } else if id == 7 {
        "text/plain"
    } else {
        "application/x-shm"
    }
}

/// The identity spelled by optional components.
pub open spec fn parts_model(registry_id: Option<u32>, literal_id: Option<String>, content_type: Option<String>) -> PayloadEncodingModel {
    PayloadEncodingModel { registry_id, literal_id: opt_str_view(literal_id), content_type: opt_str_view(content_type) }
}

/// Checks identity components: some component present, present strings
/// nonempty, a present content type a valid media type.
fn validate_parts(registry_id: Option<u32>, literal_id: &Option<String>, content_type: &Option<String>) -> (r: Result<(), UFrameMetadataError>)
    ensures
        r is Ok <==> encoding_valid(parts_model(registry_id, *literal_id, *content_type)),
        r matches Err(err) ==> is_encoding_error_for(parts_model(registry_id, *literal_id, *content_type), err),
{
    if registry_id.is_none() && literal_id.is_none() && content_type.is_none() {
        return Err(UFrameMetadataError::EmptyPayloadEncoding);
    }
    if let Some(literal_id) = literal_id {
        if str_is_empty(literal_id.as_str()) {
            return Err(UFrameMetadataError::EmptyCustomEncodingId);
        }
    }
    if let Some(content_type) = content_type {
        if str_is_empty(content_type.as_str()) {
            return Err(UFrameMetadataError::EmptyCustomEncodingContentType);
        }
        if let Some(message) = parse_media_type(content_type.as_str()) {
            return Err(UFrameMetadataError::InvalidCustomEncodingContentType(message));
        }
    }
    Ok(())
}

/// The canonical encoding spelled by identity components, or
/// `InvalidMetadata` when they contradict the legacy row they name.
fn canonicalize_parts(registry_id: Option<u32>, literal_id: Option<String>, content_type: Option<String>) -> (r: Result<PayloadEncoding, UFrameMetadataError>)
    ensures
        r is Ok <==> canonical_encoding(parts_model(registry_id, literal_id, content_type)) is Some,
        r matches Ok(c) ==> Some(c@) == canonical_encoding(parts_model(registry_id, literal_id, content_type)),
        r matches Err(err) ==> err matches UFrameMetadataError::InvalidMetadata(t)
            && t@ == canonical_conflict_text(parts_model(registry_id, literal_id, content_type)),
{
    if let Some(id) = registry_id {
        if 1 <= id && id <= 8 {
            let literal_conflict = match &literal_id {
                Some(l) => !str_eq(l.as_str(), legacy_literal_str(id)),
                None => false,
            };
            let content_conflict = match &content_type {
                Some(c) => !str_eq(c.as_str(), legacy_content_type_str(id)),
                None => false,
            };
            if literal_conflict || content_conflict {
                let mut t = String::from_str("payload encoding registry id ");
                append_decimal(&mut t, id);
                t.append(" conflicts with `");
                t.append(describe_parts(registry_id, &literal_id, &content_type).as_str());
                t.append("`");
                return Err(UFrameMetadataError::InvalidMetadata(t));
            }
            return Ok(PayloadEncoding::legacy(id));
        }
    }
    if let Some(literal) = &literal_id {
        if let Some(id) = PayloadEncoding::legacy_id_by_literal_id(literal.as_str()) {
            let content_conflict = match &content_type {
                Some(c) => !str_eq(c.as_str(), legacy_content_type_str(id)),
                None => false,
            };
            if content_conflict {
                let mut t = String::from_str("payload encoding literal `");
                t.append(literal.as_str());
                t.append("` conflicts with content type `");
                match &content_type {
                    Some(c) => t.append(c.as_str()),
                    None => t.append("<absent>"),
                }
                t.append("`");
                return Err(UFrameMetadataError::InvalidMetadata(t));
            }
            return Ok(PayloadEncoding::legacy(id));
        }
    }
    Ok(PayloadEncoding { registry_id, literal_id, content_type })
}

impl PayloadEncoding {
    /// Every payload encoding is spelled canonically: an identity that names
    /// a legacy row is that row's full registered identity.
    #[verifier::type_invariant]
    spec fn inv(self) -> bool {
        canonical_encoding(self@) == Some(self@)
    }
}

/// The eight registered legacy rows: registry id, literal id and media type
/// of each, as the payload encoding registry fixes them.
pub proof fn lemma_legacy_rows()
    ensures
        legacy_encoding(1) == (PayloadEncodingModel { registry_id: Some(1u32), literal_id: Some("up.protobuf-wrapped-in-any"@), content_type: Some("application/x-protobuf"@) }),
        legacy_encoding(2) == (PayloadEncodingModel { registry_id: Some(2u32), literal_id: Some("up.protobuf"@), content_type: Some("application/protobuf"@) }),
        legacy_encoding(3) == (PayloadEncodingModel { registry_id: Some(3u32), literal_id: Some("up.json"@), content_type: Some("application/json"@) }),
        legacy_encoding(4) == (PayloadEncodingModel { registry_id: Some(4u32), literal_id: Some("up.someip"@), content_type: Some("application/x-someip"@) }),
        legacy_encoding(5) == (PayloadEncodingModel { registry_id: Some(5u32), literal_id: Some("up.someip-tlv"@), content_type: Some("application/x-someip_tlv"@) }),
        legacy_encoding(6) == (PayloadEncodingModel { registry_id: Some(6u32), literal_id: Some("up.raw"@), content_type: Some("application/octet-stream"@) }),
        legacy_encoding(7) == (PayloadEncodingModel { registry_id: Some(7u32), literal_id: Some("up.text"@), content_type: Some("text/plain"@) }),
        legacy_encoding(8) == (PayloadEncodingModel { registry_id: Some(8u32), literal_id: Some("up.shm"@), content_type: Some("application/x-shm"@) }),
{
}

/// Every legacy row is a valid payload encoding identity: its literal id
/// and media type are nonempty, and its media type is a registered one.
pub proof fn lemma_legacy_encoding_valid(id: u32)
    requires
        is_legacy_id(id),
    ensures
        encoding_valid(legacy_encoding(id)),
{
    reveal_strlit("up.protobuf-wrapped-in-any");
    reveal_strlit("up.protobuf");
    reveal_strlit("up.json");
    reveal_strlit("up.someip");
    reveal_strlit("up.someip-tlv");
    reveal_strlit("up.raw");
    reveal_strlit("up.text");
    reveal_strlit("up.shm");
    reveal_strlit("application/x-protobuf");
    reveal_strlit("application/protobuf");
    reveal_strlit("application/json");
    reveal_strlit("application/x-someip");
    reveal_strlit("application/x-someip_tlv");
    reveal_strlit("application/octet-stream");
    reveal_strlit("text/plain");
    reveal_strlit("application/x-shm");
}

impl PayloadEncoding {
    /// The full registered identity of the legacy row with registry id `id`,
    /// which is a valid identity.
    pub fn legacy(id: u32) -> (e: PayloadEncoding)
        requires
            is_legacy_id(id),
        ensures
            e@ == legacy_encoding(id),
            encoding_valid(e@),
    {
        proof {
            lemma_legacy_encoding_valid(id);
        }
        PayloadEncoding {
            registry_id: Some(id),
            literal_id: Some(String::from_str(legacy_literal_str(id))),
            content_type: Some(String::from_str(legacy_content_type_str(id))),
        }
    }

    /// Protocol Buffers payload wrapped in `google.protobuf.Any` (registry id 1).
    pub fn protobuf_wrapped_in_any() -> (e: PayloadEncoding)
        ensures
            e@ == legacy_encoding(1),
            encoding_valid(e@),
    {
        Self::legacy(1)
    }

    /// Protocol Buffers payload (registry id 2).
    pub fn protobuf() -> (e: PayloadEncoding)
        ensures
            e@ == legacy_encoding(2),
            encoding_valid(e@),
    {
        Self::legacy(2)
    }

    /// JSON payload (registry id 3).
    pub fn json() -> (e: PayloadEncoding)
        ensures
            e@ == legacy_encoding(3),
            encoding_valid(e@),
    {
        Self::legacy(3)
    }

    /// SOME/IP payload (registry id 4).
    pub fn someip() -> (e: PayloadEncoding)
        ensures
            e@ == legacy_encoding(4),
            encoding_valid(e@),
    {
        Self::legacy(4)
    }

    /// SOME/IP TLV payload (registry id 5).
    pub fn someip_tlv() -> (e: PayloadEncoding)
        ensures
            e@ == legacy_encoding(5),
            encoding_valid(e@),
    {
        Self::legacy(5)
    }

    /// Raw binary payload (registry id 6).
    pub fn raw() -> (e: PayloadEncoding)
        ensures
            e@ == legacy_encoding(6),
            encoding_valid(e@),
    {
        Self::legacy(6)
    }

    /// UTF-8 text payload (registry id 7).
    pub fn text() -> (e: PayloadEncoding)
        ensures
            e@ == legacy_encoding(7),
            encoding_valid(e@),
    {
        Self::legacy(7)
    }

    /// Shared-memory reference payload (registry id 8).
    pub fn shm() -> (e: PayloadEncoding)
        ensures
            e@ == legacy_encoding(8),
            encoding_valid(e@),
    {
        Self::legacy(8)
    }

    /// The explicit contract-defined encoding (registry id 0).
    pub fn implicit() -> (e: PayloadEncoding)
        ensures
            e@ == encoding_from_id(0),
    {
        PayloadEncoding { registry_id: Some(0), literal_id: None, content_type: None }
    }

    /// All eight legacy-compatible encodings, in registry-id order.
    pub fn legacy_compatible() -> (v: Vec<PayloadEncoding>)
        ensures
            v@.len() == 8,
            forall|i: int| 0 <= i < 8 ==> (#[trigger] v@[i])@ == legacy_encoding((i + 1) as u32),
    {
        let mut v: Vec<PayloadEncoding> = Vec::new();
        let mut id: u32 = 1;
        while id <= 8
            invariant
                1 <= id <= 9,
                v@.len() == id - 1,
                forall|i: int| 0 <= i < v@.len() ==> (#[trigger] v@[i])@ == legacy_encoding((i + 1) as u32),
            decreases 9 - id,
        {
            v.push(Self::legacy(id));
            id = id + 1;
        }
        v
    }

    fn legacy_id_by_literal_id(literal_id: &str) -> (r: Option<u32>)
        ensures
            r == legacy_id_by_literal(literal_id@),
    {
        let mut id: u32 = 1;
        while id <= 8
            invariant
                1 <= id <= 9,
                forall|j: u32| 1 <= j < id ==> literal_id@ != #[trigger] legacy_literal(j),
            decreases 9 - id,
        {
            if str_eq(literal_id, legacy_literal_str(id)) {
                return Some(id);
            }
            id = id + 1;
        }
        None
    }

    /// Checks that some component is present, that present strings are
    /// nonempty, and that a present content type is a valid media type.
    pub fn validate(&self) -> (r: Result<(), UFrameMetadataError>)
        ensures
            r is Ok <==> encoding_valid(self@),
            r matches Err(err) ==> is_encoding_error_for(self@, err),
    {
        validate_parts(self.registry_id, &self.literal_id, &self.content_type)
    }

    /// Creates a validated custom payload encoding from a literal id and a
    /// media type.
    ///
    /// Fails when the literal id or the content type is empty, when the
    /// content type is not a media type, or when the literal id is the
    /// literal of a registered legacy encoding.
    pub fn custom(id: &str, content_type: &str) -> (r: Result<PayloadEncoding, UFrameMetadataError>)
        ensures
            ({
                let e = PayloadEncodingModel {
                    registry_id: None,
                    literal_id: Some(id@),
                    content_type: Some(content_type@),
                };
                &&& r is Ok <==> encoding_valid(e) && legacy_id_by_literal(id@) is None
                &&& r matches Ok(x) ==> x@ == e
                &&& r matches Err(err) ==> if !encoding_valid(e) {
                    is_encoding_error_for(e, err)
                } else {
                    err matches UFrameMetadataError::RegisteredPayloadEncodingAlias { literal_id, registered }
                        && literal_id@ == id@
                        && registered@ == legacy_literal(legacy_id_by_literal(id@).unwrap())
                }
            }),
    {
        let literal = Some(String::from_str(id));
        let media = Some(String::from_str(content_type));
        validate_parts(None, &literal, &media)?;
        if let Some(legacy) = Self::legacy_id_by_literal_id(id) {
            return Err(UFrameMetadataError::RegisteredPayloadEncodingAlias {
                literal_id: String::from_str(id),
                registered: String::from_str(legacy_literal_str(legacy)),
            });
        }
        canonicalize_parts(None, literal, media)
    }

    /// Creates a validated payload encoding from explicit identity components,
    /// canonicalizing identities that name a legacy row.
    ///
    /// Fails when all components are absent, a present string is empty, the
    /// content type is not a media type, or the components contradict the
    /// legacy row they name.
    pub fn from_parts(registry_id: Option<u32>, literal_id: Option<String>, content_type: Option<String>) -> (r: Result<PayloadEncoding, UFrameMetadataError>)
        ensures
            ({
                let e = PayloadEncodingModel {
                    registry_id: registry_id,
                    literal_id: opt_str_view(literal_id),
                    content_type: opt_str_view(content_type),
                };
                &&& r is Ok <==> encoding_valid(e) && canonical_encoding(e) is Some
                &&& r matches Ok(x) ==> Some(x@) == canonical_encoding(e)
                &&& r matches Err(err) ==> if !encoding_valid(e) {
                    is_encoding_error_for(e, err)
                } else {
                    err matches UFrameMetadataError::InvalidMetadata(t) && t@ == canonical_conflict_text(e)
                }
            }),
    {
        validate_parts(registry_id, &literal_id, &content_type)?;
        canonicalize_parts(registry_id, literal_id, content_type)
    }

    /// Creates the encoding denoted by a bare registry id (ids above `0xFFFF`
    /// are not registry ids and are rejected).
    pub fn from_id(id: u32) -> (r: Result<PayloadEncoding, UFrameMetadataError>)
        ensures
            r is Ok <==> id <= 0xFFFF,
            r matches Ok(x) ==> x@ == encoding_from_id(id),
            r matches Err(err) ==> err matches UFrameMetadataError::InvalidMetadata(t)
                && t@ == "payload-encoding identifier exceeds 65535"@,
    {
        if id > 0xFFFF {
            return Err(invalid_metadata("payload-encoding identifier exceeds 65535"));
        }
        if 1 <= id && id <= 8 {
            Ok(Self::legacy(id))
        } else {
            Ok(PayloadEncoding { registry_id: Some(id), literal_id: None, content_type: None })
        }
    }

    /// Returns the registered numeric identity, if present.
    pub fn registry_id(&self) -> (id: Option<u32>)
        ensures
            id == self@.registry_id,
    {
        self.registry_id
    }

    /// Returns the literal identity, if present.
    pub fn literal_id(&self) -> (l: Option<&str>)
        ensures
            l is Some <==> self@.literal_id is Some,
            l matches Some(s) ==> self@.literal_id == Some(s@),
    {
        match &self.literal_id {
            Some(s) => Some(s.as_str()),
            None => None,
        }
    }

    /// Returns the media type, if present.
    pub fn content_type(&self) -> (c: Option<&str>)
        ensures
            c is Some <==> self@.content_type is Some,
            c matches Some(s) ==> self@.content_type == Some(s@),
    {
        match &self.content_type {
            Some(s) => Some(s.as_str()),
            None => None,
        }
    }

    /// Returns `(literal_id, content_type)` when both are present.
    pub fn custom_identity(&self) -> (r: Option<(&str, &str)>)
        ensures
            r is Some <==> self@.literal_id is Some && self@.content_type is Some,
            r matches Some(p) ==> self@.literal_id == Some(p.0@) && self@.content_type == Some(p.1@),
    {
        match (self.literal_id(), self.content_type()) {
            (Some(id), Some(content_type)) => Some((id, content_type)),
            _ => None,
        }
    }

    /// Returns whether this identity is exactly `expected`.
    pub fn is_compatible_with(&self, expected: &PayloadEncoding) -> (b: bool)
        ensures
            b == (self@ == expected@),
    {
        let literal_same = match (&self.literal_id, &expected.literal_id) {
            (Some(a), Some(b)) => str_eq(a.as_str(), b.as_str()),
            (None, None) => true,
            _ => false,
        };
        let content_same = match (&self.content_type, &expected.content_type) {
            (Some(a), Some(b)) => str_eq(a.as_str(), b.as_str()),
            (None, None) => true,
            _ => false,
        };
        self.registry_id == expected.registry_id && literal_same && content_same
    }

    /// Returns whether this is a private-use registry id (`0xF000..=0xFFFF`).
    pub fn is_private_use(&self) -> (b: bool)
        ensures
            b == (self@.registry_id matches Some(id) && 0xF000 <= id <= 0xFFFF),
    {
        match self.registry_id {
            Some(id) => 0xF000 <= id && id <= 0xFFFF,
            None => false,
        }
    }

    /// Projects a legacy payload format to its reserved registered encoding.
    ///
    /// Fails for `UPayloadFormat::Unspecified`, which names no encoding.
    pub fn try_from_legacy_format(format: UPayloadFormat) -> (r: Result<PayloadEncoding, UFrameMetadataError>)
        ensures
            r is Ok <==> format != UPayloadFormat::Unspecified,
            r matches Ok(e) ==> e@ == legacy_encoding(payload_format_value(format) as u32),
            r matches Ok(e) ==> encoding_valid(e@),
            r matches Err(err) ==> err is UnspecifiedPayloadFormat,
    {
        let value = format.as_i32();
        if value == 0 {
            Err(UFrameMetadataError::UnspecifiedPayloadFormat)
        } else {
            Ok(Self::legacy(value as u32))
        }
    }

    /// Projects this encoding to the legacy payload format; `None` outside the
    /// reserved legacy registry ids.
    pub fn to_legacy_format(&self) -> (f: Option<UPayloadFormat>)
        ensures
            f == encoding_legacy_format(self@),
    {
        match self.registry_id {
            Some(1) => Some(UPayloadFormat::ProtobufWrappedInAny),
            Some(2) => Some(UPayloadFormat::Protobuf),
            Some(3) => Some(UPayloadFormat::Json),
            Some(4) => Some(UPayloadFormat::Someip),
            Some(5) => Some(UPayloadFormat::SomeipTlv),
            Some(6) => Some(UPayloadFormat::Raw),
            Some(7) => Some(UPayloadFormat::Text),
            Some(8) => Some(UPayloadFormat::Shm),
            _ => None,
        }
    }

    /// Returns a diagnostic identity string for error messages.
    pub fn describe(&self) -> (s: String)
        ensures
            s@ == encoding_description(self@),
    {
        describe_parts(self.registry_id, &self.literal_id, &self.content_type)
    }
}


/// The view of an optional payload encoding.
pub open spec fn opt_encoding_view(e: Option<PayloadEncoding>) -> Option<PayloadEncodingModel> {
    match e {
        Some(e) => Some(e@),
        None => None,
    }
}

// ---------------------------------------------------------------------------
// UFrameMetadata
// ---------------------------------------------------------------------------

/// Abstract value of native frame metadata.
pub ghost struct FrameMetadataModel {
    pub kind: FrameMessageKind,
    pub id: UUID,
    pub source: UUriModel,
    pub sink: Option<UUriModel>,
    pub reqid: Option<UUID>,
    pub priority: Option<FramePriority>,
    pub ttl: Option<Duration>,
    pub comm_status: Option<UCode>,
    pub permission_level: Option<u32>,
    pub token: Option<Seq<char>>,
    pub traceparent: Option<Seq<char>>,
    pub payload_encoding: Option<PayloadEncodingModel>,
    pub native_type_token: Option<NativeTypeToken>,
}

/// Canonical semantic metadata of a native uProtocol frame.
///
/// Payload presence is a property of the frame carrier, not of the metadata;
/// the invariant "payload present iff `payload_encoding` present" is checked
/// at the carrier boundaries.
#[derive(Debug, PartialEq)]
pub struct UFrameMetadata {
    kind: FrameMessageKind,
    id: UUID,
    source: UUri,
    sink: Option<UUri>,
    reqid: Option<UUID>,
    priority: Option<FramePriority>,
    ttl: Option<Duration>,
    comm_status: Option<UCode>,
    permission_level: Option<u32>,
    token: Option<String>,
    traceparent: Option<String>,
    payload_encoding: Option<PayloadEncoding>,
    native_type_token: Option<NativeTypeToken>,
}

impl View for UFrameMetadata {
    type V = FrameMetadataModel;

    closed spec fn view(&self) -> FrameMetadataModel {
        FrameMetadataModel {
            kind: self.kind,
            id: self.id,
            source: self.source@,
            sink: opt_uri_view(self.sink),
            reqid: self.reqid,
            priority: self.priority,
            ttl: self.ttl,
            comm_status: self.comm_status,
            permission_level: self.permission_level,
            token: opt_str_view(self.token),
            traceparent: opt_str_view(self.traceparent),
            payload_encoding: opt_encoding_view(self.payload_encoding),
            native_type_token: self.native_type_token,
        }
    }
}

fn clone_opt_encoding(e: &Option<PayloadEncoding>) -> (r: Option<PayloadEncoding>)
    ensures
        opt_encoding_view(r) == opt_encoding_view(*e),
{
    match e {
        Some(e) => Some(e.clone()),
        None => None,
    }
}

impl Clone for UFrameMetadata {
    fn clone(&self) -> (r: UFrameMetadata)
        ensures
            r@ == self@,
    {
        UFrameMetadata {
            kind: self.kind,
            id: self.id,
            source: self.source.clone(),
            sink: clone_opt_uri(&self.sink),
            reqid: self.reqid,
            priority: self.priority,
            ttl: self.ttl,
            comm_status: self.comm_status,
            permission_level: self.permission_level,
            token: clone_opt_string(&self.token),
            traceparent: clone_opt_string(&self.traceparent),
            payload_encoding: clone_opt_encoding(&self.payload_encoding),
            native_type_token: self.native_type_token,
        }
    }
}

/// Whether an RPC frame's priority is present and at least CS4.
pub open spec fn rpc_priority_ok(p: Option<FramePriority>) -> bool {
    p is Some && priority_wire_code(p.unwrap()) >= 5
}

/// The addressing and QoS rules of each frame kind.
pub open spec fn kind_rules_hold(m: FrameMetadataModel) -> bool {
    match m.kind {
        FrameMessageKind::Publish => m.source.is_valid_event() && m.sink is None,
        FrameMessageKind::Notification => {
            &&& m.source.resource != 0
            &&& !m.source.has_wildcard()
            &&& m.sink is Some
            &&& m.sink.unwrap().resource == 0
            &&& !m.sink.unwrap().has_wildcard()
        },
        FrameMessageKind::Request => {
            &&& m.source.is_valid_rpc_response()
            &&& m.sink is Some
            &&& m.sink.unwrap().is_valid_rpc_method()
            &&& m.ttl is Some
            &&& m.ttl.unwrap().total_nanos() > 0
            &&& rpc_priority_ok(m.priority)
        },
        FrameMessageKind::Response => {
            &&& m.source.is_valid_rpc_method()
            &&& m.sink is Some
            &&& m.sink.unwrap().is_valid_rpc_response()
            &&& m.reqid is Some
            &&& rpc_priority_ok(m.priority)
        },
    }
}

/// Whether frame metadata is valid: a present payload encoding is well
/// formed, the rules of its kind hold, and a native type token comes with a
/// payload encoding.
pub open spec fn metadata_valid(m: FrameMetadataModel) -> bool {
    &&& (m.payload_encoding is Some ==> encoding_valid(m.payload_encoding.unwrap()))
    &&& kind_rules_hold(m)
    &&& (m.native_type_token is Some ==> m.payload_encoding is Some)
}

/// `text` as a one-message list when `fails`, else no message.
pub open spec fn message_if(fails: bool, text: Seq<char>) -> Seq<Seq<char>> {
    if fails {
        seq![text]
    } else {
        seq![]
    }
}

/// The message for an RPC frame's priority that is absent or below CS4.
pub open spec fn priority_messages(p: Option<FramePriority>) -> Seq<Seq<char>> {
    match p {
        Some(q) => message_if(priority_wire_code(q) < 5, "RPC frame must have a priority of at least CS4"@),
        None => seq!["RPC frame must have a priority"@],
    }
}

/// The messages of the rules of its kind that `m` breaks, in the order they
/// are checked: source, sink, then TTL, request id and priority.
pub open spec fn kind_rule_messages(m: FrameMetadataModel) -> Seq<Seq<char>> {
    match m.kind {
        FrameMessageKind::Publish => message_if(!m.source.is_valid_event(), "invalid source URI: "@ + event_error_text(m.source))
            + message_if(m.sink is Some, "publish frame must not have a sink"@),
        FrameMessageKind::Notification => (if m.source.resource == 0 {
            seq!["source must not be an RPC response URI"@]
        } else {
            message_if(m.source.has_wildcard(), "invalid source URI: "@ + wildcard_error_text())
        }) + match m.sink {
            Some(sink) => if sink.resource != 0 {
                seq!["sink is not a valid notification destination"@]
            } else {
                message_if(sink.has_wildcard(), "invalid sink URI: "@ + wildcard_error_text())
            },
            None => seq!["notification frame must have a sink"@],
        },
        FrameMessageKind::Request => message_if(!m.source.is_valid_rpc_response(), "invalid source URI: "@ + rpc_response_error_text(m.source))
            + (match m.sink {
                Some(sink) => message_if(!sink.is_valid_rpc_method(), "invalid sink URI: "@ + rpc_method_error_text(sink)),
                None => seq!["request frame must have a method-to-invoke in the sink"@],
            }) + (match m.ttl {
                Some(t) => message_if(t.total_nanos() == 0, "request frame TTL must be greater than zero"@),
                None => seq!["request frame must have a TTL"@],
            }) + priority_messages(m.priority),
        FrameMessageKind::Response => message_if(!m.source.is_valid_rpc_method(), "invalid source URI: "@ + rpc_method_error_text(m.source))
            + (match m.sink {
                Some(sink) => message_if(!sink.is_valid_rpc_response(), "invalid sink URI: "@ + rpc_response_error_text(sink)),
                None => seq!["response frame must have a sink"@],
            }) + message_if(m.reqid is None, "response frame must have a request id"@)
            + priority_messages(m.priority),
    }
}

/// The messages of every rule that `m` breaks, its payload encoding aside.
pub open spec fn validation_messages(m: FrameMetadataModel) -> Seq<Seq<char>> {
    kind_rule_messages(m) + message_if(
        m.native_type_token is Some && m.payload_encoding is None,
        "native type token requires a payload encoding"@,
    )
}

/// Messages joined by `"; "`.
pub open spec fn join_messages(msgs: Seq<Seq<char>>) -> Seq<char>
    decreases msgs.len(),
{
    if msgs.len() == 0 {
        seq![]
    } else if msgs.len() == 1 {
        msgs[0]
    } else {
        join_messages(msgs.drop_last()) + "; "@ + msgs.last()
    }
}

/// Whether `err` is the error that validation reports for invalid metadata
/// `m`: the payload encoding's own error if the encoding is malformed, else
/// `InvalidMetadata` with the messages of every broken rule, joined.
pub open spec fn is_validation_error_for(m: FrameMetadataModel, err: UFrameMetadataError) -> bool {
    if m.payload_encoding is Some && !encoding_valid(m.payload_encoding.unwrap()) {
        is_encoding_error_for(m.payload_encoding.unwrap(), err)
    } else {
        err matches UFrameMetadataError::InvalidMetadata(text) && text@ == join_messages(validation_messages(m))
    }
}

/// Whether a TTL has an exact representation in the legacy 32-bit
/// millisecond field.
pub open spec fn ttl_representable(t: Duration) -> bool {
    &&& t.spec_subsec_nanos() % 1_000_000 == 0
    &&& t.total_nanos() / 1_000_000 <= u32::MAX
}

/// Whether metadata can be projected to legacy attributes: it is valid,
/// its TTL has an exact legacy representation, and it carries no native type
/// token (legacy attributes have no field for one).
pub open spec fn attributes_representable(m: FrameMetadataModel) -> bool {
    &&& metadata_valid(m)
    &&& (m.ttl is Some ==> ttl_representable(m.ttl.unwrap()))
    &&& m.native_type_token is None
}

/// Why a TTL has no exact legacy representation.
pub open spec fn ttl_not_representable_reason(t: Duration) -> Seq<char> {
    let text = std_duration_debug(t.spec_secs(), t.spec_subsec_nanos());
    if t.spec_subsec_nanos() % 1_000_000 != 0 {
        text + " has sub-millisecond precision; legacy TTL is in whole milliseconds"@
    } else {
        text + " exceeds the legacy 32-bit millisecond TTL range"@
    }
}

/// Whether `err` is what projecting valid metadata `m` that legacy
/// attributes cannot represent reports: the TTL first, then the native type
/// token.
pub open spec fn is_representation_error_for(m: FrameMetadataModel, err: UFrameMetadataError) -> bool {
    if m.ttl is Some && !ttl_representable(m.ttl.unwrap()) {
        err matches UFrameMetadataError::FieldNotRepresentable { field, reason }
            && field@ == "ttl"@ && reason@ == ttl_not_representable_reason(m.ttl.unwrap())
    } else {
        err matches UFrameMetadataError::FieldNotRepresentable { field, reason }
            && field@ == "native_type_token"@ && reason@ == "legacy attributes have no native type token"@
    }
}

/// The legacy attributes of metadata `m` with the given payload fields.
pub open spec fn attributes_with_payload_fields(
    m: FrameMetadataModel,
    payload_format: Option<UPayloadFormat>,
    open: Option<PayloadEncodingModel>,
) -> AttributesModel {
    AttributesModel {
        type_: kind_to_legacy(m.kind),
        id: m.id,
        source: m.source,
        sink: m.sink,
        priority: match m.priority {
            Some(p) => Some(priority_to_legacy(p)),
            None => None,
        },
        commstatus: m.comm_status,
        ttl: match m.ttl {
            Some(t) => Some((t.total_nanos() / 1_000_000) as u32),
            None => None,
        },
        permission_level: m.permission_level,
        token: m.token,
        traceparent: m.traceparent,
        reqid: m.reqid,
        payload_format: payload_format,
        payload_encoding_registry_id: match open {
            Some(e) => e.registry_id,
            None => None,
        },
        payload_encoding: match open {
            Some(e) => e.literal_id,
            None => None,
        },
        payload_content_type: match open {
            Some(e) => e.content_type,
            None => None,
        },
    }
}

/// The legacy attributes that metadata `m` projects to: no encoding gives
/// `Unspecified`; an encoding with a legacy format gives that format; any
/// other encoding is carried by the open payload-encoding fields.
pub open spec fn projected_attributes(m: FrameMetadataModel) -> AttributesModel {
    match m.payload_encoding {
        None => attributes_with_payload_fields(m, Some(UPayloadFormat::Unspecified), None),
        Some(e) => match encoding_legacy_format(e) {
            Some(f) => attributes_with_payload_fields(m, Some(f), None),
            None => attributes_with_payload_fields(m, None, Some(e)),
        },
    }
}

fn project_ttl_to_legacy_millis(ttl: Duration) -> (r: Result<u32, UFrameMetadataError>)
    ensures
        r is Ok <==> ttl_representable(ttl),
        r matches Ok(ms) ==> ms == ttl.total_nanos() / 1_000_000,
        r matches Err(err) ==> err matches UFrameMetadataError::FieldNotRepresentable { field, reason }
            && field@ == "ttl"@ && reason@ == ttl_not_representable_reason(ttl),
{
    if ttl.subsec_nanos() % 1_000_000 != 0 {
        let mut reason = ttl.debug_text();
        reason.append(" has sub-millisecond precision; legacy TTL is in whole milliseconds");
        return Err(UFrameMetadataError::FieldNotRepresentable { field: "ttl", reason });
    }
    let millis = ttl.as_millis();
    if millis > 0xFFFF_FFFF {
        let mut reason = ttl.debug_text();
        reason.append(" exceeds the legacy 32-bit millisecond TTL range");
        return Err(UFrameMetadataError::FieldNotRepresentable { field: "ttl", reason });
    }
    Ok(millis as u32)
}

/// Appends `message` to the joined messages in `errors`.
fn note_error(errors: &mut String, failed: &mut bool, message: &str, Ghost(msgs): Ghost<Seq<Seq<char>>>)
    requires
        old(errors)@ == join_messages(msgs),
        *old(failed) == (msgs.len() > 0),
    ensures
        final(errors)@ == join_messages(msgs.push(message@)),
        *final(failed),
{
    proof {
        assert(msgs.push(message@).drop_last() =~= msgs);
    }
    if *failed {
        errors.append("; ");
    }
    errors.append(message);
    *failed = true;
    proof {
        if msgs.len() == 0 {
            assert(final(errors)@ =~= message@);
        }
    }
}

impl UFrameMetadata {
    /// Starts building metadata for a publish frame on `topic`.
    pub fn publish(topic: UUri) -> (b: UFrameMetadataBuilder)
        ensures
            b@ == new_builder_model(FrameMessageKind::Publish, topic@, None),
    {
        UFrameMetadataBuilder::new(FrameMessageKind::Publish, topic, None)
    }

    /// Starts building metadata for a notification frame from `origin` to
    /// `destination`.
    pub fn notification(origin: UUri, destination: UUri) -> (b: UFrameMetadataBuilder)
        ensures
            b@ == new_builder_model(FrameMessageKind::Notification, origin@, Some(destination@)),
    {
        UFrameMetadataBuilder::new(FrameMessageKind::Notification, origin, Some(destination))
    }

    /// Starts building metadata for an RPC request invoking `method`, with
    /// responses directed to `reply_to`; the TTL is `ttl` and the priority
    /// defaults to CS4.
    pub fn request(method: UUri, reply_to: UUri, ttl: Duration) -> (b: UFrameMetadataBuilder)
        ensures
            b@ == (FrameMetadataBuilderModel {
                priority: Some(FramePriority::CS4),
                ttl: Some(ttl),
                ..new_builder_model(FrameMessageKind::Request, reply_to@, Some(method@))
            }),
    {
        let mut builder = UFrameMetadataBuilder::new(FrameMessageKind::Request, reply_to, Some(method));
        builder.priority = Some(FramePriority::CS4);
        builder.ttl = Some(ttl);
        builder
    }

    /// Starts building metadata for an RPC response from `invoked_method` to
    /// `reply_to`, correlated to the request `request_id`; the priority
    /// defaults to CS4.
    pub fn response(invoked_method: UUri, reply_to: UUri, request_id: UUID) -> (b: UFrameMetadataBuilder)
        ensures
            b@ == (FrameMetadataBuilderModel {
                priority: Some(FramePriority::CS4),
                reqid: Some(request_id),
                ..new_builder_model(FrameMessageKind::Response, invoked_method@, Some(reply_to@))
            }),
    {
        let mut builder = UFrameMetadataBuilder::new(FrameMessageKind::Response, invoked_method, Some(reply_to));
        builder.priority = Some(FramePriority::CS4);
        builder.reqid = Some(request_id);
        builder
    }

    /// Assembles metadata from decoded parts without validation; callers
    /// validate the result.
    pub(crate) fn from_decoded_parts(
        kind: FrameMessageKind,
        id: UUID,
        source: UUri,
        sink: Option<UUri>,
        reqid: Option<UUID>,
        priority: Option<FramePriority>,
        ttl: Option<Duration>,
        comm_status: Option<UCode>,
        permission_level: Option<u32>,
        token: Option<String>,
        traceparent: Option<String>,
        payload_encoding: Option<PayloadEncoding>,
        native_type_token: Option<NativeTypeToken>,
    ) -> (m: UFrameMetadata)
        ensures
            m@ == (FrameMetadataModel {
                kind,
                id,
                source: source@,
                sink: opt_uri_view(sink),
                reqid,
                priority,
                ttl,
                comm_status,
                permission_level,
                token: opt_str_view(token),
                traceparent: opt_str_view(traceparent),
                payload_encoding: opt_encoding_view(payload_encoding),
                native_type_token,
            }),
    {
        UFrameMetadata {
            kind,
            id,
            source,
            sink,
            reqid,
            priority,
            ttl,
            comm_status,
            permission_level,
            token,
            traceparent,
            payload_encoding,
            native_type_token,
        }
    }

    /// Returns the frame message kind.
    pub fn kind(&self) -> (k: FrameMessageKind)
        ensures
            k == self@.kind,
    {
        self.kind
    }

    /// Returns the unique frame id.
    pub fn id(&self) -> (id: &UUID)
        ensures
            *id == self@.id,
    {
        &self.id
    }

    /// Returns the source address.
    pub fn source(&self) -> (u: &UUri)
        ensures
            u@ == self@.source,
    {
        &self.source
    }

    /// Returns the sink address, if present.
    pub fn sink(&self) -> (u: Option<&UUri>)
        ensures
            u is Some <==> self@.sink is Some,
            u matches Some(x) ==> self@.sink == Some(x@),
    {
        match &self.sink {
            Some(s) => Some(s),
            None => None,
        }
    }

    /// Returns the correlated request id, if present.
    pub fn reqid(&self) -> (r: Option<&UUID>)
        ensures
            r is Some <==> self@.reqid is Some,
            r matches Some(x) ==> self@.reqid == Some(*x),
    {
        match &self.reqid {
            Some(r) => Some(r),
            None => None,
        }
    }

    /// Returns the frame priority, if present.
    pub fn priority(&self) -> (p: Option<FramePriority>)
        ensures
            p == self@.priority,
    {
        self.priority
    }

    /// Returns the time-to-live, if present.
    pub fn ttl(&self) -> (t: Option<Duration>)
        ensures
            t == self@.ttl,
    {
        self.ttl
    }

    /// Returns the communication status, if present.
    pub fn comm_status(&self) -> (c: Option<UCode>)
        ensures
            c == self@.comm_status,
    {
        self.comm_status
    }

    /// Returns the permission level, if present.
    pub fn permission_level(&self) -> (p: Option<u32>)
        ensures
            p == self@.permission_level,
    {
        self.permission_level
    }

    /// Returns the access token, if present.
    pub fn token(&self) -> (t: Option<&str>)
        ensures
            t is Some <==> self@.token is Some,
            t matches Some(s) ==> self@.token == Some(s@),
    {
        match &self.token {
            Some(s) => Some(s.as_str()),
            None => None,
        }
    }

    /// Returns the W3C traceparent, if present.
    pub fn traceparent(&self) -> (t: Option<&str>)
        ensures
            t is Some <==> self@.traceparent is Some,
            t matches Some(s) ==> self@.traceparent == Some(s@),
    {
        match &self.traceparent {
            Some(s) => Some(s.as_str()),
            None => None,
        }
    }

    /// Returns the payload encoding, if present (canonically spelled, as
    /// every payload encoding is).
    pub fn payload_encoding(&self) -> (e: Option<&PayloadEncoding>)
        ensures
            e is Some <==> self@.payload_encoding is Some,
            e matches Some(x) ==> self@.payload_encoding == Some(x@) && canonical_encoding(x@) == Some(x@),
    {
        match &self.payload_encoding {
            Some(e) => {
                proof { use_type_invariant(e); }
                Some(e)
            },
            None => None,
        }
    }

    /// Returns the structural native type token, if present.
    pub fn native_type_token(&self) -> (t: Option<NativeTypeToken>)
        ensures
            t == self@.native_type_token,
    {
        self.native_type_token
    }

    /// Consumes this metadata and returns its payload encoding.
    pub fn into_payload_encoding(self) -> (e: Option<PayloadEncoding>)
        ensures
            opt_encoding_view(e) == self@.payload_encoding,
    {
        self.payload_encoding
    }

    /// Returns this metadata carrying `payload_encoding` instead of its own.
    ///
    /// Fails if the encoding or the resulting metadata is invalid.
    pub fn with_payload_encoding(self, payload_encoding: PayloadEncoding) -> (r: Result<UFrameMetadata, UFrameMetadataError>)
        ensures
            ({
                let m = FrameMetadataModel { payload_encoding: Some(payload_encoding@), ..self@ };
                &&& r is Ok <==> metadata_valid(m)
                &&& r matches Ok(x) ==> x@ == m
                &&& r matches Err(err) ==> is_validation_error_for(m, err)
            }),
    {
        payload_encoding.validate()?;
        let mut metadata = self;
        metadata.payload_encoding = Some(payload_encoding);
        metadata.validate()?;
        Ok(metadata)
    }

    /// Returns this metadata without a payload encoding.
    pub fn without_payload_encoding(self) -> (m: UFrameMetadata)
        ensures
            m@ == (FrameMetadataModel { payload_encoding: None, ..self@ }),
    {
        let mut metadata = self;
        metadata.payload_encoding = None;
        metadata
    }

    /// Returns this metadata carrying the structural native type `token`.
    ///
    /// Fails if the resulting metadata is invalid (a token requires a payload
    /// encoding).
    pub fn with_native_type_token(self, token: NativeTypeToken) -> (r: Result<UFrameMetadata, UFrameMetadataError>)
        ensures
            ({
                let m = FrameMetadataModel { native_type_token: Some(token), ..self@ };
                &&& r is Ok <==> metadata_valid(m)
                &&& r matches Ok(x) ==> x@ == m
                &&& r matches Err(err) ==> is_validation_error_for(m, err)
            }),
    {
        let mut metadata = self;
        metadata.native_type_token = Some(token);
        metadata.validate()?;
        Ok(metadata)
    }

    /// Validates this metadata against the rules of its frame message kind.
    ///
    /// Publish frames need an event topic as source and no sink; notification
    /// frames a non-response, wildcard-free source and a wildcard-free
    /// notification destination; request frames a reply-to source, a method
    /// sink, a nonzero TTL and a priority of at least CS4; response frames a
    /// method source, a reply-to sink, a request id and a priority of at least
    /// CS4. A present payload encoding must be well formed, and a native type
    /// token requires a payload encoding.
    pub fn validate(&self) -> (r: Result<(), UFrameMetadataError>)
        ensures
            r is Ok <==> metadata_valid(self@),
            r matches Err(err) ==> is_validation_error_for(self@, err),
    {
        if let Some(encoding) = &self.payload_encoding {
            encoding.validate()?;
        }
        let ghost m = self@;
        let mut errors = String::new();
        let mut failed = false;
        let ghost mut msgs: Seq<Seq<char>> = seq![];
        match self.kind {
            FrameMessageKind::Publish => {
                if let Err(e) = self.source.verify_event() {
                    let text = concat_str("invalid source URI: ", e.to_string().as_str());
                    note_error(&mut errors, &mut failed, text.as_str(), Ghost(msgs));
                    proof { msgs = msgs.push(text@); }
                }
                if self.sink.is_some() {
                    let text = "publish frame must not have a sink";
                    note_error(&mut errors, &mut failed, text, Ghost(msgs));
                    proof { msgs = msgs.push(text@); }
                }
                assert(msgs =~= kind_rule_messages(m));
            },
            FrameMessageKind::Notification => {
                if self.source.is_rpc_response() {
                    let text = "source must not be an RPC response URI";
                    note_error(&mut errors, &mut failed, text, Ghost(msgs));
                    proof { msgs = msgs.push(text@); }
                } else if let Err(e) = self.source.verify_no_wildcards() {
                    let text = concat_str("invalid source URI: ", e.to_string().as_str());
                    note_error(&mut errors, &mut failed, text.as_str(), Ghost(msgs));
                    proof { msgs = msgs.push(text@); }
                }
                let ghost head = msgs;
                match &self.sink {
                    Some(sink) => {
                        if !sink.is_notification_destination() {
                            let text = "sink is not a valid notification destination";
                            note_error(&mut errors, &mut failed, text, Ghost(msgs));
                            proof { msgs = msgs.push(text@); }
                        } else if let Err(e) = sink.verify_no_wildcards() {
                            let text = concat_str("invalid sink URI: ", e.to_string().as_str());
                            note_error(&mut errors, &mut failed, text.as_str(), Ghost(msgs));
                            proof { msgs = msgs.push(text@); }
                        }
                    },
                    None => {
                        let text = "notification frame must have a sink";
                        note_error(&mut errors, &mut failed, text, Ghost(msgs));
                        proof { msgs = msgs.push(text@); }
                    },
                }
                assert(msgs =~= kind_rule_messages(m));
            },
            FrameMessageKind::Request => {
                if let Err(e) = self.source.verify_rpc_response() {
                    let text = concat_str("invalid source URI: ", e.to_string().as_str());
                    note_error(&mut errors, &mut failed, text.as_str(), Ghost(msgs));
                    proof { msgs = msgs.push(text@); }
                }
                match &self.sink {
                    Some(sink) => {
                        if let Err(e) = sink.verify_rpc_method() {
                            let text = concat_str("invalid sink URI: ", e.to_string().as_str());
                            note_error(&mut errors, &mut failed, text.as_str(), Ghost(msgs));
                            proof { msgs = msgs.push(text@); }
                        }
                    },
                    None => {
                        let text = "request frame must have a method-to-invoke in the sink";
                        note_error(&mut errors, &mut failed, text, Ghost(msgs));
                        proof { msgs = msgs.push(text@); }
                    },
                }
                match self.ttl {
                    Some(ttl) => {
                        if ttl.is_zero() {
                            let text = "request frame TTL must be greater than zero";
                            note_error(&mut errors, &mut failed, text, Ghost(msgs));
                            proof { msgs = msgs.push(text@); }
                        }
                    },
                    None => {
                        let text = "request frame must have a TTL";
                        note_error(&mut errors, &mut failed, text, Ghost(msgs));
                        proof { msgs = msgs.push(text@); }
                    },
                }
                self.note_priority_error(&mut errors, &mut failed, Ghost(msgs));
                proof { msgs = msgs + priority_messages(m.priority); }
                assert(msgs =~= kind_rule_messages(m));
            },
            FrameMessageKind::Response => {
                if let Err(e) = self.source.verify_rpc_method() {
                    let text = concat_str("invalid source URI: ", e.to_string().as_str());
                    note_error(&mut errors, &mut failed, text.as_str(), Ghost(msgs));
                    proof { msgs = msgs.push(text@); }
                }
                match &self.sink {
                    Some(sink) => {
                        if let Err(e) = sink.verify_rpc_response() {
                            let text = concat_str("invalid sink URI: ", e.to_string().as_str());
                            note_error(&mut errors, &mut failed, text.as_str(), Ghost(msgs));
                            proof { msgs = msgs.push(text@); }
                        }
                    },
                    None => {
                        let text = "response frame must have a sink";
                        note_error(&mut errors, &mut failed, text, Ghost(msgs));
                        proof { msgs = msgs.push(text@); }
                    },
                }
                if self.reqid.is_none() {
                    let text = "response frame must have a request id";
                    note_error(&mut errors, &mut failed, text, Ghost(msgs));
                    proof { msgs = msgs.push(text@); }
                }
                self.note_priority_error(&mut errors, &mut failed, Ghost(msgs));
                proof { msgs = msgs + priority_messages(m.priority); }
                assert(msgs =~= kind_rule_messages(m));
            },
        }
        if self.native_type_token.is_some() && self.payload_encoding.is_none() {
            let text = "native type token requires a payload encoding";
            note_error(&mut errors, &mut failed, text, Ghost(msgs));
            proof { msgs = msgs.push(text@); }
        }
        assert(msgs =~= validation_messages(m));
        if failed {
            Err(UFrameMetadataError::InvalidMetadata(errors))
        } else {
            Ok(())
        }
    }

    /// Notes the message for an RPC frame's priority that is absent or below CS4.
    fn note_priority_error(&self, errors: &mut String, failed: &mut bool, Ghost(msgs): Ghost<Seq<Seq<char>>>)
        requires
            old(errors)@ == join_messages(msgs),
            *old(failed) == (msgs.len() > 0),
        ensures
            final(errors)@ == join_messages(msgs + priority_messages(self@.priority)),
            *final(failed) == (msgs.len() + priority_messages(self@.priority).len() > 0),
    {
        match self.priority {
            Some(p) => {
                if p.wire_code() < 5 {
                    let text = "RPC frame must have a priority of at least CS4";
                    note_error(errors, failed, text, Ghost(msgs));
                    assert(msgs.push(text@) =~= msgs + priority_messages(self@.priority));
                } else {
                    assert(msgs =~= msgs + priority_messages(self@.priority));
                }
            },
            None => {
                let text = "RPC frame must have a priority";
                note_error(errors, failed, text, Ghost(msgs));
                assert(msgs.push(text@) =~= msgs + priority_messages(self@.priority));
            },
        }
    }

    /// Projects this metadata to legacy attributes.
    ///
    /// Fails if the metadata is invalid or the TTL has no exact 32-bit
    /// millisecond representation. Encodings without a legacy format are
    /// carried by the open payload-encoding fields.
    pub fn try_project_to_attributes(&self) -> (r: Result<UAttributes, UFrameMetadataError>)
        ensures
            r is Ok <==> attributes_representable(self@),
            r matches Ok(a) ==> a@ == projected_attributes(self@),
            r matches Err(err) ==> if !metadata_valid(self@) {
                is_validation_error_for(self@, err)
            } else {
                is_representation_error_for(self@, err)
            },
    {
        match &self.payload_encoding {
            None => self.project_to_attributes_with_payload_format(Some(UPayloadFormat::Unspecified)),
            Some(encoding) => match encoding.to_legacy_format() {
                Some(format) => self.project_to_attributes_with_payload_format(Some(format)),
                None => {
                    let mut attributes = self.project_to_attributes_with_payload_format(None)?;
                    attributes.payload_encoding_registry_id = encoding.registry_id;
                    attributes.payload_encoding = clone_opt_string(&encoding.literal_id);
                    attributes.payload_content_type = clone_opt_string(&encoding.content_type);
                    Ok(attributes)
                },
            },
        }
    }

    /// Projects this metadata to legacy attributes with an explicitly chosen
    /// payload format and empty open payload-encoding fields.
    pub(crate) fn project_to_attributes_with_payload_format(&self, payload_format: Option<UPayloadFormat>) -> (r: Result<UAttributes, UFrameMetadataError>)
        ensures
            r is Ok <==> attributes_representable(self@),
            r matches Ok(a) ==> a@ == attributes_with_payload_fields(self@, payload_format, None),
            r matches Err(err) ==> if !metadata_valid(self@) {
                is_validation_error_for(self@, err)
            } else {
                is_representation_error_for(self@, err)
            },
    {
        self.validate()?;
        let ttl = match self.ttl {
            Some(t) => Some(project_ttl_to_legacy_millis(t)?),
            None => None,
        };
        if self.native_type_token.is_some() {
            return Err(UFrameMetadataError::FieldNotRepresentable {
                field: "native_type_token",
                reason: String::from_str("legacy attributes have no native type token"),
            });
        }
        let priority = match self.priority {
            Some(p) => Some(p.to_legacy_priority()),
            None => None,
        };
        Ok(UAttributes {
            type_: self.kind.to_legacy_type(),
            id: self.id,
            source: self.source.clone(),
            sink: clone_opt_uri(&self.sink),
            priority,
            commstatus: self.comm_status,
            ttl,
            permission_level: self.permission_level,
            token: clone_opt_string(&self.token),
            traceparent: clone_opt_string(&self.traceparent),
            reqid: self.reqid,
            payload_format,
            payload_encoding_registry_id: None,
            payload_encoding: None,
            payload_content_type: None,
        })
    }
}

// ---------------------------------------------------------------------------
// UFrameMetadataBuilder
// ---------------------------------------------------------------------------

/// Abstract value of a metadata builder.
pub ghost struct FrameMetadataBuilderModel {
    pub kind: FrameMessageKind,
    pub id: Option<UUID>,
    pub source: UUriModel,
    pub sink: Option<UUriModel>,
    pub reqid: Option<UUID>,
    pub priority: Option<FramePriority>,
    pub ttl: Option<Duration>,
    pub comm_status: Option<UCode>,
    pub permission_level: Option<u32>,
    pub token: Option<Seq<char>>,
    pub traceparent: Option<Seq<char>>,
    pub payload_encoding: Option<PayloadEncodingModel>,
    pub native_type_token: Option<NativeTypeToken>,
}

/// A builder with only kind, source and sink set.
pub open spec fn new_builder_model(kind: FrameMessageKind, source: UUriModel, sink: Option<UUriModel>) -> FrameMetadataBuilderModel {
    FrameMetadataBuilderModel {
        kind,
        id: None,
        source,
        sink,
        reqid: None,
        priority: None,
        ttl: None,
        comm_status: None,
        permission_level: None,
        token: None,
        traceparent: None,
        payload_encoding: None,
        native_type_token: None,
    }
}

/// The metadata a builder produces when the frame id is `id`.
pub open spec fn builder_metadata(b: FrameMetadataBuilderModel, id: UUID) -> FrameMetadataModel {
    FrameMetadataModel {
        kind: b.kind,
        id: id,
        source: b.source,
        sink: b.sink,
        reqid: b.reqid,
        priority: b.priority,
        ttl: b.ttl,
        comm_status: b.comm_status,
        permission_level: b.permission_level,
        token: b.token,
        traceparent: b.traceparent,
        payload_encoding: b.payload_encoding,
        native_type_token: b.native_type_token,
    }
}

/// Validity of metadata does not depend on its frame id.
pub proof fn lemma_validity_ignores_id(b: FrameMetadataBuilderModel, id1: UUID, id2: UUID)
    ensures
        metadata_valid(builder_metadata(b, id1)) == metadata_valid(builder_metadata(b, id2)),
{
}

/// Builder for native frame metadata, obtained from `UFrameMetadata::publish`,
/// `notification`, `request` or `response`.
#[derive(Debug)]
pub struct UFrameMetadataBuilder {
    kind: FrameMessageKind,
    id: Option<UUID>,
    source: UUri,
    sink: Option<UUri>,
    reqid: Option<UUID>,
    priority: Option<FramePriority>,
    ttl: Option<Duration>,
    comm_status: Option<UCode>,
    permission_level: Option<u32>,
    token: Option<String>,
    traceparent: Option<String>,
    payload_encoding: Option<PayloadEncoding>,
    native_type_token: Option<NativeTypeToken>,
}

impl View for UFrameMetadataBuilder {
    type V = FrameMetadataBuilderModel;

    closed spec fn view(&self) -> FrameMetadataBuilderModel {
        FrameMetadataBuilderModel {
            kind: self.kind,
            id: self.id,
            source: self.source@,
            sink: opt_uri_view(self.sink),
            reqid: self.reqid,
            priority: self.priority,
            ttl: self.ttl,
            comm_status: self.comm_status,
            permission_level: self.permission_level,
            token: opt_str_view(self.token),
            traceparent: opt_str_view(self.traceparent),
            payload_encoding: opt_encoding_view(self.payload_encoding),
            native_type_token: self.native_type_token,
        }
    }
}

impl UFrameMetadataBuilder {
    fn new(kind: FrameMessageKind, source: UUri, sink: Option<UUri>) -> (b: UFrameMetadataBuilder)
        ensures
            b@ == new_builder_model(kind, source@, opt_uri_view(sink)),
    {
        UFrameMetadataBuilder {
            kind,
            id: None,
            source,
            sink,
            reqid: None,
            priority: None,
            ttl: None,
            comm_status: None,
            permission_level: None,
            token: None,
            traceparent: None,
            payload_encoding: None,
            native_type_token: None,
        }
    }

    /// Sets an explicit frame id instead of a generated one.
    pub fn with_id(self, id: UUID) -> (b: UFrameMetadataBuilder)
        ensures
            b@ == (FrameMetadataBuilderModel { id: Some(id), ..self@ }),
    {
        let mut b = self;
        b.id = Some(id);
        b
    }

    /// Sets the frame priority.
    pub fn with_priority(self, priority: FramePriority) -> (b: UFrameMetadataBuilder)
        ensures
            b@ == (FrameMetadataBuilderModel { priority: Some(priority), ..self@ }),
    {
        let mut b = self;
        b.priority = Some(priority);
        b
    }

    /// Sets the time-to-live.
    pub fn with_ttl(self, ttl: Duration) -> (b: UFrameMetadataBuilder)
        ensures
            b@ == (FrameMetadataBuilderModel { ttl: Some(ttl), ..self@ }),
    {
        let mut b = self;
        b.ttl = Some(ttl);
        b
    }

    /// Sets the communication status.
    pub fn with_comm_status(self, comm_status: UCode) -> (b: UFrameMetadataBuilder)
        ensures
            b@ == (FrameMetadataBuilderModel { comm_status: Some(comm_status), ..self@ }),
    {
        let mut b = self;
        b.comm_status = Some(comm_status);
        b
    }

    /// Sets the permission level.
    pub fn with_permission_level(self, permission_level: u32) -> (b: UFrameMetadataBuilder)
        ensures
            b@ == (FrameMetadataBuilderModel { permission_level: Some(permission_level), ..self@ }),
    {
        let mut b = self;
        b.permission_level = Some(permission_level);
        b
    }

    /// Sets the access token.
    pub fn with_token(self, token: &str) -> (b: UFrameMetadataBuilder)
        ensures
            b@ == (FrameMetadataBuilderModel { token: Some(token@), ..self@ }),
    {
        let mut b = self;
        b.token = Some(String::from_str(token));
        b
    }

    /// Sets the W3C traceparent.
    pub fn with_traceparent(self, traceparent: &str) -> (b: UFrameMetadataBuilder)
        ensures
            b@ == (FrameMetadataBuilderModel { traceparent: Some(traceparent@), ..self@ }),
    {
        let mut b = self;
        b.traceparent = Some(String::from_str(traceparent));
        b
    }

    /// Sets the payload encoding of the frame's payload bytes.
    pub fn with_payload_encoding(self, payload_encoding: PayloadEncoding) -> (b: UFrameMetadataBuilder)
        ensures
            b@ == (FrameMetadataBuilderModel { payload_encoding: Some(payload_encoding@), ..self@ }),
    {
        let mut b = self;
        b.payload_encoding = Some(payload_encoding);
        b
    }

    /// Sets the structural native type token.
    pub fn with_native_type_token(self, token: NativeTypeToken) -> (b: UFrameMetadataBuilder)
        ensures
            b@ == (FrameMetadataBuilderModel { native_type_token: Some(token), ..self@ }),
    {
        let mut b = self;
        b.native_type_token = Some(token);
        b
    }

    /// Builds and validates the metadata; a fresh UUIDv7 frame id is
    /// generated unless one was set.
    pub fn build(self) -> (r: Result<UFrameMetadata, UFrameMetadataError>)
        ensures
            r is Ok <==> metadata_valid(builder_metadata(self@, arbitrary())),
            r matches Ok(m) ==> m@ == builder_metadata(self@, m@.id),
            r matches Ok(m) ==> (self@.id is Some ==> m@.id == self@.id.unwrap()),
            r matches Err(err) ==> is_validation_error_for(builder_metadata(self@, arbitrary()), err),
    {
        let id = match self.id {
            Some(id) => id,
            None => UUID::build(),
        };
        let metadata = UFrameMetadata {
            kind: self.kind,
            id,
            source: self.source,
            sink: self.sink,
            reqid: self.reqid,
            priority: self.priority,
            ttl: self.ttl,
            comm_status: self.comm_status,
            permission_level: self.permission_level,
            token: self.token,
            traceparent: self.traceparent,
            payload_encoding: self.payload_encoding,
            native_type_token: self.native_type_token,
        };
        metadata.validate()?;
        Ok(metadata)
    }
}


// ---------------------------------------------------------------------------
// Legacy projections
// ---------------------------------------------------------------------------

/// The registered encoding named by the attributes' legacy payload format,
/// if the format is concrete.
pub open spec fn attributes_legacy_encoding(a: AttributesModel) -> Option<PayloadEncodingModel> {
    match a.payload_format {
        Some(f) => if f == UPayloadFormat::Unspecified {
            None
        } else {
            Some(legacy_encoding(payload_format_value(f) as u32))
        },
        None => None,
    }
}

/// Whether any open payload-encoding field of the attributes is set.
pub open spec fn attributes_open_present(a: AttributesModel) -> bool {
    a.payload_encoding_registry_id is Some || a.payload_encoding is Some || a.payload_content_type is Some
}

/// The identity spelled by the attributes' open payload-encoding fields.
pub open spec fn attributes_open_encoding(a: AttributesModel) -> PayloadEncodingModel {
    PayloadEncodingModel {
        registry_id: a.payload_encoding_registry_id,
        literal_id: a.payload_encoding,
        content_type: a.payload_content_type,
    }
}

/// The payload encoding the attributes declare (`Some(None)`: none), or
/// `None` when the declaration is rejected: both mechanisms used, a malformed
/// or contradictory open identity, or a registered-range identity spelled in
/// the open fields.
pub open spec fn attributes_declared_encoding(a: AttributesModel) -> Option<Option<PayloadEncodingModel>> {
    let legacy = attributes_legacy_encoding(a);
    let open = attributes_open_encoding(a);
    if legacy is Some && attributes_open_present(a) {
        None
    } else if legacy is Some {
        Some(legacy)
    } else if attributes_open_present(a) {
        if encoding_valid(open) && canonical_encoding(open) is Some
            && encoding_legacy_format(canonical_encoding(open).unwrap()) is None {
            Some(canonical_encoding(open))
        } else {
            None
        }
    } else {
        Some(None)
    }
}

/// The encoding chosen from an explicit encoding and the declared one, or
/// `None` when both are present and differ.
pub open spec fn select_encoding(explicit: Option<PayloadEncodingModel>, declared: Option<PayloadEncodingModel>) -> Option<Option<PayloadEncodingModel>> {
    match explicit {
        Some(x) => match declared {
            Some(d) => if x == d { Some(Some(x)) } else { None },
            None => Some(Some(x)),
        },
        None => Some(declared),
    }
}

/// Native metadata carrying the attributes' fields and payload encoding `enc`.
pub open spec fn metadata_from_attributes(a: AttributesModel, enc: Option<PayloadEncodingModel>) -> FrameMetadataModel {
    FrameMetadataModel {
        kind: kind_from_legacy(a.type_),
        id: a.id,
        source: a.source,
        sink: a.sink,
        reqid: a.reqid,
        priority: match a.priority {
            Some(p) => Some(priority_from_legacy(p)),
            None => None,
        },
        ttl: match a.ttl {
            Some(ms) => Some(Duration::spec_from_millis(ms as u64)),
            None => None,
        },
        comm_status: a.commstatus,
        permission_level: a.permission_level,
        token: a.token,
        traceparent: a.traceparent,
        payload_encoding: enc,
        native_type_token: None,
    }
}

/// The metadata that attributes plus an optional explicit encoding project
/// to before validation, or `None` when the encodings are rejected.
pub open spec fn project_attributes(a: AttributesModel, explicit: Option<PayloadEncodingModel>) -> Option<FrameMetadataModel> {
    match attributes_declared_encoding(a) {
        None => None,
        Some(declared) => match select_encoding(explicit, declared) {
            None => None,
            Some(enc) => Some(metadata_from_attributes(a, enc)),
        },
    }
}

/// The legacy projection carries every field of the metadata into the
/// attribute of the same name: id, addresses, request id, status,
/// permission level, token and traceparent unchanged; the message type and
/// priority with the metadata's wire codes as their protobuf numbers; the
/// TTL in whole milliseconds.
pub proof fn lemma_projection_keeps_fields(m: FrameMetadataModel)
    ensures
        ({
            let a = projected_attributes(m);
            &&& a.id == m.id
            &&& a.source == m.source
            &&& a.sink == m.sink
            &&& a.reqid == m.reqid
            &&& a.commstatus == m.comm_status
            &&& a.permission_level == m.permission_level
            &&& a.token == m.token
            &&& a.traceparent == m.traceparent
            &&& message_type_value(a.type_) == kind_wire_code(m.kind) as int
            &&& (m.priority matches Some(p) ==> a.priority matches Some(q) && priority_value(q) == priority_wire_code(p) as int)
            &&& (m.priority is None ==> a.priority is None)
            &&& (m.ttl matches Some(t) ==> a.ttl matches Some(ms) && ms == (t.total_nanos() / 1_000_000) as u32)
            &&& (m.ttl is None ==> a.ttl is None)
        }),
{
    match m.kind {
        FrameMessageKind::Publish => {},
        FrameMessageKind::Notification => {},
        FrameMessageKind::Request => {},
        FrameMessageKind::Response => {},
    }
    if let Some(p) = m.priority {
        match p {
            FramePriority::CS0 => {},
            FramePriority::CS1 => {},
            FramePriority::CS2 => {},
            FramePriority::CS3 => {},
            FramePriority::CS4 => {},
            FramePriority::CS5 => {},
            FramePriority::CS6 => {},
        }
    }
}

/// Metadata built from legacy attributes carries every attribute into the
/// field of the same name: id, addresses, request id, status, permission
/// level, token and traceparent unchanged; the kind and priority whose wire
/// codes are the attributes' protobuf numbers; the TTL as that many
/// milliseconds; the given payload encoding; no native type token.
pub proof fn lemma_attributes_keep_fields(a: AttributesModel, enc: Option<PayloadEncodingModel>)
    ensures
        ({
            let m = metadata_from_attributes(a, enc);
            &&& m.id == a.id
            &&& m.source == a.source
            &&& m.sink == a.sink
            &&& m.reqid == a.reqid
            &&& m.comm_status == a.commstatus
            &&& m.permission_level == a.permission_level
            &&& m.token == a.token
            &&& m.traceparent == a.traceparent
            &&& m.payload_encoding == enc
            &&& m.native_type_token is None
            &&& kind_wire_code(m.kind) as int == message_type_value(a.type_)
            &&& (a.priority matches Some(q) ==> m.priority matches Some(p) && priority_wire_code(p) as int == priority_value(q))
            &&& (a.priority is None ==> m.priority is None)
            &&& (a.ttl matches Some(ms) ==> m.ttl matches Some(t) && t.total_nanos() == ms as int * 1_000_000)
            &&& (a.ttl is None ==> m.ttl is None)
        }),
{
    match a.type_ {
        UMessageType::Publish => {},
        UMessageType::Notification => {},
        UMessageType::Request => {},
        UMessageType::Response => {},
    }
    if let Some(q) = a.priority {
        match q {
            UPriority::CS0 => {},
            UPriority::CS1 => {},
            UPriority::CS2 => {},
            UPriority::CS3 => {},
            UPriority::CS4 => {},
            UPriority::CS5 => {},
            UPriority::CS6 => {},
        }
    }
    if let Some(ms) = a.ttl {
        Duration::lemma_spec_from_millis(ms as u64);
    }
}

/// What valid metadata's addresses and QoS are, by kind: a publish frame
/// comes from a wildcard-free event topic (resource id from 0x8000) with no
/// sink; a notification from a wildcard-free non-reply address to a
/// wildcard-free reply-to address (resource id 0); a request from a
/// wildcard-free reply-to address to a wildcard-free method (resource id
/// 1 to 0x7FFF) with a nonzero TTL and a priority of at least CS4 (wire
/// code 5); a response from a wildcard-free method to a wildcard-free
/// reply-to address, with a request id and a priority of at least CS4.
pub proof fn lemma_valid_metadata_addressing(m: FrameMetadataModel)
    requires
        metadata_valid(m),
    ensures
        m.kind == FrameMessageKind::Publish ==> m.source.resource >= 0x8000 && !m.source.has_wildcard()
            && m.sink is None,
        m.kind == FrameMessageKind::Notification ==> m.source.resource != 0 && !m.source.has_wildcard()
            && m.sink is Some && m.sink.unwrap().resource == 0 && !m.sink.unwrap().has_wildcard(),
        m.kind == FrameMessageKind::Request ==> m.source.resource == 0 && !m.source.has_wildcard()
            && m.sink is Some && 1 <= m.sink.unwrap().resource < 0x8000 && !m.sink.unwrap().has_wildcard()
            && m.ttl is Some && m.ttl.unwrap().total_nanos() > 0
            && m.priority is Some && priority_wire_code(m.priority.unwrap()) >= 5,
        m.kind == FrameMessageKind::Response ==> 1 <= m.source.resource < 0x8000 && !m.source.has_wildcard()
            && m.sink is Some && m.sink.unwrap().resource == 0 && !m.sink.unwrap().has_wildcard()
            && m.reqid is Some
            && m.priority is Some && priority_wire_code(m.priority.unwrap()) >= 5,
{
}

/// The wire codes of the UFrame registry and the legacy protobuf numbers:
/// kinds Publish 1, Request 2, Response 3, Notification 4; priorities CS0 1
/// to CS6 7 (0 meaning none); payload formats in declaration order from
/// Unspecified 0 to Shm 8; other codes name nothing.
pub proof fn lemma_wire_code_tables(code: u8)
    ensures
        kind_wire_code(FrameMessageKind::Publish) == 1,
        kind_wire_code(FrameMessageKind::Request) == 2,
        kind_wire_code(FrameMessageKind::Response) == 3,
        kind_wire_code(FrameMessageKind::Notification) == 4,
        kind_from_wire_code(1u8) == Some(FrameMessageKind::Publish),
        kind_from_wire_code(2u8) == Some(FrameMessageKind::Request),
        kind_from_wire_code(3u8) == Some(FrameMessageKind::Response),
        kind_from_wire_code(4u8) == Some(FrameMessageKind::Notification),
        !(1 <= code <= 4) ==> kind_from_wire_code(code) is None,
        priority_wire_code(FramePriority::CS0) == 1,
        priority_wire_code(FramePriority::CS1) == 2,
        priority_wire_code(FramePriority::CS2) == 3,
        priority_wire_code(FramePriority::CS3) == 4,
        priority_wire_code(FramePriority::CS4) == 5,
        priority_wire_code(FramePriority::CS5) == 6,
        priority_wire_code(FramePriority::CS6) == 7,
        priority_from_wire_code(1u8) == Some(FramePriority::CS0),
        priority_from_wire_code(2u8) == Some(FramePriority::CS1),
        priority_from_wire_code(3u8) == Some(FramePriority::CS2),
        priority_from_wire_code(4u8) == Some(FramePriority::CS3),
        priority_from_wire_code(5u8) == Some(FramePriority::CS4),
        priority_from_wire_code(6u8) == Some(FramePriority::CS5),
        priority_from_wire_code(7u8) == Some(FramePriority::CS6),
        !(1 <= code <= 7) ==> priority_from_wire_code(code) is None,
        payload_format_value(UPayloadFormat::Unspecified) == 0,
        payload_format_value(UPayloadFormat::ProtobufWrappedInAny) == 1,
        payload_format_value(UPayloadFormat::Protobuf) == 2,
        payload_format_value(UPayloadFormat::Json) == 3,
        payload_format_value(UPayloadFormat::Someip) == 4,
        payload_format_value(UPayloadFormat::SomeipTlv) == 5,
        payload_format_value(UPayloadFormat::Raw) == 6,
        payload_format_value(UPayloadFormat::Text) == 7,
        payload_format_value(UPayloadFormat::Shm) == 8,
        message_type_value(UMessageType::Publish) == 1,
        message_type_value(UMessageType::Request) == 2,
        message_type_value(UMessageType::Response) == 3,
        message_type_value(UMessageType::Notification) == 4,
        priority_value(UPriority::CS0) == 1,
        priority_value(UPriority::CS1) == 2,
        priority_value(UPriority::CS2) == 3,
        priority_value(UPriority::CS3) == 4,
        priority_value(UPriority::CS4) == 5,
        priority_value(UPriority::CS5) == 6,
        priority_value(UPriority::CS6) == 7,
{
}

/// Each concrete legacy payload format names the registered encoding whose
/// registry id is its number, and that encoding projects back to it.
pub proof fn lemma_legacy_format_round_trip(f: UPayloadFormat)
    requires
        f != UPayloadFormat::Unspecified,
    ensures
        legacy_encoding(payload_format_value(f) as u32).registry_id == Some(payload_format_value(f) as u32),
        encoding_legacy_format(legacy_encoding(payload_format_value(f) as u32)) == Some(f),
        canonical_encoding(legacy_encoding(payload_format_value(f) as u32)) == Some(legacy_encoding(payload_format_value(f) as u32)),
{
}

/// Frame metadata projected to legacy attributes and back is the same
/// metadata, wherever the legacy attributes represent it (valid metadata
/// with a TTL of whole milliseconds within 32 bits and no native type
/// token). The TTL's well-formedness and the payload encoding's canonical
/// spelling hold of every metadata value.
pub proof fn lemma_attribute_projection_round_trip(m: FrameMetadataModel)
    requires
        attributes_representable(m),
        m.ttl matches Some(t) ==> t.wf(),
        m.payload_encoding matches Some(e) ==> canonical_encoding(e) == Some(e),
    ensures
        project_attributes(projected_attributes(m), None) == Some(m),
{
    let a = projected_attributes(m);
    if let Some(t) = m.ttl {
        Duration::lemma_from_whole_millis(t);
    }
    match m.payload_encoding {
        None => {
            assert(attributes_declared_encoding(a) == Some(None::<PayloadEncodingModel>));
        },
        Some(e) => {
            if encoding_legacy_format(e) is Some {
                let id = e.registry_id.unwrap();
                assert(is_legacy_id(id));
                assert(e == legacy_encoding(id));
                assert(payload_format_value(legacy_format_of(id).unwrap()) == id);
                assert(attributes_legacy_encoding(a) == Some(e));
            } else {
                assert(attributes_open_encoding(a) == e);
                assert(attributes_declared_encoding(a) == Some(Some(e)));
            }
        },
    }
    let back = metadata_from_attributes(a, m.payload_encoding);
    assert(back.kind == m.kind);
    assert(back.priority == m.priority);
    assert(back.ttl == m.ttl);
    assert(back == m);
}

/// Why the payload encodings of attributes (plus an explicit encoding) are
/// rejected, when their identities are well formed: both mechanisms used, an
/// open identity contradicting its legacy row, a registered identity spelled
/// in the open fields, or an explicit encoding unlike the declared one.
pub open spec fn projection_rejection_text(a: AttributesModel, explicit: Option<PayloadEncodingModel>) -> Seq<char> {
    let legacy = attributes_legacy_encoding(a);
    let open = attributes_open_encoding(a);
    if legacy is Some && attributes_open_present(a) {
        "attributes declare both a concrete payload_format and open payload-encoding fields; exactly one mechanism is allowed"@
    } else if legacy is None && attributes_open_present(a) && canonical_encoding(open) is None {
        canonical_conflict_text(open)
    } else if legacy is None && attributes_open_present(a)
        && encoding_legacy_format(canonical_encoding(open).unwrap()) is Some {
        "registered-range payload encodings must use payload_format, not open payload-encoding fields"@
    } else {
        "attribute payload format `"@ + encoding_description(attributes_declared_encoding(a).unwrap().unwrap())
            + "` does not match payload encoding `"@ + encoding_description(explicit.unwrap()) + "`"@
    }
}

/// Whether `err` is what projecting attributes `a` (with `explicit`) reports.
pub open spec fn is_projection_error_for(a: AttributesModel, explicit: Option<PayloadEncodingModel>, err: UFrameMetadataError) -> bool {
    match project_attributes(a, explicit) {
        Some(m) => is_validation_error_for(m, err),
        None => if attributes_legacy_encoding(a) is None && attributes_open_present(a)
            && !encoding_valid(attributes_open_encoding(a)) {
            is_encoding_error_for(attributes_open_encoding(a), err)
        } else {
            err matches UFrameMetadataError::InvalidMetadata(t) && t@ == projection_rejection_text(a, explicit)
        },
    }
}

fn opt_str_to_string(s: Option<&str>) -> (r: Option<String>)
    ensures
        r is Some <==> s is Some,
        r matches Some(x) ==> s matches Some(y) && x@ == y@,
{
    match s {
        Some(s) => Some(String::from_str(s)),
        None => None,
    }
}

/// Projects legacy attributes (plus an optional native payload encoding)
/// into native frame metadata.
///
/// A concrete legacy payload format names its registered encoding; open
/// payload-encoding fields name an open identity (which must not be in the
/// registered legacy range); using both mechanisms is rejected. An explicit
/// encoding must agree with the declared one. The result is validated.
pub fn try_project_attributes_to_frame_metadata(
    attributes: &UAttributes,
    payload_encoding: Option<PayloadEncoding>,
) -> (r: Result<UFrameMetadata, UFrameMetadataError>)
    ensures
        r is Ok <==> (project_attributes(attributes@, opt_encoding_view(payload_encoding)) matches Some(m) && metadata_valid(m)),
        r matches Ok(m) ==> Some(m@) == project_attributes(attributes@, opt_encoding_view(payload_encoding)),
        r matches Err(err) ==> is_projection_error_for(attributes@, opt_encoding_view(payload_encoding), err),
{
    let legacy_encoding = match attributes.payload_format() {
        None => None,
        Some(format) => {
            if format.as_i32() == 0 {
                None
            } else {
                Some(PayloadEncoding::try_from_legacy_format(format)?)
            }
        },
    };
    let open_present = attributes.has_open_payload_encoding();
    let attributes_encoding = match legacy_encoding {
        Some(legacy) => {
            if open_present {
                return Err(invalid_metadata(
                    "attributes declare both a concrete payload_format and open payload-encoding fields; exactly one mechanism is allowed",
                ));
            }
            Some(legacy)
        },
        None => {
            if open_present {
                let parts = attributes.open_payload_encoding_parts();
                let encoding = PayloadEncoding::from_parts(
                    parts.0,
                    opt_str_to_string(parts.1),
                    opt_str_to_string(parts.2),
                )?;
                if encoding.to_legacy_format().is_some() {
                    return Err(invalid_metadata(
                        "registered-range payload encodings must use payload_format, not open payload-encoding fields",
                    ));
                }
                Some(encoding)
            } else {
                None
            }
        },
    };
    let payload_encoding = match payload_encoding {
        Some(explicit) => match attributes_encoding {
            Some(from_attributes) => {
                if !explicit.is_compatible_with(&from_attributes) {
                    let mut t = String::from_str("attribute payload format `");
                    t.append(from_attributes.describe().as_str());
                    t.append("` does not match payload encoding `");
                    t.append(explicit.describe().as_str());
                    t.append("`");
                    return Err(UFrameMetadataError::InvalidMetadata(t));
                }
                Some(explicit)
            },
            None => Some(explicit),
        },
        None => attributes_encoding,
    };
    let priority = match attributes.priority {
        Some(p) => Some(FramePriority::from_legacy_priority(p)),
        None => None,
    };
    let ttl = match attributes.ttl {
        Some(ms) => Some(Duration::from_millis(ms as u64)),
        None => None,
    };
    let metadata = UFrameMetadata {
        kind: FrameMessageKind::from_legacy_type(attributes.type_),
        id: attributes.id,
        source: attributes.source.clone(),
        sink: clone_opt_uri(&attributes.sink),
        reqid: attributes.reqid,
        priority,
        ttl,
        comm_status: attributes.commstatus,
        permission_level: attributes.permission_level,
        token: clone_opt_string(&attributes.token),
        traceparent: clone_opt_string(&attributes.traceparent),
        payload_encoding,
        native_type_token: None,
    };
    metadata.validate()?;
    Ok(metadata)
}

/// Whether a message declares a payload encoding: a concrete legacy format
/// or any open payload-encoding field.
pub open spec fn message_declares_encoding(a: AttributesModel) -> bool {
    attributes_legacy_encoding(a) is Some || attributes_open_present(a)
}

/// Projects a message into native frame metadata.
///
/// Fails when payload bytes come without a declared payload encoding, or a
/// declared encoding without payload bytes; otherwise projects the
/// attributes.
pub fn try_project_umessage_to_frame_metadata(message: &UMessage) -> (r: Result<UFrameMetadata, UFrameMetadataError>)
    ensures
        ({
            let a = message.attributes@;
            let has_payload = message.payload is Some;
            &&& has_payload && !message_declares_encoding(a) ==> r == Err::<UFrameMetadata, UFrameMetadataError>(UFrameMetadataError::PayloadWithoutEncoding)
            &&& !has_payload && message_declares_encoding(a) ==> r == Err::<UFrameMetadata, UFrameMetadataError>(UFrameMetadataError::EncodingWithoutPayload)
            &&& has_payload == message_declares_encoding(a) ==> {
                &&& r is Ok <==> (project_attributes(a, None) matches Some(m) && metadata_valid(m))
                &&& r matches Ok(m) ==> Some(m@) == project_attributes(a, None)
                &&& r matches Err(err) ==> is_projection_error_for(a, None, err)
            }
        }),
{
    let attributes = message.attributes();
    let open_present = attributes.has_open_payload_encoding();
    let legacy_present = match attributes.payload_format() {
        Some(format) => format.as_i32() != 0,
        None => false,
    };
    let has_payload = message.has_payload();
    if has_payload && !(legacy_present || open_present) {
        return Err(UFrameMetadataError::PayloadWithoutEncoding);
    }
    if !has_payload && (legacy_present || open_present) {
        return Err(UFrameMetadataError::EncodingWithoutPayload);
    }
    try_project_attributes_to_frame_metadata(attributes, None)
}

/// Projects native frame metadata and optional payload bytes into a message.
///
/// Fails when payload bytes and payload encoding are not both present or
/// both absent, or when the metadata cannot be projected to attributes.
pub fn try_project_frame_to_umessage(metadata: UFrameMetadata, payload: Option<Bytes>) -> (r: Result<UMessage, UFrameMetadataError>)
    ensures
        ({
            let m = metadata@;
            &&& payload is Some && m.payload_encoding is None ==> r == Err::<UMessage, UFrameMetadataError>(UFrameMetadataError::PayloadWithoutEncoding)
            &&& payload is None && m.payload_encoding is Some ==> r == Err::<UMessage, UFrameMetadataError>(UFrameMetadataError::EncodingWithoutPayload)
            &&& (payload is Some) == (m.payload_encoding is Some) ==> {
                &&& r is Ok <==> attributes_representable(m)
                &&& r matches Ok(msg) ==> msg.attributes@ == projected_attributes(m) && msg.payload == payload
                &&& r matches Err(err) ==> if !metadata_valid(m) {
                    is_validation_error_for(m, err)
                } else {
                    is_representation_error_for(m, err)
                }
            }
        }),
{
    let has_payload = payload.is_some();
    let has_encoding = metadata.payload_encoding().is_some();
    if has_payload && !has_encoding {
        return Err(UFrameMetadataError::PayloadWithoutEncoding);
    }
    if !has_payload && has_encoding {
        return Err(UFrameMetadataError::EncodingWithoutPayload);
    }
    let attributes = metadata.try_project_to_attributes()?;
    Ok(UMessage::new(attributes, payload))
}

impl UMessage {
    /// Projects this message to frame metadata carrying `payload_encoding`.
    ///
    /// Fails for a message without payload, or when the attributes and the
    /// encoding disagree or the result is invalid.
    pub fn to_frame_metadata(&self, payload_encoding: PayloadEncoding) -> (r: Result<UFrameMetadata, UFrameMetadataError>)
        ensures
            self.payload is None ==> r == Err::<UFrameMetadata, UFrameMetadataError>(UFrameMetadataError::EncodingWithoutPayload),
            self.payload is Some ==> {
                let p = project_attributes(self.attributes@, Some(payload_encoding@));
                &&& r is Ok <==> (p matches Some(m) && metadata_valid(m))
                &&& r matches Ok(m) ==> Some(m@) == p
                &&& r matches Err(err) ==> is_projection_error_for(self.attributes@, Some(payload_encoding@), err)
            },
    {
        if !self.has_payload() {
            return Err(UFrameMetadataError::EncodingWithoutPayload);
        }
        self.attributes().to_frame_metadata(payload_encoding)
    }

    /// Projects this payload-free message to frame metadata.
    ///
    /// Fails for a message with payload, or when the attributes declare a
    /// payload encoding or the result is invalid.
    pub fn to_frame_metadata_unencoded(&self) -> (r: Result<UFrameMetadata, UFrameMetadataError>)
        ensures
            self.payload is Some ==> r == Err::<UFrameMetadata, UFrameMetadataError>(UFrameMetadataError::PayloadWithoutEncoding),
            self.payload is None ==> {
                let p = project_attributes(self.attributes@, None);
                &&& r is Ok <==> (p matches Some(m) && metadata_valid(m) && m.payload_encoding is None)
                &&& r matches Ok(m) ==> Some(m@) == p
                &&& r matches Err(err) ==> ((p matches Some(m) && metadata_valid(m)) ==> err is EncodingWithoutPayload)
            },
    {
        if self.has_payload() {
            return Err(UFrameMetadataError::PayloadWithoutEncoding);
        }
        self.attributes().to_frame_metadata_unencoded()
    }
}

impl UAttributes {
    /// Projects these attributes to frame metadata carrying `payload_encoding`.
    pub fn to_frame_metadata(&self, payload_encoding: PayloadEncoding) -> (r: Result<UFrameMetadata, UFrameMetadataError>)
        ensures
            ({
                let p = project_attributes(self@, Some(payload_encoding@));
                &&& r is Ok <==> (p matches Some(m) && metadata_valid(m))
                &&& r matches Ok(m) ==> Some(m@) == p
                &&& r matches Err(err) ==> is_projection_error_for(self@, Some(payload_encoding@), err)
            }),
    {
        try_project_attributes_to_frame_metadata(self, Some(payload_encoding))
    }

    /// Projects these attributes to frame metadata for a payload-free
    /// message; fails if they declare a payload encoding.
    pub fn to_frame_metadata_unencoded(&self) -> (r: Result<UFrameMetadata, UFrameMetadataError>)
        ensures
            ({
                let p = project_attributes(self@, None);
                &&& r is Ok <==> (p matches Some(m) && metadata_valid(m) && m.payload_encoding is None)
                &&& r matches Ok(m) ==> Some(m@) == p
                &&& r matches Err(err) ==> if (p matches Some(m) && metadata_valid(m)) {
                    err is EncodingWithoutPayload
                } else {
                    is_projection_error_for(self@, None, err)
                }
            }),
    {
        let metadata = try_project_attributes_to_frame_metadata(self, None)?;
        if metadata.payload_encoding().is_some() {
            return Err(UFrameMetadataError::EncodingWithoutPayload);
        }
        Ok(metadata)
    }
}

} // verus!
