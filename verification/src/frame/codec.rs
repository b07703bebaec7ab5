//! Canonical byte codec for native frame metadata: the frame metadata field
//! block, version 1.
//!
//! Layout (all multi-byte integers little-endian):
//!
//! ```text
//! u8   block_version        = 1
//! u8   kind                 FrameMessageKind wire code (1..=4)
//! u8   priority             0 = absent, 1..=7 = CS0..=CS6
//! u8   reserved             = 0
//! u32  presence             FIELD_* bitmask; unknown bits must be zero
//! u64  id.msb
//! u64  id.lsb
//! [FIELD_REQID]             u64 msb, u64 lsb
//! [FIELD_TTL]               u64 ttl in nanoseconds
//! [FIELD_COMM_STATUS]       i32 UCode value
//! [FIELD_PERMISSION_LEVEL]  u32
//! source UUri block         u32 ue_id, u16 resource_id, u8 ue_version_major,
//!                           u8 authority_len, authority bytes (UTF-8)
//! [FIELD_SINK]              UUri block
//! [FIELD_TOKEN]             u16 len, token bytes (UTF-8)
//! [FIELD_TRACEPARENT]       u8 len, traceparent bytes (UTF-8)
//! [FIELD_PAYLOAD_ENCODING]  u32 payload-encoding registry identifier
//! [FIELD_NATIVE_TYPE_TOKEN] u32 structural native type token
//! ```
//!
//! Values that do not fit a length field are rejected at encode time:
//! encoding never truncates. Decoding consumes the entire input and checks
//! version, reserved bits, lengths, UTF-8, identities and metadata validity.
use vstd::bytes::*;
use vstd::prelude::*;
use vstd::utf8::*;

use crate::frame::metadata::{
    encoding_from_id, kind_from_wire_code, kind_wire_code, lemma_kind_wire_code_round_trip,
    lemma_priority_wire_code_round_trip, priority_from_wire_code, priority_wire_code,
    FrameMessageKind, FrameMetadataModel, FramePriority, PayloadEncoding, PayloadEncodingModel,
    UFrameMetadata, UFrameMetadataError, metadata_error_text, metadata_valid, is_validation_error_for, opt_encoding_view,
};
use crate::frame::native::NativeTypeToken;
use crate::time::Duration;
use crate::uri::{invalid_authority_text, valid_authority, UUri, UUriModel};
use crate::ustatus::{ucode_from_value, ucode_value, lemma_ucode_value_round_trip, UCode};
use vstd::string::*;
use crate::text::{
    append_decimal, append_decimal_i32, append_decimal_u64, append_hex8, concat3, concat_str, decimal, hex8,
    signed_decimal, utf8_error_text, utf8_to_string,
};
use crate::uattributes::{opt_str_view, opt_uri_view};
use crate::uuid::{is_uprotocol_uuid, UUIDError, UUID};

verus! {

/// Version of the field block emitted by the encoder.
pub const FRAME_FIELDS_VERSION: u8 = 1;
/// Presence bit: the frame has a sink URI.
pub const FIELD_SINK: u32 = 1;
/// Presence bit: the frame has a correlated request id.
pub const FIELD_REQID: u32 = 2;
/// Presence bit: the frame has a time-to-live.
pub const FIELD_TTL: u32 = 4;
/// Presence bit: the frame has a communication status.
pub const FIELD_COMM_STATUS: u32 = 8;
/// Presence bit: the frame has a permission level.
pub const FIELD_PERMISSION_LEVEL: u32 = 16;
/// Presence bit: the frame has an access token.
pub const FIELD_TOKEN: u32 = 32;
/// Presence bit: the frame has a W3C traceparent.
pub const FIELD_TRACEPARENT: u32 = 64;
/// Presence bit: the frame has a payload encoding.
pub const FIELD_PAYLOAD_ENCODING: u32 = 128;
/// Presence bit: a structural native type token is carried.
pub const FIELD_NATIVE_TYPE_TOKEN: u32 = 256;
/// All presence bits defined by field block version 1.
pub const FIELD_MASK_V1: u32 = 511;

/// Errors returned by the field block codec.
#[derive(Clone, Debug, PartialEq, Eq)]
pub enum UFrameFieldsError {
    /// The input bytes are not a well-formed field block.
    Malformed(String),
    /// A value does not fit its field block length field.
    ValueTooLong { field: &'static str },
    /// The (decoded or to-be-encoded) metadata violates frame invariants.
    Metadata(UFrameMetadataError),
}

/// The human-readable text of a field block codec error.
pub open spec fn fields_error_text(e: UFrameFieldsError) -> Seq<char> {
    match e {
        UFrameFieldsError::Malformed(m) => "malformed frame metadata fields: "@ + m@,
        UFrameFieldsError::ValueTooLong { field } => "frame metadata field `"@ + field@ + "` does not fit the field block"@,
        UFrameFieldsError::Metadata(err) => "invalid frame metadata: "@ + metadata_error_text(err),
    }
}

impl UFrameFieldsError {
    /// Returns the human-readable text of this error.
    pub fn to_string(&self) -> (s: String)
        ensures
            s@ == fields_error_text(*self),
    {
        match self {
            UFrameFieldsError::Malformed(m) => concat_str("malformed frame metadata fields: ", m.as_str()),
            UFrameFieldsError::ValueTooLong { field } => concat3("frame metadata field `", field, "` does not fit the field block"),
            UFrameFieldsError::Metadata(err) => {
                let inner = err.to_string();
                concat_str("invalid frame metadata: ", inner.as_str())
            },
        }
    }
}

impl From<UFrameMetadataError> for UFrameFieldsError {
    fn from(value: UFrameMetadataError) -> (r: UFrameFieldsError) {
        UFrameFieldsError::Metadata(value)
    }
}

impl vstd::std_specs::convert::FromSpecImpl<UFrameMetadataError> for UFrameFieldsError {
    open spec fn obeys_from_spec() -> bool {
        true
    }

    open spec fn from_spec(value: UFrameMetadataError) -> UFrameFieldsError {
        UFrameFieldsError::Metadata(value)
    }
}

// ---------------------------------------------------------------------------
// The field block of a metadata value
// ---------------------------------------------------------------------------

/// The 16 bytes of a UUID: msb then lsb, little-endian.
pub open spec fn uuid_block(u: UUID) -> Seq<u8> {
    spec_u64_to_le_bytes(u.spec_msb()) + spec_u64_to_le_bytes(u.spec_lsb())
}

/// The block of a URI: ue_id, resource id, major version, authority length
/// and the authority's UTF-8 bytes.
pub open spec fn uri_block(u: UUriModel) -> Seq<u8> {
    spec_u32_to_le_bytes(u.ue_id) + (spec_u16_to_le_bytes(u.resource) + (seq![u.version, encode_utf8(u.authority).len() as u8] + encode_utf8(u.authority)))
}

/// Presence bit `bit` when `present`, else 0.
pub open spec fn presence_bit(present: bool, bit: u32) -> u32 {
    if present { bit } else { 0 }
}

/// The presence mask of metadata `m`.
pub open spec fn presence_bits(m: FrameMetadataModel) -> u32 {
    (presence_bit(m.sink is Some, FIELD_SINK) + presence_bit(m.reqid is Some, FIELD_REQID)
        + presence_bit(m.ttl is Some, FIELD_TTL) + presence_bit(m.comm_status is Some, FIELD_COMM_STATUS)
        + presence_bit(m.permission_level is Some, FIELD_PERMISSION_LEVEL)
        + presence_bit(m.token is Some, FIELD_TOKEN) + presence_bit(m.traceparent is Some, FIELD_TRACEPARENT)
        + presence_bit(m.payload_encoding is Some, FIELD_PAYLOAD_ENCODING)
        + presence_bit(m.native_type_token is Some, FIELD_NATIVE_TYPE_TOKEN)) as u32
}

/// Wire code of an optional priority (0 when absent).
pub open spec fn opt_priority_code(p: Option<FramePriority>) -> u8 {
    match p {
        Some(p) => priority_wire_code(p),
        None => 0,
    }
}

pub open spec fn opt_uuid_block(u: Option<UUID>) -> Seq<u8> {
    match u {
        Some(u) => uuid_block(u),
        None => seq![],
    }
}

pub open spec fn ttl_block(t: Option<Duration>) -> Seq<u8> {
    match t {
        Some(t) => spec_u64_to_le_bytes(t.total_nanos() as u64),
        None => seq![],
    }
}

pub open spec fn comm_status_block(c: Option<UCode>) -> Seq<u8> {
    match c {
        Some(c) => spec_u32_to_le_bytes(ucode_value(c) as u32),
        None => seq![],
    }
}

pub open spec fn opt_u32_block(v: Option<u32>) -> Seq<u8> {
    match v {
        Some(v) => spec_u32_to_le_bytes(v),
        None => seq![],
    }
}

pub open spec fn opt_uri_block(u: Option<UUriModel>) -> Seq<u8> {
    match u {
        Some(u) => uri_block(u),
        None => seq![],
    }
}

pub open spec fn token_block(t: Option<Seq<char>>) -> Seq<u8> {
    match t {
        Some(t) => spec_u16_to_le_bytes(encode_utf8(t).len() as u16) + encode_utf8(t),
        None => seq![],
    }
}

pub open spec fn traceparent_block(t: Option<Seq<char>>) -> Seq<u8> {
    match t {
        Some(t) => seq![encode_utf8(t).len() as u8] + encode_utf8(t),
        None => seq![],
    }
}

pub open spec fn encoding_block(e: Option<PayloadEncodingModel>) -> Seq<u8> {
    match e {
        Some(e) => spec_u32_to_le_bytes(e.registry_id.unwrap()),
        None => seq![],
    }
}

pub open spec fn native_token_block(t: Option<NativeTypeToken>) -> Seq<u8> {
    match t {
        Some(t) => spec_u32_to_le_bytes(t.0),
        None => seq![],
    }
}

/// The payload encoding and native token part of the field block.
pub open spec fn block_tail3(m: FrameMetadataModel) -> Seq<u8> {
    encoding_block(m.payload_encoding) + native_token_block(m.native_type_token)
}

/// The token, traceparent, payload encoding and native token part.
pub open spec fn block_tail2(m: FrameMetadataModel) -> Seq<u8> {
    token_block(m.token) + (traceparent_block(m.traceparent) + block_tail3(m))
}

/// The addressing part and everything after it.
pub open spec fn block_tail1(m: FrameMetadataModel) -> Seq<u8> {
    uri_block(m.source) + (opt_uri_block(m.sink) + block_tail2(m))
}

/// Everything after the frame id.
pub open spec fn block_tail0(m: FrameMetadataModel) -> Seq<u8> {
    opt_uuid_block(m.reqid) + (ttl_block(m.ttl) + (comm_status_block(m.comm_status)
        + (opt_u32_block(m.permission_level) + block_tail1(m))))
}

/// The canonical field block of metadata `m`.
pub open spec fn field_block(m: FrameMetadataModel) -> Seq<u8> {
    seq![FRAME_FIELDS_VERSION, kind_wire_code(m.kind), opt_priority_code(m.priority), 0u8]
        + (spec_u32_to_le_bytes(presence_bits(m)) + (uuid_block(m.id) + block_tail0(m)))
}

/// Whether a payload encoding is carried exactly by the field block: it is
/// the identity denoted by a 16-bit registry id.
pub open spec fn encoding_field_representable(e: PayloadEncodingModel) -> bool {
    &&& e.registry_id is Some
    &&& e.registry_id.unwrap() <= 0xFFFF
    &&& e == encoding_from_id(e.registry_id.unwrap())
}

/// Whether every value of `m` fits its field: TTL nanoseconds in 64 bits,
/// authority names in 255 bytes, the token in 65535 bytes, the traceparent in
/// 255 bytes, the payload encoding as a registry id.
pub open spec fn fields_encodable(m: FrameMetadataModel) -> bool {
    &&& (m.ttl is Some ==> m.ttl.unwrap().total_nanos() <= u64::MAX)
    &&& encode_utf8(m.source.authority).len() <= 255
    &&& (m.sink is Some ==> encode_utf8(m.sink.unwrap().authority).len() <= 255)
    &&& (m.token is Some ==> encode_utf8(m.token.unwrap()).len() <= 0xFFFF)
    &&& (m.traceparent is Some ==> encode_utf8(m.traceparent.unwrap()).len() <= 255)
    &&& (m.payload_encoding is Some ==> encoding_field_representable(m.payload_encoding.unwrap()))
}

/// The field named when `m` is not encodable: the first value, in the order
/// TTL, source authority, sink authority, token, traceparent, payload
/// encoding, that does not fit its field.
pub open spec fn unencodable_field(m: FrameMetadataModel) -> Seq<char> {
    if m.ttl is Some && m.ttl.unwrap().total_nanos() > u64::MAX {
        "ttl"@
    } else if encode_utf8(m.source.authority).len() > 255 {
        "authority_name"@
    } else if m.sink is Some && encode_utf8(m.sink.unwrap().authority).len() > 255 {
        "authority_name"@
    } else if m.token is Some && encode_utf8(m.token.unwrap()).len() > 0xFFFF {
        "token"@
    } else if m.traceparent is Some && encode_utf8(m.traceparent.unwrap()).len() > 255 {
        "traceparent"@
    } else {
        "payload_encoding"@
    }
}

/// The first seven bytes of a URI's block: ue_id, resource id and major
/// version, written before the authority length is checked.
pub open spec fn uri_head(u: UUriModel) -> Seq<u8> {
    spec_u32_to_le_bytes(u.ue_id) + (spec_u16_to_le_bytes(u.resource) + seq![u.version])
}

/// The fixed header and frame id that open every field block.
pub open spec fn field_block_head(m: FrameMetadataModel) -> Seq<u8> {
    seq![FRAME_FIELDS_VERSION, kind_wire_code(m.kind), opt_priority_code(m.priority), 0u8]
        + (spec_u32_to_le_bytes(presence_bits(m)) + uuid_block(m.id))
}

/// The token and traceparent bytes written before a token or traceparent
/// too long for its length field.
pub open spec fn partial_tail3(m: FrameMetadataModel) -> Seq<u8> {
    if m.token is Some && encode_utf8(m.token.unwrap()).len() > 0xFFFF {
        seq![]
    } else if m.traceparent is Some && encode_utf8(m.traceparent.unwrap()).len() > 255 {
        token_block(m.token)
    } else {
        token_block(m.token) + traceparent_block(m.traceparent)
    }
}

/// The sink bytes and what follows, up to the first value too long.
pub open spec fn partial_tail2(m: FrameMetadataModel) -> Seq<u8> {
    if m.sink is Some && encode_utf8(m.sink.unwrap().authority).len() > 255 {
        uri_head(m.sink.unwrap())
    } else {
        opt_uri_block(m.sink) + partial_tail3(m)
    }
}

/// The source bytes and what follows, up to the first value too long.
pub open spec fn partial_tail1(m: FrameMetadataModel) -> Seq<u8> {
    if encode_utf8(m.source.authority).len() > 255 {
        uri_head(m.source)
    } else {
        uri_block(m.source) + partial_tail2(m)
    }
}

/// The bytes written, in field order, before the first value that does not
/// fit its field (see `unencodable_field`) is reached.
pub open spec fn partial_field_block(m: FrameMetadataModel) -> Seq<u8> {
    field_block_head(m) + (opt_uuid_block(m.reqid) + (
        if m.ttl is Some && m.ttl.unwrap().total_nanos() > u64::MAX {
            seq![]
        } else {
            ttl_block(m.ttl) + (comm_status_block(m.comm_status) + (opt_u32_block(m.permission_level)
                + partial_tail1(m)))
        }))
}

/// Whether `m` is recovered from its field block: it is encodable, its URIs
/// have valid authority names, its ids are uProtocol UUIDs and its TTL is a
/// well-formed span.
pub open spec fn fields_decodable(m: FrameMetadataModel) -> bool {
    &&& fields_encodable(m)
    &&& m.source.wf()
    &&& (m.sink is Some ==> m.sink.unwrap().wf())
    &&& m.id.wf()
    &&& (m.reqid is Some ==> m.reqid.unwrap().wf())
    &&& (m.ttl is Some ==> m.ttl.unwrap().wf())
}

/// Whether `bytes` is the field block of metadata `m` that decodes back to `m`.
pub open spec fn is_field_block_of(bytes: Seq<u8>, m: FrameMetadataModel) -> bool {
    fields_decodable(m) && field_block(m) == bytes
}

// ---------------------------------------------------------------------------
// Parsing a field block (specification)
// ---------------------------------------------------------------------------

spec fn p_u8(b: Seq<u8>) -> Option<(u8, Seq<u8>)> {
    if b.len() >= 1 { Some((b[0], b.skip(1))) } else { None }
}

spec fn p_u16(b: Seq<u8>) -> Option<(u16, Seq<u8>)> {
    if b.len() >= 2 { Some((spec_u16_from_le_bytes(b.take(2)), b.skip(2))) } else { None }
}

spec fn p_u32(b: Seq<u8>) -> Option<(u32, Seq<u8>)> {
    if b.len() >= 4 { Some((spec_u32_from_le_bytes(b.take(4)), b.skip(4))) } else { None }
}

spec fn p_u64(b: Seq<u8>) -> Option<(u64, Seq<u8>)> {
    if b.len() >= 8 { Some((spec_u64_from_le_bytes(b.take(8)), b.skip(8))) } else { None }
}

spec fn p_utf8(b: Seq<u8>, n: nat) -> Option<(Seq<char>, Seq<u8>)> {
    if b.len() >= n && valid_utf8(b.take(n as int)) {
        Some((decode_utf8(b.take(n as int)), b.skip(n as int)))
    } else {
        None
    }
}

spec fn p_uuid(b: Seq<u8>) -> Option<(UUID, Seq<u8>)> {
    match p_u64(b) {
        None => None,
        Some((msb, r1)) => match p_u64(r1) {
            None => None,
            Some((lsb, r2)) => if is_uprotocol_uuid(msb, lsb) {
                Some((UUID::spec_from_pair(msb, lsb), r2))
            } else {
                None
            },
        },
    }
}

spec fn p_uri(b: Seq<u8>) -> Option<(UUriModel, Seq<u8>)> {
    match p_u32(b) {
        None => None,
        Some((ue_id, r1)) => match p_u16(r1) {
            None => None,
            Some((resource, r2)) => match p_u8(r2) {
                None => None,
                Some((version, r3)) => match p_u8(r3) {
                    None => None,
                    Some((len, r4)) => match p_utf8(r4, len as nat) {
                        None => None,
                        Some((authority, r5)) => if valid_authority(authority) {
                            Some((UUriModel { authority, ue_id, version, resource }, r5))
                        } else {
                            None
                        },
                    },
                },
            },
        },
    }
}

spec fn p_opt_uuid(b: Seq<u8>, present: bool) -> Option<(Option<UUID>, Seq<u8>)> {
    if !present {
        Some((None, b))
    } else {
        match p_uuid(b) {
            None => None,
            Some((u, r)) => Some((Some(u), r)),
        }
    }
}

spec fn p_opt_ttl(b: Seq<u8>, present: bool) -> Option<(Option<Duration>, Seq<u8>)> {
    if !present {
        Some((None, b))
    } else {
        match p_u64(b) {
            None => None,
            Some((n, r)) => Some((Some(Duration::spec_from_nanos(n)), r)),
        }
    }
}

spec fn p_opt_comm_status(b: Seq<u8>, present: bool) -> Option<(Option<UCode>, Seq<u8>)> {
    if !present {
        Some((None, b))
    } else {
        match p_u32(b) {
            None => None,
            Some((raw, r)) => if raw <= 16 { Some((ucode_from_value(raw as int), r)) } else { None },
        }
    }
}

spec fn p_opt_u32(b: Seq<u8>, present: bool) -> Option<(Option<u32>, Seq<u8>)> {
    if !present {
        Some((None, b))
    } else {
        match p_u32(b) {
            None => None,
            Some((v, r)) => Some((Some(v), r)),
        }
    }
}

spec fn p_opt_uri(b: Seq<u8>, present: bool) -> Option<(Option<UUriModel>, Seq<u8>)> {
    if !present {
        Some((None, b))
    } else {
        match p_uri(b) {
            None => None,
            Some((u, r)) => Some((Some(u), r)),
        }
    }
}

spec fn p_opt_token(b: Seq<u8>, present: bool) -> Option<(Option<Seq<char>>, Seq<u8>)> {
    if !present {
        Some((None, b))
    } else {
        match p_u16(b) {
            None => None,
            Some((len, r1)) => match p_utf8(r1, len as nat) {
                None => None,
                Some((s, r2)) => Some((Some(s), r2)),
            },
        }
    }
}

spec fn p_opt_traceparent(b: Seq<u8>, present: bool) -> Option<(Option<Seq<char>>, Seq<u8>)> {
    if !present {
        Some((None, b))
    } else {
        match p_u8(b) {
            None => None,
            Some((len, r1)) => match p_utf8(r1, len as nat) {
                None => None,
                Some((s, r2)) => Some((Some(s), r2)),
            },
        }
    }
}

spec fn p_opt_encoding(b: Seq<u8>, present: bool) -> Option<(Option<PayloadEncodingModel>, Seq<u8>)> {
    if !present {
        Some((None, b))
    } else {
        match p_u32(b) {
            None => None,
            Some((id, r)) => if id <= 0xFFFF { Some((Some(encoding_from_id(id)), r)) } else { None },
        }
    }
}

spec fn p_opt_native_token(b: Seq<u8>, present: bool) -> Option<(Option<NativeTypeToken>, Seq<u8>)> {
    if !present {
        Some((None, b))
    } else {
        match p_u32(b) {
            None => None,
            Some((v, r)) => Some((Some(NativeTypeToken(v)), r)),
        }
    }
}

/// Whether presence mask `presence` has bit `bit` set.
pub open spec fn has_bit(presence: u32, bit: u32) -> bool {
    presence & bit != 0
}

/// The fixed header: version, kind, priority, reserved byte and presence mask.
spec fn p_header(b: Seq<u8>) -> Option<(FrameMessageKind, Option<FramePriority>, u32, Seq<u8>)> {
    if b.len() < 8 {
        None
    } else {
        let presence = spec_u32_from_le_bytes(b.subrange(4, 8));
        if b[0] != FRAME_FIELDS_VERSION || kind_from_wire_code(b[1]) is None
            || (b[2] != 0 && priority_from_wire_code(b[2]) is None) || b[3] != 0
            || presence & !FIELD_MASK_V1 != 0 {
            None
        } else {
            let priority = if b[2] == 0 { None } else { priority_from_wire_code(b[2]) };
            Some((kind_from_wire_code(b[1]).unwrap(), priority, presence, b.skip(8)))
        }
    }
}

spec fn parse_stage6(acc: FrameMetadataModel, presence: u32, r10: Seq<u8>) -> Option<FrameMetadataModel> {
    match p_opt_native_token(r10, has_bit(presence, FIELD_NATIVE_TYPE_TOKEN)) {
        None => None,
        Some((native_type_token, r11)) => if r11.len() == 0 {
            Some(FrameMetadataModel { native_type_token, ..acc })
        } else {
            None
        },
    }
}

spec fn parse_stage5(acc: FrameMetadataModel, presence: u32, r8: Seq<u8>) -> Option<FrameMetadataModel> {
    match p_opt_traceparent(r8, has_bit(presence, FIELD_TRACEPARENT)) {
        None => None,
        Some((traceparent, r9)) => match p_opt_encoding(r9, has_bit(presence, FIELD_PAYLOAD_ENCODING)) {
            None => None,
            Some((payload_encoding, r10)) => parse_stage6(FrameMetadataModel { traceparent, payload_encoding, ..acc }, presence, r10),
        },
    }
}

spec fn parse_stage4(acc: FrameMetadataModel, presence: u32, r6: Seq<u8>) -> Option<FrameMetadataModel> {
    match p_opt_uri(r6, has_bit(presence, FIELD_SINK)) {
        None => None,
        Some((sink, r7)) => match p_opt_token(r7, has_bit(presence, FIELD_TOKEN)) {
            None => None,
            Some((token, r8)) => parse_stage5(FrameMetadataModel { sink, token, ..acc }, presence, r8),
        },
    }
}

spec fn parse_stage3(acc: FrameMetadataModel, presence: u32, r4: Seq<u8>) -> Option<FrameMetadataModel> {
    match p_opt_u32(r4, has_bit(presence, FIELD_PERMISSION_LEVEL)) {
        None => None,
        Some((permission_level, r5)) => match p_uri(r5) {
            None => None,
            Some((source, r6)) => parse_stage4(FrameMetadataModel { permission_level, source, ..acc }, presence, r6),
        },
    }
}

spec fn parse_stage2(acc: FrameMetadataModel, presence: u32, r2: Seq<u8>) -> Option<FrameMetadataModel> {
    match p_opt_ttl(r2, has_bit(presence, FIELD_TTL)) {
        None => None,
        Some((ttl, r3)) => match p_opt_comm_status(r3, has_bit(presence, FIELD_COMM_STATUS)) {
            None => None,
            Some((comm_status, r4)) => parse_stage3(FrameMetadataModel { ttl, comm_status, ..acc }, presence, r4),
        },
    }
}

spec fn parse_stage1(acc: FrameMetadataModel, presence: u32, r0: Seq<u8>) -> Option<FrameMetadataModel> {
    match p_uuid(r0) {
        None => None,
        Some((id, r1)) => match p_opt_uuid(r1, has_bit(presence, FIELD_REQID)) {
            None => None,
            Some((reqid, r2)) => parse_stage2(FrameMetadataModel { id, reqid, ..acc }, presence, r2),
        },
    }
}

/// The decoded metadata of a field block, if the bytes are one (before the
/// metadata validity check).
spec fn parse_field_block(b: Seq<u8>) -> Option<FrameMetadataModel> {
    match p_header(b) {
        None => None,
        Some((kind, priority, presence, r0)) => {
            let acc = FrameMetadataModel { kind, priority, ..arbitrary() };
            parse_stage1(acc, presence, r0)
        },
    }
}

// ---------------------------------------------------------------------------
// Parsing lemmas
// ---------------------------------------------------------------------------

proof fn lemma_p_u8(x: u8, rest: Seq<u8>)
    ensures
        p_u8(seq![x] + rest) == Some((x, rest)),
{
    assert((seq![x] + rest).skip(1) =~= rest);
}

proof fn lemma_p_u16(x: u16, rest: Seq<u8>)
    ensures
        p_u16(spec_u16_to_le_bytes(x) + rest) == Some((x, rest)),
{
    lemma_auto_spec_u16_to_from_le_bytes();
    let b = spec_u16_to_le_bytes(x) + rest;
    assert(b.take(2) =~= spec_u16_to_le_bytes(x));
    assert(b.skip(2) =~= rest);
}

proof fn lemma_p_u32(x: u32, rest: Seq<u8>)
    ensures
        p_u32(spec_u32_to_le_bytes(x) + rest) == Some((x, rest)),
{
    lemma_auto_spec_u32_to_from_le_bytes();
    let b = spec_u32_to_le_bytes(x) + rest;
    assert(b.take(4) =~= spec_u32_to_le_bytes(x));
    assert(b.skip(4) =~= rest);
}

proof fn lemma_p_u64(x: u64, rest: Seq<u8>)
    ensures
        p_u64(spec_u64_to_le_bytes(x) + rest) == Some((x, rest)),
{
    lemma_auto_spec_u64_to_from_le_bytes();
    let b = spec_u64_to_le_bytes(x) + rest;
    assert(b.take(8) =~= spec_u64_to_le_bytes(x));
    assert(b.skip(8) =~= rest);
}

proof fn lemma_p_utf8(s: Seq<char>, rest: Seq<u8>)
    ensures
        p_utf8(encode_utf8(s) + rest, encode_utf8(s).len()) == Some((s, rest)),
{
    encode_utf8_valid_utf8(s);
    encode_utf8_decode_utf8(s);
    let b = encode_utf8(s) + rest;
    assert(b.take(encode_utf8(s).len() as int) =~= encode_utf8(s));
    assert(b.skip(encode_utf8(s).len() as int) =~= rest);
}

proof fn lemma_p_uuid(u: UUID, rest: Seq<u8>)
    requires
        u.wf(),
    ensures
        p_uuid(uuid_block(u) + rest) == Some((u, rest)),
{
    let a = spec_u64_to_le_bytes(u.spec_msb());
    let c = spec_u64_to_le_bytes(u.spec_lsb());
    assert(uuid_block(u) + rest =~= a + (c + rest));
    lemma_p_u64(u.spec_msb(), c + rest);
    lemma_p_u64(u.spec_lsb(), rest);
    UUID::lemma_from_pair(u.spec_msb(), u.spec_lsb(), u);
}

proof fn lemma_p_uri(u: UUriModel, rest: Seq<u8>)
    requires
        u.wf(),
        encode_utf8(u.authority).len() <= 255,
    ensures
        p_uri(uri_block(u) + rest) == Some((u, rest)),
{
    let auth = encode_utf8(u.authority);
    let len = auth.len() as u8;
    let r4 = auth + rest;
    let r3 = seq![len] + r4;
    let r2 = seq![u.version] + r3;
    let r1 = spec_u16_to_le_bytes(u.resource) + r2;
    assert(uri_block(u) + rest =~= spec_u32_to_le_bytes(u.ue_id) + r1);
    lemma_p_u32(u.ue_id, r1);
    lemma_p_u16(u.resource, r2);
    lemma_p_u8(u.version, r3);
    lemma_p_u8(len, r4);
    lemma_p_utf8(u.authority, rest);
}

/// The presence mask of `m` has no unknown bits, and each defined bit is set
/// exactly when its field is present.
pub proof fn lemma_presence_bits(m: FrameMetadataModel)
    ensures
        presence_bits(m) & !FIELD_MASK_V1 == 0,
        has_bit(presence_bits(m), FIELD_SINK) == m.sink is Some,
        has_bit(presence_bits(m), FIELD_REQID) == m.reqid is Some,
        has_bit(presence_bits(m), FIELD_TTL) == m.ttl is Some,
        has_bit(presence_bits(m), FIELD_COMM_STATUS) == m.comm_status is Some,
        has_bit(presence_bits(m), FIELD_PERMISSION_LEVEL) == m.permission_level is Some,
        has_bit(presence_bits(m), FIELD_TOKEN) == m.token is Some,
        has_bit(presence_bits(m), FIELD_TRACEPARENT) == m.traceparent is Some,
        has_bit(presence_bits(m), FIELD_PAYLOAD_ENCODING) == m.payload_encoding is Some,
        has_bit(presence_bits(m), FIELD_NATIVE_TYPE_TOKEN) == m.native_type_token is Some,
{
    let x0 = presence_bit(m.sink is Some, FIELD_SINK);
    let x1 = presence_bit(m.reqid is Some, FIELD_REQID);
    let x2 = presence_bit(m.ttl is Some, FIELD_TTL);
    let x3 = presence_bit(m.comm_status is Some, FIELD_COMM_STATUS);
    let x4 = presence_bit(m.permission_level is Some, FIELD_PERMISSION_LEVEL);
    let x5 = presence_bit(m.token is Some, FIELD_TOKEN);
    let x6 = presence_bit(m.traceparent is Some, FIELD_TRACEPARENT);
    let x7 = presence_bit(m.payload_encoding is Some, FIELD_PAYLOAD_ENCODING);
    let x8 = presence_bit(m.native_type_token is Some, FIELD_NATIVE_TYPE_TOKEN);
    let p = presence_bits(m);
    assert(p == x0 + x1 + x2 + x3 + x4 + x5 + x6 + x7 + x8);
    assert({
        &&& p & !511u32 == 0
        &&& (p & 1 != 0) == (x0 == 1)
        &&& (p & 2 != 0) == (x1 == 2)
        &&& (p & 4 != 0) == (x2 == 4)
        &&& (p & 8 != 0) == (x3 == 8)
        &&& (p & 16 != 0) == (x4 == 16)
        &&& (p & 32 != 0) == (x5 == 32)
        &&& (p & 64 != 0) == (x6 == 64)
        &&& (p & 128 != 0) == (x7 == 128)
        &&& (p & 256 != 0) == (x8 == 256)
    }) by (bit_vector)
        requires
            x0 == 0 || x0 == 1,
            x1 == 0 || x1 == 2,
            x2 == 0 || x2 == 4,
            x3 == 0 || x3 == 8,
            x4 == 0 || x4 == 16,
            x5 == 0 || x5 == 32,
            x6 == 0 || x6 == 64,
            x7 == 0 || x7 == 128,
            x8 == 0 || x8 == 256,
            p == x0 + x1 + x2 + x3 + x4 + x5 + x6 + x7 + x8,
    ;
}

proof fn lemma_stage6(acc: FrameMetadataModel, m: FrameMetadataModel, presence: u32)
    requires
        presence == presence_bits(m),
        (FrameMetadataModel { native_type_token: m.native_type_token, ..acc }) == m,
    ensures
        parse_stage6(acc, presence, native_token_block(m.native_type_token)) == Some(m),
{
    lemma_presence_bits(m);
    let r11 = Seq::<u8>::empty();
    if m.native_type_token is Some {
        lemma_p_u32(m.native_type_token.unwrap().0, r11);
        assert(native_token_block(m.native_type_token) + r11 =~= native_token_block(m.native_type_token));
    }
}

proof fn lemma_stage5(acc: FrameMetadataModel, m: FrameMetadataModel, presence: u32)
    requires
        presence == presence_bits(m),
        fields_decodable(m),
        (FrameMetadataModel {
            traceparent: m.traceparent,
            payload_encoding: m.payload_encoding,
            native_type_token: m.native_type_token,
            ..acc
        }) == m,
    ensures
        parse_stage5(acc, presence, traceparent_block(m.traceparent) + block_tail3(m)) == Some(m),
{
    lemma_presence_bits(m);
    let r10 = native_token_block(m.native_type_token);
    let r9 = block_tail3(m);
    if m.traceparent is Some {
        let t = m.traceparent.unwrap();
        let len = encode_utf8(t).len() as u8;
        assert(traceparent_block(m.traceparent) + r9 =~= seq![len] + (encode_utf8(t) + r9));
        lemma_p_u8(len, encode_utf8(t) + r9);
        lemma_p_utf8(t, r9);
    } else {
        assert(traceparent_block(m.traceparent) + r9 =~= r9);
    }
    if m.payload_encoding is Some {
        lemma_p_u32(m.payload_encoding.unwrap().registry_id.unwrap(), r10);
    } else {
        assert(r9 =~= r10);
    }
    let acc6 = FrameMetadataModel { traceparent: m.traceparent, payload_encoding: m.payload_encoding, ..acc };
    lemma_stage6(acc6, m, presence);
}

proof fn lemma_stage4(acc: FrameMetadataModel, m: FrameMetadataModel, presence: u32)
    requires
        presence == presence_bits(m),
        fields_decodable(m),
        (FrameMetadataModel {
            sink: m.sink,
            token: m.token,
            traceparent: m.traceparent,
            payload_encoding: m.payload_encoding,
            native_type_token: m.native_type_token,
            ..acc
        }) == m,
    ensures
        parse_stage4(acc, presence, opt_uri_block(m.sink) + block_tail2(m)) == Some(m),
{
    lemma_presence_bits(m);
    let r8 = traceparent_block(m.traceparent) + block_tail3(m);
    let r7 = block_tail2(m);
    if m.sink is Some {
        lemma_p_uri(m.sink.unwrap(), r7);
    } else {
        assert(opt_uri_block(m.sink) + r7 =~= r7);
    }
    if m.token is Some {
        let t = m.token.unwrap();
        let len = encode_utf8(t).len() as u16;
        assert(token_block(m.token) + r8 =~= spec_u16_to_le_bytes(len) + (encode_utf8(t) + r8));
        lemma_p_u16(len, encode_utf8(t) + r8);
        lemma_p_utf8(t, r8);
    } else {
        assert(r7 =~= r8);
    }
    let acc5 = FrameMetadataModel { sink: m.sink, token: m.token, ..acc };
    lemma_stage5(acc5, m, presence);
}

proof fn lemma_stage3(acc: FrameMetadataModel, m: FrameMetadataModel, presence: u32)
    requires
        presence == presence_bits(m),
        fields_decodable(m),
        (FrameMetadataModel {
            permission_level: m.permission_level,
            source: m.source,
            sink: m.sink,
            token: m.token,
            traceparent: m.traceparent,
            payload_encoding: m.payload_encoding,
            native_type_token: m.native_type_token,
            ..acc
        }) == m,
    ensures
        parse_stage3(acc, presence, opt_u32_block(m.permission_level) + block_tail1(m)) == Some(m),
{
    lemma_presence_bits(m);
    let r5 = block_tail1(m);
    let r6 = opt_uri_block(m.sink) + block_tail2(m);
    if m.permission_level is Some {
        lemma_p_u32(m.permission_level.unwrap(), r5);
    } else {
        assert(opt_u32_block(m.permission_level) + r5 =~= r5);
    }
    lemma_p_uri(m.source, r6);
    let acc4 = FrameMetadataModel { permission_level: m.permission_level, source: m.source, ..acc };
    lemma_stage4(acc4, m, presence);
}

proof fn lemma_stage2(acc: FrameMetadataModel, m: FrameMetadataModel, presence: u32)
    requires
        presence == presence_bits(m),
        fields_decodable(m),
        (FrameMetadataModel {
            ttl: m.ttl,
            comm_status: m.comm_status,
            permission_level: m.permission_level,
            source: m.source,
            sink: m.sink,
            token: m.token,
            traceparent: m.traceparent,
            payload_encoding: m.payload_encoding,
            native_type_token: m.native_type_token,
            ..acc
        }) == m,
    ensures
        parse_stage2(acc, presence, ttl_block(m.ttl) + (comm_status_block(m.comm_status)
            + (opt_u32_block(m.permission_level) + block_tail1(m)))) == Some(m),
{
    lemma_presence_bits(m);
    let r4 = opt_u32_block(m.permission_level) + block_tail1(m);
    let r3 = comm_status_block(m.comm_status) + r4;
    if m.ttl is Some {
        lemma_p_u64(m.ttl.unwrap().total_nanos() as u64, r3);
        Duration::lemma_from_total_nanos(m.ttl.unwrap());
    } else {
        assert(ttl_block(m.ttl) + r3 =~= r3);
    }
    if m.comm_status is Some {
        lemma_ucode_value_round_trip(m.comm_status.unwrap());
        lemma_p_u32(ucode_value(m.comm_status.unwrap()) as u32, r4);
    } else {
        assert(r3 =~= r4);
    }
    let acc3 = FrameMetadataModel { ttl: m.ttl, comm_status: m.comm_status, ..acc };
    lemma_stage3(acc3, m, presence);
}

proof fn lemma_stage1(acc: FrameMetadataModel, m: FrameMetadataModel, presence: u32)
    requires
        presence == presence_bits(m),
        fields_decodable(m),
        acc.kind == m.kind,
        acc.priority == m.priority,
    ensures
        parse_stage1(acc, presence, uuid_block(m.id) + block_tail0(m)) == Some(m),
{
    lemma_presence_bits(m);
    let r2 = ttl_block(m.ttl) + (comm_status_block(m.comm_status) + (opt_u32_block(m.permission_level) + block_tail1(m)));
    let r1 = block_tail0(m);
    lemma_p_uuid(m.id, r1);
    if m.reqid is Some {
        lemma_p_uuid(m.reqid.unwrap(), r2);
    } else {
        assert(opt_uuid_block(m.reqid) + r2 =~= r2);
    }
    let acc2 = FrameMetadataModel { id: m.id, reqid: m.reqid, ..acc };
    lemma_stage2(acc2, m, presence);
}

/// A field block of decodable metadata parses back to that metadata.
proof fn lemma_parse_field_block(m: FrameMetadataModel)
    requires
        fields_decodable(m),
    ensures
        parse_field_block(field_block(m)) == Some(m),
{
    lemma_presence_bits(m);
    let presence = presence_bits(m);
    let r0 = uuid_block(m.id) + block_tail0(m);
    let b = field_block(m);
    lemma_auto_spec_u32_to_from_le_bytes();
    assert(b.subrange(4, 8) =~= spec_u32_to_le_bytes(presence));
    assert(b.skip(8) =~= r0);
    lemma_kind_wire_code_round_trip(m.kind, 0);
    if m.priority is Some {
        lemma_priority_wire_code_round_trip(m.priority.unwrap(), 0);
    }
    assert(p_header(b) == Some((m.kind, m.priority, presence, r0)));
    let acc = FrameMetadataModel { kind: m.kind, priority: m.priority, ..arbitrary() };
    lemma_stage1(acc, m, presence);
}

// ---------------------------------------------------------------------------
// What a successful parse says about the bytes
// ---------------------------------------------------------------------------

proof fn lemma_p_u8_inv(b: Seq<u8>)
    requires
        p_u8(b) is Some,
    ensures
        b == seq![p_u8(b).unwrap().0] + p_u8(b).unwrap().1,
{
    assert(b =~= seq![b[0]] + b.skip(1));
}

proof fn lemma_p_u16_inv(b: Seq<u8>)
    requires
        p_u16(b) is Some,
    ensures
        b == spec_u16_to_le_bytes(p_u16(b).unwrap().0) + p_u16(b).unwrap().1,
{
    lemma_auto_spec_u16_to_from_le_bytes();
    assert(b.take(2).len() == 2);
    assert(b =~= b.take(2) + b.skip(2));
}

proof fn lemma_p_u32_inv(b: Seq<u8>)
    requires
        p_u32(b) is Some,
    ensures
        b == spec_u32_to_le_bytes(p_u32(b).unwrap().0) + p_u32(b).unwrap().1,
{
    lemma_auto_spec_u32_to_from_le_bytes();
    assert(b.take(4).len() == 4);
    assert(b =~= b.take(4) + b.skip(4));
}

proof fn lemma_p_u64_inv(b: Seq<u8>)
    requires
        p_u64(b) is Some,
    ensures
        b == spec_u64_to_le_bytes(p_u64(b).unwrap().0) + p_u64(b).unwrap().1,
{
    lemma_auto_spec_u64_to_from_le_bytes();
    assert(b.take(8).len() == 8);
    assert(b =~= b.take(8) + b.skip(8));
}

proof fn lemma_p_utf8_inv(b: Seq<u8>, n: nat)
    requires
        p_utf8(b, n) is Some,
    ensures
        b == encode_utf8(p_utf8(b, n).unwrap().0) + p_utf8(b, n).unwrap().1,
        encode_utf8(p_utf8(b, n).unwrap().0).len() == n,
{
    decode_utf8_encode_utf8(b.take(n as int));
    assert(b =~= b.take(n as int) + b.skip(n as int));
}

proof fn lemma_p_uuid_inv(b: Seq<u8>)
    requires
        p_uuid(b) is Some,
    ensures
        b == uuid_block(p_uuid(b).unwrap().0) + p_uuid(b).unwrap().1,
        p_uuid(b).unwrap().0.wf(),
{
    lemma_p_u64_inv(b);
    let (msb, r1) = p_u64(b).unwrap();
    lemma_p_u64_inv(r1);
    let (lsb, r2) = p_u64(r1).unwrap();
    UUID::lemma_from_pair(msb, lsb, UUID::spec_from_pair(msb, lsb));
    assert(b =~= uuid_block(UUID::spec_from_pair(msb, lsb)) + r2);
}

proof fn lemma_p_uri_inv(b: Seq<u8>)
    requires
        p_uri(b) is Some,
    ensures
        b == uri_block(p_uri(b).unwrap().0) + p_uri(b).unwrap().1,
        p_uri(b).unwrap().0.wf(),
        encode_utf8(p_uri(b).unwrap().0.authority).len() <= 255,
{
    lemma_p_u32_inv(b);
    let (ue_id, r1) = p_u32(b).unwrap();
    lemma_p_u16_inv(r1);
    let (resource, r2) = p_u16(r1).unwrap();
    lemma_p_u8_inv(r2);
    let (version, r3) = p_u8(r2).unwrap();
    lemma_p_u8_inv(r3);
    let (len, r4) = p_u8(r3).unwrap();
    lemma_p_utf8_inv(r4, len as nat);
    let (authority, r5) = p_utf8(r4, len as nat).unwrap();
    let u = UUriModel { authority, ue_id, version, resource };
    assert(encode_utf8(authority).len() as u8 == len);
    assert(b =~= uri_block(u) + r5);
}

proof fn lemma_presence_from_bits(presence: u32, m: FrameMetadataModel)
    requires
        presence & !FIELD_MASK_V1 == 0,
        has_bit(presence, FIELD_SINK) == m.sink is Some,
        has_bit(presence, FIELD_REQID) == m.reqid is Some,
        has_bit(presence, FIELD_TTL) == m.ttl is Some,
        has_bit(presence, FIELD_COMM_STATUS) == m.comm_status is Some,
        has_bit(presence, FIELD_PERMISSION_LEVEL) == m.permission_level is Some,
        has_bit(presence, FIELD_TOKEN) == m.token is Some,
        has_bit(presence, FIELD_TRACEPARENT) == m.traceparent is Some,
        has_bit(presence, FIELD_PAYLOAD_ENCODING) == m.payload_encoding is Some,
        has_bit(presence, FIELD_NATIVE_TYPE_TOKEN) == m.native_type_token is Some,
    ensures
        presence == presence_bits(m),
{
    let p = presence;
    let x0 = presence_bit(m.sink is Some, FIELD_SINK);
    let x1 = presence_bit(m.reqid is Some, FIELD_REQID);
    let x2 = presence_bit(m.ttl is Some, FIELD_TTL);
    let x3 = presence_bit(m.comm_status is Some, FIELD_COMM_STATUS);
    let x4 = presence_bit(m.permission_level is Some, FIELD_PERMISSION_LEVEL);
    let x5 = presence_bit(m.token is Some, FIELD_TOKEN);
    let x6 = presence_bit(m.traceparent is Some, FIELD_TRACEPARENT);
    let x7 = presence_bit(m.payload_encoding is Some, FIELD_PAYLOAD_ENCODING);
    let x8 = presence_bit(m.native_type_token is Some, FIELD_NATIVE_TYPE_TOKEN);
    assert(p == x0 + x1 + x2 + x3 + x4 + x5 + x6 + x7 + x8) by (bit_vector)
        requires
            p & !511u32 == 0,
            (x0 == 1 && p & 1 != 0) || (x0 == 0 && p & 1 == 0),
            (x1 == 2 && p & 2 != 0) || (x1 == 0 && p & 2 == 0),
            (x2 == 4 && p & 4 != 0) || (x2 == 0 && p & 4 == 0),
            (x3 == 8 && p & 8 != 0) || (x3 == 0 && p & 8 == 0),
            (x4 == 16 && p & 16 != 0) || (x4 == 0 && p & 16 == 0),
            (x5 == 32 && p & 32 != 0) || (x5 == 0 && p & 32 == 0),
            (x6 == 64 && p & 64 != 0) || (x6 == 0 && p & 64 == 0),
            (x7 == 128 && p & 128 != 0) || (x7 == 0 && p & 128 == 0),
            (x8 == 256 && p & 256 != 0) || (x8 == 0 && p & 256 == 0),
    ;
}

/// Facts established by parsing everything after the frame id.
spec fn tail_facts(m: FrameMetadataModel, presence: u32) -> bool {
    &&& has_bit(presence, FIELD_SINK) == m.sink is Some
    &&& has_bit(presence, FIELD_REQID) == m.reqid is Some
    &&& has_bit(presence, FIELD_TTL) == m.ttl is Some
    &&& has_bit(presence, FIELD_COMM_STATUS) == m.comm_status is Some
    &&& has_bit(presence, FIELD_PERMISSION_LEVEL) == m.permission_level is Some
    &&& has_bit(presence, FIELD_TOKEN) == m.token is Some
    &&& has_bit(presence, FIELD_TRACEPARENT) == m.traceparent is Some
    &&& has_bit(presence, FIELD_PAYLOAD_ENCODING) == m.payload_encoding is Some
    &&& has_bit(presence, FIELD_NATIVE_TYPE_TOKEN) == m.native_type_token is Some
}

proof fn lemma_stage6_inv(acc: FrameMetadataModel, presence: u32, b: Seq<u8>)
    requires
        parse_stage6(acc, presence, b) is Some,
    ensures
        ({
            let m = parse_stage6(acc, presence, b).unwrap();
            &&& m == (FrameMetadataModel { native_type_token: m.native_type_token, ..acc })
            &&& has_bit(presence, FIELD_NATIVE_TYPE_TOKEN) == m.native_type_token is Some
            &&& b == native_token_block(m.native_type_token)
        }),
{
    if has_bit(presence, FIELD_NATIVE_TYPE_TOKEN) {
        lemma_p_u32_inv(b);
        assert(b =~= spec_u32_to_le_bytes(p_u32(b).unwrap().0));
    }
}

proof fn lemma_stage5_inv(acc: FrameMetadataModel, presence: u32, b: Seq<u8>)
    requires
        parse_stage5(acc, presence, b) is Some,
    ensures
        ({
            let m = parse_stage5(acc, presence, b).unwrap();
            &&& m == (FrameMetadataModel {
                traceparent: m.traceparent,
                payload_encoding: m.payload_encoding,
                native_type_token: m.native_type_token,
                ..acc
            })
            &&& has_bit(presence, FIELD_TRACEPARENT) == m.traceparent is Some
            &&& has_bit(presence, FIELD_PAYLOAD_ENCODING) == m.payload_encoding is Some
            &&& has_bit(presence, FIELD_NATIVE_TYPE_TOKEN) == m.native_type_token is Some
            &&& (m.traceparent is Some ==> encode_utf8(m.traceparent.unwrap()).len() <= 255)
            &&& (m.payload_encoding is Some ==> encoding_field_representable(m.payload_encoding.unwrap()))
            &&& b == traceparent_block(m.traceparent) + block_tail3(m)
        }),
{
    let (traceparent, r9) = p_opt_traceparent(b, has_bit(presence, FIELD_TRACEPARENT)).unwrap();
    if has_bit(presence, FIELD_TRACEPARENT) {
        lemma_p_u8_inv(b);
        let (len, r1) = p_u8(b).unwrap();
        lemma_p_utf8_inv(r1, len as nat);
        let t = traceparent.unwrap();
        assert(encode_utf8(t).len() as u8 == len);
        assert(b =~= traceparent_block(traceparent) + r9);
    } else {
        assert(b =~= traceparent_block(traceparent) + r9);
    }
    let (payload_encoding, r10) = p_opt_encoding(r9, has_bit(presence, FIELD_PAYLOAD_ENCODING)).unwrap();
    if has_bit(presence, FIELD_PAYLOAD_ENCODING) {
        lemma_p_u32_inv(r9);
        assert(r9 =~= encoding_block(payload_encoding) + r10);
    } else {
        assert(r9 =~= encoding_block(payload_encoding) + r10);
    }
    let acc6 = FrameMetadataModel { traceparent, payload_encoding, ..acc };
    lemma_stage6_inv(acc6, presence, r10);
}

proof fn lemma_stage4_inv(acc: FrameMetadataModel, presence: u32, b: Seq<u8>)
    requires
        parse_stage4(acc, presence, b) is Some,
    ensures
        ({
            let m = parse_stage4(acc, presence, b).unwrap();
            &&& m == (FrameMetadataModel {
                sink: m.sink,
                token: m.token,
                traceparent: m.traceparent,
                payload_encoding: m.payload_encoding,
                native_type_token: m.native_type_token,
                ..acc
            })
            &&& has_bit(presence, FIELD_SINK) == m.sink is Some
            &&& has_bit(presence, FIELD_TOKEN) == m.token is Some
            &&& has_bit(presence, FIELD_TRACEPARENT) == m.traceparent is Some
            &&& has_bit(presence, FIELD_PAYLOAD_ENCODING) == m.payload_encoding is Some
            &&& has_bit(presence, FIELD_NATIVE_TYPE_TOKEN) == m.native_type_token is Some
            &&& (m.sink is Some ==> m.sink.unwrap().wf() && encode_utf8(m.sink.unwrap().authority).len() <= 255)
            &&& (m.token is Some ==> encode_utf8(m.token.unwrap()).len() <= 0xFFFF)
            &&& (m.traceparent is Some ==> encode_utf8(m.traceparent.unwrap()).len() <= 255)
            &&& (m.payload_encoding is Some ==> encoding_field_representable(m.payload_encoding.unwrap()))
            &&& b == opt_uri_block(m.sink) + block_tail2(m)
        }),
{
    let (sink, r7) = p_opt_uri(b, has_bit(presence, FIELD_SINK)).unwrap();
    if has_bit(presence, FIELD_SINK) {
        lemma_p_uri_inv(b);
    } else {
        assert(b =~= opt_uri_block(sink) + r7);
    }
    let (token, r8) = p_opt_token(r7, has_bit(presence, FIELD_TOKEN)).unwrap();
    if has_bit(presence, FIELD_TOKEN) {
        lemma_p_u16_inv(r7);
        let (len, r1) = p_u16(r7).unwrap();
        lemma_p_utf8_inv(r1, len as nat);
        let t = token.unwrap();
        assert(encode_utf8(t).len() as u16 == len);
        assert(r7 =~= token_block(token) + r8);
    } else {
        assert(r7 =~= token_block(token) + r8);
    }
    let acc5 = FrameMetadataModel { sink, token, ..acc };
    lemma_stage5_inv(acc5, presence, r8);
}

proof fn lemma_stage3_inv(acc: FrameMetadataModel, presence: u32, b: Seq<u8>)
    requires
        parse_stage3(acc, presence, b) is Some,
    ensures
        ({
            let m = parse_stage3(acc, presence, b).unwrap();
            &&& m == (FrameMetadataModel {
                permission_level: m.permission_level,
                source: m.source,
                sink: m.sink,
                token: m.token,
                traceparent: m.traceparent,
                payload_encoding: m.payload_encoding,
                native_type_token: m.native_type_token,
                ..acc
            })
            &&& has_bit(presence, FIELD_PERMISSION_LEVEL) == m.permission_level is Some
            &&& has_bit(presence, FIELD_SINK) == m.sink is Some
            &&& has_bit(presence, FIELD_TOKEN) == m.token is Some
            &&& has_bit(presence, FIELD_TRACEPARENT) == m.traceparent is Some
            &&& has_bit(presence, FIELD_PAYLOAD_ENCODING) == m.payload_encoding is Some
            &&& has_bit(presence, FIELD_NATIVE_TYPE_TOKEN) == m.native_type_token is Some
            &&& m.source.wf() && encode_utf8(m.source.authority).len() <= 255
            &&& (m.sink is Some ==> m.sink.unwrap().wf() && encode_utf8(m.sink.unwrap().authority).len() <= 255)
            &&& (m.token is Some ==> encode_utf8(m.token.unwrap()).len() <= 0xFFFF)
            &&& (m.traceparent is Some ==> encode_utf8(m.traceparent.unwrap()).len() <= 255)
            &&& (m.payload_encoding is Some ==> encoding_field_representable(m.payload_encoding.unwrap()))
            &&& b == opt_u32_block(m.permission_level) + block_tail1(m)
        }),
{
    let (permission_level, r5) = p_opt_u32(b, has_bit(presence, FIELD_PERMISSION_LEVEL)).unwrap();
    if has_bit(presence, FIELD_PERMISSION_LEVEL) {
        lemma_p_u32_inv(b);
    } else {
        assert(b =~= opt_u32_block(permission_level) + r5);
    }
    lemma_p_uri_inv(r5);
    let (source, r6) = p_uri(r5).unwrap();
    let acc4 = FrameMetadataModel { permission_level, source, ..acc };
    lemma_stage4_inv(acc4, presence, r6);
}

proof fn lemma_stage2_inv(acc: FrameMetadataModel, presence: u32, b: Seq<u8>)
    requires
        parse_stage2(acc, presence, b) is Some,
    ensures
        ({
            let m = parse_stage2(acc, presence, b).unwrap();
            &&& m == (FrameMetadataModel {
                ttl: m.ttl,
                comm_status: m.comm_status,
                permission_level: m.permission_level,
                source: m.source,
                sink: m.sink,
                token: m.token,
                traceparent: m.traceparent,
                payload_encoding: m.payload_encoding,
                native_type_token: m.native_type_token,
                ..acc
            })
            &&& has_bit(presence, FIELD_TTL) == m.ttl is Some
            &&& has_bit(presence, FIELD_COMM_STATUS) == m.comm_status is Some
            &&& has_bit(presence, FIELD_PERMISSION_LEVEL) == m.permission_level is Some
            &&& has_bit(presence, FIELD_SINK) == m.sink is Some
            &&& has_bit(presence, FIELD_TOKEN) == m.token is Some
            &&& has_bit(presence, FIELD_TRACEPARENT) == m.traceparent is Some
            &&& has_bit(presence, FIELD_PAYLOAD_ENCODING) == m.payload_encoding is Some
            &&& has_bit(presence, FIELD_NATIVE_TYPE_TOKEN) == m.native_type_token is Some
            &&& (m.ttl is Some ==> m.ttl.unwrap().wf() && m.ttl.unwrap().total_nanos() <= u64::MAX)
            &&& m.source.wf() && encode_utf8(m.source.authority).len() <= 255
            &&& (m.sink is Some ==> m.sink.unwrap().wf() && encode_utf8(m.sink.unwrap().authority).len() <= 255)
            &&& (m.token is Some ==> encode_utf8(m.token.unwrap()).len() <= 0xFFFF)
            &&& (m.traceparent is Some ==> encode_utf8(m.traceparent.unwrap()).len() <= 255)
            &&& (m.payload_encoding is Some ==> encoding_field_representable(m.payload_encoding.unwrap()))
            &&& b == ttl_block(m.ttl) + (comm_status_block(m.comm_status) + (opt_u32_block(m.permission_level) + block_tail1(m)))
        }),
{
    let (ttl, r3) = p_opt_ttl(b, has_bit(presence, FIELD_TTL)).unwrap();
    if has_bit(presence, FIELD_TTL) {
        lemma_p_u64_inv(b);
        Duration::lemma_spec_from_nanos(p_u64(b).unwrap().0);
    } else {
        assert(b =~= ttl_block(ttl) + r3);
    }
    let (comm_status, r4) = p_opt_comm_status(r3, has_bit(presence, FIELD_COMM_STATUS)).unwrap();
    if has_bit(presence, FIELD_COMM_STATUS) {
        lemma_p_u32_inv(r3);
        let raw = p_u32(r3).unwrap().0;
        assert(ucode_value(ucode_from_value(raw as int).unwrap()) == raw as int);
        assert(r3 =~= comm_status_block(comm_status) + r4);
    } else {
        assert(r3 =~= comm_status_block(comm_status) + r4);
    }
    let acc3 = FrameMetadataModel { ttl, comm_status, ..acc };
    lemma_stage3_inv(acc3, presence, r4);
}

proof fn lemma_stage1_inv(acc: FrameMetadataModel, presence: u32, b: Seq<u8>)
    requires
        parse_stage1(acc, presence, b) is Some,
    ensures
        ({
            let m = parse_stage1(acc, presence, b).unwrap();
            &&& m.kind == acc.kind
            &&& m.priority == acc.priority
            &&& tail_facts(m, presence)
            &&& m.id.wf()
            &&& (m.reqid is Some ==> m.reqid.unwrap().wf())
            &&& (m.ttl is Some ==> m.ttl.unwrap().wf() && m.ttl.unwrap().total_nanos() <= u64::MAX)
            &&& m.source.wf() && encode_utf8(m.source.authority).len() <= 255
            &&& (m.sink is Some ==> m.sink.unwrap().wf() && encode_utf8(m.sink.unwrap().authority).len() <= 255)
            &&& (m.token is Some ==> encode_utf8(m.token.unwrap()).len() <= 0xFFFF)
            &&& (m.traceparent is Some ==> encode_utf8(m.traceparent.unwrap()).len() <= 255)
            &&& (m.payload_encoding is Some ==> encoding_field_representable(m.payload_encoding.unwrap()))
            &&& b == uuid_block(m.id) + block_tail0(m)
        }),
{
    lemma_p_uuid_inv(b);
    let (id, r1) = p_uuid(b).unwrap();
    let (reqid, r2) = p_opt_uuid(r1, has_bit(presence, FIELD_REQID)).unwrap();
    if has_bit(presence, FIELD_REQID) {
        lemma_p_uuid_inv(r1);
    } else {
        assert(r1 =~= opt_uuid_block(reqid) + r2);
    }
    let acc2 = FrameMetadataModel { id, reqid, ..acc };
    lemma_stage2_inv(acc2, presence, r2);
}

/// A parsed field block is the field block of the parsed, decodable metadata.
#[verifier::rlimit(60)]
#[verifier::spinoff_prover]
proof fn lemma_parse_field_block_inv(b: Seq<u8>)
    requires
        parse_field_block(b) is Some,
    ensures
        is_field_block_of(b, parse_field_block(b).unwrap()),
{
    let (kind, priority, presence, r0) = p_header(b).unwrap();
    let acc = FrameMetadataModel { kind, priority, ..arbitrary() };
    lemma_stage1_inv(acc, presence, r0);
    let m = parse_field_block(b).unwrap();
    lemma_presence_from_bits(presence, m);
    lemma_auto_spec_u32_to_from_le_bytes();
    assert(b.subrange(4, 8).len() == 4);
    lemma_kind_wire_code_round_trip(kind, b[1]);
    if b[2] != 0 {
        lemma_priority_wire_code_round_trip(priority.unwrap(), b[2]);
    }
    assert(b =~= seq![b[0], b[1], b[2], b[3]] + (b.subrange(4, 8) + b.skip(8)));
}

/// The field block determines the metadata: two decodable metadata values
/// with the same field block are the same.
pub proof fn lemma_field_block_injective(m1: FrameMetadataModel, m2: FrameMetadataModel)
    requires
        fields_decodable(m1),
        fields_decodable(m2),
        field_block(m1) == field_block(m2),
    ensures
        m1 == m2,
{
    lemma_parse_field_block(m1);
    lemma_parse_field_block(m2);
}

// ---------------------------------------------------------------------------
// Decoding
// ---------------------------------------------------------------------------

/// The text for a read of `n` bytes when `rest`, the unread part of an
/// input of `total` bytes, holds fewer than `n`.
pub open spec fn short_read_text(n: nat, rest: Seq<u8>, total: nat) -> Seq<char> {
    truncation_text(n, (total - rest.len()) as nat, total)
}

/// The text for a string field of `n` bytes at the start of `rest` that is
/// cut short or is not UTF-8.
pub open spec fn utf8_field_error(rest: Seq<u8>, n: nat, total: nat, field: Seq<char>) -> Seq<char> {
    if rest.len() < n {
        short_read_text(n, rest, total)
    } else {
        "field `"@ + field + "` is not UTF-8: "@ + utf8_error_text(rest.take(n as int))
    }
}

/// The text for a UUID at the start of `rest` that cannot be read.
pub open spec fn uuid_error(rest: Seq<u8>, total: nat) -> Seq<char> {
    if rest.len() < 8 {
        short_read_text(8, rest, total)
    } else if rest.len() < 16 {
        short_read_text(8, rest.skip(8), total)
    } else {
        "invalid UUID: "@ + UUIDError::NotUProtocolUuid.text()
    }
}

/// The text for a URI at the start of `rest` that cannot be read.
pub open spec fn uri_error(rest: Seq<u8>, total: nat) -> Seq<char> {
    if rest.len() < 4 {
        short_read_text(4, rest, total)
    } else if rest.len() < 6 {
        short_read_text(2, rest.skip(4), total)
    } else if rest.len() < 7 {
        short_read_text(1, rest.skip(6), total)
    } else if rest.len() < 8 {
        short_read_text(1, rest.skip(7), total)
    } else if rest.len() - 8 < rest[7] || !valid_utf8(rest.skip(8).take(rest[7] as int)) {
        utf8_field_error(rest.skip(8), rest[7] as nat, total, "authority_name"@)
    } else {
        "invalid UUri: "@ + invalid_authority_text()
    }
}

/// The text for a communication status that cannot be read.
pub open spec fn comm_status_error(rest: Seq<u8>, total: nat) -> Seq<char> {
    if rest.len() < 4 {
        short_read_text(4, rest, total)
    } else {
        "unknown communication status code "@ + signed_decimal(spec_u32_from_le_bytes(rest.take(4)) as i32 as int)
    }
}

/// The text for a token that cannot be read.
pub open spec fn token_error(rest: Seq<u8>, total: nat) -> Seq<char> {
    if rest.len() < 2 {
        short_read_text(2, rest, total)
    } else {
        utf8_field_error(rest.skip(2), spec_u16_from_le_bytes(rest.take(2)) as nat, total, "token"@)
    }
}

/// The text for a traceparent that cannot be read.
pub open spec fn traceparent_error(rest: Seq<u8>, total: nat) -> Seq<char> {
    if rest.len() < 1 {
        short_read_text(1, rest, total)
    } else {
        utf8_field_error(rest.skip(1), rest[0] as nat, total, "traceparent"@)
    }
}

/// The text for a payload encoding that cannot be read.
pub open spec fn encoding_error(rest: Seq<u8>, total: nat) -> Seq<char> {
    if rest.len() < 4 {
        short_read_text(4, rest, total)
    } else {
        "payload-encoding identifier exceeds 65535"@
    }
}

/// The text for `rest` left over after the last field.
pub open spec fn trailing_text(rest: Seq<u8>) -> Seq<char> {
    decimal(rest.len()) + " trailing byte(s)"@
}

spec fn diag_stage6(presence: u32, r10: Seq<u8>, total: nat) -> Option<Seq<char>> {
    match p_opt_native_token(r10, has_bit(presence, FIELD_NATIVE_TYPE_TOKEN)) {
        None => Some(short_read_text(4, r10, total)),
        Some((_, r11)) => if r11.len() == 0 { None } else { Some(trailing_text(r11)) },
    }
}

spec fn diag_stage5(presence: u32, r8: Seq<u8>, total: nat) -> Option<Seq<char>> {
    match p_opt_traceparent(r8, has_bit(presence, FIELD_TRACEPARENT)) {
        None => Some(traceparent_error(r8, total)),
        Some((_, r9)) => match p_opt_encoding(r9, has_bit(presence, FIELD_PAYLOAD_ENCODING)) {
            None => Some(encoding_error(r9, total)),
            Some((_, r10)) => diag_stage6(presence, r10, total),
        },
    }
}

spec fn diag_stage4(presence: u32, r6: Seq<u8>, total: nat) -> Option<Seq<char>> {
    match p_opt_uri(r6, has_bit(presence, FIELD_SINK)) {
        None => Some(uri_error(r6, total)),
        Some((_, r7)) => match p_opt_token(r7, has_bit(presence, FIELD_TOKEN)) {
            None => Some(token_error(r7, total)),
            Some((_, r8)) => diag_stage5(presence, r8, total),
        },
    }
}

spec fn diag_stage3(presence: u32, r4: Seq<u8>, total: nat) -> Option<Seq<char>> {
    match p_opt_u32(r4, has_bit(presence, FIELD_PERMISSION_LEVEL)) {
        None => Some(short_read_text(4, r4, total)),
        Some((_, r5)) => match p_uri(r5) {
            None => Some(uri_error(r5, total)),
            Some((_, r6)) => diag_stage4(presence, r6, total),
        },
    }
}

spec fn diag_stage2(presence: u32, r2: Seq<u8>, total: nat) -> Option<Seq<char>> {
    match p_opt_ttl(r2, has_bit(presence, FIELD_TTL)) {
        None => Some(short_read_text(8, r2, total)),
        Some((_, r3)) => match p_opt_comm_status(r3, has_bit(presence, FIELD_COMM_STATUS)) {
            None => Some(comm_status_error(r3, total)),
            Some((_, r4)) => diag_stage3(presence, r4, total),
        },
    }
}

spec fn diag_stage1(presence: u32, r0: Seq<u8>, total: nat) -> Option<Seq<char>> {
    match p_uuid(r0) {
        None => Some(uuid_error(r0, total)),
        Some((_, r1)) => match p_opt_uuid(r1, has_bit(presence, FIELD_REQID)) {
            None => Some(uuid_error(r1, total)),
            Some((_, r2)) => diag_stage2(presence, r2, total),
        },
    }
}

/// The diagnostic for bytes that are not a field block: the text of the
/// first check that they fail, in the order the block is read (header
/// checks, then each field in turn, then trailing bytes); `None` for the
/// bytes of a field block.
pub closed spec fn field_block_error(b: Seq<u8>) -> Option<Seq<char>> {
    match header_error_text(b) {
        Some(t) => Some(t),
        None => diag_stage1(spec_u32_from_le_bytes(b.subrange(4, 8)), b.skip(8), b.len()),
    }
}

/// The text for a read of `n` bytes at `pos` that runs past the end of `src`.
fn short_read(n: u32, src: &[u8], pos: usize) -> (t: String)
    requires
        pos <= src@.len(),
    ensures
        t@ == short_read_text(n as nat, src@.skip(pos as int), src@.len()),
{
    truncation_message(n as usize, pos, src.len())
}

fn read_u8(src: &[u8], pos: usize) -> (r: Result<(u8, usize), String>)
    requires
        pos <= src@.len(),
    ensures
        r is Err <==> p_u8(src@.skip(pos as int)) is None,
        r matches Err(t) ==> t@ == short_read_text(1, src@.skip(pos as int), src@.len()),
        r matches Ok((v, np)) ==> np <= src@.len() && p_u8(src@.skip(pos as int)) == Some((v, src@.skip(np as int))),
{
    if src.len() - pos < 1 {
        return Err(short_read(1, src, pos));
    }
    let v = src[pos];
    assert(src@.skip(pos as int).skip(1) =~= src@.skip(pos + 1));
    Ok((v, pos + 1))
}

fn read_u16(src: &[u8], pos: usize) -> (r: Result<(u16, usize), String>)
    requires
        pos <= src@.len(),
    ensures
        r is Err <==> p_u16(src@.skip(pos as int)) is None,
        r matches Err(t) ==> t@ == short_read_text(2, src@.skip(pos as int), src@.len()),
        r matches Ok((v, np)) ==> np <= src@.len() && p_u16(src@.skip(pos as int)) == Some((v, src@.skip(np as int))),
{
    if src.len() - pos < 2 {
        return Err(short_read(2, src, pos));
    }
    let v = u16_from_le_bytes(&src[pos..pos + 2]);
    assert(src@.subrange(pos as int, pos + 2) =~= src@.skip(pos as int).take(2));
    assert(src@.skip(pos as int).skip(2) =~= src@.skip(pos + 2));
    Ok((v, pos + 2))
}

fn read_u32(src: &[u8], pos: usize) -> (r: Result<(u32, usize), String>)
    requires
        pos <= src@.len(),
    ensures
        r is Err <==> p_u32(src@.skip(pos as int)) is None,
        r matches Err(t) ==> t@ == short_read_text(4, src@.skip(pos as int), src@.len()),
        r matches Ok((v, np)) ==> np <= src@.len() && p_u32(src@.skip(pos as int)) == Some((v, src@.skip(np as int))),
{
    if src.len() - pos < 4 {
        return Err(short_read(4, src, pos));
    }
    let v = u32_from_le_bytes(&src[pos..pos + 4]);
    assert(src@.subrange(pos as int, pos + 4) =~= src@.skip(pos as int).take(4));
    assert(src@.skip(pos as int).skip(4) =~= src@.skip(pos + 4));
    Ok((v, pos + 4))
}

fn read_u64(src: &[u8], pos: usize) -> (r: Result<(u64, usize), String>)
    requires
        pos <= src@.len(),
    ensures
        r is Err <==> p_u64(src@.skip(pos as int)) is None,
        r matches Err(t) ==> t@ == short_read_text(8, src@.skip(pos as int), src@.len()),
        r matches Ok((v, np)) ==> np <= src@.len() && p_u64(src@.skip(pos as int)) == Some((v, src@.skip(np as int))),
{
    if src.len() - pos < 8 {
        return Err(short_read(8, src, pos));
    }
    let v = u64_from_le_bytes(&src[pos..pos + 8]);
    assert(src@.subrange(pos as int, pos + 8) =~= src@.skip(pos as int).take(8));
    assert(src@.skip(pos as int).skip(8) =~= src@.skip(pos + 8));
    Ok((v, pos + 8))
}

fn read_utf8(src: &[u8], pos: usize, n: usize, field: &str) -> (r: Result<(String, usize), String>)
    requires
        pos <= src@.len(),
    ensures
        r is Err <==> p_utf8(src@.skip(pos as int), n as nat) is None,
        r matches Err(t) ==> t@ == utf8_field_error(src@.skip(pos as int), n as nat, src@.len(), field@),
        r matches Ok((s, np)) ==> np <= src@.len() && p_utf8(src@.skip(pos as int), n as nat) == Some((s@, src@.skip(np as int))),
{
    if src.len() - pos < n {
        return Err(truncation_message(n, pos, src.len()));
    }
    let bytes = &src[pos..pos + n];
    assert(bytes@ =~= src@.skip(pos as int).take(n as int));
    assert(src@.skip(pos as int).skip(n as int) =~= src@.skip(pos + n));
    match utf8_to_string(bytes) {
        Ok(s) => Ok((s, pos + n)),
        Err(e) => {
            let mut t = String::from_str("field `");
            t.append(field);
            t.append("` is not UTF-8: ");
            t.append(e.as_str());
            Err(t)
        },
    }
}

fn read_uuid(src: &[u8], pos: usize) -> (r: Result<(UUID, usize), String>)
    requires
        pos <= src@.len(),
    ensures
        r is Err <==> p_uuid(src@.skip(pos as int)) is None,
        r matches Err(t) ==> t@ == uuid_error(src@.skip(pos as int), src@.len()),
        r matches Ok((v, np)) ==> np <= src@.len() && p_uuid(src@.skip(pos as int)) == Some((v, src@.skip(np as int))),
{
    let ghost rest = src@.skip(pos as int);
    let (msb, p1) = match read_u64(src, pos) {
        Ok(x) => x,
        Err(t) => return Err(t),
    };
    assert(src@.skip(p1 as int) =~= rest.skip(8));
    let (lsb, p2) = match read_u64(src, p1) {
        Ok(x) => x,
        Err(t) => return Err(t),
    };
    match UUID::from_u64_pair(msb, lsb) {
        Ok(u) => Ok((u, p2)),
        Err(e) => {
            let t = concat_str("invalid UUID: ", e.to_string().as_str());
            Err(t)
        },
    }
}

fn read_uri(src: &[u8], pos: usize) -> (r: Result<(UUri, usize), String>)
    requires
        pos <= src@.len(),
    ensures
        r is Err <==> p_uri(src@.skip(pos as int)) is None,
        r matches Err(t) ==> t@ == uri_error(src@.skip(pos as int), src@.len()),
        r matches Ok((v, np)) ==> np <= src@.len() && p_uri(src@.skip(pos as int)) == Some((v@, src@.skip(np as int))),
{
    let ghost rest = src@.skip(pos as int);
    let (ue_id, p1) = match read_u32(src, pos) {
        Ok(x) => x,
        Err(t) => return Err(t),
    };
    assert(src@.skip(p1 as int) =~= rest.skip(4));
    let (resource_id, p2) = match read_u16(src, p1) {
        Ok(x) => x,
        Err(t) => return Err(t),
    };
    assert(src@.skip(p2 as int) =~= rest.skip(6));
    let (version, p3) = match read_u8(src, p2) {
        Ok(x) => x,
        Err(t) => return Err(t),
    };
    assert(src@.skip(p3 as int) =~= rest.skip(7));
    let (len, p4) = match read_u8(src, p3) {
        Ok(x) => x,
        Err(t) => return Err(t),
    };
    assert(src@.skip(p4 as int) =~= rest.skip(8));
    assert(len == rest[7]);
    let (authority, p5) = match read_utf8(src, p4, len as usize, "authority_name") {
        Ok(x) => x,
        Err(t) => {
            return Err(t);
        },
    };
    match UUri::try_from_parts(authority.as_str(), ue_id, version, resource_id) {
        Ok(u) => Ok((u, p5)),
        Err(e) => {
            let t = concat_str("invalid UUri: ", e.to_string().as_str());
            Err(t)
        },
    }
}

fn read_opt_uuid(src: &[u8], pos: usize, present: bool) -> (r: Result<(Option<UUID>, usize), String>)
    requires
        pos <= src@.len(),
    ensures
        r is Err <==> p_opt_uuid(src@.skip(pos as int), present) is None,
        r matches Err(t) ==> t@ == uuid_error(src@.skip(pos as int), src@.len()),
        r matches Ok((v, np)) ==> np <= src@.len() && p_opt_uuid(src@.skip(pos as int), present) == Some((v, src@.skip(np as int))),
{
    if !present {
        return Ok((None, pos));
    }
    match read_uuid(src, pos) {
        Ok((u, np)) => Ok((Some(u), np)),
        Err(t) => Err(t),
    }
}

fn read_opt_ttl(src: &[u8], pos: usize, present: bool) -> (r: Result<(Option<Duration>, usize), String>)
    requires
        pos <= src@.len(),
    ensures
        r is Err <==> p_opt_ttl(src@.skip(pos as int), present) is None,
        r matches Err(t) ==> t@ == short_read_text(8, src@.skip(pos as int), src@.len()),
        r matches Ok((v, np)) ==> np <= src@.len() && p_opt_ttl(src@.skip(pos as int), present) == Some((v, src@.skip(np as int))),
{
    if !present {
        return Ok((None, pos));
    }
    match read_u64(src, pos) {
        Ok((n, np)) => Ok((Some(Duration::from_nanos(n)), np)),
        Err(t) => Err(t),
    }
}

fn read_opt_comm_status(src: &[u8], pos: usize, present: bool) -> (r: Result<(Option<UCode>, usize), String>)
    requires
        pos <= src@.len(),
    ensures
        r is Err <==> p_opt_comm_status(src@.skip(pos as int), present) is None,
        r matches Err(t) ==> t@ == comm_status_error(src@.skip(pos as int), src@.len()),
        r matches Ok((v, np)) ==> np <= src@.len() && p_opt_comm_status(src@.skip(pos as int), present) == Some((v, src@.skip(np as int))),
{
    if !present {
        return Ok((None, pos));
    }
    match read_u32(src, pos) {
        Ok((raw, np)) => {
            if raw <= 16 {
                match UCode::try_from_i32(raw as i32) {
                    Ok(c) => return Ok((Some(c), np)),
                    Err(_) => {},
                }
            }
            let mut t = String::from_str("unknown communication status code ");
            append_decimal_i32(&mut t, raw as i32);
            Err(t)
        },
        Err(t) => Err(t),
    }
}

fn read_opt_u32(src: &[u8], pos: usize, present: bool) -> (r: Result<(Option<u32>, usize), String>)
    requires
        pos <= src@.len(),
    ensures
        r is Err <==> p_opt_u32(src@.skip(pos as int), present) is None,
        r matches Err(t) ==> t@ == short_read_text(4, src@.skip(pos as int), src@.len()),
        r matches Ok((v, np)) ==> np <= src@.len() && p_opt_u32(src@.skip(pos as int), present) == Some((v, src@.skip(np as int))),
{
    if !present {
        return Ok((None, pos));
    }
    match read_u32(src, pos) {
        Ok((v, np)) => Ok((Some(v), np)),
        Err(t) => Err(t),
    }
}

fn read_opt_uri(src: &[u8], pos: usize, present: bool) -> (r: Result<(Option<UUri>, usize), String>)
    requires
        pos <= src@.len(),
    ensures
        r is Err <==> p_opt_uri(src@.skip(pos as int), present) is None,
        r matches Err(t) ==> t@ == uri_error(src@.skip(pos as int), src@.len()),
        r matches Ok((v, np)) ==> np <= src@.len() && p_opt_uri(src@.skip(pos as int), present) == Some((opt_uri_view(v), src@.skip(np as int))),
{
    if !present {
        return Ok((None, pos));
    }
    match read_uri(src, pos) {
        Ok((u, np)) => Ok((Some(u), np)),
        Err(t) => Err(t),
    }
}

fn read_opt_token(src: &[u8], pos: usize, present: bool) -> (r: Result<(Option<String>, usize), String>)
    requires
        pos <= src@.len(),
    ensures
        r is Err <==> p_opt_token(src@.skip(pos as int), present) is None,
        r matches Err(t) ==> t@ == token_error(src@.skip(pos as int), src@.len()),
        r matches Ok((v, np)) ==> np <= src@.len() && p_opt_token(src@.skip(pos as int), present) == Some((opt_str_view(v), src@.skip(np as int))),
{
    if !present {
        return Ok((None, pos));
    }
    let ghost rest = src@.skip(pos as int);
    let (len, p1) = match read_u16(src, pos) {
        Ok(x) => x,
        Err(t) => return Err(t),
    };
    assert(src@.skip(p1 as int) =~= rest.skip(2));
    match read_utf8(src, p1, len as usize, "token") {
        Ok((s, np)) => Ok((Some(s), np)),
        Err(t) => {
            Err(t)
        },
    }
}

fn read_opt_traceparent(src: &[u8], pos: usize, present: bool) -> (r: Result<(Option<String>, usize), String>)
    requires
        pos <= src@.len(),
    ensures
        r is Err <==> p_opt_traceparent(src@.skip(pos as int), present) is None,
        r matches Err(t) ==> t@ == traceparent_error(src@.skip(pos as int), src@.len()),
        r matches Ok((v, np)) ==> np <= src@.len() && p_opt_traceparent(src@.skip(pos as int), present) == Some((opt_str_view(v), src@.skip(np as int))),
{
    if !present {
        return Ok((None, pos));
    }
    let ghost rest = src@.skip(pos as int);
    let (len, p1) = match read_u8(src, pos) {
        Ok(x) => x,
        Err(t) => return Err(t),
    };
    assert(src@.skip(p1 as int) =~= rest.skip(1));
    match read_utf8(src, p1, len as usize, "traceparent") {
        Ok((s, np)) => Ok((Some(s), np)),
        Err(t) => {
            Err(t)
        },
    }
}

fn read_opt_encoding(src: &[u8], pos: usize, present: bool) -> (r: Result<(Option<PayloadEncoding>, usize), String>)
    requires
        pos <= src@.len(),
    ensures
        r is Err <==> p_opt_encoding(src@.skip(pos as int), present) is None,
        r matches Err(t) ==> t@ == encoding_error(src@.skip(pos as int), src@.len()),
        r matches Ok((v, np)) ==> np <= src@.len() && p_opt_encoding(src@.skip(pos as int), present) == Some((opt_encoding_view(v), src@.skip(np as int))),
{
    if !present {
        return Ok((None, pos));
    }
    match read_u32(src, pos) {
        Ok((id, np)) => match PayloadEncoding::from_id(id) {
            Ok(e) => Ok((Some(e), np)),
            Err(_) => {
                Err(String::from_str("payload-encoding identifier exceeds 65535"))
            },
        },
        Err(t) => Err(t),
    }
}

fn read_opt_native_token(src: &[u8], pos: usize, present: bool) -> (r: Result<(Option<NativeTypeToken>, usize), String>)
    requires
        pos <= src@.len(),
    ensures
        r is Err <==> p_opt_native_token(src@.skip(pos as int), present) is None,
        r matches Err(t) ==> t@ == short_read_text(4, src@.skip(pos as int), src@.len()),
        r matches Ok((v, np)) ==> np <= src@.len() && p_opt_native_token(src@.skip(pos as int), present) == Some((v, src@.skip(np as int))),
{
    if !present {
        return Ok((None, pos));
    }
    match read_u32(src, pos) {
        Ok((v, np)) => Ok((Some(NativeTypeToken::from_u32(v)), np)),
        Err(t) => Err(t),
    }
}

fn has_presence_bit(presence: u32, bit: u32) -> (b: bool)
    ensures
        b == has_bit(presence, bit),
{
    presence & bit != 0
}

fn parse_ids(src: &[u8], pos: usize, presence: u32, Ghost(acc): Ghost<FrameMetadataModel>) -> (r: Result<(UUID, Option<UUID>, usize), String>)
    requires
        pos <= src@.len(),
    ensures
        r matches Err(t) ==> parse_stage1(acc, presence, src@.skip(pos as int)) is None
            && diag_stage1(presence, src@.skip(pos as int), src@.len()) == Some(t@),
        r matches Ok((id, reqid, np)) ==> np <= src@.len()
            && parse_stage1(acc, presence, src@.skip(pos as int))
                == parse_stage2(FrameMetadataModel { id, reqid, ..acc }, presence, src@.skip(np as int))
            && diag_stage1(presence, src@.skip(pos as int), src@.len()) == diag_stage2(presence, src@.skip(np as int), src@.len()),
{
    let (id, p1) = match read_uuid(src, pos) {
        Ok(x) => x,
        Err(t) => return Err(t),
    };
    let (reqid, p2) = match read_opt_uuid(src, p1, has_presence_bit(presence, FIELD_REQID)) {
        Ok(x) => x,
        Err(t) => return Err(t),
    };
    Ok((id, reqid, p2))
}

fn parse_scalars(src: &[u8], pos: usize, presence: u32, Ghost(acc): Ghost<FrameMetadataModel>) -> (r: Result<(Option<Duration>, Option<UCode>, usize), String>)
    requires
        pos <= src@.len(),
    ensures
        r matches Err(t) ==> parse_stage2(acc, presence, src@.skip(pos as int)) is None
            && diag_stage2(presence, src@.skip(pos as int), src@.len()) == Some(t@),
        r matches Ok((ttl, comm_status, np)) ==> np <= src@.len()
            && parse_stage2(acc, presence, src@.skip(pos as int))
                == parse_stage3(FrameMetadataModel { ttl, comm_status, ..acc }, presence, src@.skip(np as int))
            && diag_stage2(presence, src@.skip(pos as int), src@.len()) == diag_stage3(presence, src@.skip(np as int), src@.len()),
{
    let (ttl, p1) = match read_opt_ttl(src, pos, has_presence_bit(presence, FIELD_TTL)) {
        Ok(x) => x,
        Err(t) => return Err(t),
    };
    let (comm_status, p2) = match read_opt_comm_status(src, p1, has_presence_bit(presence, FIELD_COMM_STATUS)) {
        Ok(x) => x,
        Err(t) => return Err(t),
    };
    Ok((ttl, comm_status, p2))
}

fn parse_source(src: &[u8], pos: usize, presence: u32, Ghost(acc): Ghost<FrameMetadataModel>) -> (r: Result<(Option<u32>, UUri, usize), String>)
    requires
        pos <= src@.len(),
    ensures
        r matches Err(t) ==> parse_stage3(acc, presence, src@.skip(pos as int)) is None
            && diag_stage3(presence, src@.skip(pos as int), src@.len()) == Some(t@),
        r matches Ok((permission_level, source, np)) ==> np <= src@.len()
            && parse_stage3(acc, presence, src@.skip(pos as int))
                == parse_stage4(FrameMetadataModel { permission_level, source: source@, ..acc }, presence, src@.skip(np as int))
            && diag_stage3(presence, src@.skip(pos as int), src@.len()) == diag_stage4(presence, src@.skip(np as int), src@.len()),
{
    let (permission_level, p1) = match read_opt_u32(src, pos, has_presence_bit(presence, FIELD_PERMISSION_LEVEL)) {
        Ok(x) => x,
        Err(t) => return Err(t),
    };
    let (source, p2) = match read_uri(src, p1) {
        Ok(x) => x,
        Err(t) => return Err(t),
    };
    Ok((permission_level, source, p2))
}

fn parse_sink_and_token(src: &[u8], pos: usize, presence: u32, Ghost(acc): Ghost<FrameMetadataModel>) -> (r: Result<(Option<UUri>, Option<String>, usize), String>)
    requires
        pos <= src@.len(),
    ensures
        r matches Err(t) ==> parse_stage4(acc, presence, src@.skip(pos as int)) is None
            && diag_stage4(presence, src@.skip(pos as int), src@.len()) == Some(t@),
        r matches Ok((sink, token, np)) ==> np <= src@.len()
            && parse_stage4(acc, presence, src@.skip(pos as int))
                == parse_stage5(FrameMetadataModel { sink: opt_uri_view(sink), token: opt_str_view(token), ..acc }, presence, src@.skip(np as int))
            && diag_stage4(presence, src@.skip(pos as int), src@.len()) == diag_stage5(presence, src@.skip(np as int), src@.len()),
{
    let (sink, p1) = match read_opt_uri(src, pos, has_presence_bit(presence, FIELD_SINK)) {
        Ok(x) => x,
        Err(t) => return Err(t),
    };
    let (token, p2) = match read_opt_token(src, p1, has_presence_bit(presence, FIELD_TOKEN)) {
        Ok(x) => x,
        Err(t) => return Err(t),
    };
    Ok((sink, token, p2))
}

fn parse_trailer(src: &[u8], pos: usize, presence: u32, Ghost(acc): Ghost<FrameMetadataModel>) -> (r: Result<(Option<String>, Option<PayloadEncoding>, Option<NativeTypeToken>), String>)
    requires
        pos <= src@.len(),
    ensures
        r matches Err(t) ==> parse_stage5(acc, presence, src@.skip(pos as int)) is None
            && diag_stage5(presence, src@.skip(pos as int), src@.len()) == Some(t@),
        r matches Ok((traceparent, payload_encoding, native_type_token)) ==>
            parse_stage5(acc, presence, src@.skip(pos as int)) == Some(FrameMetadataModel {
                traceparent: opt_str_view(traceparent),
                payload_encoding: opt_encoding_view(payload_encoding),
                native_type_token,
                ..acc
            })
            && diag_stage5(presence, src@.skip(pos as int), src@.len()) is None,
{
    let (traceparent, p1) = match read_opt_traceparent(src, pos, has_presence_bit(presence, FIELD_TRACEPARENT)) {
        Ok(x) => x,
        Err(t) => return Err(t),
    };
    let (payload_encoding, p2) = match read_opt_encoding(src, p1, has_presence_bit(presence, FIELD_PAYLOAD_ENCODING)) {
        Ok(x) => x,
        Err(t) => return Err(t),
    };
    let (native_type_token, p3) = match read_opt_native_token(src, p2, has_presence_bit(presence, FIELD_NATIVE_TYPE_TOKEN)) {
        Ok(x) => x,
        Err(t) => return Err(t),
    };
    if p3 != src.len() {
        let mut t = String::new();
        append_decimal_u64(&mut t, (src.len() - p3) as u64);
        t.append(" trailing byte(s)");
        return Err(t);
    }
    Ok((traceparent, payload_encoding, native_type_token))
}

/// The text reporting that `needed` bytes were missing at `offset` of an
/// input of `total` bytes.
pub open spec fn truncation_text(needed: nat, offset: nat, total: nat) -> Seq<char> {
    "needed "@ + decimal(needed) + " byte(s) at offset "@ + decimal(offset) + ", input has "@ + decimal(total)
        + " byte(s)"@
}

/// The text of the first fixed-header check that `b` fails, in the order
/// the header is read (version, kind, priority, reserved byte, presence
/// bits), or `None` when the fixed header is well formed.
pub open spec fn header_error_text(b: Seq<u8>) -> Option<Seq<char>> {
    if b.len() < 1 {
        Some(truncation_text(1, 0, b.len()))
    } else if b[0] != FRAME_FIELDS_VERSION {
        Some("unsupported field block version "@ + decimal(b[0] as nat))
    } else if b.len() < 2 {
        Some(truncation_text(1, 1, b.len()))
    } else if kind_from_wire_code(b[1]) is None {
        Some("unknown frame message kind code"@)
    } else if b.len() < 3 {
        Some(truncation_text(1, 2, b.len()))
    } else if b[2] != 0 && priority_from_wire_code(b[2]) is None {
        Some("unknown frame priority code "@ + decimal(b[2] as nat))
    } else if b.len() < 4 {
        Some(truncation_text(1, 3, b.len()))
    } else if b[3] != 0 {
        Some("reserved byte must be zero"@)
    } else if b.len() < 8 {
        Some(truncation_text(4, 4, b.len()))
    } else if spec_u32_from_le_bytes(b.subrange(4, 8)) & !FIELD_MASK_V1 != 0 {
        Some("unknown presence bits "@ + hex8(spec_u32_from_le_bytes(b.subrange(4, 8)) & !FIELD_MASK_V1))
    } else {
        None
    }
}

/// The text for a read of `n` bytes at `pos`, past the end of an input of
/// `total` bytes.
fn truncation_message(n: usize, pos: usize, total: usize) -> (s: String)
    ensures
        s@ == truncation_text(n as nat, pos as nat, total as nat),
{
    let mut s = String::from_str("needed ");
    append_decimal_u64(&mut s, n as u64);
    s.append(" byte(s) at offset ");
    append_decimal_u64(&mut s, pos as u64);
    s.append(", input has ");
    append_decimal_u64(&mut s, total as u64);
    s.append(" byte(s)");
    s
}

/// Reads the fixed header of a field block: its kind, priority and
/// presence mask, or the text of the first header check that `src` fails.
fn read_header(src: &[u8]) -> (r: Result<(FrameMessageKind, Option<FramePriority>, u32), String>)
    ensures
        r is Err <==> p_header(src@) is None,
        r matches Err(t) ==> header_error_text(src@) == Some(t@),
        r matches Ok((kind, priority, presence)) ==> header_error_text(src@) is None
            && p_header(src@) == Some((kind, priority, presence, src@.skip(8))),
{
    let n = src.len();
    if n < 1 {
        return Err(truncation_message(1, 0, n));
    }
    if src[0] != FRAME_FIELDS_VERSION {
        let mut s = String::from_str("unsupported field block version ");
        append_decimal(&mut s, src[0] as u32);
        return Err(s);
    }
    if n < 2 {
        return Err(truncation_message(1, 1, n));
    }
    let kind = match FrameMessageKind::from_wire_code(src[1]) {
        Some(k) => k,
        None => return Err(String::from_str("unknown frame message kind code")),
    };
    if n < 3 {
        return Err(truncation_message(1, 2, n));
    }
    let priority = if src[2] == 0 {
        None
    } else {
        match FramePriority::from_wire_code(src[2]) {
            Some(p) => Some(p),
            None => {
                let mut s = String::from_str("unknown frame priority code ");
                append_decimal(&mut s, src[2] as u32);
                return Err(s);
            },
        }
    };
    if n < 4 {
        return Err(truncation_message(1, 3, n));
    }
    if src[3] != 0 {
        return Err(String::from_str("reserved byte must be zero"));
    }
    if n < 8 {
        return Err(truncation_message(4, 4, n));
    }
    let presence = u32_from_le_bytes(&src[4..8]);
    let unknown = presence & !FIELD_MASK_V1;
    if unknown != 0 {
        let mut s = String::from_str("unknown presence bits ");
        append_hex8(&mut s, unknown);
        return Err(s);
    }
    Ok((kind, priority, presence))
}

/// Parses a field block into (unvalidated) metadata, or gives the text of
/// the first check that the bytes fail.
fn parse_fields(src: &[u8]) -> (r: Result<UFrameMetadata, String>)
    ensures
        r is Err <==> parse_field_block(src@) is None,
        r matches Ok(m) ==> parse_field_block(src@) == Some(m@) && field_block_error(src@) is None,
        r matches Err(t) ==> field_block_error(src@) == Some(t@),
{
    let (kind, priority, presence) = match read_header(src) {
        Ok(x) => x,
        Err(t) => return Err(t),
    };
    let ghost b = src@;
    let ghost acc1 = FrameMetadataModel { kind, priority, ..arbitrary() };
    assert(parse_field_block(b) == parse_stage1(acc1, presence, b.skip(8)));
    assert(field_block_error(b) == diag_stage1(presence, b.skip(8), b.len()));
    let (id, reqid, p2) = match parse_ids(src, 8, presence, Ghost(acc1)) {
        Ok(x) => x,
        Err(t) => return Err(t),
    };
    let ghost acc2 = FrameMetadataModel { id, reqid, ..acc1 };
    let (ttl, comm_status, p4) = match parse_scalars(src, p2, presence, Ghost(acc2)) {
        Ok(x) => x,
        Err(t) => return Err(t),
    };
    let ghost acc3 = FrameMetadataModel { ttl, comm_status, ..acc2 };
    let (permission_level, source, p6) = match parse_source(src, p4, presence, Ghost(acc3)) {
        Ok(x) => x,
        Err(t) => return Err(t),
    };
    let ghost acc4 = FrameMetadataModel { permission_level, source: source@, ..acc3 };
    let (sink, token, p8) = match parse_sink_and_token(src, p6, presence, Ghost(acc4)) {
        Ok(x) => x,
        Err(t) => return Err(t),
    };
    let ghost acc5 = FrameMetadataModel { sink: opt_uri_view(sink), token: opt_str_view(token), ..acc4 };
    let (traceparent, payload_encoding, native_type_token) = match parse_trailer(src, p8, presence, Ghost(acc5)) {
        Ok(x) => x,
        Err(t) => return Err(t),
    };
    let metadata = UFrameMetadata::from_decoded_parts(
        kind,
        id,
        source,
        sink,
        reqid,
        priority,
        ttl,
        comm_status,
        permission_level,
        token,
        traceparent,
        payload_encoding,
        native_type_token,
    );
    Ok(metadata)
}

/// Decodes and validates frame metadata from its canonical field block.
///
/// The whole input must be consumed. Fails with `Malformed` when the bytes
/// are not the field block of any metadata value (wrong version, unknown
/// codes, nonzero reserved byte, unknown presence bits, truncation, trailing
/// bytes, invalid UTF-8, invalid UUIDs or URIs, out-of-range identifiers),
/// naming the first check they fail in reading order, and with `Metadata`
/// when they are the block of invalid metadata.
pub fn decode_frame_metadata_fields(src: &[u8]) -> (r: Result<UFrameMetadata, UFrameFieldsError>)
    ensures
        r matches Ok(m) ==> is_field_block_of(src@, m@) && metadata_valid(m@),
        forall|m: FrameMetadataModel| #[trigger] is_field_block_of(src@, m) && metadata_valid(m)
            ==> (r matches Ok(d) && d@ == m),
        r matches Err(e) ==> match e {
            UFrameFieldsError::Malformed(_) => forall|m: FrameMetadataModel| !is_field_block_of(src@, m),
            UFrameFieldsError::Metadata(err) => exists|m: FrameMetadataModel|
                is_field_block_of(src@, m) && !metadata_valid(m) && is_validation_error_for(m, err),
            UFrameFieldsError::ValueTooLong { .. } => false,
        },
        field_block_error(src@) is Some <==> forall|m: FrameMetadataModel| !is_field_block_of(src@, m),
        r matches Err(UFrameFieldsError::Malformed(t)) ==> field_block_error(src@) == Some(t@),
{
    match parse_fields(src) {
        Err(text) => {
            proof {
                assert forall|m: FrameMetadataModel| !is_field_block_of(src@, m) by {
                    if is_field_block_of(src@, m) {
                        lemma_parse_field_block(m);
                    }
                }
            }
            Err(UFrameFieldsError::Malformed(text))
        },
        Ok(metadata) => {
            proof {
                lemma_parse_field_block_inv(src@);
            }
            proof {
                assert forall|m: FrameMetadataModel| #[trigger] is_field_block_of(src@, m)
                    implies m == metadata@ by {
                    lemma_field_block_injective(m, metadata@);
                }
            }
            match metadata.validate() {
                Ok(()) => Ok(metadata),
                Err(err) => Err(UFrameFieldsError::Metadata(err)),
            }
        },
    }
}

// ---------------------------------------------------------------------------
// Encoding
// ---------------------------------------------------------------------------

/// Appends `bytes` to `out`.
pub(crate) fn append_slice(out: &mut Vec<u8>, bytes: &[u8])
    ensures
        final(out)@ == old(out)@ + bytes@,
{
    let mut i: usize = 0;
    while i < bytes.len()
        invariant
            i <= bytes@.len(),
            out@ == old(out)@ + bytes@.take(i as int),
        decreases bytes@.len() - i,
    {
        out.push(bytes[i]);
        assert(bytes@.take(i + 1) =~= bytes@.take(i as int).push(bytes@[i as int]));
        i = i + 1;
    }
    assert(bytes@.take(bytes@.len() as int) =~= bytes@);
}

pub(crate) fn write_u16(out: &mut Vec<u8>, v: u16)
    ensures
        final(out)@ == old(out)@ + spec_u16_to_le_bytes(v),
{
    let mut bytes = u16_to_le_bytes(v);
    out.append(&mut bytes);
}

pub(crate) fn write_u32(out: &mut Vec<u8>, v: u32)
    ensures
        final(out)@ == old(out)@ + spec_u32_to_le_bytes(v),
{
    let mut bytes = u32_to_le_bytes(v);
    out.append(&mut bytes);
}

pub(crate) fn write_u64(out: &mut Vec<u8>, v: u64)
    ensures
        final(out)@ == old(out)@ + spec_u64_to_le_bytes(v),
{
    let mut bytes = u64_to_le_bytes(v);
    out.append(&mut bytes);
}

fn write_uuid(out: &mut Vec<u8>, u: &UUID)
    ensures
        final(out)@ == old(out)@ + uuid_block(*u),
{
    let (msb, lsb) = u.as_u64_pair();
    write_u64(out, msb);
    write_u64(out, lsb);
    assert(final(out)@ =~= old(out)@ + uuid_block(*u));
}

fn write_str(out: &mut Vec<u8>, s: &str)
    ensures
        final(out)@ == old(out)@ + encode_utf8(s@),
{
    append_slice(out, s.as_bytes());
}

fn write_uri(out: &mut Vec<u8>, u: &UUri)
    requires
        encode_utf8(u@.authority).len() <= 255,
    ensures
        final(out)@ == old(out)@ + uri_block(u@),
{
    let authority = u.authority_name();
    write_u32(out, u.ue_id());
    write_u16(out, u.resource_id());
    out.push(u.uentity_major_version());
    out.push(authority.len() as u8);
    write_str(out, authority);
    assert(final(out)@ =~= old(out)@ + uri_block(u@));
}

/// The byte length of a string slice.
fn utf8_len(s: &str) -> (n: usize)
    ensures
        n == encode_utf8(s@).len(),
{
    s.as_bytes().len()
}

/// Fails with the first value that does not fit its field.
fn check_fields_encodable(metadata: &UFrameMetadata) -> (r: Result<(), UFrameFieldsError>)
    ensures
        r is Ok <==> fields_encodable(metadata@),
        r matches Err(e) ==> (e matches UFrameFieldsError::ValueTooLong { field } && field@ == unencodable_field(metadata@)),
{
    if let Some(ttl) = metadata.ttl() {
        if ttl.as_nanos() > 0xFFFF_FFFF_FFFF_FFFF {
            return Err(UFrameFieldsError::ValueTooLong { field: "ttl" });
        }
    }
    if utf8_len(metadata.source().authority_name()) > 255 {
        return Err(UFrameFieldsError::ValueTooLong { field: "authority_name" });
    }
    if let Some(sink) = metadata.sink() {
        if utf8_len(sink.authority_name()) > 255 {
            return Err(UFrameFieldsError::ValueTooLong { field: "authority_name" });
        }
    }
    if let Some(token) = metadata.token() {
        if utf8_len(token) > 0xFFFF {
            return Err(UFrameFieldsError::ValueTooLong { field: "token" });
        }
    }
    if let Some(traceparent) = metadata.traceparent() {
        if utf8_len(traceparent) > 255 {
            return Err(UFrameFieldsError::ValueTooLong { field: "traceparent" });
        }
    }
    if let Some(encoding) = metadata.payload_encoding() {
        let representable = match encoding.registry_id() {
            Some(id) => {
                if id > 0xFFFF {
                    false
                } else {
                    match PayloadEncoding::from_id(id) {
                        Ok(canonical) => canonical.is_compatible_with(encoding),
                        Err(_) => false,
                    }
                }
            },
            None => false,
        };
        if !representable {
            return Err(UFrameFieldsError::ValueTooLong { field: "payload_encoding" });
        }
    }
    Ok(())
}

spec fn opt_len(present: bool, n: int) -> int {
    if present { n } else { 0 }
}

spec fn sink_len(m: FrameMetadataModel) -> int {
    if m.sink is Some { 8 + encode_utf8(m.sink.unwrap().authority).len() as int } else { 0 }
}

spec fn token_len(m: FrameMetadataModel) -> int {
    if m.token is Some { 2 + encode_utf8(m.token.unwrap()).len() as int } else { 0 }
}

spec fn traceparent_len(m: FrameMetadataModel) -> int {
    if m.traceparent is Some { 1 + encode_utf8(m.traceparent.unwrap()).len() as int } else { 0 }
}

/// The length of the field block of `m`, field by field.
spec fn field_block_len(m: FrameMetadataModel) -> int {
    24 + opt_len(m.reqid is Some, 16) + opt_len(m.ttl is Some, 8) + opt_len(m.comm_status is Some, 4)
        + opt_len(m.permission_level is Some, 4) + 8 + encode_utf8(m.source.authority).len()
        + sink_len(m) + token_len(m) + traceparent_len(m)
        + opt_len(m.payload_encoding is Some, 4) + opt_len(m.native_type_token is Some, 4)
}

#[verifier::spinoff_prover]
#[verifier::rlimit(40)]
proof fn lemma_field_block_len(m: FrameMetadataModel)
    ensures
        field_block(m).len() == field_block_len(m),
{
    lemma_auto_spec_u16_to_from_le_bytes();
    lemma_auto_spec_u32_to_from_le_bytes();
    lemma_auto_spec_u64_to_from_le_bytes();
    assert(block_tail2(m).len() == token_len(m) + traceparent_len(m) + block_tail3(m).len());
    assert(uuid_block(m.id).len() == 16);
    if m.reqid is Some {
        assert(uuid_block(m.reqid.unwrap()).len() == 16);
    }
    assert(uri_block(m.source).len() == 8 + encode_utf8(m.source.authority).len());
    if m.sink is Some {
        assert(uri_block(m.sink.unwrap()).len() == 8 + encode_utf8(m.sink.unwrap().authority).len());
    }
    assert(block_tail3(m).len() == (if m.payload_encoding is Some { 4int } else { 0 })
        + (if m.native_type_token is Some { 4int } else { 0 }));
}

/// The field block of encodable metadata fits a 32-bit length.
pub proof fn lemma_field_block_bounded(m: FrameMetadataModel)
    requires
        fields_encodable(m),
    ensures
        field_block(m).len() <= u32::MAX,
{
    lemma_field_block_len(m);
}

fn opt_len_exec(present: bool, n: usize) -> (r: usize)
    ensures
        r == opt_len(present, n as int),
{
    if present { n } else { 0 }
}

fn sink_len_exec(metadata: &UFrameMetadata) -> (r: usize)
    requires
        fields_encodable(metadata@),
    ensures
        r == sink_len(metadata@),
{
    match metadata.sink() {
        Some(sink) => 8 + utf8_len(sink.authority_name()),
        None => 0,
    }
}

fn token_len_exec(metadata: &UFrameMetadata) -> (r: usize)
    requires
        fields_encodable(metadata@),
    ensures
        r == token_len(metadata@),
{
    match metadata.token() {
        Some(token) => 2 + utf8_len(token),
        None => 0,
    }
}

fn traceparent_len_exec(metadata: &UFrameMetadata) -> (r: usize)
    requires
        fields_encodable(metadata@),
    ensures
        r == traceparent_len(metadata@),
{
    match metadata.traceparent() {
        Some(traceparent) => 1 + utf8_len(traceparent),
        None => 0,
    }
}

fn sum_field_lengths(metadata: &UFrameMetadata) -> (n: usize)
    requires
        fields_encodable(metadata@),
    ensures
        n == field_block_len(metadata@),
{
    let a = opt_len_exec(metadata.reqid().is_some(), 16);
    let b = opt_len_exec(metadata.ttl().is_some(), 8);
    let c = opt_len_exec(metadata.comm_status().is_some(), 4);
    let d = opt_len_exec(metadata.permission_level().is_some(), 4);
    let e = utf8_len(metadata.source().authority_name());
    let f = sink_len_exec(metadata);
    let g = token_len_exec(metadata);
    let h = traceparent_len_exec(metadata);
    let i = opt_len_exec(metadata.payload_encoding().is_some(), 4);
    let j = opt_len_exec(metadata.native_type_token().is_some(), 4);
    24 + a + b + c + d + 8 + e + f + g + h + i + j
}

/// Returns the exact length of the field block of `metadata`.
///
/// Fails with `ValueTooLong` when a value does not fit its field.
pub(crate) fn frame_metadata_fields_len(metadata: &UFrameMetadata) -> (r: Result<usize, UFrameFieldsError>)
    ensures
        r is Ok <==> fields_encodable(metadata@),
        r matches Ok(n) ==> n == field_block(metadata@).len(),
        r matches Err(e) ==> (e matches UFrameFieldsError::ValueTooLong { field } && field@ == unencodable_field(metadata@)),
{
    check_fields_encodable(metadata)?;
    let len = sum_field_lengths(metadata);
    proof {
        lemma_field_block_len(metadata@);
    }
    Ok(len)
}

fn write_tail3(out: &mut Vec<u8>, metadata: &UFrameMetadata)
    requires
        fields_encodable(metadata@),
    ensures
        final(out)@ == old(out)@ + block_tail3(metadata@),
{
    if let Some(encoding) = metadata.payload_encoding() {
        match encoding.registry_id() {
            Some(id) => write_u32(out, id),
            None => {},
        }
    }
    if let Some(token) = metadata.native_type_token() {
        write_u32(out, token.as_u32());
    }
    assert(final(out)@ =~= old(out)@ + block_tail3(metadata@));
}

fn write_tail2(out: &mut Vec<u8>, metadata: &UFrameMetadata)
    requires
        fields_encodable(metadata@),
    ensures
        final(out)@ == old(out)@ + block_tail2(metadata@),
{
    if let Some(token) = metadata.token() {
        write_u16(out, utf8_len(token) as u16);
        write_str(out, token);
    }
    let ghost mid = out@;
    if let Some(traceparent) = metadata.traceparent() {
        out.push(utf8_len(traceparent) as u8);
        write_str(out, traceparent);
    }
    let ghost mid2 = out@;
    write_tail3(out, metadata);
    assert(final(out)@ =~= old(out)@ + block_tail2(metadata@));
}

fn write_tail1(out: &mut Vec<u8>, metadata: &UFrameMetadata)
    requires
        fields_encodable(metadata@),
    ensures
        final(out)@ == old(out)@ + block_tail1(metadata@),
{
    write_uri(out, metadata.source());
    if let Some(sink) = metadata.sink() {
        write_uri(out, sink);
    }
    write_tail2(out, metadata);
    assert(final(out)@ =~= old(out)@ + block_tail1(metadata@));
}

#[verifier::spinoff_prover]
#[verifier::rlimit(30)]
fn write_tail0(out: &mut Vec<u8>, metadata: &UFrameMetadata)
    requires
        fields_encodable(metadata@),
    ensures
        final(out)@ == old(out)@ + block_tail0(metadata@),
{
    if let Some(reqid) = metadata.reqid() {
        write_uuid(out, reqid);
    }
    if let Some(ttl) = metadata.ttl() {
        write_u64(out, ttl.as_nanos() as u64);
    }
    if let Some(comm_status) = metadata.comm_status() {
        write_u32(out, comm_status.value() as u32);
    }
    if let Some(permission_level) = metadata.permission_level() {
        write_u32(out, permission_level);
    }
    write_tail1(out, metadata);
    assert(final(out)@ =~= old(out)@ + block_tail0(metadata@));
}

fn presence_of(metadata: &UFrameMetadata) -> (p: u32)
    ensures
        p == presence_bits(metadata@),
{
    let mut presence: u32 = 0;
    if metadata.sink().is_some() {
        presence = presence + FIELD_SINK;
    }
    if metadata.reqid().is_some() {
        presence = presence + FIELD_REQID;
    }
    if metadata.ttl().is_some() {
        presence = presence + FIELD_TTL;
    }
    if metadata.comm_status().is_some() {
        presence = presence + FIELD_COMM_STATUS;
    }
    if metadata.permission_level().is_some() {
        presence = presence + FIELD_PERMISSION_LEVEL;
    }
    if metadata.token().is_some() {
        presence = presence + FIELD_TOKEN;
    }
    if metadata.traceparent().is_some() {
        presence = presence + FIELD_TRACEPARENT;
    }
    if metadata.payload_encoding().is_some() {
        presence = presence + FIELD_PAYLOAD_ENCODING;
    }
    if metadata.native_type_token().is_some() {
        presence = presence + FIELD_NATIVE_TYPE_TOKEN;
    }
    presence
}

fn write_field_block(out: &mut Vec<u8>, metadata: &UFrameMetadata)
    requires
        fields_encodable(metadata@),
    ensures
        final(out)@ == old(out)@ + field_block(metadata@),
{
    let priority_code = match metadata.priority() {
        Some(p) => p.wire_code(),
        None => 0,
    };
    out.push(FRAME_FIELDS_VERSION);
    out.push(metadata.kind().wire_code());
    out.push(priority_code);
    out.push(0);
    write_u32(out, presence_of(metadata));
    write_uuid(out, metadata.id());
    write_tail0(out, metadata);
    assert(final(out)@ =~= old(out)@ + field_block(metadata@));
}

fn write_uri_head(out: &mut Vec<u8>, u: &UUri)
    ensures
        final(out)@ == old(out)@ + uri_head(u@),
{
    write_u32(out, u.ue_id());
    write_u16(out, u.resource_id());
    out.push(u.uentity_major_version());
    assert(final(out)@ =~= old(out)@ + uri_head(u@));
}

fn write_partial_tail3(out: &mut Vec<u8>, metadata: &UFrameMetadata)
    ensures
        final(out)@ == old(out)@ + partial_tail3(metadata@),
{
    if let Some(token) = metadata.token() {
        if utf8_len(token) > 0xFFFF {
            assert(out@ =~= old(out)@ + partial_tail3(metadata@));
            return;
        }
        write_u16(out, utf8_len(token) as u16);
        write_str(out, token);
    }
    let ghost mid = out@;
    assert(mid =~= old(out)@ + token_block(metadata@.token));
    if let Some(traceparent) = metadata.traceparent() {
        if utf8_len(traceparent) > 255 {
            return;
        }
        out.push(utf8_len(traceparent) as u8);
        write_str(out, traceparent);
    }
    assert(out@ =~= old(out)@ + partial_tail3(metadata@));
}

fn write_partial_tail2(out: &mut Vec<u8>, metadata: &UFrameMetadata)
    ensures
        final(out)@ == old(out)@ + partial_tail2(metadata@),
{
    if let Some(sink) = metadata.sink() {
        if utf8_len(sink.authority_name()) > 255 {
            write_uri_head(out, sink);
            return;
        }
        write_uri(out, sink);
    }
    write_partial_tail3(out, metadata);
    assert(out@ =~= old(out)@ + partial_tail2(metadata@));
}

fn write_partial_tail1(out: &mut Vec<u8>, metadata: &UFrameMetadata)
    ensures
        final(out)@ == old(out)@ + partial_tail1(metadata@),
{
    if utf8_len(metadata.source().authority_name()) > 255 {
        write_uri_head(out, metadata.source());
        return;
    }
    write_uri(out, metadata.source());
    write_partial_tail2(out, metadata);
    assert(out@ =~= old(out)@ + partial_tail1(metadata@));
}

/// Writes the bytes of the block that precede its first value too long for
/// its field.
#[verifier::spinoff_prover]
#[verifier::rlimit(30)]
fn write_partial_field_block(out: &mut Vec<u8>, metadata: &UFrameMetadata)
    ensures
        final(out)@ == old(out)@ + partial_field_block(metadata@),
{
    let ghost m = metadata@;
    let priority_code = match metadata.priority() {
        Some(p) => p.wire_code(),
        None => 0,
    };
    out.push(FRAME_FIELDS_VERSION);
    out.push(metadata.kind().wire_code());
    out.push(priority_code);
    out.push(0);
    write_u32(out, presence_of(metadata));
    write_uuid(out, metadata.id());
    let ghost head = out@;
    assert(head =~= old(out)@ + field_block_head(m));
    if let Some(reqid) = metadata.reqid() {
        write_uuid(out, reqid);
    }
    let ghost h0 = out@;
    assert(h0 =~= head + opt_uuid_block(m.reqid));
    if let Some(ttl) = metadata.ttl() {
        if ttl.as_nanos() > 0xFFFF_FFFF_FFFF_FFFF {
            assert(out@ =~= old(out)@ + partial_field_block(m));
            return;
        }
        write_u64(out, ttl.as_nanos() as u64);
    }
    if let Some(comm_status) = metadata.comm_status() {
        write_u32(out, comm_status.value() as u32);
    }
    if let Some(permission_level) = metadata.permission_level() {
        write_u32(out, permission_level);
    }
    let ghost h1 = out@;
    assert(h1 =~= h0 + (ttl_block(m.ttl) + (comm_status_block(m.comm_status) + opt_u32_block(m.permission_level))));
    write_partial_tail1(out, metadata);
    assert(out@ =~= old(out)@ + partial_field_block(m));
}

/// The parts of every metadata value are well formed: its URIs have valid
/// authority names, its ids are uProtocol UUIDs and its TTL is a
/// well-formed span.
pub(crate) fn metadata_parts_wf(metadata: &UFrameMetadata)
    ensures
        metadata@.source.wf(),
        metadata@.sink is Some ==> metadata@.sink.unwrap().wf(),
        metadata@.id.wf(),
        metadata@.reqid is Some ==> metadata@.reqid.unwrap().wf(),
        metadata@.ttl is Some ==> metadata@.ttl.unwrap().wf(),
{
    let _ = metadata.source().authority_name();
    match metadata.sink() {
        Some(sink) => {
            let _ = sink.authority_name();
        },
        None => {},
    }
    let _ = metadata.id().as_u64_pair();
    match metadata.reqid() {
        Some(reqid) => {
            let _ = reqid.as_u64_pair();
        },
        None => {},
    }
    match metadata.ttl() {
        Some(ttl) => {
            let _ = ttl.subsec_nanos();
        },
        None => {},
    }
}

/// Appends the field block of validated metadata to a caller-owned buffer,
/// keeping the bytes already there.
///
/// Fails with `Metadata` for invalid metadata, leaving `out` unchanged, and
/// with `ValueTooLong` when a value does not fit its field, after appending
/// the bytes of the block that precede that value.
pub fn encode_frame_metadata_fields_into(metadata: &UFrameMetadata, out: &mut Vec<u8>) -> (r: Result<(), UFrameFieldsError>)
    ensures
        r is Ok <==> metadata_valid(metadata@) && fields_encodable(metadata@),
        r is Ok ==> final(out)@ == old(out)@ + field_block(metadata@) && fields_decodable(metadata@),
        r matches Err(UFrameFieldsError::Metadata(_)) ==> final(out)@ == old(out)@,
        r matches Err(UFrameFieldsError::ValueTooLong { .. }) ==> final(out)@ == old(out)@ + partial_field_block(metadata@),
        r matches Err(e) ==> if !metadata_valid(metadata@) {
            e matches UFrameFieldsError::Metadata(err) && is_validation_error_for(metadata@, err)
        } else {
            e matches UFrameFieldsError::ValueTooLong { field } && field@ == unencodable_field(metadata@)
        },
{
    match metadata.validate() {
        Ok(()) => {},
        Err(err) => return Err(UFrameFieldsError::Metadata(err)),
    }
    match check_fields_encodable(metadata) {
        Ok(()) => {},
        Err(e) => {
            write_partial_field_block(out, metadata);
            return Err(e);
        },
    }
    metadata_parts_wf(metadata);
    write_field_block(out, metadata);
    Ok(())
}

/// Encodes validated metadata into its canonical field block, which
/// `decode_frame_metadata_fields` turns back into the same metadata.
///
/// Fails with `ValueTooLong` when a value does not fit its field (encoding
/// never truncates), else with `Metadata` for invalid metadata.
pub fn encode_frame_metadata_fields(metadata: &UFrameMetadata) -> (r: Result<Vec<u8>, UFrameFieldsError>)
    ensures
        r is Ok <==> metadata_valid(metadata@) && fields_encodable(metadata@),
        r matches Ok(bytes) ==> bytes@ == field_block(metadata@) && is_field_block_of(bytes@, metadata@),
        r matches Err(e) ==> if !fields_encodable(metadata@) {
            e matches UFrameFieldsError::ValueTooLong { field } && field@ == unencodable_field(metadata@)
        } else {
            e matches UFrameFieldsError::Metadata(err) && is_validation_error_for(metadata@, err)
        },
{
    let len = frame_metadata_fields_len(metadata)?;
    let mut out: Vec<u8> = Vec::with_capacity(len);
    encode_frame_metadata_fields_into(metadata, &mut out)?;
    Ok(out)
}

} // verus!
