//! Fixed-layout ABI profile, version 1, of native frame metadata.
//!
//! [`UFrameMetadataAbiV1`] is a derived, fixed-capacity representation of the
//! semantic [`UFrameMetadata`], for boundaries whose peers read metadata as a
//! typed header (for example shared-memory services written in C or C++).
//! Every field is a fixed-width integer or byte array; strings are stored as
//! a length plus zero-padded bytes; optional fields are guarded by the
//! presence bits of the canonical field block.
//!
//! Conversions never truncate: a value that exceeds a capacity of this
//! profile is an error, though it remains valid semantic metadata.
use vstd::prelude::*;
use vstd::string::*;
use vstd::utf8::*;

use crate::frame::codec::{
    has_bit, lemma_presence_bits, metadata_parts_wf, opt_priority_code, presence_bits, FIELD_COMM_STATUS,
    FIELD_MASK_V1, FIELD_PAYLOAD_ENCODING, FIELD_PERMISSION_LEVEL, FIELD_REQID, FIELD_SINK,
    FIELD_TOKEN, FIELD_TRACEPARENT, FIELD_TTL,
};
use crate::frame::metadata::{
    canonical_encoding, encoding_valid, is_encoding_error_for, is_validation_error_for,
    kind_from_wire_code, kind_wire_code, lemma_kind_wire_code_round_trip,
    lemma_priority_wire_code_round_trip, metadata_error_text, metadata_valid, opt_encoding_view,
    priority_from_wire_code, FrameMessageKind, FrameMetadataModel, FramePriority,
    PayloadEncoding, PayloadEncodingModel, UFrameMetadata, UFrameMetadataError,
};
use crate::text::{append_decimal, append_decimal_u64, concat3, concat_str, decimal, utf8_error_text, utf8_to_string};
use crate::time::Duration;
use crate::uattributes::{opt_str_view, opt_uri_view};
use crate::uri::{invalid_authority_text, valid_authority, UUri, UUriModel};
use crate::ustatus::{lemma_ucode_value_round_trip, ucode_from_value, ucode_value, UCode};
use crate::uuid::{is_uprotocol_uuid, UUIDError, UUID};

verus! {

/// Magic bytes at offset 0 of every profile value: `"UFA1"`.
pub const UFRAME_ABI_MAGIC: [u8; 4] = [0x55u8, 0x46u8, 0x41u8, 0x31u8];

/// ABI profile version described by this module.
pub const UFRAME_ABI_VERSION: u8 = 1;

/// Size of the C layout of [`UFrameMetadataAbiV1`] in bytes.
pub const UFRAME_ABI_SIZE: usize = 1096;

/// Alignment of the C layout of [`UFrameMetadataAbiV1`] in bytes.
pub const UFRAME_ABI_ALIGN: usize = 8;

/// Semantic type name for cross-language service matching.
pub const UFRAME_ABI_TYPE_NAME: &'static str = "uprotocol.v2.UFrameMetadataAbiV1";

/// Flag bit: the producer stored multi-byte integers little-endian; set in
/// every value produced by this profile.
pub const UFRAME_ABI_FLAG_LITTLE_ENDIAN: u8 = 1;

/// Capacity for a URI authority name (the URI rule's own limit).
pub const UFRAME_ABI_AUTHORITY_CAPACITY: usize = 128;
/// Capacity for a payload encoding literal id.
pub const UFRAME_ABI_LITERAL_ID_CAPACITY: usize = 64;
/// Capacity for a payload encoding content type.
pub const UFRAME_ABI_CONTENT_TYPE_CAPACITY: usize = 100;
/// Capacity for a W3C traceparent (version 00 uses 55 characters).
pub const UFRAME_ABI_TRACEPARENT_CAPACITY: usize = 63;
/// Capacity for an access token (a policy of this profile only).
pub const UFRAME_ABI_TOKEN_CAPACITY: usize = 510;

/// Component flag: `registry_id` of a [`UPayloadEncodingAbi`] carries a value.
pub const UFRAME_ABI_ENCODING_HAS_REGISTRY_ID: u8 = 1;

/// Errors returned by the profile conversions.
#[derive(Clone, Debug, PartialEq, Eq)]
pub enum UFrameAbiError {
    /// A value exceeds a fixed capacity of this profile.
    CapacityExceeded { field: &'static str },
    /// The value is not a structurally valid profile v1 value.
    InvalidProfile(String),
    /// The metadata violates frame invariants.
    Metadata(UFrameMetadataError),
}

/// The human-readable text of a profile conversion error.
pub open spec fn abi_error_text(e: UFrameAbiError) -> Seq<char> {
    match e {
        UFrameAbiError::CapacityExceeded { field } => "value of `"@ + field@ + "` exceeds the ABI profile capacity"@,
        UFrameAbiError::InvalidProfile(m) => "invalid ABI profile value: "@ + m@,
        UFrameAbiError::Metadata(err) => "invalid frame metadata: "@ + metadata_error_text(err),
    }
}

impl UFrameAbiError {
    /// Returns the human-readable text of this error.
    pub fn to_string(&self) -> (s: String)
        ensures
            s@ == abi_error_text(*self),
    {
        match self {
            UFrameAbiError::CapacityExceeded { field } => concat3("value of `", field, "` exceeds the ABI profile capacity"),
            UFrameAbiError::InvalidProfile(m) => concat_str("invalid ABI profile value: ", m.as_str()),
            UFrameAbiError::Metadata(err) => {
                let inner = err.to_string();
                concat_str("invalid frame metadata: ", inner.as_str())
            },
        }
    }
}

impl From<UFrameMetadataError> for UFrameAbiError {
    fn from(value: UFrameMetadataError) -> (r: UFrameAbiError) {
        UFrameAbiError::Metadata(value)
    }
}

impl vstd::std_specs::convert::FromSpecImpl<UFrameMetadataError> for UFrameAbiError {
    open spec fn obeys_from_spec() -> bool {
        true
    }

    open spec fn from_spec(value: UFrameMetadataError) -> UFrameAbiError {
        UFrameAbiError::Metadata(value)
    }
}

/// UUID as two 64-bit halves.
#[derive(Clone, Copy, Debug, PartialEq, Eq)]
pub struct UUuidAbi {
    /// Most significant 64 bits of the UUID.
    pub msb: u64,
    /// Least significant 64 bits of the UUID.
    pub lsb: u64,
}

/// Fixed-capacity URI.
#[derive(Clone, Copy, Debug, PartialEq, Eq)]
pub struct UUriAbi {
    /// uEntity identifier.
    pub ue_id: u32,
    /// Resource identifier within the uEntity.
    pub resource_id: u16,
    /// uEntity major version.
    pub ue_version_major: u8,
    /// Length in bytes of the authority name.
    pub authority_name_len: u8,
    /// Authority name bytes (`authority_name_len` bytes valid).
    pub authority_name: [u8; 128],
}

/// Fixed-capacity open payload encoding: the three identity components.
#[derive(Clone, Copy, Debug, PartialEq, Eq)]
pub struct UPayloadEncodingAbi {
    /// Registry identifier (meaningful when the component flag is set).
    pub registry_id: u32,
    /// Length in bytes of the literal id.
    pub literal_id_len: u8,
    /// Length in bytes of the content type.
    pub content_type_len: u8,
    /// Bit 0: `registry_id` present; the other bits must be zero.
    pub component_flags: u8,
    /// Must be zero.
    pub _reserved: u8,
    /// Literal id bytes (`literal_id_len` bytes valid).
    pub literal_id: [u8; 64],
    /// Content type bytes (`content_type_len` bytes valid).
    pub content_type: [u8; 100],
}

/// Fixed-capacity traceparent.
#[derive(Clone, Copy, Debug, PartialEq, Eq)]
pub struct UTraceparentAbi {
    /// Length in bytes of the traceparent.
    pub len: u8,
    /// Traceparent bytes (`len` bytes valid).
    pub bytes: [u8; 63],
}

/// Fixed-capacity access token.
#[derive(Clone, Copy, Debug, PartialEq, Eq)]
pub struct UTokenAbi {
    /// Length in bytes of the token.
    pub len: u16,
    /// Token bytes (`len` bytes valid).
    pub bytes: [u8; 510],
}

/// Fixed-layout ABI profile v1 of native frame metadata.
///
/// A field guarded by a `FIELD_*` presence bit is meaningful only when that
/// bit is set; producers zero absent fields. `payload_size` is meaningful
/// exactly when [`FIELD_PAYLOAD_ENCODING`] is set.
#[derive(Clone, Copy, Debug, PartialEq)]
pub struct UFrameMetadataAbiV1 {
    /// Must equal [`UFRAME_ABI_MAGIC`].
    pub magic: [u8; 4],
    /// Must equal [`UFRAME_ABI_VERSION`].
    pub version: u8,
    /// See `UFRAME_ABI_FLAG_*`.
    pub flags: u8,
    /// At least [`UFRAME_ABI_SIZE`]; readers skip trailing fields of newer
    /// minor revisions.
    pub metadata_size: u16,
    /// `FIELD_*` presence bits.
    pub presence: u32,
    /// Frame message kind wire code.
    pub kind: u8,
    /// Frame priority wire code; 0 when absent.
    pub priority: u8,
    /// Status code value; valid when [`FIELD_COMM_STATUS`] is set.
    pub comm_status: u8,
    /// Must be zero.
    pub _reserved0: u8,
    /// Time-to-live in nanoseconds; valid when [`FIELD_TTL`] is set.
    pub ttl_ns: u64,
    /// Valid when [`FIELD_PERMISSION_LEVEL`] is set.
    pub permission_level: u32,
    /// Must be zero.
    pub _reserved1: u32,
    /// Message id.
    pub id: UUuidAbi,
    /// Valid when [`FIELD_REQID`] is set.
    pub reqid: UUuidAbi,
    /// Number of payload bytes of the frame; valid when
    /// [`FIELD_PAYLOAD_ENCODING`] is set, zero otherwise.
    pub payload_size: u64,
    /// Valid when [`FIELD_PAYLOAD_ENCODING`] is set.
    pub payload_encoding: UPayloadEncodingAbi,
    /// Source address.
    pub source: UUriAbi,
    /// Valid when [`FIELD_SINK`] is set.
    pub sink: UUriAbi,
    /// Valid when [`FIELD_TRACEPARENT`] is set.
    pub traceparent: UTraceparentAbi,
    /// Valid when [`FIELD_TOKEN`] is set.
    pub token: UTokenAbi,
    /// Must be zero.
    pub _reserved_tail: [u8; 4],
}

/// `n` zero bytes.
pub open spec fn zeros(n: nat) -> Seq<u8> {
    Seq::new(n, |_i: int| 0u8)
}

/// `content` followed by zero bytes up to `capacity`.
pub open spec fn padded(content: Seq<u8>, capacity: nat) -> Seq<u8> {
    content + zeros((capacity - content.len()) as nat)
}

/// The four magic bytes.
pub open spec fn abi_magic() -> Seq<u8> {
    seq![0x55u8, 0x46u8, 0x41u8, 0x31u8]
}

/// A zeroed UUID slot.
pub open spec fn uuid_abi_is_zero(a: UUuidAbi) -> bool {
    a.msb == 0 && a.lsb == 0
}

/// A zeroed URI slot.
pub open spec fn uri_abi_is_zero(a: UUriAbi) -> bool {
    &&& a.ue_id == 0
    &&& a.resource_id == 0
    &&& a.ue_version_major == 0
    &&& a.authority_name_len == 0
    &&& a.authority_name@ == zeros(128)
}

/// A zeroed payload encoding slot.
pub open spec fn encoding_abi_is_zero(a: UPayloadEncodingAbi) -> bool {
    &&& a.registry_id == 0
    &&& a.literal_id_len == 0
    &&& a.content_type_len == 0
    &&& a.component_flags == 0
    &&& a._reserved == 0
    &&& a.literal_id@ == zeros(64)
    &&& a.content_type@ == zeros(100)
}

impl Default for UUuidAbi {
    fn default() -> (r: UUuidAbi)
        ensures
            uuid_abi_is_zero(r),
    {
        UUuidAbi { msb: 0, lsb: 0 }
    }
}

impl Default for UUriAbi {
    fn default() -> (r: UUriAbi)
        ensures
            uri_abi_is_zero(r),
    {
        let r = UUriAbi {
            ue_id: 0,
            resource_id: 0,
            ue_version_major: 0,
            authority_name_len: 0,
            authority_name: [0u8; 128],
        };
        assert(r.authority_name@ =~= zeros(128));
        r
    }
}

impl Default for UPayloadEncodingAbi {
    fn default() -> (r: UPayloadEncodingAbi)
        ensures
            encoding_abi_is_zero(r),
    {
        let r = UPayloadEncodingAbi {
            registry_id: 0,
            literal_id_len: 0,
            content_type_len: 0,
            component_flags: 0,
            _reserved: 0,
            literal_id: [0u8; 64],
            content_type: [0u8; 100],
        };
        assert(r.literal_id@ =~= zeros(64));
        assert(r.content_type@ =~= zeros(100));
        r
    }
}

impl Default for UTraceparentAbi {
    fn default() -> (r: UTraceparentAbi)
        ensures
            r.len == 0,
            r.bytes@ == zeros(63),
    {
        let r = UTraceparentAbi { len: 0, bytes: [0u8; 63] };
        assert(r.bytes@ =~= zeros(63));
        r
    }
}

impl Default for UTokenAbi {
    fn default() -> (r: UTokenAbi)
        ensures
            r.len == 0,
            r.bytes@ == zeros(510),
    {
        let r = UTokenAbi { len: 0, bytes: [0u8; 510] };
        assert(r.bytes@ =~= zeros(510));
        r
    }
}

/// The header of an empty profile value: magic, version, little-endian flag
/// and size set; every other field zero.
pub open spec fn abi_is_empty_header(a: UFrameMetadataAbiV1) -> bool {
    &&& a.magic@ == abi_magic()
    &&& a.version == UFRAME_ABI_VERSION
    &&& a.flags == UFRAME_ABI_FLAG_LITTLE_ENDIAN
    &&& a.metadata_size == 1096
    &&& a.presence == 0
    &&& a.kind == 0
    &&& a.priority == 0
    &&& a.comm_status == 0
    &&& a._reserved0 == 0
    &&& a.ttl_ns == 0
    &&& a.permission_level == 0
    &&& a._reserved1 == 0
    &&& uuid_abi_is_zero(a.id)
    &&& uuid_abi_is_zero(a.reqid)
    &&& a.payload_size == 0
    &&& encoding_abi_is_zero(a.payload_encoding)
    &&& uri_abi_is_zero(a.source)
    &&& uri_abi_is_zero(a.sink)
    &&& a.traceparent.len == 0
    &&& a.traceparent.bytes@ == zeros(63)
    &&& a.token.len == 0
    &&& a.token.bytes@ == zeros(510)
    &&& a._reserved_tail@ == zeros(4)
}

impl Default for UFrameMetadataAbiV1 {
    fn default() -> (r: UFrameMetadataAbiV1)
        ensures
            abi_is_empty_header(r),
    {
        let r = UFrameMetadataAbiV1 {
            magic: UFRAME_ABI_MAGIC,
            version: UFRAME_ABI_VERSION,
            flags: UFRAME_ABI_FLAG_LITTLE_ENDIAN,
            metadata_size: 1096,
            presence: 0,
            kind: 0,
            priority: 0,
            comm_status: 0,
            _reserved0: 0,
            ttl_ns: 0,
            permission_level: 0,
            _reserved1: 0,
            id: UUuidAbi::default(),
            reqid: UUuidAbi::default(),
            payload_size: 0,
            payload_encoding: UPayloadEncodingAbi::default(),
            source: UUriAbi::default(),
            sink: UUriAbi::default(),
            traceparent: UTraceparentAbi::default(),
            token: UTokenAbi::default(),
            _reserved_tail: [0u8; 4],
        };
        assert(r.magic@ =~= abi_magic());
        assert(r._reserved_tail@ =~= zeros(4));
        r
    }
}

// ---------------------------------------------------------------------------
// Which profile value represents which metadata
// ---------------------------------------------------------------------------

/// Whether `bytes` with stored length `len` hold the string `s`: its UTF-8
/// bytes, zero padded to `capacity`.
pub open spec fn holds_str(bytes: Seq<u8>, len: int, s: Seq<char>, capacity: nat) -> bool {
    len == encode_utf8(s).len() && bytes == padded(encode_utf8(s), capacity)
}

/// Whether slot `a` holds UUID `u`.
pub open spec fn uuid_abi_of(a: UUuidAbi, u: UUID) -> bool {
    a.msb == u.spec_msb() && a.lsb == u.spec_lsb()
}

/// Whether slot `a` holds the optional UUID `u` (zero when absent).
pub open spec fn opt_uuid_abi_of(a: UUuidAbi, u: Option<UUID>) -> bool {
    match u {
        Some(u) => uuid_abi_of(a, u),
        None => uuid_abi_is_zero(a),
    }
}

/// Whether slot `a` holds URI `u`.
pub open spec fn uri_abi_of(a: UUriAbi, u: UUriModel) -> bool {
    &&& a.ue_id == u.ue_id
    &&& a.resource_id == u.resource
    &&& a.ue_version_major == u.version
    &&& holds_str(a.authority_name@, a.authority_name_len as int, u.authority, 128)
}

/// Whether slot `a` holds the optional URI `u` (zero when absent).
pub open spec fn opt_uri_abi_of(a: UUriAbi, u: Option<UUriModel>) -> bool {
    match u {
        Some(u) => uri_abi_of(a, u),
        None => uri_abi_is_zero(a),
    }
}

/// Whether the literal-id slot of `a` holds `l` (zero when absent).
pub open spec fn literal_abi_of(a: UPayloadEncodingAbi, l: Option<Seq<char>>) -> bool {
    match l {
        Some(l) => holds_str(a.literal_id@, a.literal_id_len as int, l, 64),
        None => a.literal_id_len == 0 && a.literal_id@ == zeros(64),
    }
}

/// Whether the content-type slot of `a` holds `c` (zero when absent).
pub open spec fn content_type_abi_of(a: UPayloadEncodingAbi, c: Option<Seq<char>>) -> bool {
    match c {
        Some(c) => holds_str(a.content_type@, a.content_type_len as int, c, 100),
        None => a.content_type_len == 0 && a.content_type@ == zeros(100),
    }
}

/// Whether slot `a` holds the optional payload encoding `e` (zero when absent).
pub open spec fn encoding_abi_of(a: UPayloadEncodingAbi, e: Option<PayloadEncodingModel>) -> bool {
    match e {
        None => encoding_abi_is_zero(a),
        Some(e) => {
            &&& (match e.registry_id {
                Some(id) => a.registry_id == id && a.component_flags == UFRAME_ABI_ENCODING_HAS_REGISTRY_ID,
                None => a.registry_id == 0 && a.component_flags == 0,
            })
            &&& a._reserved == 0
            &&& literal_abi_of(a, e.literal_id)
            &&& content_type_abi_of(a, e.content_type)
        },
    }
}

/// Whether slot `a` holds the optional traceparent `t` (zero when absent).
pub open spec fn traceparent_abi_of(a: UTraceparentAbi, t: Option<Seq<char>>) -> bool {
    match t {
        Some(t) => holds_str(a.bytes@, a.len as int, t, 63),
        None => a.len == 0 && a.bytes@ == zeros(63),
    }
}

/// Whether slot `a` holds the optional token `t` (zero when absent).
pub open spec fn token_abi_of(a: UTokenAbi, t: Option<Seq<char>>) -> bool {
    match t {
        Some(t) => holds_str(a.bytes@, a.len as int, t, 510),
        None => a.len == 0 && a.bytes@ == zeros(510),
    }
}

/// The presence mask that the profile stores for `m`: the field block's
/// mask without the native type token, which this profile does not carry.
pub open spec fn abi_presence(m: FrameMetadataModel) -> u32 {
    presence_bits(FrameMetadataModel { native_type_token: None, ..m })
}

/// The status byte stored for an optional status code (0 when absent).
pub open spec fn comm_status_byte(c: Option<UCode>) -> u8 {
    match c {
        Some(c) => ucode_value(c) as u8,
        None => 0,
    }
}

/// The scalar part of the profile value of `m`.
pub open spec fn abi_scalars_of(a: UFrameMetadataAbiV1, m: FrameMetadataModel, payload_size: Option<u64>) -> bool {
    &&& a.magic@ == abi_magic()
    &&& a.version == UFRAME_ABI_VERSION
    &&& a.flags == UFRAME_ABI_FLAG_LITTLE_ENDIAN
    &&& a.metadata_size == 1096
    &&& a.presence == abi_presence(m)
    &&& a.kind == kind_wire_code(m.kind)
    &&& a.priority == opt_priority_code(m.priority)
    &&& a.comm_status == comm_status_byte(m.comm_status)
    &&& a._reserved0 == 0
    &&& a.ttl_ns == (match m.ttl {
        Some(t) => t.total_nanos() as u64,
        None => 0,
    })
    &&& a.permission_level == (match m.permission_level {
        Some(p) => p,
        None => 0,
    })
    &&& a._reserved1 == 0
    &&& a.payload_size == (match payload_size {
        Some(n) => n,
        None => 0,
    })
    &&& a._reserved_tail@ == zeros(4)
}

/// Whether `a` is the profile value of metadata `m` of a frame carrying
/// `payload_size` payload bytes (`None` without payload): every field is
/// determined, absent fields and unused bytes are zero.
pub open spec fn abi_of(a: UFrameMetadataAbiV1, m: FrameMetadataModel, payload_size: Option<u64>) -> bool {
    &&& abi_scalars_of(a, m, payload_size)
    &&& uuid_abi_of(a.id, m.id)
    &&& opt_uuid_abi_of(a.reqid, m.reqid)
    &&& encoding_abi_of(a.payload_encoding, m.payload_encoding)
    &&& uri_abi_of(a.source, m.source)
    &&& opt_uri_abi_of(a.sink, m.sink)
    &&& traceparent_abi_of(a.traceparent, m.traceparent)
    &&& token_abi_of(a.token, m.token)
}

/// Whether a string of `s` exceeds `capacity` bytes.
pub open spec fn exceeds(s: Option<Seq<char>>, capacity: nat) -> bool {
    s is Some && encode_utf8(s.unwrap()).len() > capacity
}

/// The name of the first field of `m` that exceeds a profile capacity, in
/// the order the conversion fills them; profile v1 has no room at all for a
/// native type token.
pub open spec fn abi_capacity_violation(m: FrameMetadataModel) -> Option<Seq<char>> {
    let lit = match m.payload_encoding { Some(e) => e.literal_id, None => None };
    let ct = match m.payload_encoding { Some(e) => e.content_type, None => None };
    if encode_utf8(m.source.authority).len() > 128 {
        Some("source.authority_name"@)
    } else if m.sink is Some && encode_utf8(m.sink.unwrap().authority).len() > 128 {
        Some("sink.authority_name"@)
    } else if m.ttl is Some && m.ttl.unwrap().total_nanos() > u64::MAX {
        Some("ttl"@)
    } else if exceeds(m.token, 510) {
        Some("token"@)
    } else if exceeds(m.traceparent, 63) {
        Some("traceparent"@)
    } else if exceeds(lit, 64) {
        Some("payload_encoding.literal_id"@)
    } else if exceeds(ct, 100) {
        Some("payload_encoding.content_type"@)
    } else if m.native_type_token is Some {
        Some("native_type_token"@)
    } else {
        None
    }
}

// ---------------------------------------------------------------------------
// From metadata to the profile
// ---------------------------------------------------------------------------

/// Copies the UTF-8 bytes of `s` to the front of a zeroed array and returns
/// their number.
fn fill_bytes<const N: usize>(target: &mut [u8; N], s: &str) -> (len: usize)
    requires
        encode_utf8(s@).len() <= N,
        old(target)@ == zeros(N as nat),
    ensures
        len == encode_utf8(s@).len(),
        final(target)@ == padded(encode_utf8(s@), N as nat),
{
    let bytes = s.as_bytes();
    let mut i: usize = 0;
    while i < bytes.len()
        invariant
            bytes@ == encode_utf8(s@),
            bytes@.len() <= N,
            i <= bytes@.len(),
            target@.len() == N,
            forall|j: int| 0 <= j < i ==> target@[j] == bytes@[j],
            forall|j: int| i <= j < N ==> target@[j] == 0,
        decreases bytes@.len() - i,
    {
        target[i] = bytes[i];
        i = i + 1;
    }
    assert(target@ =~= padded(encode_utf8(s@), N as nat));
    i
}

fn uuri_to_abi(uri: &UUri) -> (a: UUriAbi)
    requires
        encode_utf8(uri@.authority).len() <= 128,
    ensures
        uri_abi_of(a, uri@),
{
    let mut name = [0u8; 128];
    assert(name@ =~= zeros(128));
    let len = fill_bytes(&mut name, uri.authority_name());
    UUriAbi {
        ue_id: uri.ue_id(),
        resource_id: uri.resource_id(),
        ue_version_major: uri.uentity_major_version(),
        authority_name_len: len as u8,
        authority_name: name,
    }
}

fn uuid_to_abi(u: &UUID) -> (a: UUuidAbi)
    ensures
        uuid_abi_of(a, *u),
{
    let (msb, lsb) = u.as_u64_pair();
    UUuidAbi { msb, lsb }
}

fn str_exceeds(s: Option<&str>, capacity: usize) -> (b: bool)
    ensures
        b == (s is Some && encode_utf8(s.unwrap()@).len() > capacity),
{
    match s {
        Some(s) => s.as_bytes().len() > capacity,
        None => false,
    }
}

fn capacity_violation(metadata: &UFrameMetadata) -> (r: Option<&'static str>)
    ensures
        r is None <==> abi_capacity_violation(metadata@) is None,
        r matches Some(f) ==> abi_capacity_violation(metadata@) == Some(f@),
{
    let m = Ghost(metadata@);
    if metadata.source().authority_name().as_bytes().len() > 128 {
        return Some("source.authority_name");
    }
    if let Some(sink) = metadata.sink() {
        if sink.authority_name().as_bytes().len() > 128 {
            return Some("sink.authority_name");
        }
    }
    if let Some(ttl) = metadata.ttl() {
        if ttl.as_nanos() > 0xFFFF_FFFF_FFFF_FFFFu128 {
            return Some("ttl");
        }
    }
    if str_exceeds(metadata.token(), 510) {
        return Some("token");
    }
    if str_exceeds(metadata.traceparent(), 63) {
        return Some("traceparent");
    }
    if let Some(encoding) = metadata.payload_encoding() {
        if str_exceeds(encoding.literal_id(), 64) {
            return Some("payload_encoding.literal_id");
        }
        if str_exceeds(encoding.content_type(), 100) {
            return Some("payload_encoding.content_type");
        }
    }
    if metadata.native_type_token().is_some() {
        return Some("native_type_token");
    }
    None
}

fn encoding_to_abi(encoding: &PayloadEncoding) -> (a: UPayloadEncodingAbi)
    requires
        !exceeds(encoding@.literal_id, 64),
        !exceeds(encoding@.content_type, 100),
    ensures
        encoding_abi_of(a, Some(encoding@)),
{
    let mut a = UPayloadEncodingAbi::default();
    if let Some(registry_id) = encoding.registry_id() {
        a.registry_id = registry_id;
        a.component_flags = UFRAME_ABI_ENCODING_HAS_REGISTRY_ID;
    }
    if let Some(literal_id) = encoding.literal_id() {
        let mut bytes = [0u8; 64];
        assert(bytes@ =~= zeros(64));
        let len = fill_bytes(&mut bytes, literal_id);
        a.literal_id = bytes;
        a.literal_id_len = len as u8;
    }
    if let Some(content_type) = encoding.content_type() {
        let mut bytes = [0u8; 100];
        assert(bytes@ =~= zeros(100));
        let len = fill_bytes(&mut bytes, content_type);
        a.content_type = bytes;
        a.content_type_len = len as u8;
    }
    a
}

fn presence_for_abi(metadata: &UFrameMetadata) -> (p: u32)
    ensures
        p == abi_presence(metadata@),
{
    let mut presence: u32 = 0;
    if metadata.sink().is_some() {
        presence = presence + FIELD_SINK;
    }
    if metadata.reqid().is_some() {
        presence = presence + FIELD_REQID;
    }
    if metadata.ttl().is_some() {
        presence = presence + FIELD_TTL;
    }
    if metadata.comm_status().is_some() {
        presence = presence + FIELD_COMM_STATUS;
    }
    if metadata.permission_level().is_some() {
        presence = presence + FIELD_PERMISSION_LEVEL;
    }
    if metadata.token().is_some() {
        presence = presence + FIELD_TOKEN;
    }
    if metadata.traceparent().is_some() {
        presence = presence + FIELD_TRACEPARENT;
    }
    if metadata.payload_encoding().is_some() {
        presence = presence + FIELD_PAYLOAD_ENCODING;
    }
    presence
}

/// Fills the profile value of metadata whose values fit the capacities.
fn fill_abi(metadata: &UFrameMetadata, payload_size: Option<u64>) -> (abi: UFrameMetadataAbiV1)
    requires
        abi_capacity_violation(metadata@) is None,
        payload_size is Some <==> metadata@.payload_encoding is Some,
    ensures
        abi_of(abi, metadata@, payload_size),
{
    let mut abi = UFrameMetadataAbiV1::default();
    abi.presence = presence_for_abi(metadata);
    abi.kind = metadata.kind().wire_code();
    abi.priority = match metadata.priority() {
        Some(p) => p.wire_code(),
        None => 0,
    };
    abi.id = uuid_to_abi(metadata.id());
    abi.source = uuri_to_abi(metadata.source());
    if let Some(sink) = metadata.sink() {
        abi.sink = uuri_to_abi(sink);
    }
    if let Some(reqid) = metadata.reqid() {
        abi.reqid = uuid_to_abi(reqid);
    }
    if let Some(ttl) = metadata.ttl() {
        abi.ttl_ns = ttl.as_nanos() as u64;
    }
    if let Some(comm_status) = metadata.comm_status() {
        abi.comm_status = comm_status.value() as u8;
    }
    if let Some(permission_level) = metadata.permission_level() {
        abi.permission_level = permission_level;
    }
    if let Some(token) = metadata.token() {
        let mut bytes = [0u8; 510];
        assert(bytes@ =~= zeros(510));
        let len = fill_bytes(&mut bytes, token);
        abi.token = UTokenAbi { len: len as u16, bytes };
    }
    if let Some(traceparent) = metadata.traceparent() {
        let mut bytes = [0u8; 63];
        assert(bytes@ =~= zeros(63));
        let len = fill_bytes(&mut bytes, traceparent);
        abi.traceparent = UTraceparentAbi { len: len as u8, bytes };
    }
    if let Some(encoding) = metadata.payload_encoding() {
        abi.payload_encoding = encoding_to_abi(encoding);
        abi.payload_size = match payload_size {
            Some(n) => n,
            None => 0,
        };
    }
    abi
}

impl UFrameMetadataAbiV1 {
    /// Converts semantic frame metadata, plus the payload size of a frame
    /// that carries a payload, into the profile.
    ///
    /// Fails with `Metadata` when the metadata is invalid or when
    /// `payload_size` is present without a payload encoding
    /// (`PayloadWithoutEncoding`) or absent with one
    /// (`EncodingWithoutPayload`); then with `CapacityExceeded` naming the
    /// first field that does not fit. Never truncates.
    pub fn try_from_metadata(metadata: &UFrameMetadata, payload_size: Option<u64>) -> (r: Result<UFrameMetadataAbiV1, UFrameAbiError>)
        ensures
            r is Ok <==> metadata_valid(metadata@)
                && (payload_size is Some <==> metadata@.payload_encoding is Some)
                && abi_capacity_violation(metadata@) is None,
            r matches Ok(abi) ==> abi_of(abi, metadata@, payload_size) && profile_decodable(metadata@),
            r matches Err(e) ==> if !metadata_valid(metadata@) {
                e matches UFrameAbiError::Metadata(err) && is_validation_error_for(metadata@, err)
            } else if payload_size is Some && metadata@.payload_encoding is None {
                e == UFrameAbiError::Metadata(UFrameMetadataError::PayloadWithoutEncoding)
            } else if payload_size is None && metadata@.payload_encoding is Some {
                e == UFrameAbiError::Metadata(UFrameMetadataError::EncodingWithoutPayload)
            } else {
                e matches UFrameAbiError::CapacityExceeded { field } && abi_capacity_violation(metadata@) == Some(field@)
            },
    {
        match metadata.validate() {
            Ok(()) => {},
            Err(err) => return Err(UFrameAbiError::Metadata(err)),
        }
        let has_encoding = metadata.payload_encoding().is_some();
        if payload_size.is_some() && !has_encoding {
            return Err(UFrameAbiError::Metadata(UFrameMetadataError::PayloadWithoutEncoding));
        }
        if payload_size.is_none() && has_encoding {
            return Err(UFrameAbiError::Metadata(UFrameMetadataError::EncodingWithoutPayload));
        }
        if let Some(field) = capacity_violation(metadata) {
            return Err(UFrameAbiError::CapacityExceeded { field });
        }
        metadata_parts_wf(metadata);
        let _ = metadata.payload_encoding();
        Ok(fill_abi(metadata, payload_size))
    }
}

// ---------------------------------------------------------------------------
// From the profile back to metadata
// ---------------------------------------------------------------------------

/// The string held by `bytes` under stored length `len`: `None` when the
/// length exceeds `capacity` or the bytes are not UTF-8.
pub open spec fn abi_str(bytes: Seq<u8>, len: nat, capacity: nat) -> Option<Seq<char>> {
    if len <= capacity && len <= bytes.len() && valid_utf8(bytes.take(len as int)) {
        Some(decode_utf8(bytes.take(len as int)))
    } else {
        None
    }
}

/// The URI held by slot `a`, if its authority is a valid UTF-8 authority name.
pub open spec fn uri_from_abi(a: UUriAbi) -> Option<UUriModel> {
    match abi_str(a.authority_name@, a.authority_name_len as nat, 128) {
        Some(authority) => if valid_authority(authority) {
            Some(UUriModel { authority, ue_id: a.ue_id, version: a.ue_version_major, resource: a.resource_id })
        } else {
            None
        },
        None => None,
    }
}

/// The UUID held by slot `a`, if it is a uProtocol UUID.
pub open spec fn uuid_from_abi(a: UUuidAbi) -> Option<UUID> {
    if is_uprotocol_uuid(a.msb, a.lsb) {
        Some(UUID::spec_from_pair(a.msb, a.lsb))
    } else {
        None
    }
}

/// The optional priority of priority byte `code` (0 for none); `None` for an
/// unknown code.
pub open spec fn priority_from_abi(code: u8) -> Option<Option<FramePriority>> {
    if code == 0 {
        Some(None)
    } else {
        match priority_from_wire_code(code) {
            Some(p) => Some(Some(p)),
            None => None,
        }
    }
}

/// An optional field read from `v` when `present`: `Some(None)` when absent,
/// `None` when present but unreadable.
pub open spec fn opt_field<T>(present: bool, v: Option<T>) -> Option<Option<T>> {
    if present {
        match v {
            Some(x) => Some(Some(x)),
            None => None,
        }
    } else {
        Some(None)
    }
}

pub open spec fn abi_sink(a: UFrameMetadataAbiV1) -> Option<Option<UUriModel>> {
    opt_field(has_bit(a.presence, FIELD_SINK), uri_from_abi(a.sink))
}

pub open spec fn abi_reqid(a: UFrameMetadataAbiV1) -> Option<Option<UUID>> {
    opt_field(has_bit(a.presence, FIELD_REQID), uuid_from_abi(a.reqid))
}

pub open spec fn abi_comm_status(a: UFrameMetadataAbiV1) -> Option<Option<UCode>> {
    opt_field(has_bit(a.presence, FIELD_COMM_STATUS), ucode_from_value(a.comm_status as int))
}

pub open spec fn abi_token(a: UFrameMetadataAbiV1) -> Option<Option<Seq<char>>> {
    opt_field(has_bit(a.presence, FIELD_TOKEN), abi_str(a.token.bytes@, a.token.len as nat, 510))
}

pub open spec fn abi_traceparent(a: UFrameMetadataAbiV1) -> Option<Option<Seq<char>>> {
    opt_field(has_bit(a.presence, FIELD_TRACEPARENT), abi_str(a.traceparent.bytes@, a.traceparent.len as nat, 63))
}

/// The literal id held by an encoding slot (absent when its length is 0).
pub open spec fn abi_literal(e: UPayloadEncodingAbi) -> Option<Option<Seq<char>>> {
    opt_field(e.literal_id_len > 0, abi_str(e.literal_id@, e.literal_id_len as nat, 64))
}

/// The content type held by an encoding slot (absent when its length is 0).
pub open spec fn abi_content_type(e: UPayloadEncodingAbi) -> Option<Option<Seq<char>>> {
    opt_field(e.content_type_len > 0, abi_str(e.content_type@, e.content_type_len as nat, 100))
}

/// The payload part is well formed: with a payload encoding, known component
/// flags, zero reserved byte and readable strings; without one, a zero
/// payload size.
pub open spec fn abi_payload_ok(a: UFrameMetadataAbiV1) -> bool {
    if has_bit(a.presence, FIELD_PAYLOAD_ENCODING) {
        &&& a.payload_encoding.component_flags <= 1
        &&& a.payload_encoding._reserved == 0
        &&& abi_literal(a.payload_encoding) is Some
        &&& abi_content_type(a.payload_encoding) is Some
    } else {
        a.payload_size == 0
    }
}

/// The fixed header is that of profile v1: magic, version, a size of at
/// least the v1 size, known presence bits and zero reserved fields.
pub open spec fn abi_header_ok(a: UFrameMetadataAbiV1) -> bool {
    &&& a.magic@ == abi_magic()
    &&& a.version == UFRAME_ABI_VERSION
    &&& a.metadata_size >= 1096
    &&& a.presence & !FIELD_MASK_V1 == 0
    &&& a.flags & !UFRAME_ABI_FLAG_LITTLE_ENDIAN == 0
    &&& a._reserved0 == 0
    &&& a._reserved1 == 0
    &&& a._reserved_tail@ == zeros(4)
}

/// Whether `a` is a structurally valid profile v1 value: every check that
/// the conversion reports as `InvalidProfile` passes.
pub open spec fn abi_structure_ok(a: UFrameMetadataAbiV1) -> bool {
    &&& abi_header_ok(a)
    &&& kind_from_wire_code(a.kind) is Some
    &&& priority_from_abi(a.priority) is Some
    &&& uuid_from_abi(a.id) is Some
    &&& uri_from_abi(a.source) is Some
    &&& abi_sink(a) is Some
    &&& abi_reqid(a) is Some
    &&& abi_comm_status(a) is Some
    &&& abi_token(a) is Some
    &&& abi_traceparent(a) is Some
    &&& abi_payload_ok(a)
}

/// The text for string slot `field` whose stored length `len` exceeds its
/// `capacity` or whose bytes are not UTF-8.
pub open spec fn abi_str_error(bytes: Seq<u8>, len: nat, capacity: nat, field: Seq<char>) -> Seq<char> {
    if len > capacity {
        "`"@ + field + "` length "@ + decimal(len) + " exceeds capacity "@ + decimal(capacity)
    } else {
        "`"@ + field + "` is not UTF-8: "@ + utf8_error_text(bytes.take(len as int))
    }
}

/// The text for URI slot `field` that holds no URI.
pub open spec fn abi_uri_error(a: UUriAbi, field: Seq<char>) -> Seq<char> {
    if abi_str(a.authority_name@, a.authority_name_len as nat, 128) is None {
        abi_str_error(a.authority_name@, a.authority_name_len as nat, 128, field)
    } else {
        "invalid `"@ + field + "`: "@ + invalid_authority_text()
    }
}

/// The text of the first header check that `a` fails: magic, version, size,
/// presence bits, flag bits, reserved fields, kind, priority, frame id, source.
pub open spec fn abi_header_error(a: UFrameMetadataAbiV1) -> Option<Seq<char>> {
    if a.magic@ != abi_magic() {
        Some("wrong magic"@)
    } else if a.version != UFRAME_ABI_VERSION {
        Some("unsupported profile version "@ + decimal(a.version as nat))
    } else if a.metadata_size < 1096 {
        Some("declared metadata_size is smaller than profile v1"@)
    } else if a.presence & !FIELD_MASK_V1 != 0 {
        Some("unknown presence bits"@)
    } else if a.flags & !UFRAME_ABI_FLAG_LITTLE_ENDIAN != 0 {
        Some("unknown flag bits"@)
    } else if a._reserved0 != 0 || a._reserved1 != 0 || a._reserved_tail@ != zeros(4) {
        Some("reserved fields must be zero"@)
    } else if kind_from_wire_code(a.kind) is None {
        Some("unknown kind code "@ + decimal(a.kind as nat))
    } else if priority_from_abi(a.priority) is None {
        Some("unknown priority code "@ + decimal(a.priority as nat))
    } else if uuid_from_abi(a.id) is None {
        Some("invalid id: "@ + UUIDError::NotUProtocolUuid.text())
    } else if uri_from_abi(a.source) is None {
        Some(abi_uri_error(a.source, "source"@))
    } else {
        None
    }
}

/// The text of the first optional field of `a` that is present but
/// unreadable: sink, request id, communication status, token, traceparent.
pub open spec fn abi_optionals_error(a: UFrameMetadataAbiV1) -> Option<Seq<char>> {
    if abi_sink(a) is None {
        Some(abi_uri_error(a.sink, "sink"@))
    } else if abi_reqid(a) is None {
        Some("invalid reqid: "@ + UUIDError::NotUProtocolUuid.text())
    } else if abi_comm_status(a) is None {
        Some("unknown communication status code "@ + decimal(a.comm_status as nat))
    } else if abi_token(a) is None {
        Some(abi_str_error(a.token.bytes@, a.token.len as nat, 510, "token"@))
    } else if abi_traceparent(a) is None {
        Some(abi_str_error(a.traceparent.bytes@, a.traceparent.len as nat, 63, "traceparent"@))
    } else {
        None
    }
}

/// The text of the first check of a present payload encoding slot that
/// fails: component flags and reserved byte, literal id, content type.
pub open spec fn abi_encoding_slot_error(e: UPayloadEncodingAbi) -> Option<Seq<char>> {
    if e.component_flags > 1 || e._reserved != 0 {
        Some("unknown payload encoding component flags"@)
    } else if abi_literal(e) is None {
        Some(abi_str_error(e.literal_id@, e.literal_id_len as nat, 64, "payload_encoding.literal_id"@))
    } else if abi_content_type(e) is None {
        Some(abi_str_error(e.content_type@, e.content_type_len as nat, 100, "payload_encoding.content_type"@))
    } else {
        None
    }
}

/// The text of the first structural check that `a` fails, in the order the
/// profile value is read; `None` for a structurally valid value.
pub open spec fn abi_profile_error(a: UFrameMetadataAbiV1) -> Option<Seq<char>> {
    match abi_header_error(a) {
        Some(t) => Some(t),
        None => match abi_optionals_error(a) {
            Some(t) => Some(t),
            None => if has_bit(a.presence, FIELD_PAYLOAD_ENCODING) {
                abi_encoding_slot_error(a.payload_encoding)
            } else if a.payload_size != 0 {
                Some("payload_size must be zero without a payload encoding"@)
            } else {
                None
            },
        },
    }
}

/// The payload encoding components held by a structurally valid value.
pub open spec fn abi_encoding_parts(a: UFrameMetadataAbiV1) -> PayloadEncodingModel {
    PayloadEncodingModel {
        registry_id: if a.payload_encoding.component_flags == 1 {
            Some(a.payload_encoding.registry_id)
        } else {
            None
        },
        literal_id: abi_literal(a.payload_encoding).unwrap(),
        content_type: abi_content_type(a.payload_encoding).unwrap(),
    }
}

/// Whether the payload encoding components of `a` (when present) form a
/// valid identity that names no legacy row inconsistently.
pub open spec fn abi_encoding_ok(a: UFrameMetadataAbiV1) -> bool {
    has_bit(a.presence, FIELD_PAYLOAD_ENCODING) ==> {
        let parts = abi_encoding_parts(a);
        encoding_valid(parts) && canonical_encoding(parts) is Some
    }
}

/// The metadata held by a structurally valid value, with payload encoding `enc`.
pub open spec fn abi_metadata(a: UFrameMetadataAbiV1, enc: Option<PayloadEncodingModel>) -> FrameMetadataModel {
    FrameMetadataModel {
        kind: kind_from_wire_code(a.kind).unwrap(),
        id: uuid_from_abi(a.id).unwrap(),
        source: uri_from_abi(a.source).unwrap(),
        sink: abi_sink(a).unwrap(),
        reqid: abi_reqid(a).unwrap(),
        priority: priority_from_abi(a.priority).unwrap(),
        ttl: if has_bit(a.presence, FIELD_TTL) { Some(Duration::spec_from_nanos(a.ttl_ns)) } else { None },
        comm_status: abi_comm_status(a).unwrap(),
        permission_level: if has_bit(a.presence, FIELD_PERMISSION_LEVEL) { Some(a.permission_level) } else { None },
        token: abi_token(a).unwrap(),
        traceparent: abi_traceparent(a).unwrap(),
        payload_encoding: enc,
        native_type_token: None,
    }
}

/// What a structurally valid value with valid encoding components decodes
/// to: its metadata and, with a payload encoding, its payload size.
pub open spec fn abi_decoded(a: UFrameMetadataAbiV1) -> Option<(FrameMetadataModel, Option<u64>)> {
    if abi_structure_ok(a) && abi_encoding_ok(a) {
        if has_bit(a.presence, FIELD_PAYLOAD_ENCODING) {
            Some((abi_metadata(a, canonical_encoding(abi_encoding_parts(a))), Some(a.payload_size)))
        } else {
            Some((abi_metadata(a, None), None))
        }
    } else {
        None
    }
}

fn read_abi_str(bytes: &[u8], len: usize, capacity: usize, field: &str) -> (r: Result<String, String>)
    requires
        capacity == bytes@.len(),
    ensures
        r is Ok <==> abi_str(bytes@, len as nat, capacity as nat) is Some,
        r matches Ok(s) ==> abi_str(bytes@, len as nat, capacity as nat) == Some(s@),
        r matches Err(t) ==> t@ == abi_str_error(bytes@, len as nat, capacity as nat, field@),
{
    if len > capacity {
        let mut t = String::from_str("`");
        t.append(field);
        t.append("` length ");
        append_decimal_u64(&mut t, len as u64);
        t.append(" exceeds capacity ");
        append_decimal_u64(&mut t, capacity as u64);
        return Err(t);
    }
    let prefix = &bytes[0..len];
    assert(prefix@ =~= bytes@.take(len as int));
    match utf8_to_string(prefix) {
        Ok(s) => Ok(s),
        Err(e) => {
            let mut t = String::from_str("`");
            t.append(field);
            t.append("` is not UTF-8: ");
            t.append(e.as_str());
            Err(t)
        },
    }
}

fn uuri_from_abi(a: &UUriAbi, field: &str) -> (r: Result<UUri, String>)
    ensures
        r is Ok <==> uri_from_abi(*a) is Some,
        r matches Ok(u) ==> uri_from_abi(*a) == Some(u@),
        r matches Err(t) ==> t@ == abi_uri_error(*a, field@),
{
    let authority = match read_abi_str(a.authority_name.as_slice(), a.authority_name_len as usize, 128, field) {
        Ok(s) => s,
        Err(t) => return Err(t),
    };
    match UUri::try_from_parts(authority.as_str(), a.ue_id, a.ue_version_major, a.resource_id) {
        Ok(u) => Ok(u),
        Err(e) => {
            let mut t = String::from_str("invalid `");
            t.append(field);
            t.append("`: ");
            t.append(e.to_string().as_str());
            Err(t)
        },
    }
}

fn uuid_from_abi_exec(a: &UUuidAbi) -> (r: Result<UUID, UUIDError>)
    ensures
        r is Ok <==> uuid_from_abi(*a) is Some,
        r matches Ok(u) ==> uuid_from_abi(*a) == Some(u),
{
    UUID::from_u64_pair(a.msb, a.lsb)
}

fn bit_set(presence: u32, bit: u32) -> (b: bool)
    ensures
        b == has_bit(presence, bit),
{
    presence & bit != 0
}

fn read_optional_str(present: bool, bytes: &[u8], len: usize, capacity: usize, field: &str) -> (r: Result<Option<String>, String>)
    requires
        capacity == bytes@.len(),
    ensures
        r is Ok <==> opt_field(present, abi_str(bytes@, len as nat, capacity as nat)) is Some,
        r matches Ok(v) ==> opt_field(present, abi_str(bytes@, len as nat, capacity as nat)) == Some(opt_str_view(v)),
        r matches Err(t) ==> t@ == abi_str_error(bytes@, len as nat, capacity as nat, field@),
{
    if present {
        match read_abi_str(bytes, len, capacity, field) {
            Ok(s) => Ok(Some(s)),
            Err(t) => Err(t),
        }
    } else {
        Ok(None)
    }
}

/// The header and scalar checks of the profile.
fn check_header(a: &UFrameMetadataAbiV1) -> (r: Result<(FrameMessageKind, Option<FramePriority>, UUID, UUri), String>)
    ensures
        r is Ok <==> abi_header_error(*a) is None,
        r matches Err(t) ==> abi_header_error(*a) == Some(t@),
        r matches Ok((k, p, id, src)) ==> {
            &&& abi_header_ok(*a)
            &&& kind_from_wire_code(a.kind) == Some(k)
            &&& priority_from_abi(a.priority) == Some(p)
            &&& uuid_from_abi(a.id) == Some(id)
            &&& uri_from_abi(a.source) == Some(src@)
        },
{
    let magic_ok = a.magic[0] == 0x55u8 && a.magic[1] == 0x46u8 && a.magic[2] == 0x41u8 && a.magic[3] == 0x31u8;
    assert(magic_ok <==> a.magic@ == abi_magic()) by {
        if magic_ok {
            assert(a.magic@ =~= abi_magic());
        }
    }
    let tail_ok = a._reserved_tail[0] == 0 && a._reserved_tail[1] == 0 && a._reserved_tail[2] == 0 && a._reserved_tail[3] == 0;
    assert(tail_ok <==> a._reserved_tail@ == zeros(4)) by {
        if tail_ok {
            assert(a._reserved_tail@ =~= zeros(4));
        }
    }
    if !magic_ok {
        return Err(String::from_str("wrong magic"));
    }
    if a.version != UFRAME_ABI_VERSION {
        let mut t = String::from_str("unsupported profile version ");
        append_decimal(&mut t, a.version as u32);
        return Err(t);
    }
    if (a.metadata_size as usize) < UFRAME_ABI_SIZE {
        return Err(String::from_str("declared metadata_size is smaller than profile v1"));
    }
    if a.presence & !FIELD_MASK_V1 != 0 {
        return Err(String::from_str("unknown presence bits"));
    }
    if a.flags & !UFRAME_ABI_FLAG_LITTLE_ENDIAN != 0 {
        return Err(String::from_str("unknown flag bits"));
    }
    if a._reserved0 != 0 || a._reserved1 != 0 || !tail_ok {
        return Err(String::from_str("reserved fields must be zero"));
    }
    let kind = match FrameMessageKind::from_wire_code(a.kind) {
        Some(k) => k,
        None => {
            let mut t = String::from_str("unknown kind code ");
            append_decimal(&mut t, a.kind as u32);
            return Err(t);
        },
    };
    let priority = if a.priority == 0 {
        None
    } else {
        match FramePriority::from_wire_code(a.priority) {
            Some(p) => Some(p),
            None => {
                let mut t = String::from_str("unknown priority code ");
                append_decimal(&mut t, a.priority as u32);
                return Err(t);
            },
        }
    };
    let id = match uuid_from_abi_exec(&a.id) {
        Ok(u) => u,
        Err(e) => return Err(concat_str("invalid id: ", e.to_string().as_str())),
    };
    let source = match uuri_from_abi(&a.source, "source") {
        Ok(u) => u,
        Err(t) => return Err(t),
    };
    Ok((kind, priority, id, source))
}

/// The optional addressing and scalar fields.
fn read_optionals(a: &UFrameMetadataAbiV1) -> (r: Result<(Option<UUri>, Option<UUID>, Option<UCode>, Option<String>, Option<String>), String>)
    ensures
        r is Ok <==> abi_optionals_error(*a) is None,
        r matches Err(t) ==> abi_optionals_error(*a) == Some(t@),
        r matches Ok((sink, reqid, comm, token, trace)) ==> {
            &&& abi_sink(*a) == Some(opt_uri_view(sink))
            &&& abi_reqid(*a) == Some(reqid)
            &&& abi_comm_status(*a) == Some(comm)
            &&& abi_token(*a) == Some(opt_str_view(token))
            &&& abi_traceparent(*a) == Some(opt_str_view(trace))
        },
{
    let sink = if bit_set(a.presence, FIELD_SINK) {
        match uuri_from_abi(&a.sink, "sink") {
            Ok(u) => Some(u),
            Err(t) => return Err(t),
        }
    } else {
        None
    };
    let reqid = if bit_set(a.presence, FIELD_REQID) {
        match uuid_from_abi_exec(&a.reqid) {
            Ok(u) => Some(u),
            Err(e) => return Err(concat_str("invalid reqid: ", e.to_string().as_str())),
        }
    } else {
        None
    };
    let comm_status = if bit_set(a.presence, FIELD_COMM_STATUS) {
        match UCode::try_from_i32(a.comm_status as i32) {
            Ok(c) => Some(c),
            Err(_) => {
                let mut t = String::from_str("unknown communication status code ");
                append_decimal(&mut t, a.comm_status as u32);
                return Err(t);
            },
        }
    } else {
        None
    };
    let token = match read_optional_str(bit_set(a.presence, FIELD_TOKEN), a.token.bytes.as_slice(), a.token.len as usize, 510, "token") {
        Ok(t) => t,
        Err(t) => return Err(t),
    };
    let traceparent = match read_optional_str(bit_set(a.presence, FIELD_TRACEPARENT), a.traceparent.bytes.as_slice(), a.traceparent.len as usize, 63, "traceparent") {
        Ok(t) => t,
        Err(t) => return Err(t),
    };
    Ok((sink, reqid, comm_status, token, traceparent))
}

/// The components of a present payload encoding slot.
fn read_encoding_parts(e: &UPayloadEncodingAbi) -> (r: Result<(Option<u32>, Option<String>, Option<String>), String>)
    ensures
        r is Ok <==> abi_encoding_slot_error(*e) is None,
        r matches Err(t) ==> abi_encoding_slot_error(*e) == Some(t@),
        r matches Ok((id, lit, ct)) ==> {
            &&& e.component_flags <= 1
            &&& e._reserved == 0
            &&& id == (if e.component_flags == 1 { Some(e.registry_id) } else { None })
            &&& abi_literal(*e) == Some(opt_str_view(lit))
            &&& abi_content_type(*e) == Some(opt_str_view(ct))
        },
{
    if e.component_flags > 1 || e._reserved != 0 {
        return Err(String::from_str("unknown payload encoding component flags"));
    }
    let registry_id = if e.component_flags == 1 { Some(e.registry_id) } else { None };
    let literal_id = match read_optional_str(e.literal_id_len > 0, e.literal_id.as_slice(), e.literal_id_len as usize, 64, "payload_encoding.literal_id") {
        Ok(l) => l,
        Err(t) => return Err(t),
    };
    let content_type = match read_optional_str(e.content_type_len > 0, e.content_type.as_slice(), e.content_type_len as usize, 100, "payload_encoding.content_type") {
        Ok(c) => c,
        Err(t) => return Err(t),
    };
    Ok((registry_id, literal_id, content_type))
}

impl UFrameMetadataAbiV1 {
    /// Converts this profile value back into semantic metadata and, for a
    /// frame with a payload encoding, its payload size.
    ///
    /// Fails with `InvalidProfile` when the value is not structurally valid
    /// (magic, version, size, unknown presence or flag bits, nonzero reserved
    /// fields, unknown codes, invalid UUIDs or URIs, overlong or non-UTF-8
    /// strings, a nonzero payload size without payload encoding); with
    /// `Metadata` when the payload encoding components are not a valid
    /// identity, or when the decoded metadata is invalid.
    pub fn try_to_metadata(&self) -> (r: Result<(UFrameMetadata, Option<u64>), UFrameAbiError>)
        ensures
            (r matches Err(UFrameAbiError::InvalidProfile(_))) <==> !abi_structure_ok(*self),
            abi_profile_error(*self) is Some <==> !abi_structure_ok(*self),
            r matches Err(UFrameAbiError::InvalidProfile(t)) ==> abi_profile_error(*self) == Some(t@),
            r is Ok <==> abi_decoded(*self) is Some && metadata_valid(abi_decoded(*self).unwrap().0),
            r matches Ok((m, ps)) ==> abi_decoded(*self) == Some((m@, ps)),
            r matches Err(UFrameAbiError::Metadata(err)) ==> if !abi_encoding_ok(*self) {
                let parts = abi_encoding_parts(*self);
                if !encoding_valid(parts) { is_encoding_error_for(parts, err) } else { err is InvalidMetadata }
            } else {
                is_validation_error_for(abi_decoded(*self).unwrap().0, err)
            },
            !(r matches Err(UFrameAbiError::CapacityExceeded { .. })),
    {
        let (kind, priority, id, source) = match check_header(self) {
            Ok(h) => h,
            Err(t) => return Err(UFrameAbiError::InvalidProfile(t)),
        };
        let (sink, reqid, comm_status, token, traceparent) = match read_optionals(self) {
            Ok(o) => o,
            Err(t) => return Err(UFrameAbiError::InvalidProfile(t)),
        };
        let ttl = if bit_set(self.presence, FIELD_TTL) { Some(Duration::from_nanos(self.ttl_ns)) } else { None };
        let permission_level = if bit_set(self.presence, FIELD_PERMISSION_LEVEL) { Some(self.permission_level) } else { None };
        let (payload_encoding, payload_size) = if bit_set(self.presence, FIELD_PAYLOAD_ENCODING) {
            let (registry_id, literal_id, content_type) = match read_encoding_parts(&self.payload_encoding) {
                Ok(p) => p,
                Err(t) => return Err(UFrameAbiError::InvalidProfile(t)),
            };
            match PayloadEncoding::from_parts(registry_id, literal_id, content_type) {
                Ok(e) => (Some(e), Some(self.payload_size)),
                Err(err) => return Err(UFrameAbiError::Metadata(err)),
            }
        } else {
            if self.payload_size != 0 {
                return Err(UFrameAbiError::InvalidProfile(String::from_str("payload_size must be zero without a payload encoding")));
            }
            (None, None)
        };
        let metadata = UFrameMetadata::from_decoded_parts(
            kind,
            id,
            source,
            sink,
            reqid,
            priority,
            ttl,
            comm_status,
            permission_level,
            token,
            traceparent,
            payload_encoding,
            None,
        );
        match metadata.validate() {
            Ok(()) => Ok((metadata, payload_size)),
            Err(err) => Err(UFrameAbiError::Metadata(err)),
        }
    }
}

// ---------------------------------------------------------------------------
// Round trip
// ---------------------------------------------------------------------------

/// Whether metadata `m` is recovered from its profile value: it carries no
/// native type token (this profile has no slot for one), its URIs have valid
/// authority names, its ids are uProtocol UUIDs, its TTL is a well-formed
/// span and its payload encoding is a valid identity in canonical spelling
/// (as every payload encoding built by this library is).
pub open spec fn profile_decodable(m: FrameMetadataModel) -> bool {
    &&& m.native_type_token is None
    &&& m.id.wf()
    &&& (m.reqid is Some ==> m.reqid.unwrap().wf())
    &&& m.source.wf()
    &&& (m.sink is Some ==> m.sink.unwrap().wf())
    &&& (m.ttl is Some ==> m.ttl.unwrap().wf())
    &&& (m.payload_encoding is Some ==> {
        let e = m.payload_encoding.unwrap();
        encoding_valid(e) && canonical_encoding(e) == Some(e)
    })
}

proof fn lemma_holds_str(bytes: Seq<u8>, len: int, s: Seq<char>, capacity: nat)
    requires
        holds_str(bytes, len, s, capacity),
        encode_utf8(s).len() <= capacity,
    ensures
        abi_str(bytes, len as nat, capacity) == Some(s),
        len == 0 <==> s.len() == 0,
{
    encode_utf8_valid_utf8(s);
    encode_utf8_decode_utf8(s);
    assert(bytes.take(len) =~= encode_utf8(s));
    if len == 0 {
        assert(encode_utf8(s) =~= Seq::<u8>::empty());
    }
}

proof fn lemma_uri_round_trip(a: UUriAbi, u: UUriModel)
    requires
        uri_abi_of(a, u),
        u.wf(),
        encode_utf8(u.authority).len() <= 128,
    ensures
        uri_from_abi(a) == Some(u),
{
    lemma_holds_str(a.authority_name@, a.authority_name_len as int, u.authority, 128);
}

proof fn lemma_uuid_round_trip(a: UUuidAbi, u: UUID)
    requires
        uuid_abi_of(a, u),
        u.wf(),
    ensures
        uuid_from_abi(a) == Some(u),
{
    UUID::lemma_from_pair(a.msb, a.lsb, u);
}

proof fn lemma_encoding_round_trip(a: UFrameMetadataAbiV1, e: PayloadEncodingModel)
    requires
        encoding_abi_of(a.payload_encoding, Some(e)),
        encoding_valid(e),
        !exceeds(e.literal_id, 64),
        !exceeds(e.content_type, 100),
    ensures
        a.payload_encoding.component_flags <= 1,
        a.payload_encoding._reserved == 0,
        abi_literal(a.payload_encoding) == Some(e.literal_id),
        abi_content_type(a.payload_encoding) == Some(e.content_type),
        abi_encoding_parts(a) == e,
{
    let p = a.payload_encoding;
    if e.literal_id is Some {
        lemma_holds_str(p.literal_id@, p.literal_id_len as int, e.literal_id.unwrap(), 64);
    }
    if e.content_type is Some {
        lemma_holds_str(p.content_type@, p.content_type_len as int, e.content_type.unwrap(), 100);
    }
}

/// The profile value of metadata decodes back to that metadata and payload
/// size: whatever `try_from_metadata` produces, `try_to_metadata` turns back
/// into the same metadata (for metadata that the profile can carry).
pub proof fn lemma_profile_round_trip(a: UFrameMetadataAbiV1, m: FrameMetadataModel, payload_size: Option<u64>)
    requires
        abi_of(a, m, payload_size),
        abi_capacity_violation(m) is None,
        payload_size is Some <==> m.payload_encoding is Some,
        profile_decodable(m),
    ensures
        abi_structure_ok(a),
        abi_encoding_ok(a),
        abi_decoded(a) == Some((m, payload_size)),
{
    let m0 = FrameMetadataModel { native_type_token: None, ..m };
    lemma_presence_bits(m0);
    lemma_kind_wire_code_round_trip(m.kind, a.kind);
    if m.priority is Some {
        lemma_priority_wire_code_round_trip(m.priority.unwrap(), a.priority);
    }
    lemma_uuid_round_trip(a.id, m.id);
    lemma_uri_round_trip(a.source, m.source);
    if m.sink is Some {
        lemma_uri_round_trip(a.sink, m.sink.unwrap());
    }
    if m.reqid is Some {
        lemma_uuid_round_trip(a.reqid, m.reqid.unwrap());
    }
    if m.comm_status is Some {
        lemma_ucode_value_round_trip(m.comm_status.unwrap());
    }
    if m.ttl is Some {
        Duration::lemma_from_total_nanos(m.ttl.unwrap());
    }
    if m.token is Some {
        lemma_holds_str(a.token.bytes@, a.token.len as int, m.token.unwrap(), 510);
    }
    if m.traceparent is Some {
        lemma_holds_str(a.traceparent.bytes@, a.traceparent.len as int, m.traceparent.unwrap(), 63);
    }
    if m.payload_encoding is Some {
        lemma_encoding_round_trip(a, m.payload_encoding.unwrap());
    }
    assert(1u8 & !1u8 == 0) by (bit_vector);
    assert(abi_structure_ok(a));
    let enc = if has_bit(a.presence, FIELD_PAYLOAD_ENCODING) { canonical_encoding(abi_encoding_parts(a)) } else { None };
    assert(enc == m.payload_encoding);
    assert(abi_metadata(a, enc) == m);
}

} // verus!
