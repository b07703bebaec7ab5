//! Whole-frame envelopes: native frame metadata and payload in one byte value.
//!
//! The native envelope is a fixed 20-byte placement header, then the
//! canonical metadata field block, then the payload bytes:
//!
//! ```text
//! offset  size  field
//! 0       4     magic "UPFE"
//! 4       1     envelope version (1)
//! 5       1     payload presence (0 = absent, 1 = present)
//! 6       2     reserved, zero
//! 8       4     metadata_len (u32, little-endian)
//! 12      8     payload_len (u64, little-endian; 0 when absent)
//! 20      ...   metadata field block
//! 20+m    ...   payload bytes
//! ```
use vstd::bytes::*;
use vstd::prelude::*;
use vstd::string::*;

use crate::frame::codec::{
    decode_frame_metadata_fields, encode_frame_metadata_fields, field_block, field_block_error, fields_decodable,
    fields_encodable, is_field_block_of, lemma_field_block_bounded, lemma_field_block_injective,
    unencodable_field, UFrameFieldsError,
};
use crate::frame::metadata::{is_validation_error_for, metadata_error_text, metadata_valid, FrameMetadataModel, UFrameMetadataError};
use crate::text::{append_decimal, concat_str, decimal};
use crate::owned_frame::{frame_valid, is_frame_error_for, FrameModel, UOwnedFrame, Validated};
use crate::payload_bytes::{bytes_as_slice, bytes_copy_from_slice, bytes_from_vec, bytes_contents};
use crate::frame::codec::append_slice;
use bytes::Bytes;

verus! {

/// Errors of whole-frame wire formats.
#[derive(Clone, Debug, PartialEq, Eq)]
pub enum UFrameWireError {
    /// The bytes do not hold a valid frame, or the frame violates native
    /// frame invariants.
    InvalidFrame(String),
    /// The wire format cannot faithfully represent the frame's payload encoding.
    UnsupportedPayloadEncoding(String),
    /// The wire format's encoder or decoder failed.
    SerializationError(String),
}

impl UFrameWireError {
    /// Creates an `InvalidFrame` error.
    pub fn invalid_frame(message: &str) -> (e: UFrameWireError)
        ensures
            e matches UFrameWireError::InvalidFrame(m) && m@ == message@,
    {
        UFrameWireError::InvalidFrame(message.to_string())
    }

    /// Creates an `UnsupportedPayloadEncoding` error.
    pub fn unsupported_payload_encoding(message: &str) -> (e: UFrameWireError)
        ensures
            e matches UFrameWireError::UnsupportedPayloadEncoding(m) && m@ == message@,
    {
        UFrameWireError::UnsupportedPayloadEncoding(message.to_string())
    }

    /// Creates a `SerializationError` error.
    pub fn serialization_error(message: &str) -> (e: UFrameWireError)
        ensures
            e matches UFrameWireError::SerializationError(m) && m@ == message@,
    {
        UFrameWireError::SerializationError(message.to_string())
    }
}

/// The human-readable text of a wire format error.
pub open spec fn wire_error_text(e: UFrameWireError) -> Seq<char> {
    match e {
        UFrameWireError::InvalidFrame(m) => "invalid frame: "@ + m@,
        UFrameWireError::UnsupportedPayloadEncoding(m) => "unsupported payload encoding: "@ + m@,
        UFrameWireError::SerializationError(m) => "frame serialization error: "@ + m@,
    }
}

impl UFrameWireError {
    /// Returns the human-readable text of this error.
    pub fn to_string(&self) -> (s: String)
        ensures
            s@ == wire_error_text(*self),
    {
        match self {
            UFrameWireError::InvalidFrame(m) => concat_str("invalid frame: ", m.as_str()),
            UFrameWireError::UnsupportedPayloadEncoding(m) => concat_str("unsupported payload encoding: ", m.as_str()),
            UFrameWireError::SerializationError(m) => concat_str("frame serialization error: ", m.as_str()),
        }
    }

    /// The wire error of a frame metadata error: an invalid frame carrying
    /// the metadata error's text.
    pub fn from_metadata_error(error: UFrameMetadataError) -> (e: UFrameWireError)
        ensures
            e matches UFrameWireError::InvalidFrame(m) && m@ == metadata_error_text(error),
    {
        UFrameWireError::InvalidFrame(error.to_string())
    }
}

/// Whole-frame wire format for a complete native uProtocol frame: it keeps
/// the native frame metadata and payload presence.
pub trait UFrameWireFormat {
    /// Stable implementation name for logs, diagnostics and configuration.
    fn name() -> &'static str;

    /// Media type of the bytes that `serialize_frame` emits.
    fn content_type() -> &'static str;

    /// Serializes a complete native frame, metadata and payload bytes.
    fn serialize_frame(frame: &UOwnedFrame<Validated>) -> Result<Bytes, UFrameWireError>;

    /// Deserializes a complete native frame from this format's bytes.
    fn deserialize_frame(src: &[u8]) -> Result<UOwnedFrame<Validated>, UFrameWireError>;
}

/// Magic bytes of the native whole-frame envelope: `"UPFE"`.
pub const NATIVE_ENVELOPE_MAGIC: [u8; 4] = [0x55u8, 0x50u8, 0x46u8, 0x45u8];
/// Version of the native envelope emitted by this module.
pub const NATIVE_ENVELOPE_VERSION: u8 = 1;
/// Size of the fixed placement header in bytes.
pub const NATIVE_ENVELOPE_HEADER_LEN: usize = 20;

/// Canonical whole-frame envelope carrying native frame metadata and payload
/// bytes with full fidelity.
#[derive(Debug)]
pub struct NativeUFrameEnvelope;

/// The magic bytes.
pub open spec fn envelope_magic() -> Seq<u8> {
    seq![0x55u8, 0x50u8, 0x46u8, 0x45u8]
}

/// The payload bytes of a frame, empty when absent.
pub open spec fn payload_or_empty(p: Option<Seq<u8>>) -> Seq<u8> {
    match p {
        Some(p) => p,
        None => Seq::empty(),
    }
}

/// The envelope of frame `f` with metadata bytes `meta`: header, metadata
/// bytes, payload bytes.
pub open spec fn envelope_with(meta: Seq<u8>, payload: Option<Seq<u8>>) -> Seq<u8> {
    let p = payload_or_empty(payload);
    envelope_magic() + (seq![NATIVE_ENVELOPE_VERSION, if payload is Some { 1u8 } else { 0u8 }, 0u8, 0u8]
        + (spec_u32_to_le_bytes(meta.len() as u32) + (spec_u64_to_le_bytes(p.len() as u64) + (meta + p))))
}

/// The native envelope of frame `f`: its metadata's canonical field block
/// and its payload bytes.
pub open spec fn envelope_bytes(f: FrameModel) -> Seq<u8> {
    envelope_with(field_block(f.metadata), f.payload)
}

/// The header of an envelope read from `src`: payload presence, metadata
/// bytes and payload bytes, when magic, version, presence marker, reserved
/// bytes and both declared lengths are consistent with the input.
pub open spec fn envelope_parse(src: Seq<u8>) -> Option<(bool, Seq<u8>, Seq<u8>)> {
    if src.len() < 20 || src.take(4) != envelope_magic() || src[4] != NATIVE_ENVELOPE_VERSION
        || src[5] > 1 || src[6] != 0 || src[7] != 0 {
        None
    } else {
        let present = src[5] == 1;
        let meta_len = spec_u32_from_le_bytes(src.subrange(8, 12)) as int;
        let payload_len = spec_u64_from_le_bytes(src.subrange(12, 20)) as int;
        let body = src.skip(20);
        if meta_len > body.len() || body.len() - meta_len != payload_len || (!present && payload_len != 0) {
            None
        } else {
            Some((present, body.take(meta_len), body.skip(meta_len)))
        }
    }
}

/// The frame an envelope's parts stand for, given the metadata they decode to.
pub open spec fn envelope_frame(parts: (bool, Seq<u8>, Seq<u8>), m: FrameMetadataModel) -> FrameModel {
    FrameModel { metadata: m, payload: if parts.0 { Some(parts.2) } else { None } }
}

/// The length of an envelope: header, metadata bytes and payload bytes.
pub proof fn lemma_envelope_len(meta: Seq<u8>, payload: Option<Seq<u8>>)
    ensures
        envelope_with(meta, payload).len() == 20 + meta.len() + payload_or_empty(payload).len(),
{
    lemma_auto_spec_u32_to_from_le_bytes();
    lemma_auto_spec_u64_to_from_le_bytes();
}

/// An envelope's header is recovered from the envelope.
pub proof fn lemma_envelope_parse(meta: Seq<u8>, payload: Option<Seq<u8>>)
    requires
        meta.len() <= u32::MAX,
        payload_or_empty(payload).len() <= u64::MAX,
    ensures
        envelope_parse(envelope_with(meta, payload)) == Some((payload is Some, meta, payload_or_empty(payload))),
{
    lemma_auto_spec_u32_to_from_le_bytes();
    lemma_auto_spec_u64_to_from_le_bytes();
    let p = payload_or_empty(payload);
    let src = envelope_with(meta, payload);
    let lb = spec_u32_to_le_bytes(meta.len() as u32);
    let pb = spec_u64_to_le_bytes(p.len() as u64);
    assert(src.take(4) =~= envelope_magic());
    assert(src.subrange(8, 12) =~= lb);
    assert(src.subrange(12, 20) =~= pb);
    assert(src.skip(20) =~= meta + p);
    assert((meta + p).take(meta.len() as int) =~= meta);
    assert((meta + p).skip(meta.len() as int) =~= p);
}

fn header_u32(src: &[u8]) -> (v: u32)
    requires
        src@.len() >= 20,
    ensures
        v == spec_u32_from_le_bytes(src@.subrange(8, 12)),
{
    let s = &src[8..12];
    assert(s@ =~= src@.subrange(8, 12));
    u32_from_le_bytes(s)
}

fn header_u64(src: &[u8]) -> (v: u64)
    requires
        src@.len() >= 20,
    ensures
        v == spec_u64_from_le_bytes(src@.subrange(12, 20)),
{
    let s = &src[12..20];
    assert(s@ =~= src@.subrange(12, 20));
    u64_from_le_bytes(s)
}

/// The text of the first header check that `src` fails (meaningful only
/// when `envelope_parse(src)` is `None`).
pub open spec fn envelope_header_error(src: Seq<u8>) -> Seq<char> {
    if src.len() < 20 {
        "input shorter than envelope header"@
    } else if src.take(4) != envelope_magic() {
        "wrong envelope magic"@
    } else if src[4] != NATIVE_ENVELOPE_VERSION {
        "unsupported envelope version "@ + decimal(src[4] as nat)
    } else if src[5] > 1 {
        "invalid payload presence marker "@ + decimal(src[5] as nat)
    } else if src[6] != 0 || src[7] != 0 {
        "reserved envelope bytes must be zero"@
    } else if spec_u32_from_le_bytes(src.subrange(8, 12)) as int > src.len() - 20 {
        "input shorter than declared metadata length"@
    } else {
        "payload length disagrees with envelope header"@
    }
}

/// Splits an envelope into payload presence, metadata bytes and payload
/// bytes, or gives the text of the first header check it fails.
fn split_envelope(src: &[u8]) -> (r: Result<(bool, &[u8], &[u8]), String>)
    ensures
        r is Ok <==> envelope_parse(src@) is Some,
        r matches Ok((present, meta, payload)) ==> envelope_parse(src@) == Some((present, meta@, payload@)),
        r matches Err(text) ==> text@ == envelope_header_error(src@),
{
    if src.len() < 20 {
        return Err(String::from_str("input shorter than envelope header"));
    }
    let magic_ok = src[0] == 0x55u8 && src[1] == 0x50u8 && src[2] == 0x46u8 && src[3] == 0x45u8;
    assert(magic_ok <==> src@.take(4) == envelope_magic()) by {
        if magic_ok {
            assert(src@.take(4) =~= envelope_magic());
        }
        if src@.take(4) == envelope_magic() {
            assert(src@.take(4)[0] == src@[0]);
            assert(src@.take(4)[1] == src@[1]);
            assert(src@.take(4)[2] == src@[2]);
            assert(src@.take(4)[3] == src@[3]);
        }
    }
    if !magic_ok {
        return Err(String::from_str("wrong envelope magic"));
    }
    if src[4] != NATIVE_ENVELOPE_VERSION {
        let mut text = String::from_str("unsupported envelope version ");
        append_decimal(&mut text, src[4] as u32);
        return Err(text);
    }
    if src[5] > 1 {
        let mut text = String::from_str("invalid payload presence marker ");
        append_decimal(&mut text, src[5] as u32);
        return Err(text);
    }
    if src[6] != 0 || src[7] != 0 {
        return Err(String::from_str("reserved envelope bytes must be zero"));
    }
    let present = src[5] == 1;
    let meta_len = header_u32(src) as usize;
    let payload_len = header_u64(src);
    let body = &src[20..src.len()];
    assert(body@ =~= src@.skip(20));
    if meta_len > body.len() {
        return Err(String::from_str("input shorter than declared metadata length"));
    }
    let rest = (body.len() - meta_len) as u64;
    if rest != payload_len || (!present && payload_len != 0) {
        return Err(String::from_str("payload length disagrees with envelope header"));
    }
    let meta = &body[0..meta_len];
    let payload = &body[meta_len..body.len()];
    assert(meta@ =~= body@.take(meta_len as int));
    assert(payload@ =~= body@.skip(meta_len as int));
    Ok((present, meta, payload))
}

impl UFrameWireFormat for NativeUFrameEnvelope {
    fn name() -> (s: &'static str)
        ensures
            s@ == "native-uframe-envelope"@,
    {
        "native-uframe-envelope"
    }

    fn content_type() -> (s: &'static str)
        ensures
            s@ == "application/vnd.uprotocol.uframe;version=1"@,
    {
        "application/vnd.uprotocol.uframe;version=1"
    }

    /// Serializes a validated frame: header, canonical metadata field block,
    /// payload bytes; `deserialize_frame` turns the bytes back into the same
    /// frame. Fails with `InvalidFrame` when a metadata value does not fit
    /// its field block field.
    fn serialize_frame(frame: &UOwnedFrame<Validated>) -> (r: Result<Bytes, UFrameWireError>)
        ensures
            r is Ok <==> fields_encodable(frame@.metadata) && field_block(frame@.metadata).len() <= u32::MAX,
            r matches Ok(b) ==> bytes_contents(b) == envelope_bytes(frame@) && fields_decodable(frame@.metadata),
            !fields_encodable(frame@.metadata) ==> (r matches Err(UFrameWireError::InvalidFrame(t))
                && t@ == "frame metadata field `"@ + unencodable_field(frame@.metadata) + "` does not fit the field block"@),
            fields_encodable(frame@.metadata) && field_block(frame@.metadata).len() > u32::MAX
                ==> (r matches Err(UFrameWireError::InvalidFrame(t)) && t@ == "metadata exceeds the u32 envelope limit"@),
    {
        let metadata = frame.metadata();
        let block = match encode_frame_metadata_fields(metadata) {
            Ok(block) => block,
            Err(e) => return Err(UFrameWireError::InvalidFrame(e.to_string())),
        };
        if block.len() > 0xFFFF_FFFFusize {
            return Err(UFrameWireError::invalid_frame("metadata exceeds the u32 envelope limit"));
        }
        let payload: &[u8] = frame.payload_bytes();
        let present = frame.has_payload();
        let mut out: Vec<u8> = Vec::new();
        out.push(0x55u8);
        out.push(0x50u8);
        out.push(0x46u8);
        out.push(0x45u8);
        out.push(NATIVE_ENVELOPE_VERSION);
        out.push(if present { 1u8 } else { 0u8 });
        out.push(0u8);
        out.push(0u8);
        let mut len_bytes = u32_to_le_bytes(block.len() as u32);
        out.append(&mut len_bytes);
        let mut payload_len_bytes = u64_to_le_bytes(payload.len() as u64);
        out.append(&mut payload_len_bytes);
        append_slice(&mut out, block.as_slice());
        append_slice(&mut out, payload);
        assert(out@ =~= envelope_bytes(frame@));
        Ok(bytes_from_vec(out))
    }

    /// Deserializes a native envelope into a validated frame.
    ///
    /// Fails with `InvalidFrame` when the header is malformed (magic,
    /// version, presence marker, reserved bytes, lengths that disagree with
    /// the input), when the metadata bytes are not a valid field block, or
    /// when the frame violates the frame invariant. An envelope produced by
    /// `serialize_frame` from a frame whose metadata is recovered from its
    /// field block deserializes to that same frame.
    fn deserialize_frame(src: &[u8]) -> (r: Result<UOwnedFrame<Validated>, UFrameWireError>)
        ensures
            r matches Ok(f) ==> envelope_parse(src@) matches Some(parts)
                && is_field_block_of(parts.1, f@.metadata) && f@ == envelope_frame(parts, f@.metadata),
            r is Ok <==> (envelope_parse(src@) matches Some(parts)
                && exists|m: FrameMetadataModel| is_field_block_of(parts.1, m) && #[trigger] frame_valid(envelope_frame(parts, m))),
            forall|f: FrameModel| frame_valid(f) && fields_decodable(f.metadata)
                && src@ == #[trigger] envelope_bytes(f) ==> (r matches Ok(g) && g@ == f),
            r matches Err(e) ==> e is InvalidFrame,
            envelope_parse(src@) is None ==> (r matches Err(UFrameWireError::InvalidFrame(t)) && t@ == envelope_header_error(src@)),
            r matches Err(UFrameWireError::InvalidFrame(t)) ==> (envelope_parse(src@) matches Some(parts) ==> match field_block_error(parts.1) {
                Some(d) => t@ == "malformed frame metadata fields: "@ + d,
                None => exists|m: FrameMetadataModel| #[trigger] is_field_block_of(parts.1, m)
                    && exists|err: UFrameMetadataError| if !metadata_valid(m) {
                        is_validation_error_for(m, err) && t@ == "invalid frame metadata: "@ + #[trigger] metadata_error_text(err)
                    } else {
                        is_frame_error_for(envelope_frame(parts, m), err) && t@ == #[trigger] metadata_error_text(err)
                    },
            }),
    {
        let total = src.len();
        proof {
            assert forall|f: FrameModel| frame_valid(f) && fields_decodable(f.metadata)
                && src@ == #[trigger] envelope_bytes(f) implies envelope_parse(src@) == Some((f.payload is Some, field_block(f.metadata), payload_or_empty(f.payload))) by {
                lemma_field_block_bounded(f.metadata);
                lemma_envelope_len(field_block(f.metadata), f.payload);
                assert(total == src@.len());
                lemma_envelope_parse(field_block(f.metadata), f.payload);
            }
        }
        let (present, meta, payload) = match split_envelope(src) {
            Ok(parts) => parts,
            Err(text) => return Err(UFrameWireError::InvalidFrame(text)),
        };
        let ghost parts = (present, meta@, payload@);
        let metadata = match decode_frame_metadata_fields(meta) {
            Ok(m) => m,
            Err(e) => {
                proof {
                    assert forall|m: FrameMetadataModel| is_field_block_of(parts.1, m) implies !#[trigger] frame_valid(envelope_frame(parts, m)) by {
                        if let UFrameFieldsError::Metadata(err) = e {
                            let w = choose|w: FrameMetadataModel| is_field_block_of(meta@, w) && !metadata_valid(w)
                                && is_validation_error_for(w, err);
                            lemma_field_block_injective(m, w);
                        }
                    }
                    assert forall|f: FrameModel| frame_valid(f) && fields_decodable(f.metadata)
                        && src@ == #[trigger] envelope_bytes(f) implies false by {
                        assert(is_field_block_of(meta@, f.metadata));
                    }
                }
                return Err(UFrameWireError::InvalidFrame(e.to_string()));
            },
        };
        let body = if present { Some(bytes_copy_from_slice(payload)) } else { None };
        proof {
            assert forall|f: FrameModel| frame_valid(f) && fields_decodable(f.metadata)
                && src@ == #[trigger] envelope_bytes(f) implies metadata@ == f.metadata by {
                assert(is_field_block_of(meta@, f.metadata));
            }
        }
        match UOwnedFrame::new(metadata, body) {
            Ok(f) => Ok(f),
            Err(err) => {
                proof {
                    assert forall|m: FrameMetadataModel| is_field_block_of(parts.1, m) implies !#[trigger] frame_valid(envelope_frame(parts, m)) by {
                        lemma_field_block_injective(m, metadata@);
                    }
                }
                Err(UFrameWireError::from_metadata_error(err))
            },
        }
    }
}

} // verus!
