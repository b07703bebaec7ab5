//! Family-neutral frame views.
//!
//! [`UFrameView`] is the shared vocabulary for reading a frame's metadata and
//! ordered payload bytes, whatever the transport family; and
//! [`validate_frame_view_for_transport`] is the boundary check a transport
//! runs before handing a frame to the caller.
use vstd::prelude::*;
use vstd::string::*;

use crate::frame::metadata::{is_validation_error_for, metadata_error_text, metadata_valid, FrameMetadataModel, UFrameMetadata, UFrameMetadataError};
use crate::owned_frame::{frame_valid, UOwnedFrame, Validated};
use crate::payload_bytes::bytes_as_slice;
use crate::text::{append_decimal_u64, concat_str, decimal};
use crate::ustatus::{UCode, UStatus};

verus! {

/// A status with code `InvalidArgument` and `message`.
pub fn invalid_argument(message: &str) -> (s: UStatus)
    ensures
        s.code == UCode::InvalidArgument,
        s.message matches Some(m) && m@ == message@,
{
    UStatus::fail_with_code(UCode::InvalidArgument, message)
}

/// A status with code `Internal` and `message`.
pub fn internal_view_error(message: &str) -> (s: UStatus)
    ensures
        s.code == UCode::Internal,
        s.message matches Some(m) && m@ == message@,
{
    UStatus::fail_with_code(UCode::Internal, message)
}

/// The status reporting an invalid frame metadata error.
pub fn frame_metadata_error(error: UFrameMetadataError) -> (s: UStatus)
    ensures
        s.code == UCode::InvalidArgument,
        s.message matches Some(m) && m@ == "invalid frame metadata: "@ + metadata_error_text(error),
{
    let text = error.to_string();
    let message = concat_str("invalid frame metadata: ", text.as_str());
    invalid_argument(message.as_str())
}

/// Validates frame metadata, reporting a failure as an `InvalidArgument` status.
pub fn validate_metadata(metadata: &UFrameMetadata) -> (r: Result<(), UStatus>)
    ensures
        r is Ok <==> metadata_valid(metadata@),
        r matches Err(s) ==> s.code == UCode::InvalidArgument && exists|err: UFrameMetadataError|
            is_validation_error_for(metadata@, err) && (s.message matches Some(m)
                && m@ == "invalid frame metadata: "@ + metadata_error_text(err)),
{
    match metadata.validate() {
        Ok(()) => Ok(()),
        Err(error) => Err(frame_metadata_error(error)),
    }
}

/// Checks that payload bytes and payload encoding are both present or both
/// absent; `context` names the checked value in the message.
pub fn validate_payload_presence(has_payload: bool, has_encoding: bool, context: &str) -> (r: Result<(), UStatus>)
    ensures
        r is Ok <==> has_payload == has_encoding,
        r matches Err(s) ==> s.code == UCode::InvalidArgument && (s.message matches Some(m) && m@ == context@ + if has_payload {
            " carries payload bytes without payload encoding"@
        } else {
            " carries payload encoding without payload bytes"@
        }),
{
    if has_payload && !has_encoding {
        let message = concat_str(context, " carries payload bytes without payload encoding");
        return Err(invalid_argument(message.as_str()));
    }
    if !has_payload && has_encoding {
        let message = concat_str(context, " carries payload encoding without payload bytes");
        return Err(invalid_argument(message.as_str()));
    }
    Ok(())
}

/// The sum of a sequence of lengths.
pub open spec fn total_len(lens: Seq<nat>) -> nat
    decreases lens.len(),
{
    if lens.len() == 0 {
        0
    } else {
        total_len(lens.drop_last()) + lens.last()
    }
}

/// Neutral view of a frame's metadata and ordered payload bytes, implemented
/// by frames and leases and read by decoding and transport code.
pub trait UFrameView {
    /// The frame metadata.
    spec fn spec_metadata(&self) -> FrameMetadataModel;

    /// The number of payload bytes visible through this view.
    spec fn spec_payload_len(&self) -> nat;

    /// Whether this view carries a payload, a present empty payload included.
    spec fn spec_has_payload(&self) -> bool;

    /// The lengths of the payload's storage segments, in order.
    spec fn spec_segment_lens(&self) -> Seq<nat>;

    /// Returns the native frame metadata.
    fn metadata(&self) -> (m: &UFrameMetadata)
        ensures
            m@ == self.spec_metadata();

    /// Returns the number of application payload bytes of this view.
    fn payload_len(&self) -> (n: usize)
        ensures
            n == self.spec_payload_len();

    /// Returns whether this view carries a payload, a present empty payload included.
    fn has_payload(&self) -> (b: bool)
        ensures
            b == self.spec_has_payload();

    /// Returns the payload's storage segments in order.
    fn payload_slices(&self) -> (v: Vec<&[u8]>)
        ensures
            v@.len() == self.spec_segment_lens().len(),
            forall|i: int| 0 <= i < v@.len() ==> (#[trigger] v@[i])@.len() == self.spec_segment_lens()[i];
}

/// Whether a view passes the transport boundary check: valid metadata,
/// payload presence that agrees with the payload encoding, and segments that
/// add up to the payload length.
pub open spec fn view_acceptable(metadata: FrameMetadataModel, has_payload: bool, payload_len: nat, segments: Seq<nat>) -> bool {
    &&& metadata_valid(metadata)
    &&& has_payload == (metadata.payload_encoding is Some)
    &&& total_len(segments) == payload_len
}

/// Whether `s` is the status that the transport boundary check reports for
/// a view that fails it: for invalid metadata an `InvalidArgument` naming the
/// metadata error; for payload presence that disagrees with the payload
/// encoding an `InvalidArgument` saying which is missing; for segments whose
/// lengths overflow `usize` or do not add up to the payload length an
/// `Internal` saying so.
pub open spec fn view_error_for(metadata: FrameMetadataModel, has_payload: bool, payload_len: nat, segments: Seq<nat>, s: UStatus) -> bool {
    s.message is Some && {
        let m = s.message.unwrap()@;
        if !metadata_valid(metadata) {
            s.code == UCode::InvalidArgument && exists|err: UFrameMetadataError|
                #[trigger] is_validation_error_for(metadata, err) && m == "invalid frame metadata: "@ + metadata_error_text(err)
        } else if has_payload != (metadata.payload_encoding is Some) {
            s.code == UCode::InvalidArgument && m == "frame view"@ + if has_payload {
                " carries payload bytes without payload encoding"@
            } else {
                " carries payload encoding without payload bytes"@
            }
        } else if total_len(segments) > usize::MAX {
            s.code == UCode::Internal && m == "frame view payload slices overflow usize"@
        } else {
            s.code == UCode::Internal && m == "frame view payload slices yielded "@ + decimal(total_len(segments))
                + " bytes but payload_len returned "@ + decimal(payload_len)
        }
    }
}

/// Validates a frame view before it leaves a transport boundary.
///
/// Fails with `InvalidArgument` when the metadata is invalid or payload
/// presence disagrees with the payload encoding, and with `Internal` when
/// the ordered segments do not add up to the payload length (or overflow).
pub fn validate_frame_view_for_transport<V: UFrameView>(frame: &V) -> (r: Result<(), UStatus>)
    ensures
        r is Ok <==> view_acceptable(frame.spec_metadata(), frame.spec_has_payload(), frame.spec_payload_len(), frame.spec_segment_lens()),
        r matches Err(s) ==> view_error_for(frame.spec_metadata(), frame.spec_has_payload(), frame.spec_payload_len(),
            frame.spec_segment_lens(), s),
{
    let metadata = frame.metadata();
    match metadata.validate() {
        Ok(()) => {},
        Err(error) => return Err(frame_metadata_error(error)),
    }
    let has_encoding = metadata.payload_encoding().is_some();
    validate_payload_presence(frame.has_payload(), has_encoding, "frame view")?;
    let expected = frame.payload_len();
    let slices = frame.payload_slices();
    let ghost lens = frame.spec_segment_lens();
    let mut observed: usize = 0;
    let mut i: usize = 0;
    while i < slices.len()
        invariant
            metadata_valid(frame.spec_metadata()),
            frame.spec_has_payload() == (frame.spec_metadata().payload_encoding is Some),
            expected == frame.spec_payload_len(),
            lens == frame.spec_segment_lens(),
            slices@.len() == lens.len(),
            forall|k: int| 0 <= k < slices@.len() ==> (#[trigger] slices@[k])@.len() == lens[k],
            i <= slices@.len(),
            observed == total_len(lens.take(i as int)),
        decreases slices@.len() - i,
    {
        let n = slices[i].len();
        assert(lens.take(i + 1).drop_last() =~= lens.take(i as int));
        match observed.checked_add(n) {
            Some(sum) => observed = sum,
            None => {
                proof {
                    lemma_total_len_monotone(lens, i + 1);
                }
                return Err(internal_view_error("frame view payload slices overflow usize"));
            },
        }
        i = i + 1;
    }
    assert(lens.take(slices@.len() as int) =~= lens);
    if observed != expected {
        let mut message = String::from_str("frame view payload slices yielded ");
        append_decimal_u64(&mut message, observed as u64);
        message.append(" bytes but payload_len returned ");
        append_decimal_u64(&mut message, expected as u64);
        assert(message@ == "frame view payload slices yielded "@ + decimal(total_len(lens))
            + " bytes but payload_len returned "@ + decimal(frame.spec_payload_len()));
        return Err(internal_view_error(message.as_str()));
    }
    Ok(())
}

/// A prefix sum is at most the total.
proof fn lemma_total_len_monotone(lens: Seq<nat>, n: int)
    requires
        0 <= n <= lens.len(),
    ensures
        total_len(lens.take(n)) <= total_len(lens),
    decreases lens.len() - n,
{
    if n < lens.len() {
        lemma_total_len_monotone(lens, n + 1);
        assert(lens.take(n + 1).drop_last() =~= lens.take(n));
    } else {
        assert(lens.take(n) =~= lens);
    }
}

impl UFrameView for UOwnedFrame<Validated> {
    open spec fn spec_metadata(&self) -> FrameMetadataModel {
        self@.metadata
    }

    open spec fn spec_payload_len(&self) -> nat {
        match self@.payload {
            Some(p) => p.len(),
            None => 0,
        }
    }

    open spec fn spec_has_payload(&self) -> bool {
        self@.payload is Some
    }

    open spec fn spec_segment_lens(&self) -> Seq<nat> {
        seq![self.spec_payload_len()]
    }

    fn metadata(&self) -> (m: &UFrameMetadata) {
        UOwnedFrame::<Validated>::metadata(self)
    }

    fn payload_len(&self) -> (n: usize) {
        self.payload_bytes().len()
    }

    fn has_payload(&self) -> (b: bool) {
        UOwnedFrame::<Validated>::has_payload(self)
    }

    fn payload_slices(&self) -> (v: Vec<&[u8]>) {
        let mut v: Vec<&[u8]> = Vec::new();
        v.push(self.payload_bytes());
        v
    }
}

/// A valid frame passes the transport boundary check when viewed with its
/// payload as one segment: every validated owned frame is acceptable.
pub proof fn lemma_valid_frame_is_acceptable(f: crate::owned_frame::FrameModel)
    requires
        frame_valid(f),
    ensures
        ({
            let len: nat = match f.payload {
                Some(p) => p.len(),
                None => 0,
            };
            view_acceptable(f.metadata, f.payload is Some, len, seq![len])
        }),
{
    let len: nat = match f.payload {
        Some(p) => p.len(),
        None => 0,
    };
    assert(seq![len].drop_last() =~= Seq::<nat>::empty());
    assert(total_len(Seq::<nat>::empty()) == 0);
    assert(total_len(seq![len]) == len);
}

} // verus!
