//! Owned, serialization-neutral native uProtocol frames.
//!
//! A `UOwnedFrame` carries native frame metadata plus optional owned payload
//! bytes. Its state parameter records whether the frame was validated:
//! every `UOwnedFrame<Validated>` has valid metadata, and carries payload
//! bytes exactly when its metadata declares a payload encoding.
use std::marker::PhantomData;
use vstd::prelude::*;

use crate::frame::metadata::{
    attributes_representable, is_representation_error_for, is_validation_error_for, metadata_valid, projected_attributes,
    try_project_frame_to_umessage, FrameMetadataModel, UFrameMetadata, UFrameMetadataError,
};
use crate::payload_bytes::{bytes_as_slice, bytes_contents};
use crate::uattributes::{clone_opt_bytes, opt_bytes_view, UMessage};
use bytes::Bytes;

verus! {

/// Validation state of a frame: whether its frame invariant is guaranteed.
pub trait ValidationState {
    /// Whether frames in this state are guaranteed valid.
    spec fn guarantees_validity() -> bool;
}

/// State of a frame whose metadata and payload presence were checked.
#[derive(Clone, Copy, Debug, PartialEq, Eq)]
pub struct Validated;

/// State of a frame that was built without checks.
#[derive(Clone, Copy, Debug, PartialEq, Eq)]
pub struct Unvalidated;

impl ValidationState for Validated {
    open spec fn guarantees_validity() -> bool {
        true
    }
}

impl ValidationState for Unvalidated {
    open spec fn guarantees_validity() -> bool {
        false
    }
}

/// Abstract value of a frame: its metadata and optional payload bytes.
pub ghost struct FrameModel {
    pub metadata: FrameMetadataModel,
    pub payload: Option<Seq<u8>>,
}

/// The frame invariant: valid metadata, and payload bytes present exactly
/// when the metadata declares a payload encoding.
pub open spec fn frame_valid(f: FrameModel) -> bool {
    metadata_valid(f.metadata) && (f.payload is Some <==> f.metadata.payload_encoding is Some)
}

/// Whether `err` is the error that the frame check reports for `f`: the
/// metadata's own error first, then the payload presence disagreement.
pub open spec fn is_frame_error_for(f: FrameModel, err: UFrameMetadataError) -> bool {
    if !metadata_valid(f.metadata) {
        is_validation_error_for(f.metadata, err)
    } else if f.payload is Some {
        err is PayloadWithoutEncoding
    } else {
        err is EncodingWithoutPayload
    }
}

/// Owned, serialization-neutral native uProtocol frame.
#[derive(Debug, PartialEq)]
pub struct UOwnedFrame<S: ValidationState = Validated> {
    metadata: UFrameMetadata,
    payload: Option<Bytes>,
    state: PhantomData<S>,
}

impl<S: ValidationState> View for UOwnedFrame<S> {
    type V = FrameModel;

    closed spec fn view(&self) -> FrameModel {
        FrameModel { metadata: self.metadata@, payload: opt_bytes_view(self.payload) }
    }
}

impl<S: ValidationState> Clone for UOwnedFrame<S> {
    fn clone(&self) -> (r: Self)
        ensures
            r@ == self@,
    {
        proof { use_type_invariant(self); }
        UOwnedFrame {
            metadata: self.metadata.clone(),
            payload: clone_opt_bytes(&self.payload),
            state: PhantomData,
        }
    }
}

impl<S: ValidationState> UOwnedFrame<S> {
    /// Frames in a validating state are valid.
    #[verifier::type_invariant]
    spec fn inv(self) -> bool {
        S::guarantees_validity() ==> frame_valid(self@)
    }

    /// Checks the frame invariant.
    fn check(&self) -> (r: Result<(), UFrameMetadataError>)
        ensures
            r is Ok <==> frame_valid(self@),
            r matches Err(err) ==> is_frame_error_for(self@, err),
    {
        self.metadata.validate()?;
        let has_payload = self.payload.is_some();
        let has_encoding = self.metadata.payload_encoding().is_some();
        if has_payload && !has_encoding {
            return Err(UFrameMetadataError::PayloadWithoutEncoding);
        }
        if !has_payload && has_encoding {
            return Err(UFrameMetadataError::EncodingWithoutPayload);
        }
        Ok(())
    }

    /// Returns the frame metadata.
    pub fn metadata(&self) -> (m: &UFrameMetadata)
        ensures
            m@ == self@.metadata,
            S::guarantees_validity() ==> frame_valid(self@),
    {
        proof { use_type_invariant(self); }
        &self.metadata
    }

    /// Returns the payload bytes when the frame carries a payload.
    pub fn payload(&self) -> (p: Option<&Bytes>)
        ensures
            p is Some <==> self@.payload is Some,
            p matches Some(b) ==> self@.payload == Some(bytes_contents(*b)),
    {
        match &self.payload {
            Some(b) => Some(b),
            None => None,
        }
    }

    /// Returns the payload bytes, or an empty slice when the payload is
    /// absent (use `payload` to tell an absent payload from an empty one).
    pub fn payload_bytes(&self) -> (s: &[u8])
        ensures
            s@ == match self@.payload {
                Some(p) => p,
                None => Seq::<u8>::empty(),
            },
    {
        match &self.payload {
            Some(b) => bytes_as_slice(b),
            None => {
                let empty: &[u8] = &[];
                assert(empty@ =~= Seq::<u8>::empty());
                empty
            },
        }
    }

    /// Returns whether the frame carries payload bytes, an empty payload included.
    pub fn has_payload(&self) -> (b: bool)
        ensures
            b == self@.payload is Some,
    {
        self.payload.is_some()
    }

    /// Consumes the frame and returns its metadata.
    pub fn into_metadata(self) -> (m: UFrameMetadata)
        ensures
            m@ == self@.metadata,
    {
        self.metadata
    }

    /// Consumes the frame and returns its optional payload bytes.
    pub fn into_payload(self) -> (p: Option<Bytes>)
        ensures
            opt_bytes_view(p) == self@.payload,
    {
        self.payload
    }

    /// Consumes the frame and returns metadata and optional payload bytes.
    pub fn into_parts(self) -> (r: (UFrameMetadata, Option<Bytes>))
        ensures
            r.0@ == self@.metadata,
            opt_bytes_view(r.1) == self@.payload,
    {
        (self.metadata, self.payload)
    }
}

impl UOwnedFrame<Validated> {
    /// Creates a validated frame from metadata and optional payload bytes.
    ///
    /// Fails when the metadata is invalid, or when payload bytes and payload
    /// encoding are not both present or both absent.
    pub fn new(metadata: UFrameMetadata, payload: Option<Bytes>) -> (r: Result<UOwnedFrame<Validated>, UFrameMetadataError>)
        ensures
            ({
                let f = FrameModel { metadata: metadata@, payload: opt_bytes_view(payload) };
                &&& r is Ok <==> frame_valid(f)
                &&& r matches Ok(x) ==> x@ == f
                &&& r matches Err(err) ==> is_frame_error_for(f, err)
            }),
    {
        let unchecked = UOwnedFrame::<Validated>::new_unchecked(metadata, payload);
        unchecked.validate()
    }

    /// Creates a frame without checks, in the unvalidated state.
    pub fn new_unchecked(metadata: UFrameMetadata, payload: Option<Bytes>) -> (f: UOwnedFrame<Unvalidated>)
        ensures
            f@ == (FrameModel { metadata: metadata@, payload: opt_bytes_view(payload) }),
    {
        UOwnedFrame { metadata, payload, state: PhantomData }
    }

    /// Creates a validated payload-bearing frame.
    ///
    /// Fails when the metadata is invalid or declares no payload encoding.
    pub fn with_payload(metadata: UFrameMetadata, payload: Bytes) -> (r: Result<UOwnedFrame<Validated>, UFrameMetadataError>)
        ensures
            ({
                let f = FrameModel { metadata: metadata@, payload: Some(bytes_contents(payload)) };
                &&& r is Ok <==> frame_valid(f)
                &&& r matches Ok(x) ==> x@ == f
                &&& r matches Err(err) ==> is_frame_error_for(f, err)
            }),
    {
        Self::new(metadata, Some(payload))
    }

    /// Creates a validated frame without payload.
    ///
    /// Fails when the metadata is invalid or still declares a payload encoding.
    pub fn without_payload(metadata: UFrameMetadata) -> (r: Result<UOwnedFrame<Validated>, UFrameMetadataError>)
        ensures
            ({
                let f = FrameModel { metadata: metadata@, payload: None };
                &&& r is Ok <==> frame_valid(f)
                &&& r matches Ok(x) ==> x@ == f
                &&& r matches Err(err) ==> is_frame_error_for(f, err)
            }),
    {
        Self::new(metadata, None)
    }

    /// Projects this frame into a `UMessage`, the bridge back to the
    /// message-based transports.
    ///
    /// Fails when the metadata cannot be represented as message attributes.
    pub fn to_umessage(&self) -> (r: Result<UMessage, UFrameMetadataError>)
        ensures
            r is Ok <==> attributes_representable(self@.metadata),
            r matches Ok(msg) ==> msg.attributes@ == projected_attributes(self@.metadata)
                && opt_bytes_view(msg.payload) == self@.payload,
            r matches Err(err) ==> is_representation_error_for(self@.metadata, err),
    {
        proof { use_type_invariant(self); }
        try_project_frame_to_umessage(self.metadata.clone(), clone_opt_bytes(&self.payload))
    }
}

impl UOwnedFrame<Unvalidated> {
    /// Validates the frame: the only way from the unvalidated to the
    /// validated state.
    ///
    /// Fails when the metadata is invalid, or when payload bytes and payload
    /// encoding are not both present or both absent.
    pub fn validate(self) -> (r: Result<UOwnedFrame<Validated>, UFrameMetadataError>)
        ensures
            r is Ok <==> frame_valid(self@),
            r matches Ok(x) ==> x@ == self@,
            r matches Err(err) ==> is_frame_error_for(self@, err),
    {
        self.check()?;
        Ok(UOwnedFrame { metadata: self.metadata, payload: self.payload, state: PhantomData })
    }
}

} // verus!
