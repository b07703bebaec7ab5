//! Payload byte buffers (`bytes::Bytes`) as seen by the verified code.
use vstd::prelude::*;

verus! {

/// `bytes::Bytes`, an immutable reference-counted byte buffer, carried as an
/// opaque value; its contents are `bytes_contents`.
#[verifier::external_type_specification]
#[verifier::external_body]
pub struct ExBytes(bytes::Bytes);

/// The bytes a `Bytes` buffer holds, in order.
pub uninterp spec fn bytes_contents(b: bytes::Bytes) -> Seq<u8>;

/// `bytes::Bytes::copy_from_slice`: a new buffer holding a copy of `data`.
#[verifier::external_body]
pub(crate) fn bytes_copy_from_slice(data: &[u8]) -> (b: bytes::Bytes)
    ensures
        bytes_contents(b) == data@,
{
    bytes::Bytes::copy_from_slice(data)
}

/// `bytes::Bytes::from(Vec<u8>)`: a buffer taking over the vector's bytes.
#[verifier::external_body]
pub(crate) fn bytes_from_vec(data: Vec<u8>) -> (b: bytes::Bytes)
    ensures
        bytes_contents(b) == data@,
{
    bytes::Bytes::from(data)
}

/// `<bytes::Bytes as AsRef<[u8]>>::as_ref`: the buffer's bytes as a slice.
#[verifier::external_body]
pub(crate) fn bytes_as_slice(b: &bytes::Bytes) -> (s: &[u8])
    ensures
        s@ == bytes_contents(*b),
{
    b.as_ref()
}

/// `<bytes::Bytes as Clone>::clone`: another handle on the same bytes.
#[verifier::external_body]
pub(crate) fn bytes_clone(b: &bytes::Bytes) -> (c: bytes::Bytes)
    ensures
        bytes_contents(c) == bytes_contents(*b),
{
    b.clone()
}

} // verus!
