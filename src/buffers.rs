//! The byte buffers of the `bytes` crate, as the codec uses them: a growable
//! `BytesMut` that a producer fills, and a `Bytes` handed to a consumer.

use vstd::prelude::*;

verus! {

#[verifier::external_type_specification]
#[verifier::external_body]
pub struct ExBytesMut(bytes::BytesMut);

#[verifier::external_type_specification]
#[verifier::external_body]
pub struct ExBytes(bytes::Bytes);

/// The bytes that a `BytesMut` holds, in order.
pub uninterp spec fn bytes_mut_contents(b: bytes::BytesMut) -> Seq<u8>;

/// The bytes that a `Bytes` holds, in order.
pub uninterp spec fn bytes_contents(b: bytes::Bytes) -> Seq<u8>;

/// Relies on bytes::BytesMut::new: a new buffer holds no bytes.
#[verifier::external_body]
pub(crate) fn new_bytes_mut() -> (r: bytes::BytesMut)
    ensures
        bytes_mut_contents(r) == Seq::<u8>::empty(),
{
    bytes::BytesMut::new()
}

/// Relies on `AsRef<[u8]>` for bytes::BytesMut: the slice is what it holds.
#[verifier::external_body]
pub(crate) fn bytes_mut_slice(b: &bytes::BytesMut) -> (r: &[u8])
    ensures
        r@ == bytes_mut_contents(*b),
{
    b.as_ref()
}

/// Relies on bytes::BytesMut::extend_from_slice: appends `s`. It panics only
/// when the new capacity overflows, which the bound leaves out.
#[verifier::external_body]
pub(crate) fn bytes_mut_extend(b: &mut bytes::BytesMut, s: &[u8])
    requires
        bytes_mut_contents(*old(b)).len() + s@.len() <= isize::MAX as int,
    ensures
        bytes_mut_contents(*final(b)) == bytes_mut_contents(*old(b)) + s@,
{
    b.extend_from_slice(s)
}

/// Relies on `From<Vec<u8>>` for bytes::Bytes: it takes the vector's bytes.
#[verifier::external_body]
pub(crate) fn bytes_from_vec(v: Vec<u8>) -> (r: bytes::Bytes)
    ensures
        bytes_contents(r) == v@,
{
    bytes::Bytes::from(v)
}

/// Relies on `AsRef<[u8]>` for bytes::Bytes: the slice is what it holds.
#[verifier::external_body]
pub(crate) fn bytes_slice(b: &bytes::Bytes) -> (r: &[u8])
    ensures
        r@ == bytes_contents(*b),
{
    b.as_ref()
}

} // verus!
