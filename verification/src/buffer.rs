//! Trusted bindings to the `bytes` crate, which holds every encoded message:
//! a growable `BytesMut` that encoders append to, frozen into an immutable
//! `Bytes` handed to the transport.
//!
//! The contents of either buffer are modelled as a `Seq<u8>`; each binding
//! states, over that model, exactly what the `bytes` method it calls does.
use vstd::prelude::*;

verus! {

#[verifier::external_type_specification]
#[verifier::external_body]
pub struct ExBytes(bytes::Bytes);

#[verifier::external_type_specification]
#[verifier::external_body]
pub struct ExBytesMut(bytes::BytesMut);

/// The byte contents of a frozen `bytes::Bytes` buffer.
pub uninterp spec fn bytes_contents(b: bytes::Bytes) -> Seq<u8>;

/// The byte contents of a growable `bytes::BytesMut` buffer.
pub uninterp spec fn buffer_contents(b: bytes::BytesMut) -> Seq<u8>;

/// Relies on `bytes::BytesMut::with_capacity`: the returned buffer is empty
/// (the capacity only pre-allocates).
#[verifier::external_body]
pub(crate) fn buffer_with_capacity(capacity: usize) -> (b: bytes::BytesMut)
    ensures
        buffer_contents(b) == Seq::<u8>::empty(),
{
    bytes::BytesMut::with_capacity(capacity)
}

/// Relies on `bytes::BytesMut::new`: the returned buffer is empty.
#[verifier::external_body]
pub(crate) fn buffer_new() -> (b: bytes::BytesMut)
    ensures
        buffer_contents(b) == Seq::<u8>::empty(),
{
    bytes::BytesMut::new()
}

/// Relies on `bytes::BufMut::put_u8` for `BytesMut`: appends the one byte.
#[verifier::external_body]
pub(crate) fn put_u8(b: &mut bytes::BytesMut, v: u8)
    ensures
        buffer_contents(*final(b)) == buffer_contents(*old(b)).push(v),
{
    bytes::BufMut::put_u8(b, v)
}

/// Relies on `bytes::BufMut::put_u16` for `BytesMut`: appends the two bytes
/// of the value in big-endian order.
#[verifier::external_body]
pub(crate) fn put_u16(b: &mut bytes::BytesMut, v: u16)
    ensures
        buffer_contents(*final(b)) == buffer_contents(*old(b)).push((v / 256) as u8).push(
            (v % 256) as u8,
        ),
{
    bytes::BufMut::put_u16(b, v)
}

/// Relies on `bytes::BufMut::put_slice` for `BytesMut`: appends the slice.
#[verifier::external_body]
pub(crate) fn put_slice(b: &mut bytes::BytesMut, src: &[u8])
    ensures
        buffer_contents(*final(b)) == buffer_contents(*old(b)) + src@,
{
    bytes::BufMut::put_slice(b, src)
}

/// Relies on `bytes::BytesMut::freeze`: the conversion keeps the contents.
#[verifier::external_body]
pub(crate) fn buffer_freeze(b: bytes::BytesMut) -> (r: bytes::Bytes)
    ensures
        bytes_contents(r) == buffer_contents(b),
{
    b.freeze()
}

/// Relies on `<bytes::Bytes as AsRef<[u8]>>::as_ref`: hands out exactly the
/// contents.
#[verifier::external_body]
pub(crate) fn bytes_as_slice(b: &bytes::Bytes) -> (s: &[u8])
    ensures
        s@ == bytes_contents(*b),
{
    b.as_ref()
}

} // verus!
