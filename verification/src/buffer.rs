//! Growable byte buffers from the `bytes` crate, as the protocol code uses them.
use vstd::prelude::*;

verus! {

/// `bytes::BytesMut` is carried through the library as an opaque value;
/// what it holds is given by [`bytes_mut_contents`].
#[verifier::external_type_specification]
#[verifier::external_body]
pub struct ExBytesMut(bytes::BytesMut);

/// The bytes that a `BytesMut` holds, in order.
pub uninterp spec fn bytes_mut_contents(buf: bytes::BytesMut) -> Seq<u8>;

/// Largest length a `BytesMut` can grow to: its storage is a `Vec<u8>`,
/// which refuses (panics) beyond `isize::MAX` bytes.
pub open spec fn buffer_limit() -> int {
    isize::MAX as int
}

/// Calls `BytesMut::with_capacity`; the crate documents that the new buffer
/// holds no data whatever the capacity. The capacity goes to
/// `Vec::with_capacity`, which panics above `isize::MAX` bytes.
#[verifier::external_body]
pub(crate) fn bytes_with_capacity(capacity: usize) -> (buf: bytes::BytesMut)
    requires
        capacity <= buffer_limit(),
    ensures
        bytes_mut_contents(buf) == Seq::<u8>::empty(),
{
    bytes::BytesMut::with_capacity(capacity)
}

/// Calls `BufMut::put` with a byte slice; the source shows that `BytesMut`
/// appends every byte of the slice at its end.
#[verifier::external_body]
pub(crate) fn bytes_put(buf: &mut bytes::BytesMut, src: &[u8])
    requires
        bytes_mut_contents(*old(buf)).len() + src@.len() <= buffer_limit(),
    ensures
        bytes_mut_contents(*final(buf)) == bytes_mut_contents(*old(buf)) + src@,
{
    bytes::BufMut::put(buf, src)
}

/// Calls `BufMut::put_u8`, which appends the single byte `n`.
#[verifier::external_body]
pub(crate) fn bytes_put_u8(buf: &mut bytes::BytesMut, n: u8)
    requires
        bytes_mut_contents(*old(buf)).len() + 1 <= buffer_limit(),
    ensures
        bytes_mut_contents(*final(buf)) == bytes_mut_contents(*old(buf)).push(n),
{
    bytes::BufMut::put_u8(buf, n)
}

/// Calls `BufMut::put_u16`, which appends `n` in big-endian byte order:
/// the high byte first, then the low byte.
#[verifier::external_body]
pub(crate) fn bytes_put_u16(buf: &mut bytes::BytesMut, n: u16)
    requires
        bytes_mut_contents(*old(buf)).len() + 2 <= buffer_limit(),
    ensures
        bytes_mut_contents(*final(buf)) == bytes_mut_contents(*old(buf)).push(
            (n / 256) as u8,
        ).push((n % 256) as u8),
{
    bytes::BufMut::put_u16(buf, n)
}

/// Calls `AsRef::<[u8]>::as_ref` on a `BytesMut`, which gives the slice of
/// the bytes it holds.
#[verifier::external_body]
pub(crate) fn bytes_as_slice(buf: &bytes::BytesMut) -> (s: &[u8])
    ensures
        s@ == bytes_mut_contents(*buf),
{
    buf.as_ref()
}

/// Copies the bytes a `BytesMut` holds into a new vector (`<[u8]>::to_vec`
/// through `Deref`).
#[verifier::external_body]
pub(crate) fn bytes_to_vec(buf: &bytes::BytesMut) -> (v: Vec<u8>)
    ensures
        v@ == bytes_mut_contents(*buf),
{
    buf.to_vec()
}

} // verus!
