//! `bytes::BytesMut`, the growable byte buffer that the front-end keeps its
//! data in, seen through the sequence of bytes that it holds.

use vstd::prelude::*;

use bytes::BytesMut;

verus! {

/// The outside buffer type; its contents are seen through `buffer_bytes`.
#[verifier::external_type_specification]
#[verifier::external_body]
pub struct ExBytesMut(BytesMut);

/// The bytes that a `BytesMut` holds, from its start to its length.
pub uninterp spec fn buffer_bytes(b: BytesMut) -> Seq<u8>;

/// `BytesMut::zeroed`: a buffer of `len` zero bytes. The allocation behind it
/// panics for lengths over `isize::MAX`, which `requires` leaves out.
#[verifier::external_body]
pub(crate) fn buffer_zeroed(len: usize) -> (b: BytesMut)
    requires
        len <= isize::MAX,
    ensures
        buffer_bytes(b) == Seq::new(len as nat, |i: int| 0u8),
{
    BytesMut::zeroed(len)
}

/// `<BytesMut as From<&[u8]>>::from`: a buffer that holds a copy of `src`.
#[verifier::external_body]
pub(crate) fn buffer_from_slice(src: &[u8]) -> (b: BytesMut)
    ensures
        buffer_bytes(b) == src@,
{
    BytesMut::from(src)
}

/// `BytesMut::len`: the number of bytes held.
#[verifier::external_body]
pub(crate) fn buffer_len(b: &BytesMut) -> (n: usize)
    ensures
        n == buffer_bytes(*b).len(),
{
    b.len()
}

/// `BytesMut::resize`: truncates to `new_len`, or extends with copies of
/// `value` up to `new_len`. Growing reserves memory, which panics past
/// `isize::MAX`; `requires` leaves that out.
#[verifier::external_body]
pub(crate) fn buffer_resize(b: &mut BytesMut, new_len: usize, value: u8)
    requires
        new_len <= isize::MAX,
    ensures
        buffer_bytes(*final(b)) == (if new_len <= buffer_bytes(*old(b)).len() {
            buffer_bytes(*old(b)).take(new_len as int)
        } else {
            buffer_bytes(*old(b)) + Seq::new(
                (new_len - buffer_bytes(*old(b)).len()) as nat,
                |i: int| value,
            )
        }),
{
    b.resize(new_len, value)
}

/// `<BytesMut as AsRef<[u8]>>::as_ref`: the held bytes as a slice.
#[verifier::external_body]
pub(crate) fn buffer_as_slice(b: &BytesMut) -> (s: &[u8])
    ensures
        s@ == buffer_bytes(*b),
{
    b.as_ref()
}

/// `<BytesMut as AsMut<[u8]>>::as_mut`: the held bytes as a mutable slice;
/// what is written through the slice is what the buffer holds afterwards.
#[verifier::external_body]
pub(crate) fn buffer_as_mut_slice(b: &mut BytesMut) -> (s: &mut [u8])
    ensures
        s@ == buffer_bytes(*old(b)),
        buffer_bytes(*final(b)) == final(s)@,
{
    b.as_mut()
}

} // verus!
