//! The growable byte buffer that payloads are written into.
//!
//! The buffer is `bytes::BytesMut`, owned by the caller and reused across
//! requests. Its contents are modelled by `bytes_of`, and every operation the
//! library performs on it is a wrapper whose contract speaks of that model.
use vstd::prelude::*;

verus! {

#[verifier::external_type_specification]
#[verifier::external_body]
pub struct ExBytesMut(bytes::BytesMut);

/// The bytes a buffer currently holds, from index 0 to its length.
pub uninterp spec fn bytes_of(b: bytes::BytesMut) -> Seq<u8>;

/// Relies on `BytesMut::len`: the number of bytes held.
#[verifier::external_body]
pub(crate) fn buf_len(b: &bytes::BytesMut) -> (r: usize)
    ensures
        r == bytes_of(*b).len(),
{
    b.len()
}

/// The number of bytes a buffer holds.
pub fn byte_len(b: &bytes::BytesMut) -> (r: usize)
    ensures
        r == bytes_of(*b).len(),
{
    buf_len(b)
}

/// Relies on `BytesMut::clear`: the length becomes 0, the capacity is kept.
#[verifier::external_body]
pub(crate) fn buf_clear(b: &mut bytes::BytesMut)
    ensures
        bytes_of(*final(b)) == Seq::<u8>::empty(),
{
    b.clear()
}

/// Relies on `BytesMut::extend_from_slice`: the slice is appended. It panics
/// only when the new length would pass `isize::MAX`.
#[verifier::external_body]
pub(crate) fn buf_extend(b: &mut bytes::BytesMut, s: &[u8])
    requires
        bytes_of(*old(b)).len() + s@.len() <= isize::MAX,
    ensures
        bytes_of(*final(b)) == bytes_of(*old(b)) + s@,
{
    b.extend_from_slice(s)
}

/// Relies on `BufMut::put_bytes` for `BytesMut`: `cnt` copies of `val` are
/// appended. It panics only when the new length would pass `isize::MAX`.
#[verifier::external_body]
pub(crate) fn buf_fill(b: &mut bytes::BytesMut, val: u8, cnt: usize)
    requires
        bytes_of(*old(b)).len() + cnt <= isize::MAX,
    ensures
        bytes_of(*final(b)) == bytes_of(*old(b)) + Seq::new(cnt as nat, |_i: int| val),
{
    bytes::BufMut::put_bytes(b, val, cnt)
}

/// Relies on indexing a `BytesMut` through `DerefMut<Target = [u8]>`: the byte
/// at `i` is replaced. It panics when `i` is not below the length.
#[verifier::external_body]
pub(crate) fn buf_set(b: &mut bytes::BytesMut, i: usize, val: u8)
    requires
        i < bytes_of(*old(b)).len(),
    ensures
        bytes_of(*final(b)) == bytes_of(*old(b)).update(i as int, val),
{
    b[i] = val;
}

/// The bytes of an ASCII string, one per character.
pub open spec fn ascii_bytes(s: Seq<char>) -> Seq<u8> {
    s.map_values(|c: char| c as u8)
}

/// The bytes of an ASCII string slice.
pub(crate) fn ascii_of(s: &str) -> (r: &[u8])
    requires
        vstd::string::is_ascii(s),
    ensures
        r@ == ascii_bytes(s@),
{
    broadcast use vstd::string::is_ascii_spec_bytes;

    let r = s.as_bytes();
    assert(r@ =~= ascii_bytes(s@));
    r
}

/// Appends the bytes of an ASCII string slice.
pub(crate) fn buf_push_ascii(b: &mut bytes::BytesMut, s: &str)
    requires
        vstd::string::is_ascii(s),
        bytes_of(*old(b)).len() + s@.len() <= isize::MAX,
    ensures
        bytes_of(*final(b)) == bytes_of(*old(b)) + ascii_bytes(s@),
{
    let r = ascii_of(s);
    buf_extend(b, r);
}

} // verus!
