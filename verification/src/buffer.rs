//! The byte buffer that packets are read from and written to.
use bytes::{Buf, BufMut, BytesMut};
use vstd::prelude::*;

verus! {

/// `bytes::BytesMut`, the growable byte buffer of the `bytes` crate.
#[verifier::external_type_specification]
#[verifier::external_body]
pub struct ExBytesMut(BytesMut);

/// The bytes that a `BytesMut` holds, first to last.
pub uninterp spec fn buf_bytes(b: BytesMut) -> Seq<u8>;

/// `BytesMut::new`: an empty buffer.
#[verifier::external_body]
pub(crate) fn buf_new() -> (r: BytesMut)
    ensures
        buf_bytes(r) == Seq::<u8>::empty(),
{
    BytesMut::new()
}

/// `BytesMut::len`: the number of bytes held.
#[verifier::external_body]
pub(crate) fn buf_len(b: &BytesMut) -> (r: usize)
    ensures
        r == buf_bytes(*b).len(),
{
    b.len()
}

/// `Buf::advance` on a `BytesMut`: drops the first `cnt` bytes (it panics past the end).
#[verifier::external_body]
pub(crate) fn buf_advance(b: &mut BytesMut, cnt: usize)
    requires
        cnt <= buf_bytes(*old(b)).len(),
    ensures
        buf_bytes(*final(b)) == buf_bytes(*old(b)).skip(cnt as int),
{
    b.advance(cnt)
}

/// The bytes that a `BytesMut` dereferences to.
#[verifier::external_body]
pub(crate) fn buf_as_slice(b: &BytesMut) -> (r: &[u8])
    ensures
        r@ == buf_bytes(*b),
{
    &b[..]
}

/// `BytesMut::is_empty`.
#[verifier::external_body]
pub(crate) fn buf_is_empty(b: &BytesMut) -> (r: bool)
    ensures
        r == (buf_bytes(*b).len() == 0),
{
    b.is_empty()
}

/// `BytesMut::split_to`: removes the first `at` bytes and returns them (it panics past the end).
#[verifier::external_body]
pub(crate) fn buf_split_to(b: &mut BytesMut, at: usize) -> (r: BytesMut)
    requires
        at <= buf_bytes(*old(b)).len(),
    ensures
        buf_bytes(r) == buf_bytes(*old(b)).take(at as int),
        buf_bytes(*final(b)) == buf_bytes(*old(b)).skip(at as int),
{
    b.split_to(at)
}

/// `to_vec` on the bytes that a `BytesMut` dereferences to: a copy of them.
#[verifier::external_body]
pub(crate) fn buf_to_vec(b: &BytesMut) -> (r: Vec<u8>)
    ensures
        r@ == buf_bytes(*b),
{
    b.to_vec()
}

/// `BytesMut::extend_from_slice`: appends the bytes of `s`.
#[verifier::external_body]
pub(crate) fn buf_extend(b: &mut BytesMut, s: &[u8])
    ensures
        buf_bytes(*final(b)) == buf_bytes(*old(b)) + s@,
{
    b.extend_from_slice(s)
}

/// `BufMut::put_u8` on a `BytesMut`: appends one byte.
#[verifier::external_body]
pub(crate) fn buf_put_u8(b: &mut BytesMut, v: u8)
    ensures
        buf_bytes(*final(b)) == buf_bytes(*old(b)).push(v),
{
    b.put_u8(v)
}

/// `BufMut::put_i64` on a `BytesMut`: appends the 8 bytes of `v` in big-endian order.
#[verifier::external_body]
pub(crate) fn buf_put_i64(b: &mut BytesMut, v: i64)
    ensures
        buf_bytes(*final(b)) == buf_bytes(*old(b)) + be_bytes(i64_unsigned(v), 8),
{
    b.put_i64(v)
}

/// `Buf::get_u16` on a `BytesMut`: takes the first 2 bytes as a big-endian number (it
/// panics when fewer are held).
#[verifier::external_body]
pub(crate) fn buf_get_u16(b: &mut BytesMut) -> (r: u16)
    requires
        buf_bytes(*old(b)).len() >= 2,
    ensures
        r == be_value(buf_bytes(*old(b)).take(2)),
        buf_bytes(*final(b)) == buf_bytes(*old(b)).skip(2),
{
    b.get_u16()
}

/// `Buf::get_i64` on a `BytesMut`: takes the first 8 bytes as a big-endian two's-complement
/// number (it panics when fewer are held).
#[verifier::external_body]
pub(crate) fn buf_get_i64(b: &mut BytesMut) -> (r: i64)
    requires
        buf_bytes(*old(b)).len() >= 8,
    ensures
        r == be_signed(buf_bytes(*old(b)).take(8)),
        buf_bytes(*final(b)) == buf_bytes(*old(b)).skip(8),
{
    b.get_i64()
}

/// `Buf::try_get_u128` on a `BytesMut`: takes the first 16 bytes as a big-endian number,
/// or fails and leaves the buffer as it was when fewer are held.
#[verifier::external_body]
pub(crate) fn buf_try_get_u128(b: &mut BytesMut) -> (r: Option<u128>)
    ensures
        buf_bytes(*old(b)).len() >= 16 ==> r == Some(be_value(buf_bytes(*old(b)).take(16)) as u128)
            && buf_bytes(*final(b)) == buf_bytes(*old(b)).skip(16),
        buf_bytes(*old(b)).len() < 16 ==> r is None && buf_bytes(*final(b)) == buf_bytes(*old(b)),
{
    b.try_get_u128().ok()
}

/// `BytesMut::clear`: drops every byte.
#[verifier::external_body]
pub(crate) fn buf_clear(b: &mut BytesMut)
    ensures
        buf_bytes(*final(b)) == Seq::<u8>::empty(),
{
    b.clear()
}

/// The number that `s` spells in big-endian base 256.
pub open spec fn be_value(s: Seq<u8>) -> nat
    decreases s.len(),
{
    if s.len() == 0 {
        0
    } else {
        be_value(s.drop_last()) * 256 + s.last() as nat
    }
}

/// The number that `s` spells in big-endian two's complement.
pub open spec fn be_signed(s: Seq<u8>) -> int {
    if s.len() > 0 && s[0] >= 128 {
        be_value(s) - pow256(s.len())
    } else {
        be_value(s) as int
    }
}

/// `256` to the power `k`.
pub open spec fn pow256(k: nat) -> nat
    decreases k,
{
    if k == 0 {
        1
    } else {
        256 * pow256((k - 1) as nat)
    }
}

/// The last `k` big-endian base-256 digits of `n`.
pub open spec fn be_bytes(n: nat, k: nat) -> Seq<u8>
    decreases k,
{
    if k == 0 {
        Seq::empty()
    } else {
        be_bytes(n / 256, (k - 1) as nat).push((n % 256) as u8)
    }
}

/// The two's-complement bit pattern of `v`, read as an unsigned number.
pub open spec fn i64_unsigned(v: i64) -> nat {
    if v >= 0 {
        v as nat
    } else {
        (v + 0x1_0000_0000_0000_0000) as nat
    }
}

} // verus!
