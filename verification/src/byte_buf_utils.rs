//! VarInt, string and integer fields of the protocol, read from and written to a buffer.
use crate::buffer::{
    be_value, buf_advance, buf_as_slice, buf_bytes, buf_extend, buf_get_u16, buf_len,
    buf_new, buf_put_u8, buf_split_to, buf_to_vec, buf_try_get_u128,
};
use vstd::utf8::{decode_utf8, encode_utf8, valid_utf8};
use bytes::BytesMut;
use vstd::prelude::*;

verus! {

/// Why a field could not be read from or written to a buffer.
#[derive(Debug, Clone, Copy, PartialEq, Eq, Structural)]
pub enum BufError {
    /// Fewer bytes are buffered than the field needs.
    UnexpectedEof,
    /// A VarInt runs on past its fifth byte.
    VarIntTooBig,
    /// A string field does not hold UTF-8.
    InvalidUtf8,
    /// A string is too long to be written (32767 bytes or more).
    StringTooLong,
}

/// `128` to the power `k`.
pub open spec fn pow128(k: nat) -> nat
    decreases k,
{
    if k == 0 {
        1
    } else {
        128 * pow128((k - 1) as nat)
    }
}

/// The bytes that encode `v` as a VarInt: seven bits at a time, least significant group
/// first, the top bit of every byte but the last one set.
pub open spec fn varint_bytes(v: u32) -> Seq<u8>
    decreases v,
{
    if v < 128 {
        seq![v as u8]
    } else {
        seq![(v % 128 + 128) as u8] + varint_bytes(v / 128)
    }
}

/// How a VarInt read that has consumed `k` continuation bytes of `s` goes on: the number of
/// bytes it consumes in all, and whether it succeeds. The read stops at the end of the data
/// or after a byte whose top bit is clear, and fails once it has consumed a sixth byte.
pub open spec fn varint_scan(s: Seq<u8>, k: nat) -> (nat, bool)
    decreases 5 - k,
{
    if k >= s.len() {
        (k, true)
    } else if k >= 5 {
        (k + 1, false)
    } else if s[k as int] < 128 {
        (k + 1, true)
    } else {
        varint_scan(s, k + 1)
    }
}

/// The number that the first `n` bytes of `s` give as VarInt groups: the low seven bits
/// of each byte, least significant group first.
pub open spec fn varint_value(s: Seq<u8>, n: nat) -> nat
    decreases n,
{
    if n == 0 || s.len() == 0 {
        0
    } else {
        (s[0] % 128) as nat + 128 * varint_value(s.drop_first(), (n - 1) as nat)
    }
}

/// What reading a VarInt from the front of `s` gives, and how many bytes it consumes.
pub open spec fn spec_read_varint(s: Seq<u8>) -> (Result<usize, BufError>, nat) {
    let (n, ok) = varint_scan(s, 0);
    if ok {
        (Ok(varint_value(s, n) as usize), n)
    } else {
        (Err(BufError::VarIntTooBig), n)
    }
}

/// A VarInt read never consumes more bytes than there are.
pub proof fn lemma_varint_scan_len(s: Seq<u8>, k: nat)
    requires
        k <= s.len(),
    ensures
        varint_scan(s, k).0 <= s.len(),
        varint_scan(s, k).0 >= k,
    decreases 5 - k,
{
    if k < s.len() && k < 5 && s[k as int] >= 128 {
        lemma_varint_scan_len(s, k + 1);
    }
}

proof fn lemma_varint_value_step(s: Seq<u8>, k: nat)
    requires
        k < s.len(),
    ensures
        varint_value(s, k + 1) == varint_value(s, k) + (s[k as int] % 128) as nat * pow128(k),
    decreases k,
{
    let d = (s[k as int] % 128) as nat;
    if k > 0 {
        let r = s.drop_first();
        lemma_varint_value_step(r, (k - 1) as nat);
        assert(r[k - 1] == s[k as int]);
        let a = varint_value(r, (k - 1) as nat);
        let p = pow128((k - 1) as nat);
        assert(varint_value(r, k) == a + d * p);
        assert(varint_value(s, k + 1) == (s[0] % 128) as nat + 128 * varint_value(r, k));
        assert(varint_value(s, k) == (s[0] % 128) as nat + 128 * a);
        assert(pow128(k) == 128 * p);
        assert(128 * (a + d * p) == 128 * a + d * (128 * p)) by (nonlinear_arith);
    } else {
        assert(varint_value(s.drop_first(), 0) == 0);
        assert(varint_value(s, 1) == d + 128 * varint_value(s.drop_first(), 0));
        assert(pow128(0) == 1);
    }
}

proof fn lemma_varint_value_bound(s: Seq<u8>, k: nat)
    ensures
        varint_value(s, k) < pow128(k),
    decreases k,
{
    if k > 0 && s.len() > 0 {
        lemma_varint_value_bound(s.drop_first(), (k - 1) as nat);
        let a = varint_value(s.drop_first(), (k - 1) as nat);
        let p = pow128((k - 1) as nat);
        assert(a + 1 <= p);
        assert(128 * (a + 1) <= 128 * p) by (nonlinear_arith)
            requires a + 1 <= p;
    } else if k > 0 {
        assert(pow128(k) == 128 * pow128((k - 1) as nat));
        lemma_pow128_positive((k - 1) as nat);
    }
}

proof fn lemma_pow128_positive(k: nat)
    ensures
        pow128(k) >= 1,
    decreases k,
{
    if k > 0 {
        lemma_pow128_positive((k - 1) as nat);
    }
}

proof fn lemma_varint_scan_skip(s: Seq<u8>, k: nat)
    requires
        k <= 5,
        k <= s.len(),
        forall|i: int| 0 <= i < k ==> #[trigger] s[i] >= 128,
    ensures
        varint_scan(s, 0) == varint_scan(s, k),
    decreases k,
{
    if k > 0 {
        lemma_varint_scan_skip(s, (k - 1) as nat);
        assert(s[k - 1] >= 128);
    }
}

/// Reads a VarInt (at most five bytes) from `bytes`, starting at `pos`, without taking
/// anything: returns what the read gives and how many bytes it would take.
pub fn varint_at(bytes: &[u8], pos: usize) -> (r: (Result<usize, BufError>, usize))
    requires
        pos <= bytes@.len(),
    ensures
        r.0 == spec_read_varint(bytes@.skip(pos as int)).0,
        r.1 == spec_read_varint(bytes@.skip(pos as int)).1,
{
    let ghost s = bytes@.skip(pos as int);
    let mut value: u64 = 0;
    let mut mult: u64 = 1;
    let mut count: usize = 0;
    loop
        invariant
            pos <= bytes@.len(),
            s == bytes@.skip(pos as int),
            count <= 5,
            count <= s.len(),
            value == varint_value(s, count as nat),
            mult == pow128(count as nat),
            forall|i: int| 0 <= i < count ==> #[trigger] s[i] >= 128,
        decreases s.len() - count,
    {
        proof {
            lemma_varint_scan_skip(s, count as nat);
            lemma_varint_value_bound(s, count as nat);
            assert(pow128(5) == 34359738368) by {
                reveal_with_fuel(pow128, 6);
            }
        }
        if count >= bytes.len() - pos {
            assert(varint_scan(s, count as nat) == (count as nat, true));
            return (Ok(#[verifier::truncate] (value as usize)), count);
        }
        let byte = bytes[pos + count];
        assert(byte == s[count as int]);
        proof {
            lemma_varint_value_step(s, count as nat);
            assert(byte & 0x7F == byte % 128) by (bit_vector);
            assert((byte & 0x80 == 0) == (byte < 128)) by (bit_vector);
            assert(pow128(count as nat) <= pow128(5)) by {
                lemma_pow128_mono(count as nat, 5);
            }
            assert((byte % 128) as nat * pow128(count as nat) <= 127 * 34359738368)
                by (nonlinear_arith)
                requires
                    byte % 128 <= 127,
                    pow128(count as nat) <= 34359738368,
            ;
        }
        value = value + ((byte & 0x7F) as u64) * mult;
        count = count + 1;
        if count > 5 {
            return (Err(BufError::VarIntTooBig), count);
        }
        if byte & 0x80 == 0 {
            return (Ok(#[verifier::truncate] (value as usize)), count);
        }
        mult = mult * 128;
    }
}

/// Reads a VarInt (at most five bytes) from the front of `buf`.
///
/// The read stops at the end of the buffer or after a byte whose top bit is clear; it
/// fails with `VarIntTooBig` once it has taken a sixth byte. The bytes it took stay taken.
pub fn read_varint(buf: &mut BytesMut) -> (r: Result<usize, BufError>)
    ensures
        r == spec_read_varint(buf_bytes(*old(buf))).0,
        buf_bytes(*final(buf)) == buf_bytes(*old(buf)).skip(
            spec_read_varint(buf_bytes(*old(buf))).1 as int,
        ),
{
    let (r, n) = varint_at(buf_as_slice(buf), 0);
    assert(buf_bytes(*buf).skip(0) =~= buf_bytes(*buf));
    proof {
        lemma_varint_scan_len(buf_bytes(*buf), 0);
    }
    buf_advance(buf, n);
    r
}

proof fn lemma_pow128_mono(a: nat, b: nat)
    requires
        a <= b,
    ensures
        pow128(a) <= pow128(b),
    decreases b,
{
    if a < b {
        lemma_pow128_mono(a, (b - 1) as nat);
        lemma_pow128_positive((b - 1) as nat);
    }
}


/// Writes `value` to the end of `buf` as a VarInt of its 32-bit two's-complement pattern
/// (one to five bytes).
pub fn write_varint(buf: &mut BytesMut, value: i32)
    ensures
        buf_bytes(*final(buf)) == buf_bytes(*old(buf)) + varint_bytes(value as u32),
{
    let mut val: u32 = #[verifier::truncate] (value as u32);
    let ghost v0 = val;
    loop
        invariant_except_break
            buf_bytes(*buf) + varint_bytes(val) == buf_bytes(*old(buf)) + varint_bytes(v0),
        ensures
            buf_bytes(*buf) == buf_bytes(*old(buf)) + varint_bytes(v0),
        decreases val,
    {
        let ghost before = buf_bytes(*buf);
        let ghost cur = val;
        let mut temp: u8 = (val & 0x7F) as u8;
        proof {
            assert(cur & 0x7F == cur % 128) by (bit_vector);
            assert(cur >> 7 == cur / 128) by (bit_vector);
        }
        val = val >> 7;
        if val != 0 {
            proof {
                let t = temp;
                assert(t < 128 ==> (t | 0x80) == t + 128) by (bit_vector);
            }
            temp = temp | 0x80;
        }
        buf_put_u8(buf, temp);
        if val == 0 {
            assert(varint_bytes(cur) == seq![cur as u8]);
            assert(before.push(temp) == before + varint_bytes(cur));
            break;
        }
        assert(varint_bytes(cur) == seq![temp] + varint_bytes(val));
        assert(before.push(temp) + varint_bytes(val) =~= before + varint_bytes(cur));
    }
}

/// The bytes that frame `payload` as a packet: its length as a VarInt, then the payload.
pub open spec fn framed(payload: Seq<u8>) -> Seq<u8> {
    varint_bytes((payload.len() as i32) as u32) + payload
}

/// Returns `data` with its length put in front as a VarInt.
pub fn add_size(data: &BytesMut) -> (r: BytesMut)
    ensures
        buf_bytes(r) == framed(buf_bytes(*data)),
{
    let mut packet = buf_new();
    let len = buf_len(data);
    write_varint(&mut packet, #[verifier::truncate] (len as i32));
    buf_extend(&mut packet, buf_as_slice(data));
    packet
}

/// What reading a big-endian unsigned short from the front of `s` gives, and how many
/// bytes it consumes.
pub open spec fn spec_read_unsigned_short(s: Seq<u8>) -> (Result<u16, BufError>, nat) {
    if s.len() < 2 {
        (Err(BufError::UnexpectedEof), 0)
    } else {
        (Ok(be_value(s.take(2)) as u16), 2)
    }
}

/// Reads a big-endian unsigned short from the front of `buf`.
pub fn read_unsigned_short(buf: &mut BytesMut) -> (r: Result<u16, BufError>)
    ensures
        r == spec_read_unsigned_short(buf_bytes(*old(buf))).0,
        buf_bytes(*final(buf)) == buf_bytes(*old(buf)).skip(
            spec_read_unsigned_short(buf_bytes(*old(buf))).1 as int,
        ),
{
    if buf_len(buf) < 2 {
        assert(buf_bytes(*buf).skip(0) =~= buf_bytes(*buf));
        return Err(BufError::UnexpectedEof);
    }
    Ok(buf_get_u16(buf))
}

/// What reading a length-prefixed UTF-8 string from the front of `s` gives (as its
/// characters), and how many bytes it consumes.
pub open spec fn spec_read_utf8(s: Seq<u8>) -> (Result<Seq<char>, BufError>, nat) {
    let (len, n) = spec_read_varint(s);
    match len {
        Err(e) => (Err(e), n),
        Ok(len) => {
            let rest = s.skip(n as int);
            if rest.len() < len {
                (Err(BufError::UnexpectedEof), n)
            } else if valid_utf8(rest.take(len as int)) {
                (Ok(decode_utf8(rest.take(len as int))), n + len as nat)
            } else {
                (Err(BufError::InvalidUtf8), n + len as nat)
            }
        },
    }
}

/// A read result with the string taken by its characters.
pub open spec fn string_result_view(r: Result<String, BufError>) -> Result<Seq<char>, BufError> {
    match r {
        Ok(s) => Ok(s@),
        Err(e) => Err(e),
    }
}

/// `String::from_utf8`: the string that `bytes` encode, if they are UTF-8.
#[verifier::external_body]
fn string_from_utf8(bytes: Vec<u8>) -> (r: Option<String>)
    ensures
        r is Some <==> valid_utf8(bytes@),
        r matches Some(s) ==> s@ == decode_utf8(bytes@),
{
    String::from_utf8(bytes).ok()
}

/// Reads a UTF-8 string that a VarInt length precedes from the front of `buf`.
///
/// When too few bytes follow the length, only the length stays taken; when the bytes are
/// not UTF-8, they are taken as well.
pub fn read_utf8(buf: &mut BytesMut) -> (r: Result<String, BufError>)
    ensures
        string_result_view(r) == spec_read_utf8(buf_bytes(*old(buf))).0,
        buf_bytes(*final(buf)) == buf_bytes(*old(buf)).skip(
            spec_read_utf8(buf_bytes(*old(buf))).1 as int,
        ),
{
    let ghost s = buf_bytes(*buf);
    let len = match read_varint(buf) {
        Ok(len) => len,
        Err(e) => {
            return Err(e);
        },
    };
    let ghost n = spec_read_varint(s).1;
    proof {
        lemma_varint_scan_len(s, 0);
    }
    if buf_len(buf) < len {
        return Err(BufError::UnexpectedEof);
    }
    let bytes = buf_split_to(buf, len);
    assert(s.skip(n as int).skip(len as int) =~= s.skip(n + len));
    match string_from_utf8(buf_to_vec(&bytes)) {
        Some(st) => Ok(st),
        None => Err(BufError::InvalidUtf8),
    }
}

/// The bytes of a string field: the length of the UTF-8 encoding of `s` as a VarInt, then
/// that encoding.
pub open spec fn utf8_field(s: Seq<char>) -> Seq<u8> {
    varint_bytes(encode_utf8(s).len() as u32) + encode_utf8(s)
}

/// Writes `value` to the end of `buf` as a length-prefixed UTF-8 string; refuses a string
/// of 32767 bytes or more and then leaves `buf` as it was.
pub fn write_utf8(buf: &mut BytesMut, value: &str) -> (r: Result<(), BufError>)
    ensures
        encode_utf8(value@).len() >= 32767 ==> r == Err::<(), BufError>(BufError::StringTooLong)
            && buf_bytes(*final(buf)) == buf_bytes(*old(buf)),
        encode_utf8(value@).len() < 32767 ==> r is Ok && buf_bytes(*final(buf)) == buf_bytes(
            *old(buf),
        ) + utf8_field(value@),
{
    let bytes = value.as_bytes();
    if bytes.len() >= 32767 {
        return Err(BufError::StringTooLong);
    }
    write_varint(buf, bytes.len() as i32);
    buf_extend(buf, bytes);
    assert(buf_bytes(*buf) =~= buf_bytes(*old(buf)) + utf8_field(value@));
    Ok(())
}

/// Reads a UUID (16 big-endian bytes) from the front of `buf`; takes nothing and gives
/// `None` when fewer than 16 bytes are buffered.
pub fn try_get_uuid(buf: &mut BytesMut) -> (r: Option<u128>)
    ensures
        buf_bytes(*old(buf)).len() >= 16 ==> r == Some(
            be_value(buf_bytes(*old(buf)).take(16)) as u128,
        ) && buf_bytes(*final(buf)) == buf_bytes(*old(buf)).skip(16),
        buf_bytes(*old(buf)).len() < 16 ==> r is None && buf_bytes(*final(buf)) == buf_bytes(
            *old(buf),
        ),
{
    buf_try_get_u128(buf)
}


/// Shape of a VarInt encoding: one to five bytes, every byte but the last with its top bit
/// set, and the groups giving back the encoded number.
pub proof fn lemma_varint_bytes_shape(v: u32)
    ensures
        1 <= varint_bytes(v).len() <= 5,
        forall|i: int|
            0 <= i < varint_bytes(v).len() - 1 ==> #[trigger] varint_bytes(v)[i] >= 128,
        varint_bytes(v)[varint_bytes(v).len() - 1] < 128,
        varint_value(varint_bytes(v), varint_bytes(v).len()) == v,
        v < pow128(varint_bytes(v).len()),
        varint_bytes(v).len() > 1 ==> v >= pow128((varint_bytes(v).len() - 1) as nat),
    decreases v,
{
    let b = varint_bytes(v);
    if v < 128 {
        assert(pow128(1) == 128) by {
            reveal_with_fuel(pow128, 2);
        }
        assert(b.drop_first() =~= Seq::<u8>::empty());
        assert(varint_value(b, 1) == (b[0] % 128) as nat + 128 * varint_value(b.drop_first(), 0));
    } else {
        let q = v / 128;
        lemma_varint_bytes_shape(q);
        let t = varint_bytes(q);
        assert(b.drop_first() =~= t);
        assert(b.len() == t.len() + 1);
        assert forall|i: int| 0 <= i < b.len() - 1 implies #[trigger] b[i] >= 128 by {
            if i > 0 {
                assert(b[i] == t[i - 1]);
            }
        }
        assert(b[b.len() - 1] == t[t.len() - 1]);
        assert(varint_value(b, b.len()) == (b[0] % 128) as nat + 128 * varint_value(t, t.len()));
        assert(b[0] % 128 == v % 128);
        assert(pow128(b.len()) == 128 * pow128(t.len()));
        assert(q < pow128(t.len()));
        assert(v < 128 * pow128(t.len())) by (nonlinear_arith)
            requires
                q == v / 128,
                q < pow128(t.len()),
        ;
        if t.len() > 1 {
            let p = pow128((t.len() - 1) as nat);
            assert(v >= 128 * p) by (nonlinear_arith)
                requires
                    q == v / 128,
                    q >= p,
            ;
        } else {
            assert(pow128(1) == 128) by {
                reveal_with_fuel(pow128, 2);
            }
        }
        assert(v < 4294967296);
        if t.len() >= 5 {
            lemma_pow128_mono(4, (t.len() - 1) as nat);
            assert(pow128(4) == 268435456) by {
                reveal_with_fuel(pow128, 5);
            }
            assert(q >= 268435456);
            assert(false);
        }
    }
}

/// A VarInt that `write_varint` produced reads back as the same number, and the read takes
/// exactly its bytes, whatever follows them.
pub proof fn lemma_varint_roundtrip(v: u32, rest: Seq<u8>)
    ensures
        spec_read_varint(varint_bytes(v) + rest) == (
            Ok::<usize, BufError>(v as usize),
            varint_bytes(v).len(),
        ),
{
    let b = varint_bytes(v);
    let s = b + rest;
    lemma_varint_bytes_shape(v);
    let l = b.len();
    assert forall|i: int| 0 <= i < (l - 1) as nat implies #[trigger] s[i] >= 128 by {
        assert(s[i] == b[i]);
    }
    lemma_varint_scan_skip(s, (l - 1) as nat);
    assert(s[l - 1] == b[l - 1]);
    assert(varint_scan(s, 0) == (l, true));
    lemma_varint_value_prefix(b, rest, l);
}

/// The VarInt value of the first `n` bytes depends on those bytes alone.
pub proof fn lemma_varint_value_prefix(b: Seq<u8>, rest: Seq<u8>, n: nat)
    requires
        n <= b.len(),
    ensures
        varint_value(b + rest, n) == varint_value(b, n),
    decreases n,
{
    if n > 0 {
        assert((b + rest).drop_first() =~= b.drop_first() + rest);
        lemma_varint_value_prefix(b.drop_first(), rest, (n - 1) as nat);
    }
}

/// A string field that `write_utf8` produced reads back as the same string, and the read
/// takes exactly its bytes, whatever follows them.
pub proof fn lemma_utf8_roundtrip(chars: Seq<char>, rest: Seq<u8>)
    requires
        encode_utf8(chars).len() < 32767,
    ensures
        spec_read_utf8(utf8_field(chars) + rest) == (
            Ok::<Seq<char>, BufError>(chars),
            utf8_field(chars).len(),
        ),
{
    let e = encode_utf8(chars);
    let vb = varint_bytes(e.len() as u32);
    let s = utf8_field(chars) + rest;
    assert(s =~= vb + (e + rest));
    lemma_varint_roundtrip(e.len() as u32, e + rest);
    assert(s.skip(vb.len() as int) =~= e + rest);
    assert((e + rest).take(e.len() as int) =~= e);
    vstd::utf8::encode_utf8_valid_utf8(chars);
    vstd::utf8::encode_utf8_decode_utf8(chars);
}

/// The length in front of a framed packet reads back as the payload's length, and the
/// read leaves the payload and whatever follows it.
pub proof fn lemma_frame_roundtrip(payload: Seq<u8>, rest: Seq<u8>)
    requires
        payload.len() <= i32::MAX,
    ensures
        spec_read_varint(framed(payload) + rest) == (
            Ok::<usize, BufError>(payload.len() as usize),
            varint_bytes(payload.len() as u32).len(),
        ),
        (framed(payload) + rest).skip(varint_bytes(payload.len() as u32).len() as int)
            == payload + rest,
{
    let vb = varint_bytes(payload.len() as u32);
    assert((payload.len() as i32) as u32 == payload.len() as u32);
    assert(framed(payload) + rest =~= vb + (payload + rest));
    lemma_varint_roundtrip(payload.len() as u32, payload + rest);
    assert((vb + (payload + rest)).skip(vb.len() as int) =~= payload + rest);
}


/// A string read never consumes more bytes than there are.
pub proof fn lemma_read_utf8_len(s: Seq<u8>)
    ensures
        spec_read_utf8(s).1 <= s.len(),
{
    lemma_varint_scan_len(s, 0);
}

/// A VarInt read never consumes more bytes than there are.
pub proof fn lemma_read_varint_len(s: Seq<u8>)
    ensures
        spec_read_varint(s).1 <= s.len(),
{
    lemma_varint_scan_len(s, 0);
}

} // verus!
