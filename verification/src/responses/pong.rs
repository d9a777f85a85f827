//! The pong that answers a ping.
use crate::buffer::{
    be_bytes, be_signed, be_value, buf_bytes, buf_get_i64, buf_len, i64_unsigned, pow256,
};
use crate::byte_buf_utils::{framed, varint_bytes};
use crate::packets::ping::PingPacket;
use crate::session::{same_state, Session, Step};
use vstd::prelude::*;

verus! {

/// How answering a ping at the front of `s` takes a session from `a` to `b` with `step`:
/// the 8 payload bytes are taken and sent back after packet id 1; with fewer than 8 bytes
/// buffered the connection gives up.
pub open spec fn pong_post(a: &Session, s: Seq<u8>, b: &Session, step: Step) -> bool {
    &&& same_state(b, a)
    &&& if s.len() < 8 {
        step is Abort && buf_bytes(b.buffer) == s
    } else {
        &&& buf_bytes(b.buffer) == s.skip(8)
        &&& step matches Step::Send(p) && buf_bytes(p) == framed(varint_bytes(1) + s.take(8))
    }
}

proof fn lemma_be_value_bound(t: Seq<u8>)
    ensures
        be_value(t) < pow256(t.len()),
    decreases t.len(),
{
    if t.len() > 0 {
        lemma_be_value_bound(t.drop_last());
        let a = be_value(t.drop_last());
        let p = pow256((t.len() - 1) as nat);
        assert(a * 256 + t.last() < 256 * p) by (nonlinear_arith)
            requires
                a < p,
                t.last() < 256,
        ;
    }
}

proof fn lemma_be_bytes_of_value(t: Seq<u8>)
    ensures
        be_bytes(be_value(t), t.len()) == t,
    decreases t.len(),
{
    if t.len() > 0 {
        let u = t.drop_last();
        lemma_be_bytes_of_value(u);
        let n = be_value(t);
        assert(n / 256 == be_value(u));
        assert(n % 256 == t.last());
        assert(u.push(t.last()) =~= t);
    }
}

proof fn lemma_be_top_bit(t: Seq<u8>)
    requires
        t.len() > 0,
    ensures
        (t[0] >= 128) == (be_value(t) >= 128 * pow256((t.len() - 1) as nat)),
    decreases t.len(),
{
    if t.len() > 1 {
        let u = t.drop_last();
        lemma_be_top_bit(u);
        lemma_be_value_bound(u);
        assert(u[0] == t[0]);
        let a = be_value(u);
        let p = pow256((u.len() - 1) as nat);
        assert(pow256((t.len() - 1) as nat) == 256 * p);
        assert(be_value(t) == a * 256 + t.last());
        let l = t.last() as int;
        assert((a >= 128 * p) == (a * 256 + l >= 128 * (256 * p))) by (nonlinear_arith)
            requires
                0 <= l < 256,
                a >= 0,
                p >= 0,
        ;
    } else {
        assert(t.drop_last() =~= Seq::<u8>::empty());
        assert(be_value(t.drop_last()) == 0);
        assert(be_value(t) == t[0]);
        assert(pow256(0) == 1);
    }
}

/// The 8 bytes that `get_i64` reads are the ones that `put_i64` writes back.
proof fn lemma_i64_bytes_roundtrip(t: Seq<u8>)
    requires
        t.len() == 8,
    ensures
        be_bytes(i64_unsigned(be_signed(t) as i64), 8) == t,
{
    lemma_be_bytes_of_value(t);
    lemma_be_value_bound(t);
    lemma_be_top_bit(t);
    assert(pow256(8) == 0x1_0000_0000_0000_0000) by {
        reveal_with_fuel(pow256, 9);
    }
    assert(pow256(7) == 0x100_0000_0000_0000) by {
        reveal_with_fuel(pow256, 8);
    }
}

impl Session {
    /// Handle ping request: take its payload and answer with the same payload.
    pub fn send_pong(&mut self) -> (r: Step)
        ensures
            pong_post(&*old(self), buf_bytes(old(self).buffer), &*final(self), r),
    {
        if buf_len(&self.buffer) < 8 {
            return Step::Abort;
        }
        let ghost s = buf_bytes(self.buffer);
        let payload = buf_get_i64(&mut self.buffer);
        proof {
            lemma_i64_bytes_roundtrip(s.take(8));
        }
        let packet = PingPacket { payload };
        match packet.build() {
            Ok(b) => Step::Send(b),
            Err(e) => Step::Abort,
        }
    }
}

} // verus!
