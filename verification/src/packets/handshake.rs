//! The handshake packet, the first one a client sends.
use crate::buffer::buf_bytes;
use crate::byte_buf_utils::{
    lemma_read_utf8_len, lemma_read_varint_len, read_unsigned_short, read_utf8, read_varint,
    spec_read_unsigned_short, spec_read_utf8, spec_read_varint, BufError,
};
use bytes::BytesMut;
use vstd::prelude::*;

verus! {

/// Handshake packet: protocol version, the address and port the client connected to, and
/// the state it asks for next.
pub struct HandshakePacket {
    pub proto_ver: usize,
    pub server_addr: String,
    pub port: u16,
    pub next_state: usize,
}

/// What parsing a handshake from the front of `s` gives (protocol version, address
/// characters, port, next state) and how many bytes it consumes: the four fields read one
/// after the other, the first failure ending the parse.
pub open spec fn spec_parse_handshake(s: Seq<u8>) -> (
    Result<(usize, Seq<char>, u16, usize), BufError>,
    nat,
) {
    let (r1, n1) = spec_read_varint(s);
    let s2 = s.skip(n1 as int);
    let (r2, n2) = spec_read_utf8(s2);
    let s3 = s2.skip(n2 as int);
    let (r3, n3) = spec_read_unsigned_short(s3);
    let s4 = s3.skip(n3 as int);
    let (r4, n4) = spec_read_varint(s4);
    match r1 {
        Err(e) => (Err(e), n1),
        Ok(proto_ver) => match r2 {
            Err(e) => (Err(e), n1 + n2),
            Ok(addr) => match r3 {
                Err(e) => (Err(e), n1 + n2 + n3),
                Ok(port) => match r4 {
                    Err(e) => (Err(e), n1 + n2 + n3 + n4),
                    Ok(next_state) => (Ok((proto_ver, addr, port, next_state)), n1 + n2 + n3 + n4),
                },
            },
        },
    }
}

/// A handshake parse result with the packet taken by its fields.
pub open spec fn handshake_result_view(r: Result<HandshakePacket, BufError>) -> Result<
    (usize, Seq<char>, u16, usize),
    BufError,
> {
    match r {
        Ok(p) => Ok((p.proto_ver, p.server_addr@, p.port, p.next_state)),
        Err(e) => Err(e),
    }
}

impl HandshakePacket {
    /// Parses a handshake from the front of `buff`; what was read before a failing field
    /// stays taken.
    pub fn parse(buff: &mut BytesMut) -> (r: Result<Self, BufError>)
        ensures
            handshake_result_view(r) == spec_parse_handshake(buf_bytes(*old(buff))).0,
            buf_bytes(*final(buff)) == buf_bytes(*old(buff)).skip(
                spec_parse_handshake(buf_bytes(*old(buff))).1 as int,
            ),
    {
        let ghost s = buf_bytes(*buff);
        let ghost n1 = spec_read_varint(s).1;
        let ghost s2 = s.skip(n1 as int);
        let ghost n2 = spec_read_utf8(s2).1;
        let ghost s3 = s2.skip(n2 as int);
        let ghost n3 = spec_read_unsigned_short(s3).1;
        let ghost s4 = s3.skip(n3 as int);
        proof {
            lemma_read_varint_len(s);
            lemma_read_utf8_len(s2);
            assert(s2.skip(n2 as int) =~= s.skip((n1 + n2) as int));
            assert(s3.skip(n3 as int) =~= s.skip((n1 + n2 + n3) as int));
            lemma_read_varint_len(s4);
            assert(s4.skip(spec_read_varint(s4).1 as int) =~= s.skip(
                (n1 + n2 + n3 + spec_read_varint(s4).1) as int,
            ));
        }
        let proto_ver = match read_varint(buff) {
            Ok(v) => v,
            Err(e) => {
                return Err(e);
            },
        };
        let server_addr = match read_utf8(buff) {
            Ok(v) => v,
            Err(e) => {
                return Err(e);
            },
        };
        let port = match read_unsigned_short(buff) {
            Ok(v) => v,
            Err(e) => {
                return Err(e);
            },
        };
        let next_state = match read_varint(buff) {
            Ok(v) => v,
            Err(e) => {
                return Err(e);
            },
        };
        Ok(Self { proto_ver, server_addr, port, next_state })
    }
}

} // verus!
