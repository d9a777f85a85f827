//! The login start packet, which carries the player's name.
use crate::buffer::{be_value, buf_bytes};
use crate::byte_buf_utils::{
    lemma_read_utf8_len, read_utf8, spec_read_utf8, try_get_uuid, BufError,
};
use bytes::BytesMut;
use vstd::prelude::*;

verus! {

/// Login start packet: the player's name and, from clients that send one, their UUID.
pub struct LoginStartPacket {
    pub name: String,
    /// The UUID as a 128-bit big-endian number.
    pub uuid: Option<u128>,
}

/// What parsing a login start from the front of `s` gives (name characters, UUID) and how
/// many bytes it consumes: the name, then a UUID when 16 more bytes are there.
pub open spec fn spec_parse_login_start(s: Seq<u8>) -> (Result<(Seq<char>, Option<u128>), BufError>, nat) {
    let (r1, n1) = spec_read_utf8(s);
    let rest = s.skip(n1 as int);
    match r1 {
        Err(e) => (Err(e), n1),
        Ok(name) => if rest.len() >= 16 {
            (Ok((name, Some(be_value(rest.take(16)) as u128))), n1 + 16)
        } else {
            (Ok((name, None)), n1)
        },
    }
}

/// A login start parse result with the packet taken by its fields.
pub open spec fn login_start_result_view(r: Result<LoginStartPacket, BufError>) -> Result<
    (Seq<char>, Option<u128>),
    BufError,
> {
    match r {
        Ok(p) => Ok((p.name@, p.uuid)),
        Err(e) => Err(e),
    }
}

impl LoginStartPacket {
    /// Parses a login start from the front of `buff`.
    pub fn parse(buff: &mut BytesMut) -> (r: Result<Self, BufError>)
        ensures
            login_start_result_view(r) == spec_parse_login_start(buf_bytes(*old(buff))).0,
            buf_bytes(*final(buff)) == buf_bytes(*old(buff)).skip(
                spec_parse_login_start(buf_bytes(*old(buff))).1 as int,
            ),
    {
        let ghost s = buf_bytes(*buff);
        let ghost n1 = spec_read_utf8(s).1;
        proof {
            lemma_read_utf8_len(s);
            if s.len() >= n1 + 16 {
                assert(s.skip(n1 as int).skip(16) =~= s.skip((n1 + 16) as int));
            }
        }
        let name = match read_utf8(buff) {
            Ok(v) => v,
            Err(e) => {
                return Err(e);
            },
        };
        let uuid = try_get_uuid(buff);
        Ok(Self { name, uuid })
    }
}

} // verus!
