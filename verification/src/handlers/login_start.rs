//! Handling the login start.
use crate::buffer::buf_bytes;
use crate::packets::encryption_response::omits_verify_token;
use crate::packets::login_start::{spec_parse_login_start, LoginStartPacket};
use crate::session::{disconnect_step, Session, SessionError, Step};
use vstd::prelude::*;

verus! {

/// How handling a login start at the front of `s` takes a session from `a` to `b`: the
/// player's name and UUID are taken from the packet. The result is `None` when the login
/// goes on, or the step that ends it: a parse failure, or the disconnect of a 1.19 to
/// 1.19.2 client when the configuration does not let those in.
pub open spec fn login_start_post(a: &Session, s: Seq<u8>, b: &Session, r: Option<Step>) -> bool {
    let (p, n) = spec_parse_login_start(s);
    &&& buf_bytes(b.buffer) == s.skip(n as int)
    &&& b.config == a.config
    &&& b.server_id == a.server_id
    &&& b.proto_ver == a.proto_ver
    &&& b.next_state == a.next_state
    &&& b.secret == a.secret
    &&& b.verify_token == a.verify_token
    &&& b.cipher == a.cipher
    &&& match p {
        Err(e) => {
            &&& b.nickname == a.nickname
            &&& b.uuid == a.uuid
            &&& r == Some(Step::Fail(SessionError::Buf(e)))
        },
        Ok((name, uuid)) => {
            &&& b.nickname matches Some(nm) && nm@ == name
            &&& b.uuid == uuid
            &&& if omits_verify_token(a.proto_ver) && !a.config.server.support_1_19 {
                r matches Some(step) && disconnect_step(
                    a.cipher,
                    a.config.messages.unsupported_client_version@,
                    Some(SessionError::UnsupportedVersion119),
                    step,
                )
            } else {
                r is None
            }
        },
    }
}

/// A login start that parses ends the login only for a 1.19 to 1.19.2 client (protocol 759
/// or 760) when the configuration does not let those in; with `support_1_19` set, or for
/// any other protocol, the login goes on.
pub proof fn law_login_start_1_19(a: &Session, s: Seq<u8>, b: &Session, r: Option<Step>)
    requires
        login_start_post(a, s, b, r),
        spec_parse_login_start(s).0 is Ok,
    ensures
        (a.config.server.support_1_19 || a.proto_ver < 759 || a.proto_ver > 760) ==> r is None,
        (!a.config.server.support_1_19 && 759 <= a.proto_ver <= 760) ==> r is Some,
{
}

impl Session {
    /// Handle login start packet from client
    pub fn handle_login_start(&mut self) -> (r: Option<Step>)
        ensures
            login_start_post(&*old(self), buf_bytes(old(self).buffer), &*final(self), r),
    {
        let packet = match LoginStartPacket::parse(&mut self.buffer) {
            Ok(p) => p,
            Err(e) => {
                return Some(Step::Fail(SessionError::Buf(e)));
            },
        };
        self.nickname = Some(packet.name);
        self.uuid = packet.uuid;
        if self.proto_ver >= 759 && self.proto_ver <= 760 && !self.config.server.support_1_19 {
            return Some(
                self.disconnect(
                    self.config.messages.unsupported_client_version.as_str(),
                    Some(SessionError::UnsupportedVersion119),
                ),
            );
        }
        None
    }
}

} // verus!
