//! Handling the handshake.
use crate::buffer::buf_bytes;
use crate::packets::handshake::{spec_parse_handshake, HandshakePacket};
use crate::session::{disconnect_step, NextStateEnum, Session, SessionError, Step};
use vstd::prelude::*;

verus! {

/// The state that a handshake's "next state" field asks for.
pub open spec fn state_for(next_state: usize) -> NextStateEnum {
    if next_state == 1 {
        NextStateEnum::Status
    } else if next_state == 2 {
        NextStateEnum::Login
    } else {
        NextStateEnum::Unknown
    }
}

/// How handling a handshake at the front of `s` takes a session from `a` to `b` with
/// `step`: the protocol version and the next state are taken from the packet; then a
/// client that connected through another host name than the configured one is
/// disconnected. The configured protocol version plays no part here: it only goes into
/// the status response.
pub open spec fn handshake_post(a: &Session, s: Seq<u8>, b: &Session, step: Step) -> bool {
    let (r, n) = spec_parse_handshake(s);
    &&& buf_bytes(b.buffer) == s.skip(n as int)
    &&& b.config == a.config
    &&& b.server_id == a.server_id
    &&& b.nickname == a.nickname
    &&& b.uuid == a.uuid
    &&& b.secret == a.secret
    &&& b.verify_token == a.verify_token
    &&& b.cipher == a.cipher
    &&& match r {
        Err(e) => {
            &&& b.proto_ver == a.proto_ver
            &&& b.next_state == a.next_state
            &&& step == Step::Fail(SessionError::Buf(e))
        },
        Ok((proto_ver, addr, _port, next_state)) => {
            &&& b.proto_ver == proto_ver
            &&& b.next_state == state_for(next_state)
            &&& if a.config.server.server_ip matches Some(ip) && ip@ != addr {
                disconnect_step(
                    a.cipher,
                    a.config.messages.using_proxy@,
                    Some(SessionError::ClientUsingProxy),
                    step,
                )
            } else {
                step == Step::Continue
            }
        },
    }
}

impl Session {
    /// Handle handshake packet
    ///
    /// Also check client's connection host
    pub fn handle_handshake(&mut self) -> (r: Step)
        ensures
            handshake_post(&*old(self), buf_bytes(old(self).buffer), &*final(self), r),
    {
        let handshake = match HandshakePacket::parse(&mut self.buffer) {
            Ok(h) => h,
            Err(e) => {
                return Step::Fail(SessionError::Buf(e));
            },
        };
        self.proto_ver = handshake.proto_ver;
        self.next_state = if handshake.next_state == 1 {
            NextStateEnum::Status
        } else if handshake.next_state == 2 {
            NextStateEnum::Login
        } else {
            NextStateEnum::Unknown
        };
        // Check client's connecting hostname
        match &self.config.server.server_ip {
            Some(server_ip) => {
                if !server_ip.eq(&handshake.server_addr) {
                    return self.disconnect(
                        self.config.messages.using_proxy.as_str(),
                        Some(SessionError::ClientUsingProxy),
                    );
                }
            },
            None => {},
        }
        Step::Continue
    }
}

} // verus!
