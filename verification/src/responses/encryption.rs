//! The encryption request that answers a login start.
use crate::buffer::buf_bytes;
use crate::byte_buf_utils::{framed, utf8_field, varint_bytes, BufError};
use crate::crypto::{public_der_of, public_key_der};
use crate::packets::encryption_request::{encryption_request_payload, EncryptionRequestPacket};
use crate::session::{Session, SessionError, Step};
use rsa::RsaPrivateKey;
use vstd::prelude::*;
use vstd::utf8::encode_utf8;

verus! {

/// Whether clients of protocol `proto_ver` (1.20.5 on) are told that they should
/// authenticate.
pub open spec fn should_authenticate(proto_ver: usize) -> Option<bool> {
    if proto_ver >= 766 {
        Some(true)
    } else {
        None
    }
}

/// The step that sends session `a`'s encryption request with public key `der`.
pub open spec fn encryption_request_step(a: &Session, der: Seq<u8>, step: Step) -> bool {
    if encode_utf8(a.server_id@).len() >= 32767 {
        step == Step::Fail(SessionError::Buf(BufError::StringTooLong))
    } else {
        step matches Step::Send(b) && buf_bytes(b) == framed(
            encryption_request_payload(
                a.server_id@,
                der.len() as i32,
                der,
                4,
                a.verify_token@,
                should_authenticate(a.proto_ver),
            ),
        )
    }
}

/// Clients from protocol 766 (1.20.5) on are told to authenticate with the session server;
/// older clients get no flag at all.
pub proof fn law_modern_clients_authenticate(proto_ver: usize)
    ensures
        proto_ver >= 766 ==> should_authenticate(proto_ver) == Some(true),
        proto_ver < 766 ==> should_authenticate(proto_ver) == None::<bool>,
{
}

/// The encryption request that a client from protocol 766 on receives ends with the byte
/// 1, the flag that tells it to join through the session server.
pub proof fn law_request_ends_with_authenticate(a: &Session, der: Seq<u8>, step: Step)
    requires
        a.proto_ver >= 766,
        encryption_request_step(a, der, step),
        step is Send,
    ensures
        buf_bytes(step->Send_0).len() > 0,
        buf_bytes(step->Send_0).last() == 1u8,
{
    let payload = encryption_request_payload(
        a.server_id@,
        der.len() as i32,
        der,
        4,
        a.verify_token@,
        should_authenticate(a.proto_ver),
    );
    let head = varint_bytes(1) + utf8_field(a.server_id@) + varint_bytes((der.len() as i32) as u32)
        + der + varint_bytes(4) + a.verify_token@;
    assert(payload =~= head + seq![1u8]);
    let f = framed(payload);
    assert(f =~= varint_bytes((payload.len() as i32) as u32) + payload);
    assert(f.last() == payload.last());
}

impl Session {
    /// The encryption request carrying the public key `public_der`, the server id and the
    /// verify token.
    pub fn encryption_request(&self, public_der: Vec<u8>) -> (r: Step)
        ensures
            encryption_request_step(self, public_der@, r),
    {
        let should_authenticate = if self.proto_ver >= 766 {
            Some(true)
        } else {
            None
        };
        let token = vec![
            self.verify_token[0],
            self.verify_token[1],
            self.verify_token[2],
            self.verify_token[3],
        ];
        assert(token@ =~= self.verify_token@);
        let packet = EncryptionRequestPacket::new(
            self.server_id.clone(),
            public_der,
            token,
            should_authenticate,
        );
        match packet.build() {
            Ok(b) => Step::Send(b),
            Err(e) => Step::Fail(SessionError::Buf(e)),
        }
    }

    /// Send encryption request: the server's public key, the server id and the verify
    /// token. Fails when the key cannot be encoded.
    pub fn send_encryption(&self, keys: &RsaPrivateKey) -> (r: Step)
        ensures
            match public_der_of(*keys) {
                Some(der) => encryption_request_step(self, der, r),
                None => r == Step::Fail(SessionError::PublicKeyEncoding),
            },
    {
        match public_key_der(keys) {
            Some(der) => self.encryption_request(der),
            None => Step::Fail(SessionError::PublicKeyEncoding),
        }
    }
}

} // verus!
