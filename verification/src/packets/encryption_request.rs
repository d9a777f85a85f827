//! The encryption request packet, which hands the client the server's public key.
use crate::buffer::{buf_bytes, buf_extend, buf_new, buf_put_u8};
use crate::byte_buf_utils::{add_size, framed, utf8_field, varint_bytes, write_utf8, write_varint, BufError};
use bytes::BytesMut;
use vstd::prelude::*;
use vstd::utf8::encode_utf8;

verus! {

/// Encryption request packet.
pub struct EncryptionRequestPacket {
    pub server_id: String,
    pub public_key_length: i32,
    pub public_key: Vec<u8>,
    pub verify_token_length: i32,
    pub verify_token: Vec<u8>,
    pub should_authenticate: Option<bool>,
}

/// The payload of an encryption request: packet id 1, the server id as a string, the
/// public key and the verify token each after its length as a VarInt, then, where it is
/// given, the "should authenticate" flag as one byte.
pub open spec fn encryption_request_payload(
    server_id: Seq<char>,
    public_key_length: i32,
    public_key: Seq<u8>,
    verify_token_length: i32,
    verify_token: Seq<u8>,
    should_authenticate: Option<bool>,
) -> Seq<u8> {
    varint_bytes(1) + utf8_field(server_id) + varint_bytes(public_key_length as u32) + public_key
        + varint_bytes(verify_token_length as u32) + verify_token + match should_authenticate {
        Some(v) => seq![if v { 1u8 } else { 0u8 }],
        None => Seq::empty(),
    }
}

impl EncryptionRequestPacket {
    /// Packet carrying the given fields, the two lengths taken from the vectors.
    pub fn new(
        server_id: String,
        public_key: Vec<u8>,
        verify_token: Vec<u8>,
        should_authenticate: Option<bool>,
    ) -> (r: Self)
        ensures
            r.server_id == server_id,
            r.public_key == public_key,
            r.verify_token == verify_token,
            r.should_authenticate == should_authenticate,
            r.public_key_length == public_key@.len() as i32,
            r.verify_token_length == verify_token@.len() as i32,
    {
        Self {
            server_id,
            public_key_length: #[verifier::truncate] (public_key.len() as i32),
            public_key,
            verify_token_length: #[verifier::truncate] (verify_token.len() as i32),
            verify_token,
            should_authenticate,
        }
    }

    /// Build packet for sending over network
    ///
    /// Fails when the server id is 32767 bytes long or longer.
    pub fn build(&self) -> (r: Result<BytesMut, BufError>)
        ensures
            encode_utf8(self.server_id@).len() >= 32767 ==> r == Err::<BytesMut, BufError>(
                BufError::StringTooLong,
            ),
            encode_utf8(self.server_id@).len() < 32767 ==> (r matches Ok(b) && buf_bytes(b)
                == framed(
                encryption_request_payload(
                    self.server_id@,
                    self.public_key_length,
                    self.public_key@,
                    self.verify_token_length,
                    self.verify_token@,
                    self.should_authenticate,
                ),
            )),
    {
        let mut buffer = buf_new();
        write_varint(&mut buffer, 0x01);
        match write_utf8(&mut buffer, self.server_id.as_str()) {
            Ok(()) => {},
            Err(e) => {
                return Err(e);
            },
        }
        write_varint(&mut buffer, self.public_key_length);
        buf_extend(&mut buffer, self.public_key.as_slice());
        write_varint(&mut buffer, self.verify_token_length);
        buf_extend(&mut buffer, self.verify_token.as_slice());
        match self.should_authenticate {
            Some(v) => {
                buf_put_u8(&mut buffer, if v { 0x01 } else { 0x00 });
            },
            None => {},
        }
        assert(buf_bytes(buffer) =~= encryption_request_payload(
            self.server_id@,
            self.public_key_length,
            self.public_key@,
            self.verify_token_length,
            self.verify_token@,
            self.should_authenticate,
        ));
        Ok(add_size(&buffer))
    }
}

} // verus!
