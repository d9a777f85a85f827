//! The login-phase disconnect packet.
use crate::buffer::{buf_bytes, buf_new};
use crate::byte_buf_utils::{add_size, framed, utf8_field, varint_bytes, write_utf8, write_varint, BufError};
use bytes::BytesMut;
use vstd::prelude::*;
use vstd::string::StringExecFns;
use vstd::utf8::encode_utf8;

verus! {

/// Disconnect packet: tells the client why it is being disconnected.
pub struct DisconnectPacket {
    pub reason: String,
}

impl Default for DisconnectPacket {
    /// Create empty disconnect packet
    fn default() -> (r: Self)
        ensures
            r.reason@ == Seq::<char>::empty(),
    {
        Self { reason: String::new() }
    }
}

/// The JSON text component that carries `reason`: `{"text":"` + reason + `"}`, the reason
/// put in as it is.
pub open spec fn disconnect_text(reason: Seq<char>) -> Seq<char> {
    "{\"text\":\""@ + reason + "\"}"@
}

/// The payload of a disconnect packet: packet id 0, then the text component as a string.
pub open spec fn disconnect_payload(reason: Seq<char>) -> Seq<u8> {
    varint_bytes(0) + utf8_field(disconnect_text(reason))
}

impl DisconnectPacket {
    /// Create disconnect packet with provided reason
    pub fn with_reason(reason: String) -> (r: Self)
        ensures
            r.reason == reason,
    {
        Self { reason }
    }

    /// Build packet for sending over network
    ///
    /// Fails when the text component is 32767 bytes long or longer.
    pub fn build(&self) -> (r: Result<BytesMut, BufError>)
        ensures
            encode_utf8(disconnect_text(self.reason@)).len() >= 32767 ==> r == Err::<
                BytesMut,
                BufError,
            >(BufError::StringTooLong),
            encode_utf8(disconnect_text(self.reason@)).len() < 32767 ==> (r matches Ok(b)
                && buf_bytes(b) == framed(disconnect_payload(self.reason@))),
    {
        let mut buffer = buf_new();
        write_varint(&mut buffer, 0x00);
        let mut text = "{\"text\":\"".to_owned();
        text.append(self.reason.as_str());
        text.append("\"}");
        assert(text@ == disconnect_text(self.reason@));
        match write_utf8(&mut buffer, text.as_str()) {
            Ok(()) => {},
            Err(e) => {
                return Err(e);
            },
        }
        Ok(add_size(&buffer))
    }
}

} // verus!
