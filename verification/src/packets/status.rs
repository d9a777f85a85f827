//! The status response packet, which carries the server-list entry as JSON.
use crate::buffer::{buf_bytes, buf_new};
use crate::byte_buf_utils::{add_size, framed, utf8_field, varint_bytes, write_utf8, write_varint, BufError};
use bytes::BytesMut;
use vstd::prelude::*;
use vstd::utf8::encode_utf8;

verus! {

/// Status response packet.
pub struct StatusPacket {}

/// What the server-list entry shows. The JSON form that goes into the packet is
/// `{"version": .., "players": {"max", "online", "sample": []}, "description": {"text": ..},
/// "favicon": .. (only when there is one), "enforces_secure_chat": ..}`.
pub struct StatusData {
    pub version: Version,
    pub players: Players,
    /// The text of the description component.
    pub description: String,
    pub favicon: Option<String>,
    pub enforces_secure_chat: bool,
}

/// Player counts shown in the server list; the sample of names is always empty.
pub struct Players {
    pub max: usize,
    pub online: usize,
}

/// Version name and protocol number shown in the server list.
pub struct Version {
    pub name: String,
    pub protocol: usize,
}

/// The payload of a status response: packet id 0, then the JSON document as a string.
pub open spec fn status_payload(json: Seq<char>) -> Seq<u8> {
    varint_bytes(0) + utf8_field(json)
}

impl StatusPacket {
    /// Build the packet for the JSON form of a [`StatusData`].
    ///
    /// Fails when the JSON is 32767 bytes long or longer.
    pub fn build(json: &str) -> (r: Result<BytesMut, BufError>)
        ensures
            encode_utf8(json@).len() >= 32767 ==> r == Err::<BytesMut, BufError>(
                BufError::StringTooLong,
            ),
            encode_utf8(json@).len() < 32767 ==> (r matches Ok(b) && buf_bytes(b) == framed(
                status_payload(json@),
            )),
    {
        let mut buffer = buf_new();
        write_varint(&mut buffer, 0x00);
        match write_utf8(&mut buffer, json) {
            Ok(()) => {},
            Err(e) => {
                return Err(e);
            },
        }
        Ok(add_size(&buffer))
    }
}

} // verus!
