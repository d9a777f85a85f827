//! The status-phase pong packet, which echoes the client's ping payload.
use crate::buffer::{be_bytes, buf_bytes, buf_new, buf_put_i64, i64_unsigned};
use crate::byte_buf_utils::{add_size, framed, varint_bytes, write_varint, BufError};
use bytes::BytesMut;
use vstd::prelude::*;

verus! {

/// Ping response packet carrying the client's payload.
pub struct PingPacket {
    pub payload: i64,
}

/// The payload of a ping response: packet id 1, then the 8 big-endian bytes of `payload`.
pub open spec fn ping_payload(payload: i64) -> Seq<u8> {
    varint_bytes(1) + be_bytes(i64_unsigned(payload), 8)
}

impl PingPacket {
    /// Build packet for sending over network (this never fails)
    pub fn build(&self) -> (r: Result<BytesMut, BufError>)
        ensures
            r matches Ok(b) && buf_bytes(b) == framed(ping_payload(self.payload)),
    {
        let mut buffer = buf_new();
        write_varint(&mut buffer, 0x01);
        buf_put_i64(&mut buffer, self.payload);
        Ok(add_size(&buffer))
    }
}

} // verus!
