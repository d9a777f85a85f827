//! The encryption response packet, which carries the client's encrypted shared secret.
use crate::buffer::{buf_bytes, buf_as_slice, buf_len, buf_split_to, buf_to_vec};
use crate::byte_buf_utils::{lemma_read_varint_len, read_varint, spec_read_varint, varint_at, BufError};
use bytes::BytesMut;
use vstd::prelude::*;

verus! {

/// Encryption response packet.
pub struct EncryptionResponsePacket {
    pub shared_secret: Vec<u8>,
    pub verify_token: Vec<u8>,
    pub has_verify: bool,
}

/// Whether clients of protocol `proto_ver` (1.19 to 1.19.2) leave the verify token out.
pub open spec fn omits_verify_token(proto_ver: usize) -> bool {
    759 <= proto_ver <= 760
}

/// What parsing an encryption response from the front of `s` gives (shared secret, verify
/// token, whether a token was read) and how many bytes it consumes. The secret and, unless
/// the protocol leaves it out, the token each follow their length as a VarInt.
/// `None` stands for a length that runs past the buffered bytes, on which the parse panics.
pub open spec fn spec_parse_encryption_response(s: Seq<u8>, proto_ver: usize) -> (
    Option<Result<(Seq<u8>, Seq<u8>, bool), BufError>>,
    nat,
) {
    let (r1, n1) = spec_read_varint(s);
    let s2 = s.skip(n1 as int);
    match r1 {
        Err(e) => (Some(Err(e)), n1),
        Ok(len1) => if len1 > s2.len() {
            (None, n1)
        } else {
            let secret = s2.take(len1 as int);
            let s3 = s2.skip(len1 as int);
            if omits_verify_token(proto_ver) {
                (Some(Ok((secret, Seq::empty(), false))), n1 + len1 as nat)
            } else {
                let (r2, n2) = spec_read_varint(s3);
                let s4 = s3.skip(n2 as int);
                match r2 {
                    Err(e) => (Some(Err(e)), n1 + len1 as nat + n2),
                    Ok(len2) => if len2 > s4.len() {
                        (None, n1 + len1 as nat + n2)
                    } else {
                        (Some(Ok((secret, s4.take(len2 as int), true))), n1 + len1 as nat + n2 + len2 as nat)
                    },
                }
            }
        },
    }
}

/// An encryption response parse result with the packet taken by its fields.
pub open spec fn encryption_response_result_view(r: Result<EncryptionResponsePacket, BufError>) -> Result<
    (Seq<u8>, Seq<u8>, bool),
    BufError,
> {
    match r {
        Ok(p) => Ok((p.shared_secret@, p.verify_token@, p.has_verify)),
        Err(e) => Err(e),
    }
}

impl EncryptionResponsePacket {
    /// Whether [`EncryptionResponsePacket::parse`] can run on `buffer` without a length
    /// running past the buffered bytes.
    pub fn fits(buffer: &BytesMut, proto_ver: usize) -> (r: bool)
        ensures
            r == spec_parse_encryption_response(buf_bytes(*buffer), proto_ver).0 is Some,
    {
        let bytes = buf_as_slice(buffer);
        let ghost s = bytes@;
        assert(s.skip(0) =~= s);
        let (r1, n1) = varint_at(bytes, 0);
        proof {
            lemma_read_varint_len(s);
        }
        let len1 = match r1 {
            Ok(v) => v,
            Err(_) => {
                return true;
            },
        };
        if len1 > bytes.len() - n1 {
            return false;
        }
        if 759 <= proto_ver && proto_ver <= 760 {
            return true;
        }
        let pos = n1 + len1;
        assert(s.skip(n1 as int).skip(len1 as int) =~= s.skip(pos as int));
        let (r2, n2) = varint_at(bytes, pos);
        proof {
            lemma_read_varint_len(s.skip(pos as int));
            assert(s.skip(pos as int).skip(n2 as int) =~= s.skip(pos + n2));
        }
        match r2 {
            Ok(len2) => len2 <= bytes.len() - pos - n2,
            Err(_) => true,
        }
    }

    /// Parses an encryption response from the front of `buffer` for a client of protocol
    /// `proto_ver`.
    pub fn parse(buffer: &mut BytesMut, proto_ver: usize) -> (r: Result<Self, BufError>)
        requires
            spec_parse_encryption_response(buf_bytes(*old(buffer)), proto_ver).0 is Some,
        ensures
            Some(encryption_response_result_view(r)) == spec_parse_encryption_response(
                buf_bytes(*old(buffer)),
                proto_ver,
            ).0,
            buf_bytes(*final(buffer)) == buf_bytes(*old(buffer)).skip(
                spec_parse_encryption_response(buf_bytes(*old(buffer)), proto_ver).1 as int,
            ),
    {
        let ghost s = buf_bytes(*buffer);
        proof {
            lemma_read_varint_len(s);
        }
        let shared_secret_length = match read_varint(buffer) {
            Ok(v) => v,
            Err(e) => {
                return Err(e);
            },
        };
        let ghost n1 = spec_read_varint(s).1;
        let shared_secret = buf_split_to(buffer, shared_secret_length);
        assert(s.skip(n1 as int).skip(shared_secret_length as int) =~= s.skip(
            (n1 + shared_secret_length) as int,
        ));
        let mut has_verify = false;
        let mut verify_token: Vec<u8> = Vec::new();
        if !(proto_ver >= 759 && proto_ver <= 760) {
            let ghost s3 = buf_bytes(*buffer);
            proof {
                lemma_read_varint_len(s3);
            }
            let verify_token_length = match read_varint(buffer) {
                Ok(v) => v,
                Err(e) => {
                    return Err(e);
                },
            };
            let ghost n2 = spec_read_varint(s3).1;
            assert(s3.skip(n2 as int) =~= s.skip((n1 + shared_secret_length + n2) as int));
            let token = buf_split_to(buffer, verify_token_length);
            assert(s3.skip(n2 as int).skip(verify_token_length as int) =~= s.skip(
                (n1 + shared_secret_length + n2 + verify_token_length) as int,
            ));
            verify_token = buf_to_vec(&token);
            has_verify = true;
        }
        Ok(Self { shared_secret: buf_to_vec(&shared_secret), verify_token, has_verify })
    }
}

} // verus!
