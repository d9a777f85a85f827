//! Joining the session server: the server hash, the request URL and the reply.
pub mod response;

use crate::crypto::{sha1_digest, sha1_of, signed_hex, signed_hex_string};
use crate::text::{replace_all, replace_text};
use vstd::prelude::*;
use vstd::utf8::encode_utf8;

verus! {

/// The server hash that the client and the session server agree on: the SHA-1 digest of
/// the server id, the shared secret and the server's DER public key, in signed hexadecimal.
pub open spec fn spec_server_hash(server_id: Seq<char>, secret: Seq<u8>, public_der: Seq<u8>) -> Seq<char> {
    signed_hex(sha1_of(encode_utf8(server_id) + secret + public_der))
}

/// Computes the server hash for a login.
pub fn server_hash(server_id: &str, secret: &[u8], public_der: &[u8]) -> (r: String)
    ensures
        r@ == spec_server_hash(server_id@, secret@, public_der@),
        r@ == signed_hex(sha1_of(encode_utf8(server_id@) + secret@ + public_der@)),
{
    let mut data: Vec<u8> = Vec::new();
    let id_bytes = server_id.as_bytes();
    data.extend_from_slice(id_bytes);
    assert(data@ =~= id_bytes@);
    data.extend_from_slice(secret);
    assert(data@ =~= id_bytes@ + secret@);
    data.extend_from_slice(public_der);
    assert(data@ =~= id_bytes@ + secret@ + public_der@);
    let digest = sha1_digest(data.as_slice());
    signed_hex_string(digest.as_slice())
}

/// The server hash digests the UTF-8 bytes of the server id first, then the shared secret,
/// then the public key, in one run: the id's bytes may as well be put in front of the
/// secret with an empty id, and the bytes digested are the three one after the other.
pub proof fn law_server_hash_order(server_id: Seq<char>, secret: Seq<u8>, public_der: Seq<u8>)
    ensures
        spec_server_hash(server_id, secret, public_der) == spec_server_hash(
            Seq::empty(),
            encode_utf8(server_id) + secret,
            public_der,
        ),
        spec_server_hash(Seq::empty(), Seq::empty(), encode_utf8(server_id) + secret + public_der)
            == spec_server_hash(server_id, secret, public_der),
{
    let e = encode_utf8(server_id);
    assert(encode_utf8(Seq::<char>::empty()) =~= Seq::<u8>::empty());
    assert(encode_utf8(Seq::<char>::empty()) + (e + secret) + public_der =~= e + secret
        + public_der);
    assert(encode_utf8(Seq::<char>::empty()) + Seq::<u8>::empty() + (e + secret + public_der)
        =~= e + secret + public_der);
}

/// The session server URL for a login: the template with `{{NAME}}` replaced by the
/// nickname, and then `{{HASH}}` by the server hash.
pub open spec fn spec_auth_url(template: Seq<char>, nickname: Seq<char>, hash: Seq<char>) -> Seq<char> {
    replace_all(replace_all(template, "{{NAME}}"@, nickname), "{{HASH}}"@, hash)
}

/// Builds the session server URL for a login.
pub fn auth_url(template: &str, nickname: &str, hash: &str) -> (r: String)
    ensures
        r@ == spec_auth_url(template@, nickname@, hash@),
{
    proof {
        reveal_strlit("{{NAME}}");
        reveal_strlit("{{HASH}}");
    }
    let with_name = replace_text(template, "{{NAME}}", nickname);
    replace_text(with_name.as_str(), "{{HASH}}", hash)
}

/// The message that tells a player their code: the template with `{{NAME}}` replaced by
/// the player's name, then `{{UUID}}` by their UUID, then `{{CODE}}` by the code.
pub open spec fn spec_success_message(
    template: Seq<char>,
    name: Seq<char>,
    uuid: Seq<char>,
    code: Seq<char>,
) -> Seq<char> {
    replace_all(
        replace_all(replace_all(template, "{{NAME}}"@, name), "{{UUID}}"@, uuid),
        "{{CODE}}"@,
        code,
    )
}

/// Builds the message that tells a player their code.
pub fn success_message(template: &str, name: &str, uuid: &str, code: &str) -> (r: String)
    ensures
        r@ == spec_success_message(template@, name@, uuid@, code@),
{
    proof {
        reveal_strlit("{{NAME}}");
        reveal_strlit("{{UUID}}");
        reveal_strlit("{{CODE}}");
    }
    let a = replace_text(template, "{{NAME}}", name);
    let b = replace_text(a.as_str(), "{{UUID}}", uuid);
    replace_text(b.as_str(), "{{CODE}}", code)
}

/// Whether the session server's reply status says that the player joined (200).
pub fn session_accepted(status: u16) -> (r: bool)
    ensures
        r == (status == 200),
{
    status == 200
}

} // verus!
