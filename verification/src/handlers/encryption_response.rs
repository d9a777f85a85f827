//! Handling the encryption response: checking the verify token and turning encryption on.
use crate::buffer::buf_bytes;
use crate::crypto::{rsa_decrypt, rsa_plain};
use crate::packets::encryption_response::{spec_parse_encryption_response, EncryptionResponsePacket};
use crate::session::{same_state, Session, SessionError, Step};
use rsa::RsaPrivateKey;
use vstd::prelude::*;

verus! {

/// Whether a decrypted verify token passes the check against the token the server sent:
/// it is the same token.
pub open spec fn token_accepted(decrypted: Seq<u8>, sent: Seq<u8>) -> bool {
    decrypted == sent
}

/// The result that a handler's optional step stands for: going on, or failing.
pub open spec fn step_result(r: Option<Step>) -> Option<Result<(), SessionError>> {
    match r {
        None => Some(Ok(())),
        Some(Step::Fail(e)) => Some(Err(e)),
        _ => None,
    }
}

/// How the decrypted `secret` and (for clients that send one) verify `token` take a
/// session from `a` to `b` with result `r`: a token that fails the check is refused and
/// nothing changes; otherwise the secret is kept, and with a 16-byte secret the cipher is
/// turned on with it as key and initial vector, while any other length is refused.
pub open spec fn encryption_applied(
    a: &Session,
    secret: Seq<u8>,
    token: Option<Seq<u8>>,
    b: &Session,
    r: Result<(), SessionError>,
) -> bool {
    &&& b.config == a.config
    &&& b.server_id == a.server_id
    &&& b.proto_ver == a.proto_ver
    &&& b.next_state == a.next_state
    &&& b.nickname == a.nickname
    &&& b.uuid == a.uuid
    &&& b.verify_token == a.verify_token
    &&& if token matches Some(t) && !token_accepted(t, a.verify_token@) {
        &&& r == Err::<(), SessionError>(SessionError::VerifyTokenMismatch)
        &&& b.secret == a.secret
        &&& b.cipher == a.cipher
    } else {
        &&& b.secret matches Some(x) && x@ == secret
        &&& if secret.len() == 16 {
            &&& r is Ok
            &&& b.cipher matches Some(k) && k@ == secret
        } else {
            r == Err::<(), SessionError>(SessionError::InvalidSecretLength) && b.cipher == a.cipher
        }
    }
}

/// `encryption_applied` for the result that the optional step `r` stands for.
pub open spec fn applied_step(
    a: &Session,
    secret: Seq<u8>,
    token: Option<Seq<u8>>,
    b: &Session,
    r: Option<Step>,
) -> bool {
    step_result(r) matches Some(res) && encryption_applied(a, secret, token, b, res)
}

/// How handling an encryption response at the front of `s` takes a session from `a` to
/// `b`, the server's private key being `key`. The result is `None` when the login goes on
/// to the session server, or the step that ends it. A length running past the buffered
/// bytes gives up; a parse failure fails; then the secret's ciphertext and (for clients
/// that send one) the token's ciphertext are decrypted with `key`, a failure of either
/// failing with nothing changed, and the plaintexts are applied as `encryption_applied`
/// says.
pub open spec fn encryption_response_post(
    a: &Session,
    key: RsaPrivateKey,
    s: Seq<u8>,
    b: &Session,
    r: Option<Step>,
) -> bool {
    let (p, n) = spec_parse_encryption_response(s, a.proto_ver);
    match p {
        None => r == Some(Step::Abort) && buf_bytes(b.buffer) == s && same_state(b, a),
        Some(Err(e)) => {
            &&& r == Some(Step::Fail(SessionError::Buf(e)))
            &&& buf_bytes(b.buffer) == s.skip(n as int)
            &&& same_state(b, a)
        },
        Some(Ok((secret_cipher, token_cipher, has_verify))) => {
            &&& buf_bytes(b.buffer) == s.skip(n as int)
            &&& match rsa_plain(key, secret_cipher) {
                None => r == Some(Step::Fail(SessionError::Decryption)) && same_state(b, a),
                Some(secret) => if has_verify {
                    match rsa_plain(key, token_cipher) {
                        None => r == Some(Step::Fail(SessionError::Decryption)) && same_state(b, a),
                        Some(token) => applied_step(a, secret, Some(token), b, r),
                    }
                } else {
                    applied_step(a, secret, None, b, r)
                },
            }
        },
    }
}

/// Whether `decrypted` passes the check against `sent`: it has the same length and each
/// of its bytes equals the sent byte at the same place.
fn check_token(decrypted: &Vec<u8>, sent: &[u8; 4]) -> (r: bool)
    ensures
        r == token_accepted(decrypted@, sent@),
{
    if decrypted.len() != 4 {
        return false;
    }
    let mut i: usize = 0;
    while i < 4
        invariant
            decrypted@.len() == 4,
            sent@.len() == 4,
            i <= 4,
            forall|j: int| 0 <= j < i ==> decrypted@[j] == sent@[j],
        decreases 4 - i,
    {
        if decrypted[i] != sent[i] {
            return false;
        }
        i = i + 1;
    }
    assert(decrypted@ =~= sent@);
    true
}

impl Session {
    /// Applies the decrypted shared secret and (for clients that send one) verify token:
    /// checks the token and turns the cipher on.
    pub fn apply_encryption_response(&mut self, secret: Vec<u8>, token: Option<Vec<u8>>) -> (r:
        Result<(), SessionError>)
        ensures
            encryption_applied(
                &*old(self),
                secret@,
                match token {
                    Some(t) => Some(t@),
                    None => None,
                },
                &*final(self),
                r,
            ),
            buf_bytes(final(self).buffer) == buf_bytes(old(self).buffer),
    {
        match &token {
            Some(t) => {
                if !check_token(t, &self.verify_token) {
                    return Err(SessionError::VerifyTokenMismatch);
                }
            },
            None => {},
        }
        self.secret = Some(secret.clone());
        if secret.len() == 16 {
            self.cipher = Some(secret);
            Ok(())
        } else {
            Err(SessionError::InvalidSecretLength)
        }
    }

    /// Handle encryption response
    ///
    /// Check verify tokens and set up the cipher
    pub fn handle_encryption(&mut self, keys: &RsaPrivateKey) -> (r: Option<Step>)
        ensures
            encryption_response_post(
                &*old(self),
                *keys,
                buf_bytes(old(self).buffer),
                &*final(self),
                r,
            ),
    {
        if !EncryptionResponsePacket::fits(&self.buffer, self.proto_ver) {
            return Some(Step::Abort);
        }
        let response = match EncryptionResponsePacket::parse(&mut self.buffer, self.proto_ver) {
            Ok(p) => p,
            Err(e) => {
                return Some(Step::Fail(SessionError::Buf(e)));
            },
        };
        let secret = match rsa_decrypt(keys, response.shared_secret.as_slice()) {
            Some(s) => s,
            None => {
                return Some(Step::Fail(SessionError::Decryption));
            },
        };
        let token = if response.has_verify {
            match rsa_decrypt(keys, response.verify_token.as_slice()) {
                Some(t) => Some(t),
                None => {
                    return Some(Step::Fail(SessionError::Decryption));
                },
            }
        } else {
            None
        };
        let ghost sv = secret@;
        let ghost tv = match &token {
            Some(t) => Some(t@),
            None => None::<Seq<u8>>,
        };
        let ghost a = *old(self);
        assert(tv is Some == response.has_verify);
        match self.apply_encryption_response(secret, token) {
            Ok(()) => {
                assert(applied_step(&a, sv, tv, &*self, None));
                None
            },
            Err(e) => {
                assert(applied_step(&a, sv, tv, &*self, Some(Step::Fail(e))));
                Some(Step::Fail(e))
            },
        }
    }
}

} // verus!
