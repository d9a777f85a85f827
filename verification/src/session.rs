//! One client connection: its state, and the decisions taken on each packet it sends.
use crate::buffer::{buf_bytes, buf_clear, buf_extend, buf_is_empty, buf_len, buf_new};
use crate::handlers::encryption_response::encryption_response_post;
use crate::handlers::handshake::handshake_post;
use crate::handlers::login_start::login_start_post;
use crate::responses::encryption::encryption_request_step;
use crate::responses::pong::pong_post;
use crate::responses::status::status_data_for;
use crate::byte_buf_utils::{framed, lemma_read_varint_len, read_varint, spec_read_varint, BufError};
use crate::config::types::Config;
use crate::crypto::{aes128_cfb8, aes_cfb8_encrypt};
use crate::packets::disconnect::{disconnect_payload, disconnect_text, DisconnectPacket};
use crate::packets::status::StatusData;
use crate::crypto::{public_der_of, public_key_der};
use crate::generators::{all_digits, generate_code};
use crate::map::expiring_map::ExpiringMap;
use crate::mojang::response::MojangResponse;
use crate::mojang::{auth_url, server_hash, spec_auth_url, spec_server_hash, spec_success_message, success_message};
use rsa::RsaPrivateKey;
use vstd::utf8::encode_utf8;
use bytes::BytesMut;
use vstd::prelude::*;

verus! {

/// What the client asked for in its handshake.
#[derive(Debug, Clone, Copy, PartialEq, Eq, Structural)]
pub enum NextStateEnum {
    Status,
    Login,
    Unknown,
}

/// Why a connection ends with an error.
#[derive(Debug, Clone, Copy, PartialEq, Eq, Structural)]
pub enum SessionError {
    /// A field could not be read, or a packet could not be built.
    Buf(BufError),
    /// The packet id does not fit the connection's state.
    UnknownPacket,
    /// The client connected through another host name than the configured one.
    ClientUsingProxy,
    /// The client runs 1.19 to 1.19.2, which the server does not let in.
    UnsupportedVersion119,
    /// The RSA decryption of the client's secret or token failed.
    Decryption,
    /// The decrypted verify token is not the one the server sent.
    VerifyTokenMismatch,
    /// The shared secret does not make an AES-128/CFB8 cipher (it is not 16 bytes long).
    InvalidSecretLength,
    /// The server's public key could not be encoded.
    PublicKeyEncoding,
    /// The session server did not confirm the player.
    MojangApi,
}

/// What the connection has to do after a packet was handled.
pub enum Step {
    /// No whole packet is buffered (the buffer has been cleared): read more from the client.
    NeedMoreData,
    /// The packet was handled and nothing is to be sent: handle the next one.
    Continue,
    /// Send these bytes, then handle the next packet.
    Send(BytesMut),
    /// Send the status response built from this data, then handle the next packet.
    SendStatus(StatusData),
    /// Send these bytes, shut the connection down and end it: with this error, or
    /// successfully.
    Disconnect(BytesMut, Option<SessionError>),
    /// Ask the session server at this URL whether the player joined, then hand the answer
    /// to `complete_auth`.
    Authenticate(String),
    /// End the connection with this error.
    Fail(SessionError),
    /// The client sent data on which the connection task gives up at once, without
    /// answering (a length running past the buffered bytes, a ping without its payload, a
    /// login finished before the player's name was given).
    Abort,
}

/// The state of one client connection.
pub struct Session {
    /// Bytes received and not handled yet
    pub buffer: BytesMut,
    pub config: Config,
    pub server_id: String,
    pub proto_ver: usize,
    pub next_state: NextStateEnum,
    pub nickname: Option<String>,
    /// The player's UUID as a 128-bit big-endian number
    pub uuid: Option<u128>,
    /// Shared secret
    pub secret: Option<Vec<u8>>,
    pub verify_token: [u8; 4],
    /// The key (and initial vector) of the CFB8 cipher that packets to the client go
    /// through, once encryption is on
    pub cipher: Option<Vec<u8>>,
}

/// `a` and `b` agree on everything but the buffer.
pub open spec fn same_state(a: &Session, b: &Session) -> bool {
    &&& a.config == b.config
    &&& a.server_id == b.server_id
    &&& a.proto_ver == b.proto_ver
    &&& a.next_state == b.next_state
    &&& a.nickname == b.nickname
    &&& a.uuid == b.uuid
    &&& a.secret == b.secret
    &&& a.verify_token == b.verify_token
    &&& a.cipher == b.cipher
}

/// `data` as it goes to the client of a session whose cipher key is `cipher`: encrypted
/// with AES-128/CFB8 under that key (also the initial vector) once encryption is on.
pub open spec fn outgoing(cipher: Option<Vec<u8>>, data: Seq<u8>) -> Seq<u8> {
    match cipher {
        Some(k) => if k@.len() == 16 {
            aes128_cfb8(k@, k@, data)
        } else {
            data
        },
        None => data,
    }
}

/// Whether a whole packet is buffered at the front of `s`, and how many bytes the check
/// takes: it reads the packet length as a VarInt and compares it with what follows.
pub open spec fn spec_packet_available(s: Seq<u8>) -> (bool, nat) {
    if s.len() == 0 {
        (false, 0)
    } else {
        let (r, n) = spec_read_varint(s);
        (r matches Ok(x) && s.len() - n >= x, n)
    }
}

/// The step that disconnecting with `reason` gives a session whose cipher key is `cipher`,
/// the connection then ending with `error` (or successfully): the encrypted disconnect
/// packet, or a failure when the reason is too long for the packet.
pub open spec fn disconnect_step(
    cipher: Option<Vec<u8>>,
    reason: Seq<char>,
    error: Option<SessionError>,
    step: Step,
) -> bool {
    if encode_utf8(disconnect_text(reason)).len() >= 32767 {
        step == Step::Fail(SessionError::Buf(BufError::StringTooLong))
    } else {
        step matches Step::Disconnect(b, e) && e == error && buf_bytes(b) == outgoing(
            cipher,
            framed(disconnect_payload(reason)),
        )
    }
}

/// The step that asks the session server about session `a`'s player, the public key
/// being `der`: the URL from the configured template, the player's name and the server
/// hash of the server id, the shared secret and the key. Without a secret or a name the
/// connection gives up.
pub open spec fn auth_step(a: &Session, der: Seq<u8>, step: Step) -> bool {
    match (a.secret, a.nickname) {
        (Some(secret), Some(nickname)) => step matches Step::Authenticate(url) && url@
            == spec_auth_url(
            a.config.server.config.auth_url@,
            nickname@,
            spec_server_hash(a.server_id@, secret@, der),
        ),
        _ => step is Abort,
    }
}

/// The step that asks the session server about session `a`'s player, the server's private
/// key being `key`: gives up without a secret, fails when the public key cannot be
/// encoded, and otherwise is `auth_step` for the key's encoding.
pub open spec fn auth_request_post(a: &Session, key: RsaPrivateKey, step: Step) -> bool {
    if a.secret is None {
        step is Abort
    } else {
        match public_der_of(key) {
            Some(der) => auth_step(a, der, step),
            None => step == Step::Fail(SessionError::PublicKeyEncoding),
        }
    }
}

/// How a login start at the front of `s` and the encryption request that follows it take
/// session `a` to `b` with `step`, the server's private key being `key`: the request
/// carries the encoding of `key`'s public half.
pub open spec fn login_post(a: &Session, key: RsaPrivateKey, s: Seq<u8>, b: &Session, step: Step) -> bool {
    ||| login_start_post(a, s, b, Some(step))
    ||| login_start_post(a, s, b, None) && match public_der_of(key) {
        Some(der) => encryption_request_step(b, der, step),
        None => step == Step::Fail(SessionError::PublicKeyEncoding),
    }
}

/// How an encryption response at the front of `s` and the session server request that
/// follows it take session `a` to `b` with `step`, the server's private key being `key`.
pub open spec fn encryption_post(a: &Session, key: RsaPrivateKey, s: Seq<u8>, b: &Session, step: Step) -> bool {
    ||| encryption_response_post(a, key, s, b, Some(step))
    ||| encryption_response_post(a, key, s, b, None) && auth_request_post(b, key, step)
}

/// How handling the next packet takes session `a` to `b` with `step`, the server's private
/// key being `key`. With no whole packet
/// buffered the buffer is cleared and more data is needed. Otherwise the packet id is read
/// and the packet handled by the connection's state: in the status state, id 0 asks for
/// the status and id 1 is a ping; in the login state, id 0 is the login start and id 1 the
/// encryption response; before the handshake, id 0 is the handshake. Any other id fails.
pub open spec fn packet_post(a: &Session, key: RsaPrivateKey, b: &Session, step: Step) -> bool {
    let s = buf_bytes(a.buffer);
    let (avail, n) = spec_packet_available(s);
    let s1 = s.skip(n as int);
    let (id, m) = spec_read_varint(s1);
    let s2 = s1.skip(m as int);
    if !avail {
        &&& step is NeedMoreData
        &&& buf_bytes(b.buffer) == Seq::<u8>::empty()
        &&& same_state(b, a)
    } else {
        match id {
            Ok(0) => match a.next_state {
                NextStateEnum::Status => {
                    &&& step matches Step::SendStatus(d) && status_data_for(a, d)
                    &&& buf_bytes(b.buffer) == s2
                    &&& same_state(b, a)
                },
                NextStateEnum::Login => login_post(a, key, s2, b, step),
                NextStateEnum::Unknown => handshake_post(a, s2, b, step),
            },
            Ok(1) => match a.next_state {
                NextStateEnum::Status => pong_post(a, s2, b, step),
                NextStateEnum::Login => encryption_post(a, key, s2, b, step),
                NextStateEnum::Unknown => {
                    &&& step == Step::Fail(SessionError::UnknownPacket)
                    &&& buf_bytes(b.buffer) == s2
                    &&& same_state(b, a)
                },
            },
            Ok(_) => {
                &&& step == Step::Fail(SessionError::UnknownPacket)
                &&& buf_bytes(b.buffer) == s2
                &&& same_state(b, a)
            },
            Err(e) => {
                &&& step == Step::Fail(SessionError::Buf(e))
                &&& buf_bytes(b.buffer) == s2
                &&& same_state(b, a)
            },
        }
    }
}

/// The public key that the encryption request sends the client is the key that the
/// server hash for the session server is made from: both are the encoding of the public
/// half of the server's key, which is what lets the session server's check tie the player
/// to this server.
pub proof fn law_request_key_is_hashed_key(
    a: &Session,
    key: RsaPrivateKey,
    s: Seq<u8>,
    b: &Session,
    request: Step,
    c: &Session,
    auth: Step,
)
    requires
        login_start_post(a, s, b, None),
        login_post(a, key, s, b, request),
        request is Send,
        auth_request_post(c, key, auth),
        auth is Authenticate,
    ensures
        exists|der: Seq<u8>|
            #![trigger encryption_request_step(b, der, request)]
            encryption_request_step(b, der, request) && auth_step(c, der, auth),
{
    let der = public_der_of(key)->0;
    assert(encryption_request_step(b, der, request) && auth_step(c, der, auth));
}

proof fn lemma_login_post_frame(
    x: &Session,
    y: &Session,
    key: RsaPrivateKey,
    s: Seq<u8>,
    b: &Session,
    step: Step,
)
    requires
        same_state(x, y),
        login_post(x, key, s, b, step),
    ensures
        login_post(y, key, s, b, step),
{
}

proof fn lemma_handshake_post_frame(x: &Session, y: &Session, s: Seq<u8>, b: &Session, step: Step)
    requires
        same_state(x, y),
        handshake_post(x, s, b, step),
    ensures
        handshake_post(y, s, b, step),
{
}

proof fn lemma_encryption_post_frame(
    x: &Session,
    y: &Session,
    key: RsaPrivateKey,
    s: Seq<u8>,
    b: &Session,
    step: Step,
)
    requires
        same_state(x, y),
        encryption_post(x, key, s, b, step),
    ensures
        encryption_post(y, key, s, b, step),
{
}

impl Session {
    /// Packet handler: handles the next buffered packet, if a whole one is there.
    pub fn handle_packet(&mut self, keys: &RsaPrivateKey) -> (r: Step)
        ensures
            packet_post(&*old(self), *keys, &*final(self), r),
    {
        let ghost a = *old(self);
        if !self.packet_available() {
            buf_clear(&mut self.buffer);
            return Step::NeedMoreData;
        }
        let packet_id = match read_varint(&mut self.buffer) {
            Ok(id) => id,
            Err(e) => {
                return Step::Fail(SessionError::Buf(e));
            },
        };
        let ghost mid = *self;
        let ghost s2 = buf_bytes(self.buffer);
        if packet_id == 0 {
            let r = self.handle_packet_0(keys);
            proof {
                match a.next_state {
                    NextStateEnum::Status => {},
                    NextStateEnum::Login => {
                        lemma_login_post_frame(&mid, &a, *keys, s2, &*self, r);
                    },
                    NextStateEnum::Unknown => {
                        lemma_handshake_post_frame(&mid, &a, s2, &*self, r);
                    },
                }
            }
            r
        } else if packet_id == 1 {
            let r = self.handle_packet_1(keys);
            proof {
                match a.next_state {
                    NextStateEnum::Status => {},
                    NextStateEnum::Login => {
                        lemma_encryption_post_frame(&mid, &a, *keys, s2, &*self, r);
                    },
                    NextStateEnum::Unknown => {},
                }
            }
            r
        } else {
            Step::Fail(SessionError::UnknownPacket)
        }
    }

    /// Handle packet with id 0
    fn handle_packet_0(&mut self, keys: &RsaPrivateKey) -> (r: Step)
        ensures
            match old(self).next_state {
                NextStateEnum::Status => {
                    &&& r matches Step::SendStatus(d) && status_data_for(&*old(self), d)
                    &&& buf_bytes(final(self).buffer) == buf_bytes(old(self).buffer)
                    &&& same_state(&*final(self), &*old(self))
                },
                NextStateEnum::Login => login_post(
                    &*old(self),
                    *keys,
                    buf_bytes(old(self).buffer),
                    &*final(self),
                    r,
                ),
                NextStateEnum::Unknown => handshake_post(
                    &*old(self),
                    buf_bytes(old(self).buffer),
                    &*final(self),
                    r,
                ),
            },
    {
        match self.next_state {
            NextStateEnum::Status => Step::SendStatus(self.send_status()),
            NextStateEnum::Login => {
                match self.handle_login_start() {
                    Some(step) => step,
                    None => self.send_encryption(keys),
                }
            },
            NextStateEnum::Unknown => self.handle_handshake(),
        }
    }

    /// Handle packet with id 1
    fn handle_packet_1(&mut self, keys: &RsaPrivateKey) -> (r: Step)
        ensures
            match old(self).next_state {
                NextStateEnum::Status => pong_post(
                    &*old(self),
                    buf_bytes(old(self).buffer),
                    &*final(self),
                    r,
                ),
                NextStateEnum::Login => encryption_post(
                    &*old(self),
                    *keys,
                    buf_bytes(old(self).buffer),
                    &*final(self),
                    r,
                ),
                NextStateEnum::Unknown => {
                    &&& r == Step::Fail(SessionError::UnknownPacket)
                    &&& buf_bytes(final(self).buffer) == buf_bytes(old(self).buffer)
                    &&& same_state(&*final(self), &*old(self))
                },
            },
    {
        match self.next_state {
            NextStateEnum::Status => self.send_pong(),
            NextStateEnum::Login => {
                match self.handle_encryption(keys) {
                    Some(step) => step,
                    None => self.auth_request(keys),
                }
            },
            NextStateEnum::Unknown => Step::Fail(SessionError::UnknownPacket),
        }
    }

    /// A fresh session, before the handshake, with a random verify token.
    pub fn new(config: Config) -> (r: Self)
        ensures
            r.config == config,
            r.server_id@ == config.server.config.server_name@,
            buf_bytes(r.buffer) == Seq::<u8>::empty(),
            r.proto_ver == 0,
            r.next_state == NextStateEnum::Unknown,
            r.nickname is None,
            r.uuid is None,
            r.secret is None,
            r.cipher is None,
    {
        let server_id = config.server.config.server_name.clone();
        let verify_token = crate::generators::generate_verify_token();
        let r = Self {
            buffer: buf_new(),
            config,
            server_id,
            proto_ver: 0,
            next_state: NextStateEnum::Unknown,
            nickname: None,
            uuid: None,
            secret: None,
            verify_token,
            cipher: None,
        };
        r
    }

    /// Appends bytes received from the client to the buffer.
    pub fn receive(&mut self, data: &[u8])
        ensures
            buf_bytes(final(self).buffer) == buf_bytes(old(self).buffer) + data@,
            same_state(&*final(self), &*old(self)),
    {
        buf_extend(&mut self.buffer, data);
    }

    /// Whether a whole packet is buffered; the packet length is taken from the buffer.
    pub fn packet_available(&mut self) -> (r: bool)
        ensures
            r == spec_packet_available(buf_bytes(old(self).buffer)).0,
            buf_bytes(final(self).buffer) == buf_bytes(old(self).buffer).skip(
                spec_packet_available(buf_bytes(old(self).buffer)).1 as int,
            ),
            same_state(&*final(self), &*old(self)),
    {
        if buf_is_empty(&self.buffer) {
            assert(buf_bytes(self.buffer).skip(0) =~= buf_bytes(self.buffer));
            return false;
        }
        proof {
            lemma_read_varint_len(buf_bytes(self.buffer));
        }
        match read_varint(&mut self.buffer) {
            Ok(x) => buf_len(&self.buffer) >= x,
            Err(_) => false,
        }
    }

    /// Encrypt minecraft packet in place
    ///
    /// If session cipher is not set — skip the encryption
    pub fn encrypt_packet(&self, data: &mut BytesMut)
        ensures
            buf_bytes(*final(data)) == outgoing(self.cipher, buf_bytes(*old(data))),
            buf_bytes(*final(data)).len() == buf_bytes(*old(data)).len(),
    {
        match &self.cipher {
            None => {},
            Some(key) => {
                aes_cfb8_encrypt(key.as_slice(), key.as_slice(), data);
            },
        }
    }

    /// The disconnect packet with the provided reason, as it goes to the client.
    pub fn send_disconnect(&self, reason: &str) -> (r: Result<BytesMut, SessionError>)
        ensures
            encode_utf8(disconnect_text(reason@)).len() >= 32767 ==> r == Err::<
                BytesMut,
                SessionError,
            >(SessionError::Buf(BufError::StringTooLong)),
            encode_utf8(disconnect_text(reason@)).len() < 32767 ==> (r matches Ok(b) && buf_bytes(b)
                == outgoing(self.cipher, framed(disconnect_payload(reason@)))),
    {
        let packet = DisconnectPacket::with_reason(reason.to_owned());
        match packet.build() {
            Ok(mut b) => {
                self.encrypt_packet(&mut b);
                Ok(b)
            },
            Err(e) => Err(SessionError::Buf(e)),
        }
    }

    /// Auth client in Mojang: the session server request for the player, with the server
    /// hash made from the shared secret and the public key `public_der`. Gives up when no
    /// secret or no name has been received.
    pub fn auth_request_with_key(&self, public_der: &[u8]) -> (r: Step)
        ensures
            auth_step(self, public_der@, r),
    {
        let secret = match &self.secret {
            Some(s) => s,
            None => {
                return Step::Abort;
            },
        };
        let nickname = match &self.nickname {
            Some(n) => n,
            None => {
                return Step::Abort;
            },
        };
        let hash = server_hash(self.server_id.as_str(), secret.as_slice(), public_der);
        Step::Authenticate(
            auth_url(self.config.server.config.auth_url.as_str(), nickname.as_str(), hash.as_str()),
        )
    }

    /// Auth client in Mojang: the session server request for the player. Gives up when no
    /// secret has been received, fails when the public key cannot be encoded, and gives up
    /// when no name has been received.
    pub fn auth_request(&self, keys: &RsaPrivateKey) -> (r: Step)
        ensures
            auth_request_post(self, *keys, r),
    {
        if self.secret.is_none() {
            return Step::Abort;
        }
        match public_key_der(keys) {
            Some(der) => self.auth_request_with_key(der.as_slice()),
            None => Step::Fail(SessionError::PublicKeyEncoding),
        }
    }

    /// Finishes the login with the session server's answer: without a profile the client
    /// is told its session is bad; with one, a fresh code is issued for the profile in
    /// `store` and the client is told the code. Gives the step and the issued code.
    pub fn complete_auth(&self, player: Option<MojangResponse>, store: &mut ExpiringMap) -> (r: (
        Step,
        Option<String>,
    ))
        ensures
            player is None ==> {
                &&& final(store)@ == old(store)@
                &&& r.1 is None
                &&& disconnect_step(
                    self.cipher,
                    self.config.messages.bad_session@,
                    Some(SessionError::MojangApi),
                    r.0,
                )
            },
            player matches Some(p) ==> {
                &&& r.1 matches Some(code) && {
                    &&& code@.len() == self.config.api.code_length
                    &&& all_digits(code@)
                    &&& final(store)@ == old(store)@.insert(code@, p@)
                    &&& disconnect_step(
                        self.cipher,
                        spec_success_message(
                            self.config.messages.success@,
                            p.name@,
                            p.id@,
                            code@,
                        ),
                        None,
                        r.0,
                    )
                }
            },
    {
        match player {
            None => {
                (
                    self.disconnect(
                        self.config.messages.bad_session.as_str(),
                        Some(SessionError::MojangApi),
                    ),
                    None,
                )
            },
            Some(p) => {
                let code = generate_code(self.config.api.code_length);
                let message = success_message(
                    self.config.messages.success.as_str(),
                    p.name.as_str(),
                    p.id.as_str(),
                    code.as_str(),
                );
                store.insert(code.clone(), p);
                (self.disconnect(message.as_str(), None), Some(code))
            },
        }
    }

    /// The step that disconnects the client with `reason`, the connection then ending with
    /// `error` (or successfully).
    pub fn disconnect(&self, reason: &str, error: Option<SessionError>) -> (r: Step)
        ensures
            disconnect_step(self.cipher, reason@, error, r),
    {
        match self.send_disconnect(reason) {
            Ok(b) => Step::Disconnect(b, error),
            Err(e) => Step::Fail(e),
        }
    }
}

} // verus!
