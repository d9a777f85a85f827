use aes::cipher::{AsyncStreamCipher, KeyIvInit};
use bytes::BytesMut;
use mc_oauth::byte_buf_utils::{add_size, read_utf8, read_varint, write_utf8, write_varint, BufError};
use mc_oauth::config::types::{Config, Messages, Server, ServerConfig, ServerStatus, API};
use mc_oauth::map::init_map;
use mc_oauth::mojang::response::MojangResponse;
use mc_oauth::mojang::server_hash;
use mc_oauth::session::{NextStateEnum, Session, SessionError, Step};
use rsa::pkcs8::EncodePublicKey;
use rsa::{Pkcs1v15Encrypt, RsaPrivateKey};

fn config() -> Config {
    Config {
        api: API { addr: "0.0.0.0".to_string(), port: 8008, code_life_time: 300, code_length: 6 },
        server: Server {
            addr: "0.0.0.0".to_string(),
            port: 25565,
            timeout: 10,
            config: ServerConfig {
                server_name: "mc-oauth".to_string(),
                protocol: 0,
                version: "1.21".to_string(),
                auth_url: "https://session/hasJoined?username={{NAME}}&serverId={{HASH}}".to_string(),
            },
            status: ServerStatus {
                description: "§6mc-oauth".to_string(),
                players_max: 10,
                players_online: 3,
                icon_path: "server_icon.png".to_string(),
            },
            server_ip: None,
            support_1_19: false,
        },
        messages: Messages {
            success: "Hello, {{NAME}}! Your code is: {{CODE}}".to_string(),
            bad_session: "Bad session".to_string(),
            using_proxy: "Proxy".to_string(),
            unsupported_client_version: "Unsupported".to_string(),
            internal_error: "Internal".to_string(),
        },
        image: Some("data:image/png;base64,YWJj".to_string()),
    }
}

fn key() -> RsaPrivateKey {
    RsaPrivateKey::new(&mut rand::thread_rng(), 512).unwrap()
}

fn packet(id: i32, body: &[u8]) -> BytesMut {
    let mut b = BytesMut::new();
    write_varint(&mut b, id);
    b.extend_from_slice(body);
    add_size(&b)
}

fn handshake(proto: i32, addr: &str, next: i32) -> BytesMut {
    let mut body = BytesMut::new();
    write_varint(&mut body, proto);
    write_utf8(&mut body, addr).unwrap();
    body.extend_from_slice(&25565u16.to_be_bytes());
    write_varint(&mut body, next);
    packet(0, &body)
}

fn login_start(name: &str) -> BytesMut {
    let mut body = BytesMut::new();
    write_utf8(&mut body, name).unwrap();
    packet(0, &body)
}

fn encryption_response(secret: &[u8], token: &[u8]) -> BytesMut {
    let mut body = BytesMut::new();
    write_varint(&mut body, secret.len() as i32);
    body.extend_from_slice(secret);
    write_varint(&mut body, token.len() as i32);
    body.extend_from_slice(token);
    packet(1, &body)
}

fn disconnect_text(packet: &[u8]) -> String {
    let mut b = BytesMut::from(packet);
    let len = read_varint(&mut b).unwrap();
    assert_eq!(len, b.len());
    assert_eq!(read_varint(&mut b), Ok(0));
    read_utf8(&mut b).unwrap()
}

fn login_session(k: &RsaPrivateKey) -> Session {
    let mut s = Session::new(config());
    s.receive(&handshake(763, "localhost", 2));
    assert!(matches!(s.handle_packet(k), Step::Continue));
    assert_eq!(s.next_state, NextStateEnum::Login);
    assert_eq!(s.proto_ver, 763);
    s
}

#[test]
fn new_session_is_before_handshake() {
    let s = Session::new(config());
    assert_eq!(s.server_id, "mc-oauth");
    assert_eq!(s.proto_ver, 0);
    assert_eq!(s.next_state, NextStateEnum::Unknown);
    assert!(s.buffer.is_empty());
    assert!(s.nickname.is_none() && s.secret.is_none() && s.cipher.is_none());
}

#[test]
fn status_and_ping() {
    let k = key();
    let mut s = Session::new(config());
    s.receive(&handshake(767, "localhost", 1));
    s.receive(&packet(0, &[]));
    s.receive(&packet(1, &0x1122334455667788i64.to_be_bytes()));
    assert!(matches!(s.handle_packet(&k), Step::Continue));
    assert_eq!(s.next_state, NextStateEnum::Status);
    match s.handle_packet(&k) {
        Step::SendStatus(d) => {
            assert_eq!(d.version.name, "1.21");
            assert_eq!(d.version.protocol, 767);
            assert_eq!(d.players.max, 10);
            assert_eq!(d.players.online, 3);
            assert_eq!(d.description, "§6mc-oauth");
            assert_eq!(d.favicon.as_deref(), Some("data:image/png;base64,YWJj"));
            assert!(!d.enforces_secure_chat);
        },
        _ => panic!("expected the status"),
    }
    match s.handle_packet(&k) {
        Step::Send(b) => assert_eq!(&b[..], &[9, 1, 0x11, 0x22, 0x33, 0x44, 0x55, 0x66, 0x77, 0x88]),
        _ => panic!("expected the pong"),
    }
    assert!(matches!(s.handle_packet(&k), Step::NeedMoreData));
}

#[test]
fn configured_protocol_in_status() {
    let k = key();
    let mut c = config();
    c.server.config.protocol = 47;
    let mut s = Session::new(c);
    s.receive(&handshake(767, "localhost", 1));
    s.receive(&packet(0, &[]));
    s.handle_packet(&k);
    match s.handle_packet(&k) {
        Step::SendStatus(d) => assert_eq!(d.version.protocol, 47),
        _ => panic!("expected the status"),
    }
}

#[test]
fn partial_packet_needs_more_data() {
    let k = key();
    let mut s = Session::new(config());
    let h = handshake(763, "localhost", 2);
    s.receive(&h[..4]);
    assert!(matches!(s.handle_packet(&k), Step::NeedMoreData));
    assert!(s.buffer.is_empty());
    assert_eq!(s.next_state, NextStateEnum::Unknown);
}

#[test]
fn unknown_packets_fail() {
    let k = key();
    let mut s = Session::new(config());
    s.receive(&packet(1, &[]));
    assert!(matches!(s.handle_packet(&k), Step::Fail(SessionError::UnknownPacket)));
    let mut s = Session::new(config());
    s.receive(&packet(7, &[]));
    assert!(matches!(s.handle_packet(&k), Step::Fail(SessionError::UnknownPacket)));
}

#[test]
fn short_handshake_fails() {
    let k = key();
    let mut s = Session::new(config());
    s.receive(&packet(0, &[0x05, 0x09, b'a']));
    assert!(matches!(
        s.handle_packet(&k),
        Step::Fail(SessionError::Buf(BufError::UnexpectedEof))
    ));
}

#[test]
fn ping_without_payload_aborts() {
    let k = key();
    let mut s = Session::new(config());
    s.receive(&handshake(767, "localhost", 1));
    s.handle_packet(&k);
    s.receive(&packet(1, &[1, 2, 3]));
    assert!(matches!(s.handle_packet(&k), Step::Abort));
}

#[test]
fn proxy_is_refused() {
    let k = key();
    let mut c = config();
    c.server.server_ip = Some("mc.example.org".to_string());
    let mut s = Session::new(c);
    s.receive(&handshake(763, "other.host", 2));
    match s.handle_packet(&k) {
        Step::Disconnect(b, Some(SessionError::ClientUsingProxy)) => {
            assert_eq!(disconnect_text(&b), r#"{"text":"Proxy"}"#)
        },
        _ => panic!("expected a disconnect"),
    }
    let mut c = config();
    c.server.server_ip = Some("mc.example.org".to_string());
    let mut s = Session::new(c);
    s.receive(&handshake(763, "mc.example.org", 2));
    assert!(matches!(s.handle_packet(&k), Step::Continue));
}

#[test]
fn configured_protocol_does_not_refuse_login() {
    let k = key();
    let mut c = config();
    c.server.config.protocol = 767;
    let mut s = Session::new(c);
    s.receive(&handshake(763, "localhost", 2));
    assert!(matches!(s.handle_packet(&k), Step::Continue));
    assert_eq!(s.next_state, NextStateEnum::Login);
    assert_eq!(s.proto_ver, 763);
}

#[test]
fn version_1_19_is_refused() {
    let k = key();
    let mut s = Session::new(config());
    s.receive(&handshake(760, "localhost", 2));
    s.handle_packet(&k);
    s.receive(&login_start("Steve"));
    assert!(matches!(
        s.handle_packet(&k),
        Step::Disconnect(_, Some(SessionError::UnsupportedVersion119))
    ));
    assert_eq!(s.nickname.as_deref(), Some("Steve"));
}

#[test]
fn full_login() {
    let k = key();
    let mut s = login_session(&k);
    s.receive(&login_start("Steve"));
    let der = k.to_public_key().to_public_key_der().unwrap().into_vec();
    match s.handle_packet(&k) {
        Step::Send(b) => {
            let mut b = BytesMut::from(&b[..]);
            let len = read_varint(&mut b).unwrap();
            assert_eq!(len, b.len());
            assert_eq!(read_varint(&mut b), Ok(1));
            assert_eq!(read_utf8(&mut b).unwrap(), "mc-oauth");
            assert_eq!(read_varint(&mut b), Ok(der.len()));
            assert_eq!(&b[..der.len()], &der[..]);
            let _ = b.split_to(der.len());
            assert_eq!(read_varint(&mut b), Ok(4));
            assert_eq!(&b[..], &s.verify_token[..]);
        },
        _ => panic!("expected the encryption request"),
    }
    assert_eq!(s.nickname.as_deref(), Some("Steve"));

    let public = k.to_public_key();
    let secret: Vec<u8> = (1..=16).collect();
    let mut rng = rand::thread_rng();
    let enc_secret = public.encrypt(&mut rng, Pkcs1v15Encrypt, &secret).unwrap();
    let enc_token = public.encrypt(&mut rng, Pkcs1v15Encrypt, &s.verify_token).unwrap();
    s.receive(&encryption_response(&enc_secret, &enc_token));
    let hash = server_hash("mc-oauth", &secret, &der);
    match s.handle_packet(&k) {
        Step::Authenticate(url) => {
            assert_eq!(url, format!("https://session/hasJoined?username=Steve&serverId={}", hash))
        },
        _ => panic!("expected the session server request"),
    }
    assert_eq!(s.secret.as_deref(), Some(&secret[..]));
    assert_eq!(s.cipher.as_deref(), Some(&secret[..]));

    let mut store = init_map();
    let player = MojangResponse { id: "abc".to_string(), name: "Steve".to_string(), properties: vec![] };
    let (step, code) = s.complete_auth(Some(player), &mut store);
    let code = code.unwrap();
    assert_eq!(code.len(), 6);
    match step {
        Step::Disconnect(b, None) => {
            let mut plain = b.to_vec();
            cfb8::Decryptor::<aes::Aes128>::new_from_slices(&secret, &secret)
                .unwrap()
                .decrypt(&mut plain);
            assert_eq!(
                disconnect_text(&plain),
                format!(r#"{{"text":"Hello, Steve! Your code is: {}"}}"#, code)
            );
        },
        _ => panic!("expected the disconnect"),
    }
    assert_eq!(store.take(&code).unwrap().name, "Steve");
}

#[test]
fn wrong_token_is_refused() {
    let k = key();
    let mut s = login_session(&k);
    s.receive(&login_start("Steve"));
    s.handle_packet(&k);
    let public = k.to_public_key();
    let mut rng = rand::thread_rng();
    let enc_secret = public.encrypt(&mut rng, Pkcs1v15Encrypt, &[7u8; 16]).unwrap();
    let mut wrong = s.verify_token;
    wrong[0] = wrong[0].wrapping_add(1);
    let enc_token = public.encrypt(&mut rng, Pkcs1v15Encrypt, &wrong).unwrap();
    s.receive(&encryption_response(&enc_secret, &enc_token));
    assert!(matches!(s.handle_packet(&k), Step::Fail(SessionError::VerifyTokenMismatch)));
    assert!(s.secret.is_none());
    assert!(s.cipher.is_none());
}

#[test]
fn token_must_equal_and_short_secret_refused() {
    let k = key();
    let mut s = login_session(&k);
    s.receive(&login_start("Steve"));
    s.handle_packet(&k);
    assert_eq!(
        s.apply_encryption_response(vec![1; 16], Some(s.verify_token[..2].to_vec())),
        Err(SessionError::VerifyTokenMismatch)
    );
    assert_eq!(
        s.apply_encryption_response(vec![1; 16], Some(vec![])),
        Err(SessionError::VerifyTokenMismatch)
    );
    assert!(s.secret.is_none() && s.cipher.is_none());
    let mut longer = s.verify_token.to_vec();
    longer.push(0);
    assert_eq!(
        s.apply_encryption_response(vec![3; 16], Some(longer)),
        Err(SessionError::VerifyTokenMismatch)
    );
    let token = s.verify_token.to_vec();
    assert!(s.apply_encryption_response(vec![1; 8], Some(token.clone())).is_err());
    assert_eq!(s.secret.as_deref(), Some(&[1u8; 8][..]));
    assert!(s.cipher.is_none());
    assert_eq!(s.apply_encryption_response(vec![2; 16], Some(token)), Ok(()));
    assert_eq!(s.cipher.as_deref(), Some(&[2u8; 16][..]));
}

#[test]
fn undecryptable_secret_fails() {
    let k = key();
    let mut s = login_session(&k);
    s.receive(&login_start("Steve"));
    s.handle_packet(&k);
    s.receive(&encryption_response(&[1, 2, 3], &[4, 5]));
    assert!(matches!(s.handle_packet(&k), Step::Fail(SessionError::Decryption)));
}

#[test]
fn secret_length_past_the_end_aborts() {
    let k = key();
    let mut s = login_session(&k);
    s.receive(&packet(1, &[50, 1, 2]));
    assert!(matches!(s.handle_packet(&k), Step::Abort));
}

#[test]
fn login_without_name_aborts() {
    let k = key();
    let mut s = login_session(&k);
    let public = k.to_public_key();
    let mut rng = rand::thread_rng();
    let enc_secret = public.encrypt(&mut rng, Pkcs1v15Encrypt, &[7u8; 16]).unwrap();
    let enc_token = public.encrypt(&mut rng, Pkcs1v15Encrypt, &s.verify_token).unwrap();
    s.receive(&encryption_response(&enc_secret, &enc_token));
    assert!(matches!(s.handle_packet(&k), Step::Abort));
}

#[test]
fn bad_session_disconnects() {
    let k = key();
    let s = login_session(&k);
    let mut store = init_map();
    let (step, code) = s.complete_auth(None, &mut store);
    assert!(code.is_none());
    match step {
        Step::Disconnect(b, Some(SessionError::MojangApi)) => {
            assert_eq!(disconnect_text(&b), r#"{"text":"Bad session"}"#)
        },
        _ => panic!("expected a disconnect"),
    }
}

#[test]
fn disconnect_is_encrypted_once_cipher_is_on() {
    let k = key();
    let mut s = login_session(&k);
    let plain = s.send_disconnect("x").unwrap();
    s.cipher = Some(vec![5; 16]);
    let enc = s.send_disconnect("x").unwrap();
    assert_eq!(plain.len(), enc.len());
    assert_ne!(&plain[..], &enc[..]);
    let mut back = enc.to_vec();
    cfb8::Decryptor::<aes::Aes128>::new_from_slices(&[5; 16], &[5; 16]).unwrap().decrypt(&mut back);
    assert_eq!(&back[..], &plain[..]);
}
