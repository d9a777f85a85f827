use bytes::BytesMut;
use mc_oauth::byte_buf_utils::BufError;
use mc_oauth::packets::disconnect::DisconnectPacket;
use mc_oauth::packets::encryption_request::EncryptionRequestPacket;
use mc_oauth::packets::encryption_response::EncryptionResponsePacket;
use mc_oauth::packets::handshake::HandshakePacket;
use mc_oauth::packets::login_start::LoginStartPacket;
use mc_oauth::packets::ping::PingPacket;
use mc_oauth::packets::status::StatusPacket;

#[test]
fn disconnect_packet_bytes() {
    let p = DisconnectPacket::with_reason("bye".to_string());
    let b = p.build().unwrap();
    let text = br#"{"text":"bye"}"#;
    let mut expected = vec![(2 + text.len()) as u8, 0x00, text.len() as u8];
    expected.extend_from_slice(text);
    assert_eq!(&b[..], &expected[..]);
}

#[test]
fn disconnect_default_is_empty() {
    let p = DisconnectPacket::default();
    assert_eq!(p.reason, "");
    let b = p.build().unwrap();
    assert_eq!(&b[3..], br#"{"text":""}"#);
}

#[test]
fn disconnect_reason_too_long() {
    let p = DisconnectPacket::with_reason("x".repeat(32760));
    assert_eq!(p.build().err(), Some(BufError::StringTooLong));
}

#[test]
fn encryption_request_bytes() {
    let p = EncryptionRequestPacket::new("".to_string(), vec![1, 2, 3], vec![9, 8, 7, 6], Some(true));
    assert_eq!(p.public_key_length, 3);
    assert_eq!(p.verify_token_length, 4);
    let b = p.build().unwrap();
    assert_eq!(&b[..], &[12, 0x01, 0x00, 3, 1, 2, 3, 4, 9, 8, 7, 6, 0x01]);

    let p = EncryptionRequestPacket::new("ab".to_string(), vec![], vec![5], None);
    let b = p.build().unwrap();
    assert_eq!(&b[..], &[7, 0x01, 2, b'a', b'b', 0, 1, 5]);

    let p = EncryptionRequestPacket::new("".to_string(), vec![], vec![], Some(false));
    assert_eq!(&p.build().unwrap()[..], &[5, 0x01, 0, 0, 0, 0x00]);
}

#[test]
fn ping_packet_bytes() {
    let p = PingPacket { payload: 0x0102030405060708 };
    assert_eq!(&p.build().unwrap()[..], &[9, 0x01, 1, 2, 3, 4, 5, 6, 7, 8]);
    let p = PingPacket { payload: -2 };
    assert_eq!(&p.build().unwrap()[..], &[9, 0x01, 0xff, 0xff, 0xff, 0xff, 0xff, 0xff, 0xff, 0xfe]);
}

#[test]
fn status_packet_bytes() {
    let b = StatusPacket::build("{}").unwrap();
    assert_eq!(&b[..], &[4, 0x00, 2, b'{', b'}']);
    assert_eq!(StatusPacket::build(&"a".repeat(40000)).err(), Some(BufError::StringTooLong));
}

#[test]
fn handshake_parse_fields() {
    let mut b = BytesMut::new();
    b.extend_from_slice(&[0xff, 0x05]); // 767
    b.extend_from_slice(&[9]);
    b.extend_from_slice(b"localhost");
    b.extend_from_slice(&[0x63, 0xdd, 0x02, 0x42]);
    let h = HandshakePacket::parse(&mut b).unwrap();
    assert_eq!(h.proto_ver, 767);
    assert_eq!(h.server_addr, "localhost");
    assert_eq!(h.port, 25565);
    assert_eq!(h.next_state, 2);
    assert_eq!(&b[..], &[0x42]);
}

#[test]
fn handshake_parse_short() {
    let mut b = BytesMut::from(&[0x05, 0x01, b'a', 0x63][..]);
    assert_eq!(HandshakePacket::parse(&mut b).err(), Some(BufError::UnexpectedEof));
    assert_eq!(&b[..], &[0x63]);
}

#[test]
fn login_start_with_and_without_uuid() {
    let mut b = BytesMut::from(&[5, b'S', b't', b'e', b'v', b'e'][..]);
    let p = LoginStartPacket::parse(&mut b).unwrap();
    assert_eq!(p.name, "Steve");
    assert_eq!(p.uuid, None);

    let mut bytes = vec![3, b'B', b'o', b'b'];
    bytes.extend_from_slice(&[0x11; 16]);
    let mut b = BytesMut::from(&bytes[..]);
    let p = LoginStartPacket::parse(&mut b).unwrap();
    assert_eq!(p.name, "Bob");
    assert_eq!(p.uuid, Some(0x1111_1111_1111_1111_1111_1111_1111_1111));
    assert!(b.is_empty());
}

#[test]
fn encryption_response_with_token() {
    let mut b = BytesMut::from(&[2, 0xaa, 0xbb, 1, 0xcc, 0xdd][..]);
    assert!(EncryptionResponsePacket::fits(&b, 763));
    let p = EncryptionResponsePacket::parse(&mut b, 763).unwrap();
    assert_eq!(p.shared_secret, vec![0xaa, 0xbb]);
    assert_eq!(p.verify_token, vec![0xcc]);
    assert!(p.has_verify);
    assert_eq!(&b[..], &[0xdd]);
}

#[test]
fn encryption_response_1_19_has_no_token() {
    let mut b = BytesMut::from(&[1, 0xaa, 1, 0xcc][..]);
    let p = EncryptionResponsePacket::parse(&mut b, 759).unwrap();
    assert_eq!(p.shared_secret, vec![0xaa]);
    assert!(p.verify_token.is_empty());
    assert!(!p.has_verify);
    assert_eq!(&b[..], &[1, 0xcc]);
}

#[test]
fn encryption_response_lengths_past_the_end() {
    let b = BytesMut::from(&[5, 0xaa][..]);
    assert!(!EncryptionResponsePacket::fits(&b, 763));
    let b = BytesMut::from(&[1, 0xaa, 3, 0][..]);
    assert!(!EncryptionResponsePacket::fits(&b, 763));
    assert!(EncryptionResponsePacket::fits(&b, 760));
    let b = BytesMut::from(&[0x80, 0x80, 0x80, 0x80, 0x80, 0x80][..]);
    assert!(EncryptionResponsePacket::fits(&b, 763));
    let mut b2 = b.clone();
    assert_eq!(
        EncryptionResponsePacket::parse(&mut b2, 763).err(),
        Some(BufError::VarIntTooBig)
    );
}
