use bytes::BytesMut;
use mc_oauth::byte_buf_utils::{
    add_size, read_unsigned_short, read_utf8, read_varint, try_get_uuid, varint_at, write_utf8,
    write_varint, BufError,
};

fn buf(bytes: &[u8]) -> BytesMut {
    BytesMut::from(bytes)
}

#[test]
fn write_varint_small_and_large() {
    let mut b = BytesMut::new();
    write_varint(&mut b, 0);
    assert_eq!(&b[..], &[0x00]);

    let mut b = BytesMut::new();
    write_varint(&mut b, 127);
    assert_eq!(&b[..], &[0x7f]);

    let mut b = BytesMut::new();
    write_varint(&mut b, 128);
    assert_eq!(&b[..], &[0x80, 0x01]);

    let mut b = BytesMut::new();
    write_varint(&mut b, 300);
    assert_eq!(&b[..], &[0xac, 0x02]);

    let mut b = BytesMut::new();
    write_varint(&mut b, 2147483647);
    assert_eq!(&b[..], &[0xff, 0xff, 0xff, 0xff, 0x07]);
}

#[test]
fn write_varint_negative_uses_five_bytes() {
    let mut b = BytesMut::new();
    write_varint(&mut b, -1);
    assert_eq!(&b[..], &[0xff, 0xff, 0xff, 0xff, 0x0f]);
}

#[test]
fn write_varint_appends() {
    let mut b = buf(&[9, 9]);
    write_varint(&mut b, 1);
    assert_eq!(&b[..], &[9, 9, 1]);
}

#[test]
fn read_varint_values() {
    let mut b = buf(&[0xac, 0x02, 0x55]);
    assert_eq!(read_varint(&mut b), Ok(300));
    assert_eq!(&b[..], &[0x55]);

    let mut b = buf(&[0xff, 0xff, 0xff, 0xff, 0x0f]);
    assert_eq!(read_varint(&mut b), Ok(0xffff_ffff));
    assert!(b.is_empty());
}

#[test]
fn read_varint_empty_gives_zero() {
    let mut b = BytesMut::new();
    assert_eq!(read_varint(&mut b), Ok(0));
}

#[test]
fn read_varint_stops_at_end_of_data() {
    // the continuation bit is set but no byte follows
    let mut b = buf(&[0x81]);
    assert_eq!(read_varint(&mut b), Ok(1));
    assert!(b.is_empty());
}

#[test]
fn read_varint_too_big() {
    let mut b = buf(&[0x80, 0x80, 0x80, 0x80, 0x80, 0x01, 0x07]);
    assert_eq!(read_varint(&mut b), Err(BufError::VarIntTooBig));
    // six bytes were taken
    assert_eq!(&b[..], &[0x07]);
}

#[test]
fn varint_roundtrip_examples() {
    for v in [0i32, 1, 127, 128, 255, 25565, 2097151, 2147483647, -1, -2147483648] {
        let mut b = BytesMut::new();
        write_varint(&mut b, v);
        b.extend_from_slice(&[0xaa]);
        assert_eq!(read_varint(&mut b), Ok(v as u32 as usize));
        assert_eq!(&b[..], &[0xaa]);
    }
}

#[test]
fn varint_at_does_not_take() {
    let bytes = [0x00, 0xac, 0x02];
    assert_eq!(varint_at(&bytes, 1), (Ok(300), 2));
    assert_eq!(varint_at(&bytes, 3), (Ok(0), 0));
}

#[test]
fn add_size_prefixes_length() {
    let data = buf(&[1, 2, 3]);
    assert_eq!(&add_size(&data)[..], &[3, 1, 2, 3]);
    let big = BytesMut::from(&vec![7u8; 200][..]);
    let framed = add_size(&big);
    assert_eq!(&framed[..2], &[0xc8, 0x01]);
    assert_eq!(framed.len(), 202);
}

#[test]
fn utf8_write_and_read() {
    let mut b = BytesMut::new();
    assert_eq!(write_utf8(&mut b, "hi"), Ok(()));
    assert_eq!(&b[..], &[2, b'h', b'i']);
    assert_eq!(read_utf8(&mut b), Ok("hi".to_string()));
    assert!(b.is_empty());

    let mut b = BytesMut::new();
    write_utf8(&mut b, "§6é").unwrap();
    assert_eq!(b[0], 5);
    assert_eq!(read_utf8(&mut b), Ok("§6é".to_string()));
}

#[test]
fn utf8_too_long_is_refused() {
    let mut b = buf(&[1]);
    let long = "a".repeat(32767);
    assert_eq!(write_utf8(&mut b, &long), Err(BufError::StringTooLong));
    assert_eq!(&b[..], &[1]);
    let ok = "a".repeat(32766);
    assert_eq!(write_utf8(&mut b, &ok), Ok(()));
    assert_eq!(b.len(), 1 + 3 + 32766);
}

#[test]
fn utf8_short_data() {
    let mut b = buf(&[5, b'a', b'b']);
    assert_eq!(read_utf8(&mut b), Err(BufError::UnexpectedEof));
    // only the length was taken
    assert_eq!(&b[..], &[b'a', b'b']);
}

#[test]
fn utf8_invalid_bytes() {
    let mut b = buf(&[2, 0xff, 0xfe, 9]);
    assert_eq!(read_utf8(&mut b), Err(BufError::InvalidUtf8));
    assert_eq!(&b[..], &[9]);
}

#[test]
fn unsigned_short_reads_big_endian() {
    let mut b = buf(&[0x63, 0xdd, 1]);
    assert_eq!(read_unsigned_short(&mut b), Ok(25565));
    assert_eq!(&b[..], &[1]);
    assert_eq!(read_unsigned_short(&mut b), Err(BufError::UnexpectedEof));
    assert_eq!(&b[..], &[1]);
}

#[test]
fn uuid_needs_sixteen_bytes() {
    let mut bytes = vec![0u8; 15];
    bytes.push(0x2a);
    bytes.push(0x77);
    let mut b = buf(&bytes);
    assert_eq!(try_get_uuid(&mut b), Some(0x2a));
    assert_eq!(&b[..], &[0x77]);
    assert_eq!(try_get_uuid(&mut b), None);
    assert_eq!(&b[..], &[0x77]);
}
