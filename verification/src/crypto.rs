//! The cryptographic primitives of the login: RSA, AES/CFB8, SHA-1, the signed hex form
//! of a digest, and Base64.
use crate::buffer::{be_signed, buf_bytes};
use aes::cipher::{AsyncStreamCipher, KeyIvInit};
use bytes::BytesMut;
use rsa::pkcs8::EncodePublicKey;
use rsa::{Pkcs1v15Encrypt, RsaPrivateKey};
use sha1::{Digest, Sha1};
use vstd::prelude::*;

verus! {

/// `rsa::RsaPrivateKey`, the server's RSA key pair.
#[verifier::external_type_specification]
#[verifier::external_body]
pub struct ExRsaPrivateKey(RsaPrivateKey);

/// `rsa::Error`, why an RSA operation failed.
#[verifier::external_type_specification]
#[verifier::external_body]
pub struct ExRsaError(rsa::Error);

/// The PKCS#1 v1.5 plaintext of `ciphertext` under the private `key`, or `None` where the
/// decryption reports an error.
pub uninterp spec fn rsa_plain(key: RsaPrivateKey, ciphertext: Seq<u8>) -> Option<Seq<u8>>;

/// `RsaPrivateKey::decrypt` with PKCS#1 v1.5 padding: the plaintext of `ciphertext`, or
/// `None` where the crate reports an error. The crate decrypts without a random source
/// (no blinding), so the outcome is a function of the key and the ciphertext alone.
#[verifier::external_body]
pub(crate) fn rsa_decrypt(key: &RsaPrivateKey, ciphertext: &[u8]) -> (r: Option<Vec<u8>>)
    ensures
        match r {
            Some(p) => rsa_plain(*key, ciphertext@) == Some(p@),
            None => rsa_plain(*key, ciphertext@) is None,
        },
{
    key.decrypt(Pkcs1v15Encrypt, ciphertext).ok()
}

/// The DER-encoded SubjectPublicKeyInfo of the public half of `key`, or `None` where the
/// encoding reports an error.
pub uninterp spec fn public_der_of(key: RsaPrivateKey) -> Option<Seq<u8>>;

/// `EncodePublicKey::to_public_key_der` on `key.to_public_key()`: the DER-encoded
/// SubjectPublicKeyInfo of the public half of `key`, or `None` where the crate reports an
/// error. The encoding is built from the key's modulus and exponent alone.
#[verifier::external_body]
pub(crate) fn public_key_der(key: &RsaPrivateKey) -> (r: Option<Vec<u8>>)
    ensures
        match r {
            Some(d) => public_der_of(*key) == Some(d@),
            None => public_der_of(*key) is None,
        },
{
    match key.to_public_key().to_public_key_der() {
        Ok(doc) => Some(doc.into_vec()),
        Err(_) => None,
    }
}

/// The AES-128/CFB8 encryption of `data` under `key` and initial vector `iv`.
pub uninterp spec fn aes128_cfb8(key: Seq<u8>, iv: Seq<u8>, data: Seq<u8>) -> Seq<u8>;

/// `cfb8::Encryptor::<aes::Aes128>::new_from_slices(key, iv)` and then `encrypt` on the
/// bytes of `data`, in place. The cipher is only made with a 16-byte key and a 16-byte
/// initial vector; otherwise it reports `InvalidLength` and `data` is left as it was. A
/// stream cipher keeps the length.
#[verifier::external_body]
pub(crate) fn aes_cfb8_encrypt(key: &[u8], iv: &[u8], data: &mut BytesMut) -> (r: bool)
    ensures
        r == (key@.len() == 16 && iv@.len() == 16),
        r ==> buf_bytes(*final(data)) == aes128_cfb8(key@, iv@, buf_bytes(*old(data))),
        !r ==> buf_bytes(*final(data)) == buf_bytes(*old(data)),
        buf_bytes(*final(data)).len() == buf_bytes(*old(data)).len(),
{
    match cfb8::Encryptor::<aes::Aes128>::new_from_slices(key, iv) {
        Ok(cipher) => {
            cipher.encrypt(&mut data[..]);
            true
        },
        Err(_) => false,
    }
}

/// The SHA-1 digest of `data`.
pub uninterp spec fn sha1_of(data: Seq<u8>) -> Seq<u8>;

/// `Sha1::digest`: the 20-byte SHA-1 digest of `data`.
#[verifier::external_body]
pub(crate) fn sha1_digest(data: &[u8]) -> (r: Vec<u8>)
    ensures
        r@ == sha1_of(data@),
        r@.len() == 20,
{
    Sha1::digest(data).to_vec()
}

/// The lowercase hexadecimal digit of `d`.
pub open spec fn hex_digit(d: nat) -> char {
    if d < 10 {
        ((d + 48) as u8) as char
    } else {
        ((d + 87) as u8) as char
    }
}

/// `n` in lowercase hexadecimal, without leading zeros (`0` for zero).
pub open spec fn hex_of(n: nat) -> Seq<char>
    decreases n,
{
    if n < 16 {
        seq![hex_digit(n)]
    } else {
        hex_of(n / 16).push(hex_digit(n % 16))
    }
}

/// The signed hexadecimal form of `s` read as a two's-complement number: a `-` for a
/// negative one, then the magnitude in lowercase hexadecimal.
pub open spec fn signed_hex(s: Seq<u8>) -> Seq<char> {
    let v = be_signed(s);
    if v < 0 {
        seq!['-'] + hex_of((-v) as nat)
    } else {
        hex_of(v as nat)
    }
}

/// `BigInt::from_signed_bytes_be(bytes).to_str_radix(16)`: the number that `bytes` spell
/// in big-endian two's complement, written in lowercase hexadecimal with a leading `-`
/// when negative and no leading zeros.
#[verifier::external_body]
pub(crate) fn signed_hex_string(bytes: &[u8]) -> (r: String)
    ensures
        r@ == signed_hex(bytes@),
{
    num_bigint::BigInt::from_signed_bytes_be(bytes).to_str_radix(16)
}

/// The Base64 character for the six-bit value `v`: `A`-`Z`, `a`-`z`, `0`-`9`, `+`, `/`.
pub open spec fn b64_char(v: int) -> char {
    if v < 26 {
        (v + 65) as char
    } else if v < 52 {
        (v + 71) as char
    } else if v < 62 {
        (v - 4) as char
    } else if v == 62 {
        '+'
    } else {
        '/'
    }
}

/// The padded Base64 encoding of `data`: each three bytes, read as 24 bits, give four
/// characters of six bits each; a last one or two bytes give two or three characters and
/// are padded with `=` to four.
pub open spec fn base64_of(data: Seq<u8>) -> Seq<char>
    decreases data.len(),
{
    let x = data[0] as int;
    let y = data[1] as int;
    let z = data[2] as int;
    if data.len() == 0 {
        Seq::empty()
    } else if data.len() == 1 {
        seq![b64_char(x / 4), b64_char((x % 4) * 16), '=', '=']
    } else if data.len() == 2 {
        seq![
            b64_char(x / 4),
            b64_char((x % 4) * 16 + y / 16),
            b64_char((y % 16) * 4),
            '=',
        ]
    } else {
        seq![
            b64_char(x / 4),
            b64_char((x % 4) * 16 + y / 16),
            b64_char((y % 16) * 4 + z / 64),
            b64_char(z % 64),
        ] + base64_of(data.skip(3))
    }
}

/// `base64_light::base64_encode_bytes`: the padded Base64 encoding of `data` with the
/// standard alphabet.
#[verifier::external_body]
pub(crate) fn base64_encode(data: &[u8]) -> (r: String)
    ensures
        r@ == base64_of(data@),
{
    base64_light::base64_encode_bytes(data)
}

/// A Base64 encoding has four characters for every three bytes begun.
pub proof fn lemma_base64_len(data: Seq<u8>)
    ensures
        base64_of(data).len() == 4 * ((data.len() + 2) / 3),
    decreases data.len(),
{
    if data.len() > 2 {
        lemma_base64_len(data.skip(3));
    }
}

} // verus!
