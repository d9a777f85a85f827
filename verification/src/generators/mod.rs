//! Random values of the login: the key pair, verify tokens and codes.
use crate::text::push_char;
use rand::Rng;
use rsa::RsaPrivateKey;
use vstd::prelude::*;

verus! {

/// `RsaPrivateKey::new` with the operating system's random source and 1024 bits: a fresh
/// key pair, or the crate's error. The key is random, so nothing is stated of it.
#[verifier::external_body]
pub fn generate_key_pair() -> (r: Result<RsaPrivateKey, rsa::Error>) {
    RsaPrivateKey::new(&mut rand::rngs::OsRng, 1024)
}

/// `Rng::fill` on four bytes from the thread's random generator: a random verify token.
#[verifier::external_body]
pub fn generate_verify_token() -> (r: [u8; 4]) {
    let mut token = [0u8; 4];
    rand::thread_rng().fill(&mut token);
    token
}

/// `Rng::gen_range(0..=9)` on the thread's random generator: a random decimal digit.
#[verifier::external_body]
fn random_digit() -> (r: u8)
    ensures
        r <= 9,
{
    rand::thread_rng().gen_range(0..=9u8)
}

/// Whether every character of `s` is a decimal digit.
pub open spec fn all_digits(s: Seq<char>) -> bool {
    forall|i: int| 0 <= i < s.len() ==> '0' <= #[trigger] s[i] <= '9'
}

/// A code of `length` random decimal digits.
pub fn generate_code(length: usize) -> (r: String)
    ensures
        r@.len() == length,
        all_digits(r@),
{
    let mut code = String::new();
    let mut i: usize = 0;
    while i < length
        invariant
            i <= length,
            code@.len() == i,
            all_digits(code@),
        decreases length - i,
    {
        let d = random_digit();
        let c = (d + 48) as char;
        assert('0' <= c <= '9');
        push_char(&mut code, c);
        i = i + 1;
    }
    code
}

} // verus!
