//! Digests, hex and base64 encodings, and random tokens, as the outside
//! crates compute them.

use vstd::prelude::*;
use base64::Engine;
use rand::Rng;
use sha2::Digest;
use vstd::utf8::{decode_utf8, encode_utf8, valid_utf8};

verus! {

/// The SHA-256 digest of a byte string, as `sha2` computes it.
pub uninterp spec fn sha256(data: Seq<u8>) -> Seq<u8>;

/// `sha2::Sha256::digest`: the result is the digest of `data`, 32 bytes.
#[verifier::external_body]
pub(crate) fn sha256_digest(data: &[u8]) -> (r: Vec<u8>)
    ensures
        r@ == sha256(data@),
        r@.len() == 32,
{
    let digest: [u8; 32] = sha2::Sha256::digest(data).into();
    digest.to_vec()
}

/// The lowercase hex digit of a value below 16.
pub open spec fn hex_digit(n: u8) -> char {
    if n < 10 {
        (48 + n) as char
    } else {
        (87 + n) as char
    }
}

/// Lowercase hex text of a byte string: two digits per byte, high nibble
/// first.
pub open spec fn hex_text(data: Seq<u8>) -> Seq<char> {
    Seq::new(
        2 * data.len(),
        |i: int|
            if i % 2 == 0 {
                hex_digit(data[i / 2] / 16)
            } else {
                hex_digit(data[i / 2] % 16)
            },
    )
}

/// `hex::encode`: lowercase hex, two digits per byte.
#[verifier::external_body]
pub(crate) fn hex_encode(data: &[u8]) -> (r: String)
    ensures
        r@ == hex_text(data@),
{
    hex::encode(data)
}

/// The value of bytes read as a little-endian unsigned number.
pub open spec fn le_value(b: Seq<u8>) -> nat
    decreases b.len(),
{
    if b.len() == 0 {
        0
    } else {
        b[0] as nat + 256 * le_value(b.drop_first())
    }
}

/// `u64::from_le_bytes`: the little-endian value of eight bytes.
#[verifier::external_body]
pub(crate) fn u64_from_le_bytes(b: [u8; 8]) -> (r: u64)
    ensures
        r as nat == le_value(b@),
{
    u64::from_le_bytes(b)
}

/// The four general-purpose base64 engines.
#[derive(Clone, Copy, Debug, PartialEq, Eq, Structural)]
pub enum Base64Engine {
    Standard,
    StandardNoPad,
    UrlSafe,
    UrlSafeNoPad,
}

/// What `base64` decoding with an engine gives for the input: the bytes,
/// or the text of the decode error.
pub uninterp spec fn base64_decoded(engine: Base64Engine, input: Seq<u8>) -> Result<Seq<u8>, Seq<char>>;

/// `base64::Engine::decode` with one of the general-purpose engines: the
/// result is what the engine gives for `input`, an error by its message.
#[verifier::external_body]
pub(crate) fn base64_decode(engine: Base64Engine, input: &[u8]) -> (r: Result<Vec<u8>, String>)
    ensures
        match r {
            Ok(v) => base64_decoded(engine, input@) == Ok::<Seq<u8>, Seq<char>>(v@),
            Err(m) => base64_decoded(engine, input@) == Err::<Seq<u8>, Seq<char>>(m@),
        },
{
    let decoded = match engine {
        Base64Engine::Standard => base64::engine::general_purpose::STANDARD.decode(input),
        Base64Engine::StandardNoPad => base64::engine::general_purpose::STANDARD_NO_PAD.decode(input),
        Base64Engine::UrlSafe => base64::engine::general_purpose::URL_SAFE.decode(input),
        Base64Engine::UrlSafeNoPad => base64::engine::general_purpose::URL_SAFE_NO_PAD.decode(input),
    };
    decoded.map_err(|e| e.to_string())
}

/// Whether a character is an ASCII letter or digit.
pub open spec fn is_alphanumeric_ascii(c: char) -> bool {
    ('a' <= c && c <= 'z') || ('A' <= c && c <= 'Z') || ('0' <= c && c <= '9')
}

/// A random token from `rand::rng()` sampling `Alphanumeric`: `len`
/// characters, each an ASCII letter or digit. Which ones is left to chance.
#[verifier::external_body]
pub(crate) fn random_token(len: usize) -> (r: String)
    ensures
        r@.len() == len,
        forall|i: int| 0 <= i < len ==> is_alphanumeric_ascii(#[trigger] r@[i]),
{
    rand::rng().sample_iter(&rand::distr::Alphanumeric).take(len).map(char::from).collect()
}

/// Lowercase hex of the SHA-256 digest of `bytes`.
pub fn sha256_bytes_hex(bytes: &[u8]) -> (r: String)
    ensures
        r@ == hex_text(sha256(bytes@)),
        r@.len() == 64,
{
    let digest = sha256_digest(bytes);
    hex_encode(digest.as_slice())
}

/// Lowercase hex of the SHA-256 digest of the UTF-8 bytes of `value`.
pub fn sha256_string_hex(value: &str) -> (r: String)
    ensures
        r@ == hex_text(sha256(encode_utf8(value@))),
        r@.len() == 64,
{
    sha256_bytes_hex(value.as_bytes())
}

/// The message of `std::str::from_utf8`'s error for bytes that are not
/// UTF-8.
pub uninterp spec fn utf8_error_text(bytes: Seq<u8>) -> Seq<char>;

/// `std::str::from_utf8`: the text of valid UTF-8 bytes, else the error's
/// message.
#[verifier::external_body]
pub(crate) fn utf8_text(bytes: &[u8]) -> (r: Result<String, String>)
    ensures
        match r {
            Ok(s) => valid_utf8(bytes@) && s@ == decode_utf8(bytes@),
            Err(m) => !valid_utf8(bytes@) && m@ == utf8_error_text(bytes@),
        },
{
    match std::str::from_utf8(bytes) {
        Ok(s) => Ok(s.to_string()),
        Err(e) => Err(e.to_string()),
    }
}

} // verus!
