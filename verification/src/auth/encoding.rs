//! The encodings and the keyed hash of which tokens are made, as outside crates compute them.

use vstd::prelude::*;
use vstd::utf8::{decode_utf8, encode_utf8, valid_utf8};
use base64::Engine;
use hmac::Mac;
use rand::RngCore;

verus! {

/// The character of a hexadecimal digit, in lower case.
pub open spec fn hex_digit(d: int) -> char {
    if d < 10 {
        (48 + d) as char
    } else {
        (87 + d) as char
    }
}

/// Two hexadecimal digits for each byte, the higher one first.
pub open spec fn hex_text(data: Seq<u8>) -> Seq<char>
    decreases data.len(),
{
    if data.len() == 0 {
        Seq::empty()
    } else {
        let b = data.last() as int;
        hex_text(data.drop_last()).push(hex_digit(b / 16)).push(hex_digit(b % 16))
    }
}

/// `hex::encode` writes each byte as two lower-case hexadecimal digits.
#[verifier::external_body]
pub(crate) fn hex_encode(data: &Vec<u8>) -> (r: String)
    ensures
        r@ == hex_text(data@),
{
    hex::encode(data)
}

/// The HMAC-SHA256 of a message under a key.
pub uninterp spec fn hmac_sha256(key: Seq<u8>, message: Seq<u8>) -> Seq<u8>;

/// `hmac::Hmac` over `sha2::Sha256`, keyed by `new_from_slice`, which takes a key of any length,
/// fed with the whole message by `update` and closed by `finalize`. The code is a function of
/// key and message, and has the 32 bytes of a SHA-256 digest.
#[verifier::external_body]
pub(crate) fn hmac_code(key: &str, message: &str) -> (r: Vec<u8>)
    ensures
        r@ == hmac_sha256(encode_utf8(key@), encode_utf8(message@)),
        r@.len() == 32,
{
    let mut mac = hmac::Hmac::<sha2::Sha256>::new_from_slice(key.as_bytes()).expect(
        "HMAC can take key of any size",
    );
    mac.update(message.as_bytes());
    mac.finalize().into_bytes().to_vec()
}

/// The text that the standard base64 engine encodes bytes to.
pub uninterp spec fn base64_encoded(data: Seq<u8>) -> Seq<char>;

/// The bytes that the standard base64 engine decodes a text to, where it accepts it.
pub uninterp spec fn base64_decoded(text: Seq<char>) -> Option<Seq<u8>>;

/// How long the base64 text of so many bytes is: four characters for every three bytes begun.
pub open spec fn base64_length(bytes: nat) -> nat {
    (bytes + 2) / 3 * 4
}

/// `Engine::encode` of `base64::engine::general_purpose::STANDARD`. The text is a function of
/// the bytes, and the same engine decodes it to those bytes. The engine allocates the text at
/// once and panics where it is longer than any allocation can be, which the bound leaves out.
#[verifier::external_body]
pub(crate) fn base64_encode(data: &str) -> (r: String)
    requires
        base64_length(encode_utf8(data@).len()) <= isize::MAX,
    ensures
        r@ == base64_encoded(encode_utf8(data@)),
        base64_decoded(r@) == Some(encode_utf8(data@)),
{
    base64::engine::general_purpose::STANDARD.encode(data.as_bytes())
}

/// `Engine::decode` of `base64::engine::general_purpose::STANDARD`. Whether it accepts a text,
/// and what it decodes it to, is a function of the text.
#[verifier::external_body]
pub(crate) fn base64_decode(text: &str) -> (r: Option<Vec<u8>>)
    ensures
        match r {
            Some(data) => base64_decoded(text@) == Some(data@),
            None => base64_decoded(text@) is None,
        },
{
    base64::engine::general_purpose::STANDARD.decode(text).ok()
}

/// `RngCore::fill_bytes` of `rand::thread_rng` fills the array with bytes by chance, of which
/// nothing is claimed. It panics where the system cannot give it a seed.
#[verifier::external_body]
pub(crate) fn random_bytes() -> (r: [u8; 16]) {
    let mut bytes = [0u8; 16];
    rand::thread_rng().fill_bytes(&mut bytes);
    bytes
}

/// `String::from_utf8` accepts exactly the valid UTF-8 and gives the text it encodes.
#[verifier::external_body]
pub(crate) fn utf8_text(data: Vec<u8>) -> (r: Option<String>)
    ensures
        match r {
            Some(s) => valid_utf8(data@) && s@ == decode_utf8(data@),
            None => !valid_utf8(data@),
        },
{
    String::from_utf8(data).ok()
}

} // verus!
