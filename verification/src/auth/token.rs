//! Tokens that carry who they were made for, and a signature over it.

use vstd::prelude::*;
use vstd::utf8::{
    decode_utf8, encode_utf8, encode_utf8_decode_utf8, encode_utf8_valid_utf8, is_ascii_chars,
    is_ascii_chars_encode_utf8, valid_utf8,
};
use crate::auth::encoding::{
    base64_decode, base64_decoded, base64_encode, base64_encoded, base64_length, hex_encode,
    hex_text, hmac_code, hmac_sha256, random_bytes, utf8_text,
};
use crate::text::chars::{owned, same_text, texts};
use crate::text::decimal::{decimal, signed_decimal, signed_decimal_text};
use crate::text::number::{
    is_digit, lemma_decimal_digits, lemma_read_signed_decimal, parse_i32, read_signed,
};
use crate::text::split::{
    lemma_split_first, lemma_split_lengths, lemma_split_nonempty, lemma_split_several,
    lemma_split_single, split_on, split_text,
};

verus! {

/// Who a token was made for, and under which version of the account.
#[derive(Debug, PartialEq)]
pub struct TokenData {
    pub user_id: String,
    pub version: i32,
}

impl Clone for TokenData {
    fn clone(&self) -> (r: Self)
        ensures
            r == *self,
    {
        TokenData { user_id: self.user_id.clone(), version: self.version }
    }
}

/// The four parts of the text of a token.
#[derive(Debug, PartialEq)]
pub struct TokenParts {
    pub user_id: String,
    pub version: i32,
    pub nonce: String,
    pub signature: String,
}

/// What a token says and its signature is over.
pub open spec fn payload(user_id: Seq<char>, version: int, nonce: Seq<char>) -> Seq<char> {
    user_id + ":"@ + signed_decimal(version) + ":"@ + nonce
}

/// The signature of a payload under a secret.
pub open spec fn signature(payload: Seq<char>, secret: Seq<char>) -> Seq<char> {
    hex_text(hmac_sha256(encode_utf8(secret), encode_utf8(payload)))
}

/// The text of a token before it is encoded.
pub open spec fn signed_text(payload: Seq<char>, signature: Seq<char>) -> Seq<char> {
    payload + ":"@ + signature
}

/// What the text of a token consists of: user, version, nonce and signature.
pub open spec fn token_parts(text: Seq<char>) -> Option<(Seq<char>, int, Seq<char>, Seq<char>)> {
    let parts = split_on(text, ':');
    if parts.len() != 4 {
        None
    } else {
        match read_signed(parts[1], i32::MAX as nat) {
            Ok(v) => Some((parts[0], v, parts[2], parts[3])),
            Err(_) => None,
        }
    }
}

/// Whom the text of a token stands for, if its signature is the one under the secret.
pub open spec fn text_holder(text: Seq<char>, secret: Seq<char>) -> Option<(Seq<char>, int)> {
    match token_parts(text) {
        Some(p) => if p.3 == signature(payload(p.0, p.1, p.2), secret) {
            Some((p.0, p.1))
        } else {
            None
        },
        None => None,
    }
}

/// Whom a token stands for, if it was made with the secret.
pub open spec fn token_holder(token: Seq<char>, secret: Seq<char>) -> Option<(Seq<char>, int)> {
    match base64_decoded(token) {
        Some(data) => if valid_utf8(data) {
            text_holder(decode_utf8(data), secret)
        } else {
            None
        },
        None => None,
    }
}

/// Writes a payload.
pub fn payload_text(user_id: &str, version: i32, nonce: &str) -> (r: String)
    ensures
        r@ == payload(user_id@, version as int, nonce@),
{
    let number: String = signed_decimal_text(version as i64);
    let mut out: String = owned(user_id);
    out.append(":");
    out.append(number.as_str());
    out.append(":");
    out.append(nonce);
    out
}

/// Takes the text of a token apart.
pub fn parse_token_text(text: &str) -> (r: Option<TokenParts>)
    ensures
        match r {
            Some(p) => token_parts(text@) == Some(
                (p.user_id@, p.version as int, p.nonce@, p.signature@),
            ),
            None => token_parts(text@) is None,
        },
{
    let parts: Vec<String> = split_text(text, ':');
    let ghost pieces = split_on(text@, ':');
    assert(pieces.len() == parts@.len());
    if parts.len() != 4 {
        return None;
    }
    assert(forall|i: int| 0 <= i < 4 ==> pieces[i] == #[trigger] parts@[i]@);
    match parse_i32(parts[1].as_str()) {
        Ok(version) => Some(
            TokenParts {
                user_id: parts[0].clone(),
                version,
                nonce: parts[2].clone(),
                signature: parts[3].clone(),
            },
        ),
        Err(_) => None,
    }
}

/// The holder that the parts of a token name, if they carry the signature that is expected.
pub fn accept(parts: TokenParts, expected: &str) -> (r: Option<TokenData>)
    ensures
        match r {
            Some(d) => parts.signature@ == expected@ && d.user_id == parts.user_id && d.version
                == parts.version,
            None => parts.signature@ != expected@,
        },
{
    if same_text(parts.signature.as_str(), expected) {
        Some(TokenData { user_id: parts.user_id, version: parts.version })
    } else {
        None
    }
}

/// The signature of a payload under a secret.
pub fn sign(payload: &str, secret: &str) -> (r: String)
    ensures
        r@ == signature(payload@, secret@),
        r@.len() == 64,
        !r@.contains(':'),
{
    let code: Vec<u8> = hmac_code(secret, payload);
    proof {
        lemma_hex(code@);
    }
    hex_encode(&code)
}

/// The token that is made of a user, a version and random bytes.
pub open spec fn token_text(
    user_id: Seq<char>,
    version: int,
    random: Seq<u8>,
    secret: Seq<char>,
) -> Seq<char> {
    let said = payload(user_id, version, hex_text(random));
    base64_encoded(encode_utf8(signed_text(said, signature(said, secret))))
}

/// Hexadecimal text has two characters for each byte, all of them ASCII and none a colon.
proof fn lemma_hex(data: Seq<u8>)
    ensures
        hex_text(data).len() == 2 * data.len(),
        is_ascii_chars(hex_text(data)),
        !hex_text(data).contains(':'),
    decreases data.len(),
{
    if data.len() > 0 {
        lemma_hex(data.drop_last());
        let s = hex_text(data);
        let t = hex_text(data.drop_last());
        assert forall|i: int| 0 <= i < s.len() implies s[i] != ':' && (s[i] as int) < 128 by {
            if i < t.len() {
                assert(s[i] == t[i]);
                assert(t.contains(t[i]));
            }
        }
    }
}

/// The notation of a 32-bit number is short, ASCII, and holds no colon.
pub proof fn lemma_version(version: int)
    requires
        i32::MIN <= version <= i32::MAX,
    ensures
        signed_decimal(version).len() <= 11,
        is_ascii_chars(signed_decimal(version)),
        !signed_decimal(version).contains(':'),
{
    let n: nat = if version < 0 {
        (-version) as nat
    } else {
        version as nat
    };
    lemma_decimal_digits(n);
    reveal_with_fuel(decimal, 11);
    assert(decimal(n).len() <= 10);
    let s = signed_decimal(version);
    assert forall|i: int| 0 <= i < s.len() implies s[i] != ':' && (s[i] as int) < 128 by {
        if version < 0 {
            if i > 0 {
                assert(s[i] == decimal(n)[i - 1]);
                assert(is_digit(decimal(n)[i - 1]));
            }
        } else {
            assert(is_digit(decimal(n)[i]));
        }
    }
}

/// The encodings of two texts stand one after the other in the encoding of both.
proof fn lemma_encode_concat(a: Seq<char>, b: Seq<char>)
    ensures
        encode_utf8(a + b) == encode_utf8(a) + encode_utf8(b),
    decreases a.len(),
{
    if a.len() == 0 {
        assert(a + b =~= b);
        assert(encode_utf8(a) =~= Seq::empty());
        assert(encode_utf8(a) + encode_utf8(b) =~= encode_utf8(b));
    } else {
        lemma_encode_concat(a.drop_first(), b);
        assert((a + b).drop_first() =~= a.drop_first() + b);
        assert((a + b)[0] == a[0]);
        assert(encode_utf8(a + b) =~= encode_utf8(a) + encode_utf8(b));
    }
}

/// A colon in quotes is the one character that splits the parts of a token.
proof fn lemma_colon()
    ensures
        ":"@ == seq![':'],
{
    reveal_strlit(":");
    assert(":"@ =~= seq![':']);
}

/// The text of a token for a user whose id holds no colon is taken apart into what it was made
/// of, whatever its nonce and its signature are, as long as they hold no colon either.
pub proof fn lemma_token_parts(
    user_id: Seq<char>,
    version: int,
    nonce: Seq<char>,
    sig: Seq<char>,
)
    requires
        i32::MIN <= version <= i32::MAX,
        !user_id.contains(':'),
        !nonce.contains(':'),
        !sig.contains(':'),
    ensures
        token_parts(signed_text(payload(user_id, version, nonce), sig)) == Some(
            (user_id, version, nonce, sig),
        ),
{
    let c = ':';
    let number = signed_decimal(version);
    let text = signed_text(payload(user_id, version, nonce), sig);
    lemma_colon();
    lemma_version(version);
    lemma_split_single(sig, c);
    lemma_split_first(nonce, c, sig);
    let tail = nonce + seq![c] + sig;
    lemma_split_first(number, c, tail);
    let middle = number + seq![c] + tail;
    lemma_split_first(user_id, c, middle);
    assert(text =~= user_id + seq![c] + middle);
    assert(split_on(text, c) =~= seq![user_id, number, nonce, sig]);
    lemma_read_signed_decimal(version, i32::MAX as nat);
}

/// What is signed under a secret is accepted under that secret as the holder that it names.
pub proof fn lemma_signed_is_accepted(
    user_id: Seq<char>,
    version: int,
    nonce: Seq<char>,
    secret: Seq<char>,
)
    requires
        i32::MIN <= version <= i32::MAX,
        !user_id.contains(':'),
        !nonce.contains(':'),
    ensures
        text_holder(
            signed_text(
                payload(user_id, version, nonce),
                signature(payload(user_id, version, nonce), secret),
            ),
            secret,
        ) == Some((user_id, version)),
{
    let said = payload(user_id, version, nonce);
    lemma_hex(hmac_sha256(encode_utf8(secret), encode_utf8(said)));
    lemma_token_parts(user_id, version, nonce, signature(said, secret));
}

/// A user id that holds a colon makes a text that is no token, whatever the signature.
pub proof fn lemma_colon_in_user_id(
    user_id: Seq<char>,
    version: int,
    nonce: Seq<char>,
    sig: Seq<char>,
)
    requires
        user_id.contains(':'),
    ensures
        token_parts(signed_text(payload(user_id, version, nonce), sig)) is None,
{
    let c = ':';
    let number = signed_decimal(version);
    lemma_colon();
    let tail = nonce + seq![c] + sig;
    let middle = number + seq![c] + tail;
    let text = signed_text(payload(user_id, version, nonce), sig);
    assert(text =~= user_id + seq![c] + middle);
    lemma_split_lengths(user_id, c, middle);
    lemma_split_lengths(number, c, tail);
    lemma_split_lengths(nonce, c, sig);
    lemma_split_several(user_id, c);
    lemma_split_nonempty(number, c);
    lemma_split_nonempty(nonce, c);
    lemma_split_nonempty(sig, c);
}

/// A token stands for the user and the version that its signed text names, however long they
/// are; one whose user id holds a colon stands for nobody.
pub proof fn lemma_token_stands_for(
    token: Seq<char>,
    user_id: Seq<char>,
    version: int,
    nonce: Seq<char>,
    secret: Seq<char>,
)
    requires
        i32::MIN <= version <= i32::MAX,
        !nonce.contains(':'),
        base64_decoded(token) == Some(
            encode_utf8(
                signed_text(
                    payload(user_id, version, nonce),
                    signature(payload(user_id, version, nonce), secret),
                ),
            ),
        ),
    ensures
        token_holder(token, secret) == if user_id.contains(':') {
            None
        } else {
            Some((user_id, version))
        },
{
    let said = payload(user_id, version, nonce);
    let sig = signature(said, secret);
    let full = signed_text(said, sig);
    encode_utf8_valid_utf8(full);
    encode_utf8_decode_utf8(full);
    if user_id.contains(':') {
        lemma_colon_in_user_id(user_id, version, nonce, sig);
    } else {
        lemma_signed_is_accepted(user_id, version, nonce, secret);
    }
}

/// How many bytes the text of a token has: those of the user and the version, two hexadecimal
/// digits for each random byte and for each of the 32 bytes of the signature, and three colons.
pub open spec fn text_length(user_id: Seq<char>, version: int, random: nat) -> nat {
    encode_utf8(user_id).len() + signed_decimal(version).len() + 2 * random + 67
}

/// How long the text of a token is once encoded in UTF-8.
proof fn lemma_token_length(user_id: Seq<char>, version: int, nonce: Seq<char>, sig: Seq<char>)
    requires
        i32::MIN <= version <= i32::MAX,
        is_ascii_chars(nonce),
        is_ascii_chars(sig),
    ensures
        encode_utf8(signed_text(payload(user_id, version, nonce), sig)).len() == encode_utf8(
            user_id,
        ).len() + signed_decimal(version).len() + nonce.len() + sig.len() + 3,
{
    let number = signed_decimal(version);
    lemma_colon();
    lemma_version(version);
    let rest = ":"@ + number + ":"@ + nonce + ":"@ + sig;
    let text = signed_text(payload(user_id, version, nonce), sig);
    assert(text =~= user_id + rest);
    lemma_encode_concat(user_id, rest);
    assert forall|i: int| 0 <= i < rest.len() implies (#[trigger] rest[i] as int) < 128 by {
        let a = 1int;
        let b = a + number.len();
        let d = b + 1 + nonce.len();
        if i < a {
        } else if i < b {
            assert(rest[i] == number[i - a]);
        } else if i == b {
        } else if i < d {
            assert(rest[i] == nonce[i - b - 1]);
        } else if i == d {
        } else {
            assert(rest[i] == sig[i - d - 1]);
        }
    }
    assert(is_ascii_chars(rest));
    is_ascii_chars_encode_utf8(rest);
}

/// The token that is made of a user, a version and random bytes with a secret.
///
/// It is the token of the user at that version; a user id that holds a colon makes it a token
/// of nobody.
pub fn token_from_random(user_id: &str, version: i32, random: &Vec<u8>, secret: &str) -> (r: String)
    requires
        base64_length(text_length(user_id@, version as int, random@.len())) <= isize::MAX,
    ensures
        r@ == token_text(user_id@, version as int, random@, secret@),
        token_holder(r@, secret@) == if user_id@.contains(':') {
            None
        } else {
            Some((user_id@, version as int))
        },
{
    let nonce: String = hex_encode(random);
    let said: String = payload_text(user_id, version, nonce.as_str());
    let sig: String = sign(said.as_str(), secret);
    let mut full: String = said;
    full.append(":");
    full.append(sig.as_str());
    proof {
        lemma_hex(random@);
        lemma_hex(hmac_sha256(encode_utf8(secret@), encode_utf8(said@)));
        lemma_token_length(user_id@, version as int, nonce@, sig@);
    }
    let token: String = base64_encode(full.as_str());
    proof {
        lemma_token_stands_for(token@, user_id@, version as int, nonce@, secret@);
    }
    token
}

/// A token for a user, made with the secret and with random bytes that keep tokens apart.
///
/// It is the token of the user at that version; a user id that holds a colon makes it a token
/// of nobody.
pub fn generate_token(user_id: &str, version: i32, secret: &str) -> (r: String)
    requires
        base64_length(text_length(user_id@, version as int, 16)) <= isize::MAX,
    ensures
        exists|random: Seq<u8>|
            random.len() == 16 && r@ == #[trigger] token_text(
                user_id@,
                version as int,
                random,
                secret@,
            ),
        token_holder(r@, secret@) == if user_id@.contains(':') {
            None
        } else {
            Some((user_id@, version as int))
        },
{
    let random: [u8; 16] = random_bytes();
    let mut bytes: Vec<u8> = Vec::new();
    let mut i: usize = 0;
    while i < 16
        invariant
            i <= 16,
            bytes@.len() == i,
        decreases 16 - i,
    {
        bytes.push(random[i]);
        i = i + 1;
    }
    token_from_random(user_id, version, &bytes, secret)
}

/// A token for a user whose id may have any length; none where no text can be as long as the
/// token.
pub fn try_generate_token(user_id: &str, version: i32, secret: &str) -> (r: Option<String>)
    ensures
        r is Some == (base64_length(text_length(user_id@, version as int, 16)) <= isize::MAX),
        r is Some ==> exists|random: Seq<u8>|
            random.len() == 16 && r->0@ == #[trigger] token_text(
                user_id@,
                version as int,
                random,
                secret@,
            ),
        r is Some ==> token_holder(r->0@, secret@) == if user_id@.contains(':') {
            None
        } else {
            Some((user_id@, version as int))
        },
{
    let number: String = signed_decimal_text(version as i64);
    proof {
        lemma_version(version as int);
        is_ascii_chars_encode_utf8(number@);
    }
    let bytes: u128 = user_id.as_bytes().len() as u128 + number.as_str().as_bytes().len() as u128
        + 99;
    if (bytes + 2) / 3 * 4 <= isize::MAX as u128 {
        Some(generate_token(user_id, version, secret))
    } else {
        None
    }
}

/// Whom a token stands for, if it was made with the secret.
pub fn verify_token(token: &str, secret: &str) -> (r: Option<TokenData>)
    ensures
        match r {
            Some(d) => token_holder(token@, secret@) == Some((d.user_id@, d.version as int)),
            None => token_holder(token@, secret@) is None,
        },
{
    let data: Vec<u8> = match base64_decode(token) {
        Some(data) => data,
        None => {
            return None;
        },
    };
    let text: String = match utf8_text(data) {
        Some(text) => text,
        None => {
            return None;
        },
    };
    let parts: TokenParts = match parse_token_text(text.as_str()) {
        Some(parts) => parts,
        None => {
            return None;
        },
    };
    let said: String = payload_text(parts.user_id.as_str(), parts.version, parts.nonce.as_str());
    let expected: String = sign(said.as_str(), secret);
    accept(parts, expected.as_str())
}

} // verus!
