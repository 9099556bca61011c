//! The token that a browser sends in a cookie.

use vstd::prelude::*;
use vstd::utf8::{
    char_u32_cast, decode_utf8, encode_utf8, encode_utf8_decode_utf8, encode_utf8_first_scalar,
    encode_utf8_valid_utf8, length_of_first_scalar, valid_utf8,
};
use crate::text::chars::{same_text, texts};
use crate::text::search::{is_white_space, trimmed};
use crate::text::split::{
    lemma_first_at, lemma_split_first, lemma_split_single, split_at_first, split_on, split_text,
    split_text_once,
};

verus! {

/// The value of a hexadecimal digit in either case.
pub open spec fn hex_value(digit: u8) -> Option<int> {
    if 48 <= digit <= 57 {
        Some(digit - 48)
    } else if 65 <= digit <= 70 {
        Some(digit - 55)
    } else if 97 <= digit <= 102 {
        Some(digit - 87)
    } else {
        None
    }
}

/// The byte that a percent sign and two hexadecimal digits stand for, where the bytes start with
/// them.
pub open spec fn escaped_byte(data: Seq<u8>) -> Option<u8> {
    if data.len() >= 3 && data[0] == 37 {
        match (hex_value(data[1]), hex_value(data[2])) {
            (Some(high), Some(low)) => Some((16 * high + low) as u8),
            _ => None,
        }
    } else {
        None
    }
}

/// The bytes with every escape replaced by the byte that it stands for. Every other byte stands
/// for itself, and so does a percent sign that no two hexadecimal digits follow.
pub open spec fn unescaped(data: Seq<u8>) -> Seq<u8>
    decreases data.len(),
{
    if data.len() == 0 {
        Seq::empty()
    } else {
        match escaped_byte(data) {
            Some(byte) => seq![byte] + unescaped(data.skip(3)),
            None => seq![data[0]] + unescaped(data.skip(1)),
        }
    }
}

/// The text that percent-encoding stands for, where it stands for valid UTF-8.
pub open spec fn percent_decoded(text: Seq<char>) -> Option<Seq<char>> {
    let bytes = unescaped(encode_utf8(text));
    if valid_utf8(bytes) {
        Some(decode_utf8(bytes))
    } else {
        None
    }
}

/// `urlencoding::decode` replaces each percent sign that two hexadecimal digits follow, with
/// them, by the byte of that value, and leaves everything else as it is. It accepts the text
/// where the bytes are then valid UTF-8, and gives the text that they encode.
#[verifier::external_body]
pub(crate) fn percent_decode(text: &str) -> (r: Option<String>)
    ensures
        match r {
            Some(s) => percent_decoded(text@) == Some(s@),
            None => percent_decoded(text@) is None,
        },
{
    urlencoding::decode(text).ok().map(|s| s.to_string())
}

/// Only a percent sign has its byte in UTF-8.
proof fn lemma_percent_byte(text: Seq<char>)
    requires
        !text.contains('%'),
    ensures
        !encode_utf8(text).contains(37),
    decreases text.len(),
{
    if text.len() > 0 {
        let bytes = encode_utf8(text);
        let rest = text.drop_first();
        assert(text.contains(text[0]));
        assert forall|c: char| rest.contains(c) implies text.contains(c) by {
            let i = choose|i: int| 0 <= i < rest.len() && rest[i] == c;
            assert(text[i + 1] == c);
        }
        lemma_percent_byte(rest);
        encode_utf8_first_scalar(text);
        let width = length_of_first_scalar(bytes);
        assert(37u8 & 0x7f == 37) by (bit_vector);
        assert forall|i: int| 0 <= i < bytes.len() implies bytes[i] != 37 by {
            if i >= width {
                assert(bytes[i] == encode_utf8(rest)[i - width]);
                assert(encode_utf8(rest).contains(bytes[i]));
            } else {
                char_u32_cast(text[0], text[0] as u32);
                assert(37u32 as char == '%');
            }
        }
    }
}

/// Bytes without a percent sign stand for themselves.
proof fn lemma_nothing_escaped(data: Seq<u8>)
    requires
        !data.contains(37),
    ensures
        unescaped(data) == data,
    decreases data.len(),
{
    if data.len() > 0 {
        assert(data.contains(data[0]));
        let rest = data.skip(1);
        assert forall|b: u8| rest.contains(b) implies data.contains(b) by {
            let i = choose|i: int| 0 <= i < rest.len() && rest[i] == b;
            assert(data[i + 1] == b);
        }
        lemma_nothing_escaped(rest);
        assert(seq![data[0]] + rest =~= data);
    }
}

/// A text without a percent sign stands for itself.
pub proof fn lemma_plain_text(text: Seq<char>)
    requires
        !text.contains('%'),
    ensures
        percent_decoded(text) == Some(text),
{
    lemma_percent_byte(text);
    lemma_nothing_escaped(encode_utf8(text));
    encode_utf8_valid_utf8(text);
    encode_utf8_decode_utf8(text);
}

/// The name of the cookie that carries the token.
pub open spec fn cookie_name(production: bool) -> Seq<char> {
    if production {
        "__Host-Token"@
    } else {
        "token"@
    }
}

/// The value that one part of a cookie header gives a name, without the space around it.
pub open spec fn part_value(part: Seq<char>, name: Seq<char>) -> Option<Seq<char>> {
    match split_at_first(trimmed(part), '=') {
        Some((key, value)) => if trimmed(key) == name {
            Some(trimmed(value))
        } else {
            None
        },
        None => None,
    }
}

/// The value that the first part with a name gives it.
pub open spec fn first_value(parts: Seq<Seq<char>>, name: Seq<char>) -> Option<Seq<char>>
    decreases parts.len(),
{
    if parts.len() == 0 {
        None
    } else {
        match part_value(parts[0], name) {
            Some(value) => Some(value),
            None => first_value(parts.drop_first(), name),
        }
    }
}

/// The value of a cookie in a header.
pub open spec fn cookie_value(header: Seq<char>, name: Seq<char>) -> Option<Seq<char>> {
    first_value(split_on(header, ';'), name)
}

/// The token in a header, decoded.
pub open spec fn cookie_token(header: Option<&str>, production: bool) -> Option<Seq<char>> {
    match header {
        Some(header) => match cookie_value(header@, cookie_name(production)) {
            Some(value) => percent_decoded(value),
            None => None,
        },
        None => None,
    }
}

/// Whether the variable `NODE_ENV` says that this is production.
pub fn is_production(node_env: &str) -> (r: bool)
    ensures
        r == (node_env@ == "production"@),
{
    same_text(node_env, "production")
}

/// The value that one part of a cookie header gives a name.
fn value_in_part(part: &str, name: &str) -> (r: Option<String>)
    ensures
        match r {
            Some(s) => part_value(part@, name@) == Some(s@),
            None => part_value(part@, name@) is None,
        },
{
    match split_text_once(part.trim(), '=') {
        Some((key, value)) => if same_text(key.as_str().trim(), name) {
            Some(value.as_str().trim().to_owned())
        } else {
            None
        },
        None => None,
    }
}

/// The value of a cookie in a header, as it stands there.
pub fn find_cookie(header: &str, name: &str) -> (r: Option<String>)
    ensures
        match r {
            Some(s) => cookie_value(header@, name@) == Some(s@),
            None => cookie_value(header@, name@) is None,
        },
{
    let parts: Vec<String> = split_text(header, ';');
    let ghost all = texts(parts@);
    let mut i: usize = 0;
    assert(all.skip(0) =~= all);
    while i < parts.len()
        invariant
            i <= parts@.len(),
            all == texts(parts@),
            all == split_on(header@, ';'),
            first_value(all, name@) == first_value(all.skip(i as int), name@),
        decreases parts@.len() - i,
    {
        assert(all.skip(i as int)[0] == parts@[i as int]@);
        assert(all.skip(i as int).drop_first() =~= all.skip(i + 1));
        if let Some(value) = value_in_part(parts[i].as_str(), name) {
            return Some(value);
        }
        i = i + 1;
    }
    None
}

/// The token in a cookie header, which carries it under another name in production.
pub fn extract_token_from_cookie(cookie_header: Option<&str>, production: bool) -> (r: Option<
    String,
>)
    ensures
        match r {
            Some(s) => cookie_token(cookie_header, production) == Some(s@),
            None => cookie_token(cookie_header, production) is None,
        },
        match cookie_header {
            Some(header) => match cookie_value(header@, cookie_name(production)) {
                Some(value) => !value.contains('%') ==> r is Some && r->0@ == value,
                None => r is None,
            },
            None => r is None,
        },
{
    match cookie_header {
        Some(header) => {
            let name: &str = if production {
                "__Host-Token"
            } else {
                "token"
            };
            match find_cookie(header, name) {
                Some(value) => {
                    proof {
                        if !value@.contains('%') {
                            lemma_plain_text(value@);
                        }
                    }
                    percent_decode(value.as_str())
                },
                None => None,
            }
        },
        None => None,
    }
}

/// Whether a text has no white space at its ends.
pub open spec fn is_bare(s: Seq<char>) -> bool {
    s.len() > 0 ==> !is_white_space(s[0]) && !is_white_space(s.last())
}

/// A cookie header that gives the token a value.
pub open spec fn token_cookie(production: bool, value: Seq<char>) -> Seq<char> {
    cookie_name(production) + seq!['='] + value
}

/// The value that one part of a header gives the token is read from it.
proof fn lemma_part_value(production: bool, value: Seq<char>)
    requires
        is_bare(value),
    ensures
        part_value(token_cookie(production, value), cookie_name(production)) == Some(value),
        !cookie_name(production).contains(';'),
{
    reveal_strlit("token");
    reveal_strlit("__Host-Token");
    let name = cookie_name(production);
    let part = token_cookie(production, value);
    assert(!is_white_space(name[0]));
    assert(!is_white_space(name.last()));
    assert(part[0] == name[0]);
    assert(part.last() == if value.len() > 0 {
        value.last()
    } else {
        '='
    });
    lemma_first_at(part, '=', name.len() as int);
    assert(part.take(name.len() as int) =~= name);
    assert(part.skip(name.len() as int + 1) =~= value);
}

/// A token that a browser was given, and that has no semicolon and no white space at its ends,
/// is read from the header that the browser sends, whatever other cookies follow. One without a
/// percent sign is then decoded to itself.
pub proof fn lemma_token_read_back(production: bool, value: Seq<char>, rest: Seq<char>)
    requires
        is_bare(value),
        !value.contains(';'),
    ensures
        cookie_value(token_cookie(production, value), cookie_name(production)) == Some(value),
        cookie_value(
            token_cookie(production, value) + seq![';'] + rest,
            cookie_name(production),
        ) == Some(value),
        !value.contains('%') ==> percent_decoded(value) == Some(value),
{
    let part = token_cookie(production, value);
    lemma_part_value(production, value);
    if !value.contains('%') {
        lemma_plain_text(value);
    }
    assert(!part.contains(';')) by {
        if part.contains(';') {
            let i = choose|i: int| 0 <= i < part.len() && part[i] == ';';
            let name = cookie_name(production);
            if i < name.len() {
                assert(name[i] == ';');
            } else if i > name.len() {
                assert(value[i - name.len() - 1] == ';');
            }
        }
    }
    lemma_split_single(part, ';');
    lemma_split_first(part, ';', rest);
    assert(split_on(part, ';')[0] == part);
    assert(split_on(part + seq![';'] + rest, ';')[0] == part);
}

} // verus!
