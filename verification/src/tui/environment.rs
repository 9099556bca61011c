//! The variables that the dashboard shows, with what is secret in them hidden.

use vstd::prelude::*;
use vstd::utf8::{
    decode_utf8, encode_utf8, encode_utf8_decode_utf8, is_char_boundary,
};
use crate::text::chars::owned;
use crate::text::search::{contains_text, occurs};

verus! {

/// The variables that are shown.
pub open spec fn shown_variables() -> Seq<Seq<char>> {
    seq![
        "DATABASE_URL"@,
        "REDIS_URL"@,
        "PORT"@,
        "NODE_ENV"@,
        "REGISTRATION_CLOSED"@,
        "TOKEN_SECRET"@,
        "VERBOSE"@,
        "USER_GUILD_LIMIT"@,
        "MAX_AVATAR_SIZE"@,
        "MAX_BANNER_SIZE"@,
    ]
}

/// The variables that are shown.
pub fn env_keys() -> (r: Vec<&'static str>)
    ensures
        r@.map_values(|k: &str| k@) == shown_variables(),
{
    let keys: Vec<&'static str> = vec![
        "DATABASE_URL",
        "REDIS_URL",
        "PORT",
        "NODE_ENV",
        "REGISTRATION_CLOSED",
        "TOKEN_SECRET",
        "VERBOSE",
        "USER_GUILD_LIMIT",
        "MAX_AVATAR_SIZE",
        "MAX_BANNER_SIZE",
    ];
    assert(keys@.map_values(|k: &str| k@) =~= shown_variables());
    keys
}

/// Whether the value of a variable is secret.
pub open spec fn is_sensitive(key: Seq<char>) -> bool {
    occurs(key, "TOKEN"@) || occurs(key, "SECRET"@) || occurs(key, "PASSWORD"@) || occurs(
        key,
        "DATABASE_URL"@,
    )
}

/// Whether the value of a variable is secret.
pub fn sensitive(key: &str) -> (r: bool)
    ensures
        r == is_sensitive(key@),
{
    contains_text(key, "TOKEN") || contains_text(key, "SECRET") || contains_text(key, "PASSWORD")
        || contains_text(key, "DATABASE_URL")
}

/// Whether the first four bytes of a value, and the last four, are whole characters. A value of
/// up to eight bytes is not cut.
pub open spec fn can_be_cut(value: Seq<char>) -> bool {
    let bytes = encode_utf8(value);
    bytes.len() > 8 ==> is_char_boundary(bytes, 4) && is_char_boundary(bytes, bytes.len() - 4)
}

/// Whether the first four bytes of a value, and the last four, are whole characters.
pub fn cuttable(value: &str) -> (r: bool)
    ensures
        r == can_be_cut(value@),
{
    let total: usize = value.as_bytes().len();
    total <= 8 || (value.is_char_boundary(4) && value.is_char_boundary(total - 4))
}

/// What is shown of a value: all of it, unless it is secret. Of a secret value the first four
/// bytes and the last four are shown, and nothing where there are no more than eight.
pub open spec fn masked(key: Seq<char>, value: Seq<char>) -> Seq<char> {
    let bytes = encode_utf8(value);
    if !is_sensitive(key) {
        value
    } else if bytes.len() <= 8 {
        "***"@
    } else {
        decode_utf8(bytes.take(4)) + "..."@ + decode_utf8(bytes.skip(bytes.len() - 4))
    }
}

/// What is shown of a value.
pub fn mask_env(key: &str, value: &str) -> (r: String)
    requires
        is_sensitive(key@) ==> can_be_cut(value@),
    ensures
        r@ == masked(key@, value@),
{
    if sensitive(key) {
        let total: usize = value.as_bytes().len();
        if total <= 8 {
            owned("***")
        } else {
            let ghost bytes = encode_utf8(value@);
            let (head, _) = value.split_at(4);
            let (_, tail) = value.split_at(total - 4);
            proof {
                assert(bytes.subrange(0, 4) =~= bytes.take(4));
                assert(bytes.subrange(bytes.len() - 4, bytes.len() as int) =~= bytes.skip(
                    bytes.len() - 4,
                ));
                encode_utf8_decode_utf8(head@);
                encode_utf8_decode_utf8(tail@);
            }
            let mut out: String = owned(head);
            out.append("...");
            out.append(tail);
            out
        }
    } else {
        owned(value)
    }
}

/// The value of a variable, or the words for one that is not set.
pub open spec fn value_or_unset(value: Option<String>) -> Seq<char> {
    match value {
        Some(value) => value@,
        None => "<unset>"@,
    }
}

/// Whether a row shows a variable with a value, which can be cut where it is secret.
pub open spec fn shows_variable(
    row: (String, String),
    key: Seq<char>,
    value: Seq<char>,
) -> bool {
    &&& is_sensitive(key) ==> can_be_cut(value)
    &&& row.0@ == key
    &&& row.1@ == masked(key, value)
}

/// The row of a variable; none where its value cannot be cut.
pub fn env_row(key: &str, value: Option<String>) -> (r: Option<(String, String)>)
    ensures
        match r {
            Some(row) => shows_variable(row, key@, value_or_unset(value)),
            None => is_sensitive(key@) && !can_be_cut(value_or_unset(value)),
        },
{
    let value: String = match value {
        Some(value) => value,
        None => owned("<unset>"),
    };
    if sensitive(key) && !cuttable(value.as_str()) {
        None
    } else {
        Some((owned(key), mask_env(key, value.as_str())))
    }
}

/// The rows of all the variables that are shown, in order, for the values that they have; none
/// where one of the values cannot be cut.
pub fn env_rows(values: Vec<Option<String>>) -> (r: Option<Vec<(String, String)>>)
    requires
        values@.len() == shown_variables().len(),
    ensures
        match r {
            Some(rows) => rows@.len() == shown_variables().len() && forall|i: int|
                0 <= i < rows@.len() ==> shows_variable(
                    #[trigger] rows@[i],
                    shown_variables()[i],
                    value_or_unset(values@[i]),
                ),
            None => exists|i: int|
                0 <= i < values@.len() && is_sensitive(#[trigger] shown_variables()[i])
                    && !can_be_cut(value_or_unset(values@[i])),
        },
{
    let keys: Vec<&'static str> = env_keys();
    assert(keys@.map_values(|k: &str| k@).len() == keys@.len());
    let mut rows: Vec<(String, String)> = Vec::new();
    let mut i: usize = 0;
    while i < keys.len()
        invariant
            i <= keys@.len(),
            keys@.map_values(|k: &str| k@) == shown_variables(),
            keys@.len() == shown_variables().len(),
            values@.len() == shown_variables().len(),
            rows@.len() == i,
            forall|j: int|
                0 <= j < i ==> shows_variable(
                    #[trigger] rows@[j],
                    shown_variables()[j],
                    value_or_unset(values@[j]),
                ),
        decreases keys@.len() - i,
    {
        assert(keys@[i as int]@ == shown_variables()[i as int]);
        let value: Option<String> = match &values[i] {
            Some(value) => Some(value.clone()),
            None => None,
        };
        match env_row(keys[i], value) {
            Some(row) => rows.push(row),
            None => {
                return None;
            },
        }
        i = i + 1;
    }
    Some(rows)
}

/// Of two secret values of more than eight bytes that agree in their first and last four bytes,
/// the same is shown; of two shorter ones always.
pub proof fn lemma_mask_hides(key: Seq<char>, a: Seq<char>, b: Seq<char>)
    requires
        is_sensitive(key),
        ({
            let x = encode_utf8(a);
            let y = encode_utf8(b);
            ||| x.len() <= 8 && y.len() <= 8
            ||| x.len() > 8 && y.len() > 8 && x.take(4) == y.take(4) && x.skip(x.len() - 4)
                == y.skip(y.len() - 4)
        }),
    ensures
        masked(key, a) == masked(key, b),
{
}

} // verus!
