//! Whom tokens stand for, where they are read from, and who is turned away.

use vstd::prelude::*;
use vstd::utf8::{decode_utf8, encode_utf8, valid_utf8};
use crate::auth::encoding::{base64_decoded, base64_encoded, hex_text, hmac_sha256};
use crate::auth::token::{token_holder, token_text};
use crate::gateway::cookie::{
    cookie_name, cookie_token, cookie_value, first_value, part_value, percent_decoded,
};
use crate::laws::statements::lemma_join_grows;
use crate::laws::texts::{blank, lemma_pieces_of, lemma_space_dropped};
use crate::middleware::rate_limit::{counter_key, whole_seconds, RateCheck, RateLimit};
use crate::text::chars::join;
use crate::text::decimal::signed_decimal;
use crate::text::number::{read_signed, NumberError};
use crate::text::search::is_white_space;
use crate::text::split::{lemma_first_at, lemma_split_first, lemma_split_single, split_on};

verus! {

/// The signature that a user, a version and a nonce have under a secret.
pub open spec fn seal(
    user_id: Seq<char>,
    version: int,
    nonce: Seq<char>,
    secret: Seq<char>,
) -> Seq<char> {
    hex_text(
        hmac_sha256(
            encode_utf8(secret),
            encode_utf8(user_id + ":"@ + signed_decimal(version) + ":"@ + nonce),
        ),
    )
}

/// A token that stands for a user and a version holds their text, in which the signature is the
/// one that they and the nonce have under the secret; the version may be written in another way.
pub proof fn lemma_holder_is_sealed(token: Seq<char>, secret: Seq<char>) -> (r: (
    Seq<char>,
    Seq<char>,
))
    requires
        token_holder(token, secret) is Some,
    ensures
        ({
            let (user_id, version) = token_holder(token, secret)->0;
            let (written, nonce) = r;
            let data = base64_decoded(token);
            &&& data is Some
            &&& valid_utf8(data->0)
            &&& decode_utf8(data->0) == user_id + ":"@ + written + ":"@ + nonce + ":"@ + seal(
                user_id,
                version,
                nonce,
                secret,
            )
            &&& read_signed(written, i32::MAX as nat) == Ok::<int, NumberError>(version)
            &&& !user_id.contains(':')
        }),
{
    let text = decode_utf8(base64_decoded(token)->0);
    let parts = split_on(text, ':');
    lemma_pieces_of(text, ':');
    reveal_strlit(":");
    assert(":"@ =~= seq![':']);
    assert(parts =~= seq![parts[0]].push(parts[1]).push(parts[2]).push(parts[3]));
    lemma_join_grows(seq![parts[0]], ":"@, parts[1]);
    lemma_join_grows(seq![parts[0]].push(parts[1]), ":"@, parts[2]);
    lemma_join_grows(seq![parts[0]].push(parts[1]).push(parts[2]), ":"@, parts[3]);
    assert(join(seq![parts[0]], ":"@) == parts[0]);
    (parts[1], parts[2])
}

/// A token with a signature that is not the one under the secret stands for nobody, and neither
/// does one that cannot be decoded.
pub proof fn lemma_unsealed_is_nobody(
    token: Seq<char>,
    secret: Seq<char>,
    user_id: Seq<char>,
    written: Seq<char>,
    version: int,
    nonce: Seq<char>,
    sig: Seq<char>,
)
    requires
        base64_decoded(token) is None || !valid_utf8(base64_decoded(token)->0) || (decode_utf8(
            base64_decoded(token)->0,
        ) == user_id + ":"@ + written + ":"@ + nonce + ":"@ + sig && !user_id.contains(':')
            && !written.contains(':') && !nonce.contains(':') && !sig.contains(':')
            && read_signed(written, i32::MAX as nat) == Ok::<int, NumberError>(version) && sig
            != seal(user_id, version, nonce, secret)),
    ensures
        token_holder(token, secret) is None,
{
    if base64_decoded(token) is Some && valid_utf8(base64_decoded(token)->0) {
        let text = decode_utf8(base64_decoded(token)->0);
        reveal_strlit(":");
        assert(":"@ =~= seq![':']);
        let c = ':';
        lemma_split_single(sig, c);
        lemma_split_first(nonce, c, sig);
        let tail = nonce + seq![c] + sig;
        lemma_split_first(written, c, tail);
        let middle = written + seq![c] + tail;
        lemma_split_first(user_id, c, middle);
        assert(text =~= user_id + seq![c] + middle);
        assert(split_on(text, c) =~= seq![user_id, written, nonce, sig]);
    }
}

/// A new token holds the user, the version, the random bytes and the signature over them.
pub proof fn lemma_new_token_is_sealed(
    user_id: Seq<char>,
    version: int,
    random: Seq<u8>,
    secret: Seq<char>,
)
    ensures
        token_text(user_id, version, random, secret) == base64_encoded(
            encode_utf8(
                user_id + ":"@ + signed_decimal(version) + ":"@ + hex_text(random) + ":"@ + seal(
                    user_id,
                    version,
                    hex_text(random),
                    secret,
                ),
            ),
        ),
{
}

/// Whether a part of a cookie header gives a name a value, with whatever white space around each.
pub open spec fn gives(
    part: Seq<char>,
    name: Seq<char>,
    value: Seq<char>,
    spaces: (Seq<char>, Seq<char>, Seq<char>, Seq<char>),
) -> bool {
    &&& part == spaces.0 + name + spaces.1 + seq!['='] + spaces.2 + value + spaces.3
    &&& blank(spaces.0) && blank(spaces.1) && blank(spaces.2) && blank(spaces.3)
    &&& !name.contains('=')
    &&& name.len() > 0 && !is_white_space(name[0]) && !is_white_space(name.last())
    &&& value.len() > 0 ==> !is_white_space(value[0]) && !is_white_space(value.last())
}

/// The value that a part gives a name is read from it, without the white space around it; of any
/// other name nothing is read.
pub proof fn lemma_given_is_read(
    part: Seq<char>,
    name: Seq<char>,
    value: Seq<char>,
    spaces: (Seq<char>, Seq<char>, Seq<char>, Seq<char>),
    other: Seq<char>,
)
    requires
        gives(part, name, value, spaces),
        other != name,
    ensures
        part_value(part, name) == Some(value),
        part_value(part, other) is None,
{
    let (a, b, c, d) = spaces;
    let head = name + b;
    let eq = seq!['='];
    // Without a value, the white space behind the sign goes with that at the end.
    let (kept, dropped) = if value.len() > 0 {
        (c + value, d)
    } else {
        (Seq::empty(), c + d)
    };
    let core = head + eq + kept;
    assert(blank(dropped)) by {
        if value.len() == 0 {
            assert forall|i: int| 0 <= i < dropped.len() implies is_white_space(
                #[trigger] dropped[i],
            ) by {
                if i < c.len() {
                    assert(dropped[i] == c[i]);
                } else {
                    assert(dropped[i] == d[i - c.len()]);
                }
            }
        }
    }
    assert(part =~= a + core + dropped);
    assert(core[0] == name[0]);
    if value.len() > 0 {
        assert(core.last() == value.last());
    } else {
        assert(core.last() == '=');
    }
    lemma_space_dropped(a, core, dropped);
    assert forall|j: int| 0 <= j < head.len() implies core[j] != '=' by {
        if j < name.len() {
            assert(core[j] == name[j]);
            assert(name.contains(name[j]));
        } else {
            assert(core[j] == b[j - name.len()]);
            assert(is_white_space(b[j - name.len()]));
        }
    }
    lemma_first_at(core, '=', head.len() as int);
    assert(core.take(head.len() as int) =~= head);
    assert(core.skip(head.len() as int + 1) =~= kept);
    assert(head =~= Seq::empty() + name + b);
    lemma_space_dropped(Seq::empty(), name, b);
    if value.len() > 0 {
        assert(kept =~= c + value + Seq::empty());
        lemma_space_dropped(c, value, Seq::empty());
    } else {
        assert(kept =~= Seq::<char>::empty() + Seq::<char>::empty() + Seq::<char>::empty());
        lemma_space_dropped(Seq::empty(), Seq::empty(), Seq::empty());
        assert(value =~= Seq::empty());
    }
}

/// Whether a part is the first of some that gives a name a value.
pub open spec fn first_giving(
    parts: Seq<Seq<char>>,
    name: Seq<char>,
    value: Seq<char>,
    k: int,
) -> bool {
    &&& 0 <= k < parts.len()
    &&& part_value(parts[k], name) == Some(value)
    &&& forall|j: int| 0 <= j < k ==> part_value(#[trigger] parts[j], name) is None
}

/// The value of a cookie is the one that the first part of the header with its name gives it;
/// there is none where no part has its name.
pub proof fn lemma_first_cookie_counts(header: Seq<char>, name: Seq<char>)
    ensures
        ({
            let parts = split_on(header, ';');
            match cookie_value(header, name) {
                Some(value) => exists|k: int| #[trigger] first_giving(parts, name, value, k),
                None => forall|j: int|
                    0 <= j < parts.len() ==> part_value(#[trigger] parts[j], name) is None,
            }
        }),
        join(split_on(header, ';'), seq![';']) == header,
{
    lemma_pieces_of(header, ';');
    lemma_first_of_parts(split_on(header, ';'), name);
}

/// Of some parts, the first that gives a name a value counts.
proof fn lemma_first_of_parts(parts: Seq<Seq<char>>, name: Seq<char>)
    ensures
        match first_value(parts, name) {
            Some(value) => exists|k: int| #[trigger] first_giving(parts, name, value, k),
            None => forall|j: int|
                0 <= j < parts.len() ==> part_value(#[trigger] parts[j], name) is None,
        },
    decreases parts.len(),
{
    if parts.len() > 0 {
        let rest = parts.drop_first();
        if part_value(parts[0], name) is Some {
            assert(first_giving(parts, name, part_value(parts[0], name)->0, 0));
        } else {
            lemma_first_of_parts(rest, name);
            if let Some(value) = first_value(rest, name) {
                let k = choose|k: int| #[trigger] first_giving(rest, name, value, k);
                assert forall|j: int| 0 <= j < k + 1 implies part_value(
                    #[trigger] parts[j],
                    name,
                ) is None by {
                    if j > 0 {
                        assert(parts[j] == rest[j - 1]);
                    }
                }
                assert(first_giving(parts, name, value, k + 1));
            } else {
                assert forall|j: int| 0 <= j < parts.len() implies part_value(
                    #[trigger] parts[j],
                    name,
                ) is None by {
                    if j > 0 {
                        assert(parts[j] == rest[j - 1]);
                    }
                }
            }
        }
    }
}

/// The token is read from the cookie `__Host-Token` in production, from `token` elsewhere, and
/// decoded; without a header there is none.
pub proof fn lemma_token_cookie(header: &str)
    ensures
        cookie_token(None, true) is None,
        cookie_token(None, false) is None,
        cookie_token(Some(header), true) == match cookie_value(header@, "__Host-Token"@) {
            Some(value) => percent_decoded(value),
            None => None,
        },
        cookie_token(Some(header), false) == match cookie_value(header@, "token"@) {
            Some(value) => percent_decoded(value),
            None => None,
        },
        cookie_name(true) != cookie_name(false),
{
    reveal_strlit("__Host-Token");
    reveal_strlit("token");
    assert("__Host-Token"@.len() == 12);
    assert("token"@.len() == 5);
}

/// The whole check of a request: the first of a window sets its end, after the whole seconds of
/// the window, and no other does; a request is turned away where more than the limit were
/// counted, and is told the seconds that are left.
pub proof fn lemma_request_judged(rate: RateLimit, count: i64, unsaid: i64, remaining: i64)
    ensures
        ({
            let (state, action) = rate.judged(RateCheck::Raised, count)->0;
            let (asking, asked) = if count == 1 {
                rate.judged(state, unsaid)->0
            } else {
                (state, action)
            };
            let (over, verdict) = rate.judged(asking, remaining)->0;
            &&& count == 1 ==> action is Expire && (rate.window_ms >= 0 ==> 0 <= rate.window_ms
                - 1000 * action->seconds < 1000)
            &&& count == 1 && rate.window_ms < 0 ==> 0 <= 1000 * action->seconds - rate.window_ms
                < 1000
            &&& count != 1 ==> action is AskRemaining
            &&& asked is AskRemaining
            &&& verdict is Judge
            &&& verdict->Judge_0.limited == (count > rate.limit)
            &&& verdict->Judge_0.retry_after == remaining
            &&& over == RateCheck::Over
            &&& rate.judged(over, remaining) is None
        }),
{
    let millis = rate.window_ms;
    assert(-9223372036854775 <= whole_seconds(millis) <= 9223372036854775);
}

/// Requests are counted apart by address and by what is asked for.
pub proof fn lemma_counted_apart(ip: Seq<char>, key: Seq<char>, other: Seq<char>)
    ensures
        counter_key(ip, key) == "rate-limit:"@ + ip + ":"@ + key,
        key != other ==> counter_key(ip, key) != counter_key(ip, other),
        ip != other && ip.len() == other.len() ==> counter_key(ip, key) != counter_key(other, key),
{
    let head = "rate-limit:"@ + ip + ":"@;
    if counter_key(ip, key) == counter_key(ip, other) {
        assert(key =~= counter_key(ip, key).skip(head.len() as int));
        assert(other =~= counter_key(ip, other).skip(head.len() as int));
    }
    let first = "rate-limit:"@.len() as int;
    if ip.len() == other.len() && counter_key(ip, key) == counter_key(other, key) {
        assert(ip =~= counter_key(ip, key).subrange(first, first + ip.len()));
        assert(other =~= counter_key(other, key).subrange(first, first + ip.len()));
    }
}

} // verus!
