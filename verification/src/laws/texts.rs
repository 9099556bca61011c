//! What becomes of texts: how they are taken apart, put together, ordered, read and written.

use vstd::prelude::*;
use crate::auth::encoding::{hex_digit, hex_text};
use crate::gateway::cookie::unescaped;
use crate::laws::statements::lemma_join_grows;
use crate::text::chars::join;
use crate::text::decimal::{decimal, signed_decimal};
use crate::text::number::{is_digit, read_digits, read_signed, read_unsigned, NumberError};
use crate::text::order::before;
use crate::text::search::{is_white_space, occurs, occurs_at, trimmed, trimmed_end, trimmed_start};
use crate::text::split::{first_at, split_at_first, split_on};

verus! {

/// Whether every character of a text is white space.
pub open spec fn blank(s: Seq<char>) -> bool {
    forall|i: int| 0 <= i < s.len() ==> is_white_space(#[trigger] s[i])
}

/// Nothing is left of a text without the white space at its ends where it is all white space,
/// and only there.
pub proof fn lemma_blank(s: Seq<char>)
    ensures
        blank(s) <==> trimmed(s).len() == 0,
{
    lemma_blank_start(s);
    let t = trimmed_start(s);
    lemma_blank_end(t);
    if t.len() > 0 {
        lemma_start_is_dark(s);
    }
}

/// Nothing is left of a text without the white space at its start where it is all white space.
proof fn lemma_blank_start(s: Seq<char>)
    ensures
        blank(s) <==> trimmed_start(s).len() == 0,
    decreases s.len(),
{
    if s.len() > 0 && is_white_space(s[0]) {
        lemma_blank_start(s.drop_first());
        if blank(s.drop_first()) {
            assert forall|i: int| 0 <= i < s.len() implies is_white_space(#[trigger] s[i]) by {
                if i > 0 {
                    assert(s[i] == s.drop_first()[i - 1]);
                }
            }
        }
    }
}

/// What is left without the white space at the start does not begin with white space.
proof fn lemma_start_is_dark(s: Seq<char>)
    requires
        trimmed_start(s).len() > 0,
    ensures
        !is_white_space(trimmed_start(s)[0]),
    decreases s.len(),
{
    if s.len() > 0 && is_white_space(s[0]) {
        lemma_start_is_dark(s.drop_first());
    }
}

/// Nothing is left of a text without the white space at its end where it is all white space.
proof fn lemma_blank_end(s: Seq<char>)
    ensures
        blank(s) <==> trimmed_end(s).len() == 0,
    decreases s.len(),
{
    if s.len() > 0 && is_white_space(s.last()) {
        lemma_blank_end(s.drop_last());
        if blank(s.drop_last()) {
            assert forall|i: int| 0 <= i < s.len() implies is_white_space(#[trigger] s[i]) by {
                if i < s.len() - 1 {
                    assert(s[i] == s.drop_last()[i]);
                }
            }
        }
    }
}

/// A text holds another where it is made of something, the other and something.
pub proof fn lemma_text_inside(a: Seq<char>, s: Seq<char>, b: Seq<char>)
    ensures
        occurs(a + s + b, s),
{
    let whole = a + s + b;
    assert(whole.subrange(a.len() as int, (a.len() + s.len()) as int) =~= s);
    assert(occurs_at(whole, s, a.len() as int));
}

/// A text that holds another is made of something, the other and something.
pub proof fn lemma_text_around(whole: Seq<char>, s: Seq<char>) -> (r: (Seq<char>, Seq<char>))
    requires
        occurs(whole, s),
    ensures
        whole == r.0 + s + r.1,
{
    let i = choose|i: int| #[trigger] occurs_at(whole, s, i);
    let a = whole.take(i);
    let b = whole.skip(i + s.len());
    assert(whole =~= a + whole.subrange(i, i + s.len()) + b);
    (a, b)
}

/// A text is what stands before, in and after it without the white space at its ends, where
/// nothing but white space stands before and after.
pub proof fn lemma_trimmed_around(s: Seq<char>) -> (r: (Seq<char>, Seq<char>))
    ensures
        s == r.0 + trimmed(s) + r.1,
        blank(r.0),
        blank(r.1),
        trimmed(s).len() > 0 ==> !is_white_space(trimmed(s)[0]) && !is_white_space(
            trimmed(s).last(),
        ),
{
    let a = lemma_start_around(s);
    let t = trimmed_start(s);
    let b = lemma_end_around(t);
    assert(s =~= a + trimmed(s) + b);
    if trimmed(s).len() > 0 {
        lemma_start_is_dark(s);
        assert(trimmed(s)[0] == t[0]);
    }
    (a, b)
}

/// What is dropped at the start is white space.
proof fn lemma_start_around(s: Seq<char>) -> (a: Seq<char>)
    ensures
        s == a + trimmed_start(s),
        blank(a),
    decreases s.len(),
{
    if s.len() > 0 && is_white_space(s[0]) {
        let b = lemma_start_around(s.drop_first());
        let a = seq![s[0]] + b;
        assert(s =~= a + trimmed_start(s)) by {
            assert(s =~= seq![s[0]] + s.drop_first());
        }
        assert forall|i: int| 0 <= i < a.len() implies is_white_space(#[trigger] a[i]) by {
            if i > 0 {
                assert(a[i] == b[i - 1]);
            }
        }
        a
    } else {
        assert(s =~= Seq::<char>::empty() + s);
        Seq::empty()
    }
}

/// What is dropped at the end is white space, and what is left does not end with any.
proof fn lemma_end_around(s: Seq<char>) -> (b: Seq<char>)
    ensures
        s == trimmed_end(s) + b,
        blank(b),
        trimmed_end(s).len() > 0 ==> !is_white_space(trimmed_end(s).last()),
    decreases s.len(),
{
    if s.len() > 0 && is_white_space(s.last()) {
        let c = lemma_end_around(s.drop_last());
        let b = c.push(s.last());
        assert(s =~= trimmed_end(s) + b) by {
            assert(s =~= s.drop_last().push(s.last()));
        }
        assert forall|i: int| 0 <= i < b.len() implies is_white_space(#[trigger] b[i]) by {
            if i < c.len() {
                assert(b[i] == c[i]);
            }
        }
        b
    } else {
        assert(s =~= s + Seq::<char>::empty());
        Seq::empty()
    }
}

/// White space around a text that neither starts nor ends with any is dropped, and nothing else.
pub proof fn lemma_space_dropped(a: Seq<char>, t: Seq<char>, b: Seq<char>)
    requires
        blank(a),
        blank(b),
        t.len() > 0 ==> !is_white_space(t[0]) && !is_white_space(t.last()),
    ensures
        trimmed(a + t + b) == t,
{
    let s = a + t + b;
    if t.len() == 0 {
        assert(blank(s)) by {
            assert forall|i: int| 0 <= i < s.len() implies is_white_space(#[trigger] s[i]) by {
                if i < a.len() {
                    assert(s[i] == a[i]);
                } else {
                    assert(s[i] == b[i - a.len()]);
                }
            }
        }
        lemma_blank(s);
        assert(trimmed(s) =~= t);
    } else {
        assert(s =~= a + (t + b));
        lemma_start_dropped(a, t + b);
        lemma_end_dropped(t, b);
    }
}

/// White space in front is dropped.
proof fn lemma_start_dropped(a: Seq<char>, t: Seq<char>)
    requires
        blank(a),
        t.len() > 0,
        !is_white_space(t[0]),
    ensures
        trimmed_start(a + t) == t,
    decreases a.len(),
{
    if a.len() > 0 {
        assert((a + t).drop_first() =~= a.drop_first() + t);
        assert((a + t)[0] == a[0]);
        lemma_start_dropped(a.drop_first(), t);
    } else {
        assert(a + t =~= t);
    }
}

/// White space behind is dropped.
proof fn lemma_end_dropped(t: Seq<char>, b: Seq<char>)
    requires
        blank(b),
        t.len() > 0,
        !is_white_space(t.last()),
    ensures
        trimmed_end(t + b) == t,
    decreases b.len(),
{
    if b.len() > 0 {
        assert((t + b).drop_last() =~= t + b.drop_last());
        assert((t + b).last() == b.last());
        assert(b.last() == b[b.len() - 1]);
        lemma_end_dropped(t, b.drop_last());
    } else {
        assert(t + b =~= t);
    }
}

/// The pieces of a text, put together with the character at which it was split, are the text;
/// none of them holds that character.
pub proof fn lemma_pieces_of(s: Seq<char>, c: char)
    ensures
        split_on(s, c).len() >= 1,
        join(split_on(s, c), seq![c]) == s,
        forall|i: int|
            0 <= i < split_on(s, c).len() ==> !(#[trigger] split_on(s, c)[i]).contains(c),
    decreases s.len(),
{
    if s.len() > 0 {
        let t = s.drop_last();
        lemma_pieces_of(t, c);
        let earlier = split_on(t, c);
        let first = earlier.drop_last();
        assert(earlier =~= first.push(earlier.last()));
        assert(s =~= t.push(s.last()));
        if s.last() == c {
            lemma_join_grows(earlier, seq![c], Seq::empty());
            assert(join(split_on(s, c), seq![c]) =~= s);
        } else {
            let more = earlier.last().push(s.last());
            lemma_join_grows(first, seq![c], earlier.last());
            lemma_join_grows(first, seq![c], more);
            assert(join(split_on(s, c), seq![c]) =~= s);
            assert(!more.contains(c)) by {
                if more.contains(c) {
                    let i = choose|i: int| 0 <= i < more.len() && more[i] == c;
                    assert(earlier.last()[i] == c);
                    assert(earlier[earlier.len() - 1].contains(c));
                }
            }
            assert forall|i: int| 0 <= i < split_on(s, c).len() implies !(
            #[trigger] split_on(s, c)[i]).contains(c) by {
                if i < first.len() {
                    assert(split_on(s, c)[i] == earlier[i]);
                }
            }
        }
    } else {
        assert(s =~= Seq::empty());
    }
}

/// A text is split at the first such character: the text is what stands before it, the character
/// and what stands behind it, and what stands before does not hold it. A text without the
/// character is not split.
pub proof fn lemma_split_once(s: Seq<char>, c: char)
    ensures
        match split_at_first(s, c) {
            Some((head, rest)) => s == head + seq![c] + rest && !head.contains(c),
            None => !s.contains(c),
        },
{
    lemma_first_place(s, c);
    let i = first_at(s, c) as int;
    if i < s.len() {
        assert(s =~= s.take(i) + seq![c] + s.skip(i + 1));
    }
}

/// No such character stands before the first.
proof fn lemma_first_place(s: Seq<char>, c: char)
    ensures
        first_at(s, c) <= s.len(),
        first_at(s, c) < s.len() ==> s[first_at(s, c) as int] == c,
        forall|j: int| 0 <= j < first_at(s, c) ==> #[trigger] s[j] != c,
    decreases s.len(),
{
    if s.len() > 0 && s[0] != c {
        let t = s.drop_first();
        lemma_first_place(t, c);
        assert forall|j: int| 0 <= j < first_at(s, c) implies #[trigger] s[j] != c by {
            if j > 0 {
                assert(s[j] == t[j - 1]);
            }
        }
    }
}

/// Whether two texts agree up to a place at which the first is over, or has the smaller
/// character.
pub open spec fn comes_first_at(a: Seq<char>, b: Seq<char>, k: int) -> bool {
    &&& 0 <= k <= a.len()
    &&& k < b.len()
    &&& forall|i: int| 0 <= i < k ==> #[trigger] a[i] == b[i]
    &&& k == a.len() || a[k] < b[k]
}

/// A text stands before another where it is smaller at the first place at which they differ, or
/// where the other goes on behind it.
pub proof fn lemma_order_decided(a: Seq<char>, b: Seq<char>)
    ensures
        before(a, b) <==> exists|k: int| #[trigger] comes_first_at(a, b, k),
    decreases a.len(),
{
    if a.len() > 0 && b.len() > 0 && a[0] == b[0] {
        let x = a.drop_first();
        let y = b.drop_first();
        lemma_order_decided(x, y);
        if before(x, y) {
            let k = choose|k: int| #[trigger] comes_first_at(x, y, k);
            assert forall|i: int| 0 <= i < k + 1 implies #[trigger] a[i] == b[i] by {
                if i > 0 {
                    assert(x[i - 1] == y[i - 1]);
                }
            }
            assert(comes_first_at(a, b, k + 1));
        }
        if exists|k: int| #[trigger] comes_first_at(a, b, k) {
            let k = choose|k: int| #[trigger] comes_first_at(a, b, k);
            assert forall|i: int| 0 <= i < k - 1 implies #[trigger] x[i] == y[i] by {
                assert(a[i + 1] == b[i + 1]);
            }
            assert(comes_first_at(x, y, k - 1));
        }
    } else if b.len() > 0 {
        if before(a, b) {
            assert(comes_first_at(a, b, 0));
        }
        if exists|k: int| #[trigger] comes_first_at(a, b, k) {
            let k = choose|k: int| #[trigger] comes_first_at(a, b, k);
            if k > 0 {
                assert(a[0] == b[0]);
            }
        }
    }
}

/// The number that digits say, each worth ten times the next.
pub open spec fn said(s: Seq<char>) -> int
    decreases s.len(),
{
    if s.len() == 0 {
        0
    } else {
        10 * said(s.drop_last()) + (s.last() as int - '0' as int)
    }
}

/// Whether a text holds nothing but digits.
pub open spec fn all_digits(s: Seq<char>) -> bool {
    forall|i: int| 0 <= i < s.len() ==> '0' <= #[trigger] s[i] && s[i] <= '9'
}

/// A number is written in digits that say it, and does not start with a zero unless it is zero.
pub proof fn lemma_number_written(n: nat)
    ensures
        decimal(n).len() >= 1,
        all_digits(decimal(n)),
        said(decimal(n)) == n,
        decimal(n)[0] == '0' ==> n == 0,
        n == 0 ==> decimal(n) == seq!['0'],
    decreases n,
{
    if n < 10 {
        assert(decimal(n).drop_last() =~= Seq::empty());
        reveal_with_fuel(said, 2);
    } else {
        lemma_number_written(n / 10);
        assert(decimal(n).drop_last() =~= decimal(n / 10));
        assert(decimal(n)[0] == decimal(n / 10)[0]);
    }
}

/// A number with a sign is written with a minus in front where it is negative, and only there.
pub proof fn lemma_sign_written(i: int)
    ensures
        i < 0 ==> signed_decimal(i).len() > 0 && signed_decimal(i)[0] == '-' && all_digits(
            signed_decimal(i).drop_first(),
        ) && said(signed_decimal(i).drop_first()) == -i,
        i >= 0 ==> all_digits(signed_decimal(i)) && said(signed_decimal(i)) == i,
{
    if i < 0 {
        lemma_number_written((-i) as nat);
        assert(signed_decimal(i).drop_first() =~= decimal((-i) as nat));
    } else {
        lemma_number_written(i as nat);
    }
}

/// Digits are read as the number that they say, where it is within the limit; nothing else is.
pub proof fn lemma_digits_read(s: Seq<char>, limit: nat)
    ensures
        match read_digits(s, limit) {
            Ok(n) => all_digits(s) && said(s) == n && n <= limit,
            Err(e) => (e == NumberError::InvalidDigit || e == NumberError::TooLarge) && !(
            all_digits(s) && 0 <= said(s) <= limit),
        },
        all_digits(s) ==> said(s) >= 0,
        all_digits(s) && read_digits(s, limit) is Err ==> read_digits(s, limit)
            == Err::<nat, NumberError>(NumberError::TooLarge),
    decreases s.len(),
{
    if s.len() > 0 {
        let t = s.drop_last();
        lemma_digits_read(t, limit);
        assert(s =~= t.push(s.last()));
        if all_digits(s) {
            assert(all_digits(t)) by {
                assert forall|i: int| 0 <= i < t.len() implies '0' <= #[trigger] t[i] && t[i]
                    <= '9' by {
                    assert(s[i] == t[i]);
                }
            }
            assert(is_digit(s[s.len() - 1]));
        }
        if all_digits(t) && is_digit(s.last()) {
            assert(all_digits(s)) by {
                assert forall|i: int| 0 <= i < s.len() implies '0' <= #[trigger] s[i] && s[i]
                    <= '9' by {
                    if i < t.len() {
                        assert(s[i] == t[i]);
                    }
                }
            }
        }
    }
}

/// The digits of a text: all of it, or what stands behind a plus sign.
pub open spec fn unsigned_digits(s: Seq<char>) -> Seq<char> {
    if s.len() > 0 && s[0] == '+' {
        s.drop_first()
    } else {
        s
    }
}

/// A text is read as a number where it is made of digits, with or without a plus sign in front,
/// and what they say is within the limit.
pub proof fn lemma_unsigned_read(s: Seq<char>, max: nat)
    ensures
        ({
            let digits = unsigned_digits(s);
            &&& match read_unsigned(s, max) {
                Ok(n) => digits.len() > 0 && all_digits(digits) && said(digits) == n && n <= max,
                Err(_) => !(digits.len() > 0 && all_digits(digits) && said(digits) <= max),
            }
            &&& s.len() == 0 <==> read_unsigned(s, max) == Err::<nat, NumberError>(
                NumberError::Empty,
            )
            &&& digits.len() > 0 && all_digits(digits) && said(digits) > max
                ==> read_unsigned(s, max) == Err::<nat, NumberError>(NumberError::TooLarge)
        }),
{
    let digits = unsigned_digits(s);
    lemma_digits_read(digits, max);
    if s.len() == 1 && s[0] == '-' {
        assert(!all_digits(s)) by {
            assert(!('0' <= s[0]));
        }
    }
}

/// A text with a minus sign in front is read as the negative of what its digits say; any other
/// as one without a sign.
pub proof fn lemma_signed_read(s: Seq<char>, max: nat)
    ensures
        ({
            let digits = s.drop_first();
            if s.len() > 1 && s[0] == '-' {
                match read_signed(s, max) {
                    Ok(i) => all_digits(digits) && i == -said(digits) && -max - 1 <= i,
                    Err(_) => !(all_digits(digits) && said(digits) <= max + 1),
                }
            } else {
                match read_signed(s, max) {
                    Ok(i) => i >= 0 && read_unsigned(s, max) == Ok::<nat, NumberError>(i as nat),
                    Err(e) => read_unsigned(s, max) == Err::<nat, NumberError>(e),
                }
            }
        }),
{
    if s.len() > 1 && s[0] == '-' {
        lemma_digits_read(s.drop_first(), max + 1);
    }
}

/// The digits of sixteen.
pub open spec fn sixteen() -> Seq<char> {
    "0123456789abcdef"@
}

/// Bytes are written in two digits each, in their order, the higher digit first.
pub proof fn lemma_bytes_written(data: Seq<u8>)
    ensures
        hex_text(data).len() == 2 * data.len(),
        forall|i: int|
            0 <= i < data.len() ==> hex_text(data)[2 * i] == sixteen()[#[trigger] data[i] as int
                / 16] && hex_text(data)[2 * i + 1] == sixteen()[data[i] as int % 16],
    decreases data.len(),
{
    if data.len() > 0 {
        let t = data.drop_last();
        lemma_bytes_written(t);
        let b = data.last() as int;
        lemma_digit_of_sixteen(b / 16);
        lemma_digit_of_sixteen(b % 16);
        assert forall|i: int| 0 <= i < data.len() implies hex_text(data)[2 * i] == sixteen()[
        #[trigger] data[i] as int / 16] && hex_text(data)[2 * i + 1] == sixteen()[data[i] as int
            % 16] by {
            if i < t.len() {
                assert(data[i] == t[i]);
                assert(hex_text(data)[2 * i] == hex_text(t)[2 * i]);
                assert(hex_text(data)[2 * i + 1] == hex_text(t)[2 * i + 1]);
            }
        }
    }
}

/// A digit of sixteen.
proof fn lemma_digit_of_sixteen(d: int)
    requires
        0 <= d < 16,
    ensures
        hex_digit(d) == sixteen()[d],
{
    reveal_strlit("0123456789abcdef");
}

/// The byte of a digit of sixteen, in one of two cases.
pub open spec fn digit_byte(d: int, upper: bool) -> u8 {
    (if d < 10 {
        '0' as int + d
    } else if upper {
        'A' as int + d - 10
    } else {
        'a' as int + d - 10
    }) as u8
}

/// A byte that is written as a percent sign and two digits of sixteen, in either case, is read
/// back as that byte; a byte that is no percent sign stands for itself.
pub proof fn lemma_escape_read(b: u8, plain: u8, high_upper: bool, low_upper: bool, rest: Seq<u8>)
    requires
        plain != 37,
    ensures
        unescaped(
            seq![
                37u8,
                digit_byte(b as int / 16, high_upper),
                digit_byte(b as int % 16, low_upper),
            ] + rest,
        ) == seq![b] + unescaped(rest),
        unescaped(seq![plain] + rest) == seq![plain] + unescaped(rest),
        unescaped(Seq::empty()) == Seq::<u8>::empty(),
{
    let s = seq![
        37u8,
        digit_byte(b as int / 16, high_upper),
        digit_byte(b as int % 16, low_upper),
    ] + rest;
    assert(s.skip(3) =~= rest);
    assert((seq![plain] + rest).skip(1) =~= rest);
}

/// A percent sign that is not followed by two digits of sixteen stands for itself.
pub proof fn lemma_percent_stays(rest: Seq<u8>)
    requires
        rest.len() < 2 || !(is_sixteen(rest[0]) && is_sixteen(rest[1])),
    ensures
        unescaped(seq![37u8] + rest) == seq![37u8] + unescaped(rest),
{
    let s = seq![37u8] + rest;
    assert(s.skip(1) =~= rest);
    if rest.len() >= 2 {
        assert(s[1] == rest[0]);
        assert(s[2] == rest[1]);
    }
}

/// Whether a byte is a digit of sixteen, in either case.
pub open spec fn is_sixteen(b: u8) -> bool {
    ||| '0' as int <= b <= '9' as int
    ||| 'a' as int <= b <= 'f' as int
    ||| 'A' as int <= b <= 'F' as int
}

} // verus!
