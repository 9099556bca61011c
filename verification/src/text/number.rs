//! Reading integers from their decimal notation.

use vstd::prelude::*;
use crate::text::chars::chars_of;
use crate::text::decimal::{decimal, signed_decimal};

verus! {

/// Why a text is not the notation of a number of the wanted kind.
#[derive(Clone, Copy, Debug, PartialEq, Eq)]
pub enum NumberError {
    /// There is no text.
    Empty,
    /// A character that is no digit stands where a digit belongs.
    InvalidDigit,
    /// The number is above the largest of its kind.
    TooLarge,
    /// The number is below the smallest of its kind.
    TooSmall,
}

impl NumberError {
    /// The words for the error.
    pub open spec fn words(self) -> Seq<char> {
        match self {
            NumberError::Empty => "cannot parse integer from empty string"@,
            NumberError::InvalidDigit => "invalid digit found in string"@,
            NumberError::TooLarge => "number too large to fit in target type"@,
            NumberError::TooSmall => "number too small to fit in target type"@,
        }
    }

    /// Says the error in words.
    pub fn message(self) -> (r: String)
        ensures
            r@ == self.words(),
    {
        match self {
            NumberError::Empty => "cannot parse integer from empty string".to_owned(),
            NumberError::InvalidDigit => "invalid digit found in string".to_owned(),
            NumberError::TooLarge => "number too large to fit in target type".to_owned(),
            NumberError::TooSmall => "number too small to fit in target type".to_owned(),
        }
    }
}

/// Whether a character is a decimal digit.
pub open spec fn is_digit(c: char) -> bool {
    '0' <= c && c <= '9'
}

/// The number that digits stand for, read from the left, none of whose starts may exceed
/// `limit`.
pub open spec fn read_digits(s: Seq<char>, limit: nat) -> Result<nat, NumberError>
    decreases s.len(),
{
    if s.len() == 0 {
        Ok(0)
    } else {
        match read_digits(s.drop_last(), limit) {
            Err(e) => Err(e),
            Ok(n) => if !is_digit(s.last()) {
                Err(NumberError::InvalidDigit)
            } else {
                let m = (n * 10 + (s.last() as int - 48)) as nat;
                if m > limit {
                    Err(NumberError::TooLarge)
                } else {
                    Ok(m)
                }
            },
        }
    }
}

/// The number from 0 to `max` that a text is the notation of. A plus sign may stand in front.
pub open spec fn read_unsigned(s: Seq<char>, max: nat) -> Result<nat, NumberError> {
    if s.len() == 0 {
        Err(NumberError::Empty)
    } else if s.len() == 1 && (s[0] == '+' || s[0] == '-') {
        Err(NumberError::InvalidDigit)
    } else if s[0] == '+' {
        read_digits(s.drop_first(), max)
    } else {
        read_digits(s, max)
    }
}

/// The number from `-max - 1` to `max` that a text is the notation of. A sign may stand in
/// front.
pub open spec fn read_signed(s: Seq<char>, max: nat) -> Result<int, NumberError> {
    if s.len() > 1 && s[0] == '-' {
        match read_digits(s.drop_first(), max + 1) {
            Ok(n) => Ok(-n),
            Err(NumberError::TooLarge) => Err(NumberError::TooSmall),
            Err(e) => Err(e),
        }
    } else {
        match read_unsigned(s, max) {
            Ok(n) => Ok(n as int),
            Err(e) => Err(e),
        }
    }
}

/// Reads the digits from position `from` on.
fn digits_from(chars: &Vec<char>, from: usize, limit: u64) -> (r: Result<u64, NumberError>)
    requires
        from <= chars@.len(),
    ensures
        match r {
            Ok(n) => read_digits(chars@.skip(from as int), limit as nat) == Ok::<nat, NumberError>(
                n as nat,
            ) && n <= limit,
            Err(e) => read_digits(chars@.skip(from as int), limit as nat) == Err::<
                nat,
                NumberError,
            >(e),
        },
{
    let mut acc: Result<u64, NumberError> = Ok(0);
    let mut i: usize = from;
    let ghost s = chars@.skip(from as int);
    while i < chars.len()
        invariant
            from <= i <= chars@.len(),
            s == chars@.skip(from as int),
            match acc {
                Ok(n) => n <= limit && read_digits(s.take(i - from), limit as nat) == Ok::<
                    nat,
                    NumberError,
                >(n as nat),
                Err(e) => read_digits(s.take(i - from), limit as nat) == Err::<nat, NumberError>(e),
            },
        decreases chars@.len() - i,
    {
        let c: char = chars[i];
        proof {
            assert(s.take(i + 1 - from).drop_last() =~= s.take(i - from));
            assert(s.take(i + 1 - from).last() == c);
        }
        if let Ok(n) = acc {
            if '0' <= c && c <= '9' {
                let digit: u128 = (c as u32 - 48) as u128;
                let m: u128 = (n as u128) * 10 + digit;
                if m > limit as u128 {
                    acc = Err(NumberError::TooLarge);
                } else {
                    acc = Ok(m as u64);
                }
            } else {
                acc = Err(NumberError::InvalidDigit);
            }
        }
        i = i + 1;
    }
    assert(s.take(chars@.len() - from) =~= s);
    acc
}

/// Reads a number from 0 to `max`.
pub fn parse_unsigned(s: &str, max: u64) -> (r: Result<u64, NumberError>)
    ensures
        match r {
            Ok(n) => read_unsigned(s@, max as nat) == Ok::<nat, NumberError>(n as nat) && n <= max,
            Err(e) => read_unsigned(s@, max as nat) == Err::<nat, NumberError>(e),
        },
{
    let chars: Vec<char> = chars_of(s);
    if chars.len() == 0 {
        Err(NumberError::Empty)
    } else if chars.len() == 1 && (chars[0] == '+' || chars[0] == '-') {
        Err(NumberError::InvalidDigit)
    } else if chars[0] == '+' {
        assert(chars@.skip(1) =~= s@.drop_first());
        digits_from(&chars, 1, max)
    } else {
        assert(chars@.skip(0) =~= s@);
        digits_from(&chars, 0, max)
    }
}

/// Reads a 32-bit number with its sign.
pub fn parse_i32(s: &str) -> (r: Result<i32, NumberError>)
    ensures
        match r {
            Ok(n) => read_signed(s@, i32::MAX as nat) == Ok::<int, NumberError>(n as int),
            Err(e) => read_signed(s@, i32::MAX as nat) == Err::<int, NumberError>(e),
        },
{
    let chars: Vec<char> = chars_of(s);
    if chars.len() > 1 && chars[0] == '-' {
        assert(chars@.skip(1) =~= s@.drop_first());
        match digits_from(&chars, 1, 2147483648) {
            Ok(n) => Ok((-(n as i64)) as i32),
            Err(NumberError::TooLarge) => Err(NumberError::TooSmall),
            Err(e) => Err(e),
        }
    } else {
        match parse_unsigned(s, 2147483647) {
            Ok(n) => Ok(n as i32),
            Err(e) => Err(e),
        }
    }
}

/// Decimal notation holds digits only, at least one.
pub proof fn lemma_decimal_digits(n: nat)
    ensures
        decimal(n).len() >= 1,
        forall|i: int| 0 <= i < decimal(n).len() ==> is_digit(#[trigger] decimal(n)[i]),
    decreases n,
{
    if n >= 10 {
        lemma_decimal_digits(n / 10);
    }
}

/// Decimal notation is read back as the number it was written from.
pub proof fn lemma_read_decimal(n: nat, limit: nat)
    requires
        n <= limit,
    ensures
        read_digits(decimal(n), limit) == Ok::<nat, NumberError>(n),
    decreases n,
{
    let s = decimal(n);
    if n < 10 {
        assert(s.drop_last() =~= Seq::empty());
        assert(read_digits(s.drop_last(), limit) == Ok::<nat, NumberError>(0));
    } else {
        lemma_read_decimal(n / 10, limit);
        assert(s.drop_last() =~= decimal(n / 10));
    }
}

/// What is written of a number is read back as that number.
pub proof fn lemma_read_unsigned_decimal(n: nat, max: nat)
    requires
        n <= max,
    ensures
        read_unsigned(decimal(n), max) == Ok::<nat, NumberError>(n),
{
    lemma_decimal_digits(n);
    lemma_read_decimal(n, max);
    assert(is_digit(decimal(n)[0]));
}

/// What is written of a number with its sign is read back as that number.
pub proof fn lemma_read_signed_decimal(i: int, max: nat)
    requires
        -max - 1 <= i <= max,
    ensures
        read_signed(signed_decimal(i), max) == Ok::<int, NumberError>(i),
{
    if i < 0 {
        let s = signed_decimal(i);
        lemma_decimal_digits((-i) as nat);
        lemma_read_decimal((-i) as nat, max + 1);
        assert(s.drop_first() =~= decimal((-i) as nat));
    } else {
        lemma_decimal_digits(i as nat);
        lemma_read_unsigned_decimal(i as nat, max);
        assert(is_digit(decimal(i as nat)[0]));
    }
}

} // verus!
