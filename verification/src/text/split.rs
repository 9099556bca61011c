//! Splitting text at a character.

use vstd::prelude::*;
use crate::text::chars::{chars_of, text_between, texts};

verus! {

/// The pieces of `s` between the occurrences of `c`. There is always one piece more
/// than there are occurrences.
pub open spec fn split_on(s: Seq<char>, c: char) -> Seq<Seq<char>>
    decreases s.len(),
{
    if s.len() == 0 {
        seq![Seq::empty()]
    } else {
        let before = split_on(s.drop_last(), c);
        if s.last() == c {
            before.push(Seq::empty())
        } else {
            before.drop_last().push(before.last().push(s.last()))
        }
    }
}

/// How many characters stand in front of the first `c`; all of them where there is none.
pub open spec fn first_at(s: Seq<char>, c: char) -> nat
    decreases s.len(),
{
    if s.len() == 0 || s[0] == c {
        0
    } else {
        1 + first_at(s.drop_first(), c)
    }
}

/// What stands before and after the first `c`.
pub open spec fn split_at_first(s: Seq<char>, c: char) -> Option<(Seq<char>, Seq<char>)> {
    let i = first_at(s, c) as int;
    if i < s.len() {
        Some((s.take(i), s.skip(i + 1)))
    } else {
        None
    }
}

/// Splitting always yields a piece.
pub proof fn lemma_split_nonempty(s: Seq<char>, c: char)
    ensures
        split_on(s, c).len() >= 1,
    decreases s.len(),
{
    if s.len() > 0 {
        lemma_split_nonempty(s.drop_last(), c);
    }
}

/// A text without the separator is its own only piece.
pub proof fn lemma_split_single(s: Seq<char>, c: char)
    requires
        !s.contains(c),
    ensures
        split_on(s, c) == seq![s],
    decreases s.len(),
{
    if s.len() > 0 {
        assert(s.last() != c) by {
            assert(s.contains(s.last()));
        }
        assert(!s.drop_last().contains(c)) by {
            if s.drop_last().contains(c) {
                let i = choose|i: int| 0 <= i < s.drop_last().len() && s.drop_last()[i] == c;
                assert(s[i] == c);
            }
        }
        lemma_split_single(s.drop_last(), c);
        assert(split_on(s, c) =~= seq![s]) by {
            assert(s.drop_last().push(s.last()) =~= s);
        }
    } else {
        assert(s =~= Seq::empty());
    }
}

/// A first piece without the separator comes out in front of the pieces of the rest.
pub proof fn lemma_split_first(head: Seq<char>, c: char, rest: Seq<char>)
    requires
        !head.contains(c),
    ensures
        split_on(head + seq![c] + rest, c) == seq![head] + split_on(rest, c),
    decreases rest.len(),
{
    let whole = head + seq![c] + rest;
    if rest.len() == 0 {
        lemma_split_single(head, c);
        assert(whole.drop_last() =~= head);
        assert(whole.last() == c);
        assert(split_on(whole, c) =~= seq![head] + split_on(rest, c));
    } else {
        let shorter = rest.drop_last();
        lemma_split_first(head, c, shorter);
        lemma_split_nonempty(shorter, c);
        assert(whole.drop_last() =~= head + seq![c] + shorter);
        assert(whole.last() == rest.last());
        assert(split_on(whole, c) =~= seq![head] + split_on(rest, c));
    }
}

/// The pieces of two texts add up where the separator stands between them.
pub proof fn lemma_split_lengths(left: Seq<char>, c: char, right: Seq<char>)
    ensures
        split_on(left + seq![c] + right, c).len() == split_on(left, c).len() + split_on(
            right,
            c,
        ).len(),
    decreases right.len(),
{
    let whole = left + seq![c] + right;
    if right.len() == 0 {
        assert(whole.drop_last() =~= left);
        assert(whole.last() == c);
    } else {
        let shorter = right.drop_last();
        lemma_split_lengths(left, c, shorter);
        lemma_split_nonempty(shorter, c);
        lemma_split_nonempty(left, c);
        assert(whole.drop_last() =~= left + seq![c] + shorter);
        assert(whole.last() == right.last());
    }
}

/// A text that holds the separator has at least two pieces.
pub proof fn lemma_split_several(s: Seq<char>, c: char)
    requires
        s.contains(c),
    ensures
        split_on(s, c).len() >= 2,
{
    let i = choose|i: int| 0 <= i < s.len() && s[i] == c;
    let left = s.take(i);
    let right = s.skip(i + 1);
    assert(s =~= left + seq![c] + right);
    lemma_split_lengths(left, c, right);
    lemma_split_nonempty(left, c);
    lemma_split_nonempty(right, c);
}

/// The value of [`first_at`] at a position that is known to be the first.
pub proof fn lemma_first_at(s: Seq<char>, c: char, i: int)
    requires
        0 <= i <= s.len(),
        forall|j: int| 0 <= j < i ==> s[j] != c,
        i < s.len() ==> s[i] == c,
    ensures
        first_at(s, c) == i,
    decreases s.len(),
{
    if s.len() > 0 && i > 0 {
        assert(s[0] != c);
        lemma_first_at(s.drop_first(), c, i - 1);
    }
}

/// Splits a string at each `c`.
pub fn split_text(s: &str, c: char) -> (r: Vec<String>)
    ensures
        texts(r@) == split_on(s@, c),
{
    let chars: Vec<char> = chars_of(s);
    let mut parts: Vec<String> = Vec::new();
    let mut piece: String = String::new();
    let mut i: usize = 0;
    assert(texts(parts@).push(piece@) =~= split_on(chars@.take(0), c));
    while i < chars.len()
        invariant
            i <= chars@.len(),
            texts(parts@).push(piece@) == split_on(chars@.take(i as int), c),
        decreases chars@.len() - i,
    {
        let ghost before = texts(parts@).push(piece@);
        proof {
            assert(chars@.take(i + 1).drop_last() =~= chars@.take(i as int));
            assert(before.drop_last() =~= texts(parts@));
        }
        if chars[i] == c {
            parts.push(piece);
            piece = String::new();
            assert(texts(parts@) =~= before);
            assert(texts(parts@).push(piece@) =~= split_on(chars@.take(i + 1), c));
        } else {
            piece.push(chars[i]);
            assert(texts(parts@).push(piece@) =~= split_on(chars@.take(i + 1), c));
        }
        i = i + 1;
    }
    let ghost before = texts(parts@).push(piece@);
    parts.push(piece);
    assert(texts(parts@) =~= before);
    assert(chars@.take(chars@.len() as int) =~= s@);
    parts
}

/// Splits a string at its first `c`.
pub fn split_text_once(s: &str, c: char) -> (r: Option<(String, String)>)
    ensures
        match r {
            Some(p) => split_at_first(s@, c) == Some((p.0@, p.1@)),
            None => split_at_first(s@, c) is None,
        },
{
    let chars: Vec<char> = chars_of(s);
    let mut i: usize = 0;
    while i < chars.len() && chars[i] != c
        invariant
            chars@ == s@,
            i <= chars@.len(),
            forall|j: int| 0 <= j < i ==> chars@[j] != c,
        decreases chars@.len() - i,
    {
        i = i + 1;
    }
    proof {
        lemma_first_at(s@, c, i as int);
    }
    if i < chars.len() {
        let left: String = text_between(&chars, 0, i);
        let right: String = text_between(&chars, i + 1, chars.len());
        assert(left@ =~= s@.take(i as int));
        assert(right@ =~= s@.skip(i + 1));
        Some((left, right))
    } else {
        None
    }
}

} // verus!
