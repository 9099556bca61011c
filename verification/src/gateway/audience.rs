//! Who hears of an event.

use vstd::prelude::*;
use crate::text::chars::{same_text, texts};

verus! {

/// A list with one more entry, unless it is in the list.
pub open spec fn with_new(list: Seq<Seq<char>>, entry: Seq<char>) -> Seq<Seq<char>> {
    if list.contains(entry) {
        list
    } else {
        list.push(entry)
    }
}

/// A list with those of some entries that are not `but` and not in it yet.
pub open spec fn with_others(
    list: Seq<Seq<char>>,
    entries: Seq<Seq<char>>,
    but: Seq<char>,
) -> Seq<Seq<char>>
    decreases entries.len(),
{
    if entries.len() == 0 {
        list
    } else {
        let earlier = with_others(list, entries.drop_last(), but);
        if entries.last() == but {
            earlier
        } else {
            with_new(earlier, entries.last())
        }
    }
}

/// What is in a list after others were added: nothing twice, and exactly what was in it and
/// the others.
pub proof fn lemma_with_others(list: Seq<Seq<char>>, entries: Seq<Seq<char>>, but: Seq<char>)
    requires
        list.no_duplicates(),
    ensures
        with_others(list, entries, but).no_duplicates(),
        forall|e: Seq<char>| #[trigger]
            with_others(list, entries, but).contains(e) <==> list.contains(e) || (entries.contains(
                e,
            ) && e != but),
    decreases entries.len(),
{
    if entries.len() > 0 {
        let shorter = entries.drop_last();
        let last = entries.last();
        lemma_with_others(list, shorter, but);
        let earlier = with_others(list, shorter, but);
        let whole = with_others(list, entries, but);
        assert forall|e: Seq<char>| #[trigger] whole.contains(e) <==> list.contains(e) || (
        entries.contains(e) && e != but) by {
            assert(entries.contains(e) <==> shorter.contains(e) || e == last) by {
                assert(entries =~= shorter.push(last));
                if entries.contains(e) {
                    let i = choose|i: int| 0 <= i < entries.len() && entries[i] == e;
                    if i < shorter.len() {
                        assert(shorter[i] == e);
                    }
                }
                if shorter.contains(e) {
                    let i = choose|i: int| 0 <= i < shorter.len() && shorter[i] == e;
                    assert(entries[i] == e);
                }
                assert(entries[entries.len() - 1] == last);
            }
            assert(earlier.contains(e) <==> list.contains(e) || (shorter.contains(e) && e != but));
            if last != but && !earlier.contains(last) {
                assert(whole == earlier.push(last));
                if whole.contains(e) {
                    let i = choose|i: int| 0 <= i < whole.len() && whole[i] == e;
                    if i < earlier.len() {
                        assert(earlier[i] == e);
                    }
                }
                if earlier.contains(e) {
                    let i = choose|i: int| 0 <= i < earlier.len() && earlier[i] == e;
                    assert(whole[i] == e);
                }
                assert(whole[earlier.len() as int] == last);
            }
        }
        if last != but && !earlier.contains(last) {
            assert forall|i: int, j: int| 0 <= i < j < whole.len() implies whole[i]
                != whole[j] by {
                if j == earlier.len() {
                    assert(earlier.contains(earlier[i]));
                }
            }
        }
    } else {
        assert forall|e: Seq<char>| #[trigger]
            with_others(list, entries, but).contains(e) <==> list.contains(e) || (entries.contains(
                e,
            ) && e != but) by {}
    }
}

/// Whether a text is in a list.
pub fn lists(list: &Vec<String>, entry: &str) -> (r: bool)
    ensures
        r == texts(list@).contains(entry@),
{
    let mut i: usize = 0;
    while i < list.len()
        invariant
            i <= list@.len(),
            forall|j: int| 0 <= j < i ==> #[trigger] texts(list@)[j] != entry@,
        decreases list@.len() - i,
    {
        if same_text(list[i].as_str(), entry) {
            assert(texts(list@)[i as int] == entry@);
            return true;
        }
        i = i + 1;
    }
    false
}

/// Whether a socket that is in some rooms hears what is said in a room.
pub fn hears(rooms: &Vec<String>, room: &str) -> (r: bool)
    ensures
        r == texts(rooms@).contains(room@),
{
    lists(rooms, room)
}

/// Adds those of some entries that are not `but` and not in the list yet.
pub fn add_others(list: Vec<String>, entries: Vec<String>, but: &str) -> (r: Vec<String>)
    ensures
        texts(r@) == with_others(texts(list@), texts(entries@), but@),
{
    let mut out: Vec<String> = list;
    let mut i: usize = 0;
    let ghost all = texts(entries@);
    assert(all.take(0) =~= Seq::<Seq<char>>::empty());
    while i < entries.len()
        invariant
            i <= entries@.len(),
            all == texts(entries@),
            texts(out@) == with_others(texts(list@), all.take(i as int), but@),
        decreases entries@.len() - i,
    {
        let ghost before = texts(out@);
        proof {
            assert(all.take(i + 1).drop_last() =~= all.take(i as int));
            assert(all.take(i + 1).last() == entries@[i as int]@);
        }
        let entry: &String = &entries[i];
        if !same_text(entry.as_str(), but) {
            if !lists(&out, entry.as_str()) {
                out.push(entry.clone());
                assert(texts(out@) =~= before.push(entry@));
            }
        }
        i = i + 1;
    }
    assert(all.take(i as int) =~= all);
    out
}

/// The places in a list of sockets at which they are open, upwards. A user without any is
/// connected no longer.
pub fn open_places(closed: &Vec<bool>) -> (r: Vec<usize>)
    ensures
        forall|i: int, j: int| 0 <= i < j < r@.len() ==> r@[i] < r@[j],
        forall|k: usize| #[trigger] r@.contains(k) <==> k < closed@.len() && !closed@[k as int],
        r@.len() == 0 <==> forall|k: int| 0 <= k < closed@.len() ==> #[trigger] closed@[k],
{
    let mut out: Vec<usize> = Vec::new();
    let mut i: usize = 0;
    while i < closed.len()
        invariant
            i <= closed@.len(),
            forall|a: int|
                0 <= a < out@.len() ==> #[trigger] out@[a] < i && !closed@[out@[a] as int],
            forall|a: int, b: int| 0 <= a < b < out@.len() ==> out@[a] < out@[b],
            forall|k: usize| k < i && !closed@[k as int] ==> #[trigger] out@.contains(k),
            out@.len() == 0 ==> forall|k: int| 0 <= k < i ==> #[trigger] closed@[k],
        decreases closed@.len() - i,
    {
        let ghost before = out@;
        if !closed[i] {
            out.push(i);
            assert(out@[before.len() as int] == i);
            assert forall|k: usize| k < i + 1 && !closed@[k as int] implies #[trigger]
                out@.contains(k) by {
                if k < i {
                    assert(before.contains(k));
                    let a = choose|a: int| 0 <= a < before.len() && before[a] == k;
                    assert(out@[a] == k);
                }
            }
        }
        i = i + 1;
    }
    if out.len() > 0 {
        assert(!closed@[out@[0] as int]);
    }
    out
}

} // verus!
