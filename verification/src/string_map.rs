//! A map from texts to values that keeps its keys in the order of texts.

use vstd::prelude::*;
use crate::text::chars::texts;
use crate::text::order::{
    before, lemma_before_irreflexive, lemma_before_total, lemma_before_transitive, rank, Rank,
};

verus! {

/// Whether each text stands before all that follow it.
pub open spec fn ascending(s: Seq<Seq<char>>) -> bool {
    forall|i: int, j: int| 0 <= i < j < s.len() ==> before(#[trigger] s[i], #[trigger] s[j])
}

/// Whether `s` lists the keys of `m`, each once, in the order of texts.
pub open spec fn lists_keys<T>(s: Seq<Seq<char>>, m: Map<Seq<char>, T>) -> bool {
    ascending(s) && forall|k: Seq<char>| #[trigger] s.contains(k) <==> m.contains_key(k)
}

/// The keys of `m` in the order of texts.
pub open spec fn sorted_keys<T>(m: Map<Seq<char>, T>) -> Seq<Seq<char>> {
    choose|s: Seq<Seq<char>>| lists_keys(s, m)
}

/// The values of `m`, in the order of their keys.
pub open spec fn sorted_values<T>(m: Map<Seq<char>, T>) -> Seq<T> {
    sorted_keys(m).map_values(|k: Seq<char>| m[k])
}

/// Two ascending lists of the same texts are the same list.
pub proof fn lemma_ascending_unique(a: Seq<Seq<char>>, b: Seq<Seq<char>>)
    requires
        ascending(a),
        ascending(b),
        forall|k: Seq<char>| #[trigger] a.contains(k) <==> b.contains(k),
    ensures
        a == b,
    decreases a.len(),
{
    if a.len() == 0 {
        if b.len() > 0 {
            assert(b.contains(b[0]));
            assert(a.contains(b[0]));
        }
        assert(a =~= b);
    } else {
        assert(a.contains(a.last()));
        assert(b.len() > 0);
        assert(b.contains(b.last()));
        assert(a.contains(b.last()));
        assert(a.last() == b.last()) by {
            let i = choose|i: int| 0 <= i < b.len() && b[i] == a.last();
            let j = choose|j: int| 0 <= j < a.len() && a[j] == b.last();
            if a.last() != b.last() {
                assert(before(b[i], b[b.len() - 1]));
                assert(before(a[j], a[a.len() - 1]));
                lemma_before_transitive(a.last(), b.last(), a.last());
                lemma_before_irreflexive(a.last());
            }
        }
        let x = a.drop_last();
        let y = b.drop_last();
        assert forall|k: Seq<char>| #[trigger] x.contains(k) <==> y.contains(k) by {
            if x.contains(k) {
                let i = choose|i: int| 0 <= i < x.len() && x[i] == k;
                assert(a[i] == k);
                assert(a.contains(k));
                assert(before(a[i], a[a.len() - 1]));
                lemma_before_irreflexive(k);
                let j = choose|j: int| 0 <= j < b.len() && b[j] == k;
                assert(y[j] == k);
            }
            if y.contains(k) {
                let i = choose|i: int| 0 <= i < y.len() && y[i] == k;
                assert(b[i] == k);
                assert(b.contains(k));
                assert(a.contains(k));
                assert(before(b[i], b[b.len() - 1]));
                lemma_before_irreflexive(k);
                let j = choose|j: int| 0 <= j < a.len() && a[j] == k;
                assert(x[j] == k);
            }
        }
        lemma_ascending_unique(x, y);
        assert(a =~= x.push(a.last()));
        assert(b =~= y.push(b.last()));
    }
}

/// A list of the keys in order is what [`sorted_keys`] stands for.
pub proof fn lemma_sorted_keys<T>(s: Seq<Seq<char>>, m: Map<Seq<char>, T>)
    requires
        lists_keys(s, m),
    ensures
        sorted_keys(m) == s,
{
    let c = sorted_keys(m);
    assert(lists_keys(c, m));
    assert forall|k: Seq<char>| #[trigger] c.contains(k) <==> s.contains(k) by {}
    lemma_ascending_unique(c, s);
}

/// How many texts of an ascending list stand before `k`.
spec fn rank_in(s: Seq<Seq<char>>, k: Seq<char>) -> nat
    decreases s.len(),
{
    if s.len() == 0 || before(s.last(), k) {
        s.len()
    } else {
        rank_in(s.drop_last(), k)
    }
}

/// Those in front of the rank stand before `k`, the others behind it.
proof fn lemma_rank_in(s: Seq<Seq<char>>, k: Seq<char>)
    requires
        ascending(s),
        !s.contains(k),
    ensures
        rank_in(s, k) <= s.len(),
        forall|i: int| 0 <= i < rank_in(s, k) ==> before(#[trigger] s[i], k),
        forall|i: int| rank_in(s, k) <= i < s.len() ==> before(k, #[trigger] s[i]),
    decreases s.len(),
{
    if s.len() > 0 {
        let last = s.last();
        assert(s.contains(last));
        if before(last, k) {
            assert forall|i: int| 0 <= i < s.len() implies before(#[trigger] s[i], k) by {
                if i < s.len() - 1 {
                    assert(before(s[i], s[s.len() - 1]));
                    lemma_before_transitive(s[i], last, k);
                }
            }
        } else {
            let shorter = s.drop_last();
            assert forall|x: Seq<char>| shorter.contains(x) implies s.contains(x) by {
                let i = choose|i: int| 0 <= i < shorter.len() && shorter[i] == x;
                assert(s[i] == x);
            }
            lemma_rank_in(shorter, k);
            lemma_before_total(last, k);
            assert forall|i: int| 0 <= i < rank_in(s, k) implies before(#[trigger] s[i], k) by {
                assert(shorter[i] == s[i]);
            }
            assert forall|i: int| rank_in(s, k) <= i < s.len() implies before(
                k,
                #[trigger] s[i],
            ) by {
                if i < s.len() - 1 {
                    assert(shorter[i] == s[i]);
                }
            }
        }
    }
}

/// The keys of every finite map can be listed: each is among [`sorted_keys`], once and in its
/// place.
pub proof fn lemma_keys_listed<T>(m: Map<Seq<char>, T>)
    requires
        m.dom().finite(),
    ensures
        lists_keys(sorted_keys(m), m),
    decreases m.dom().len(),
{
    if m.dom().len() == 0 {
        let s = Seq::<Seq<char>>::empty();
        assert(m.dom() =~= Set::empty());
        assert forall|k: Seq<char>| #[trigger] s.contains(k) <==> m.contains_key(k) by {
            assert(m.contains_key(k) == m.dom().contains(k));
        }
        lemma_sorted_keys(s, m);
    } else {
        let k = m.dom().choose();
        let rest = m.remove(k);
        assert(rest.dom() =~= m.dom().remove(k));
        lemma_keys_listed(rest);
        let s = sorted_keys(rest);
        assert(!s.contains(k));
        lemma_rank_in(s, k);
        let p = rank_in(s, k) as int;
        let t = s.take(p).push(k) + s.skip(p);
        assert(ascending(t)) by {
            assert forall|i: int, j: int| 0 <= i < j < t.len() implies before(
                #[trigger] t[i],
                #[trigger] t[j],
            ) by {
                let a = if i < p {
                    i
                } else {
                    i - 1
                };
                let b = if j < p {
                    j
                } else {
                    j - 1
                };
                if i != p {
                    assert(t[i] == s[a]);
                }
                if j != p {
                    assert(t[j] == s[b]);
                }
                if i != p && j != p {
                    assert(before(s[a], s[b]));
                }
            }
        }
        assert forall|x: Seq<char>| #[trigger] t.contains(x) <==> m.contains_key(x) by {
            if t.contains(x) {
                let i = choose|i: int| 0 <= i < t.len() && t[i] == x;
                if i < p {
                    assert(s[i] == x);
                    assert(s.contains(x));
                } else if i > p {
                    assert(s[i - 1] == x);
                    assert(s.contains(x));
                }
            }
            if m.contains_key(x) {
                if x == k {
                    assert(t[p] == k);
                } else {
                    assert(rest.contains_key(x));
                    assert(s.contains(x));
                    let i = choose|i: int| 0 <= i < s.len() && s[i] == x;
                    if i < p {
                        assert(t[i] == x);
                    } else {
                        assert(t[i + 1] == x);
                    }
                }
            }
        }
        lemma_sorted_keys(t, m);
    }
}

/// The keys of a list of entries.
spec fn entry_keys<T>(e: Seq<(String, T)>) -> Seq<Seq<char>> {
    e.map_values(|p: (String, T)| p.0@)
}

/// The place of the entry for `k`.
spec fn entry_at<T>(e: Seq<(String, T)>, k: Seq<char>) -> int {
    choose|i: int| 0 <= i < e.len() && entry_keys(e)[i] == k
}

/// The map that a list of entries with distinct keys stands for.
spec fn entry_map<T>(e: Seq<(String, T)>) -> Map<Seq<char>, T> {
    Map::new(|k: Seq<char>| entry_keys(e).contains(k), |k: Seq<char>| e[entry_at(e, k)].1)
}

/// The value of an entry is what the map holds for its key.
proof fn lemma_entry<T>(e: Seq<(String, T)>, i: int)
    requires
        ascending(entry_keys(e)),
        0 <= i < e.len(),
    ensures
        entry_map(e).contains_key(e[i].0@),
        entry_map(e)[e[i].0@] == e[i].1,
{
    let ks = entry_keys(e);
    let k = e[i].0@;
    assert(ks[i] == k);
    assert(ks.contains(k));
    let j = entry_at(e, k);
    assert(ks[j] == k);
    if i < j {
        assert(before(ks[i], ks[j]));
        lemma_before_irreflexive(k);
    } else if j < i {
        assert(before(ks[j], ks[i]));
        lemma_before_irreflexive(k);
    }
}

/// One more entry is one more key of the map.
proof fn lemma_entry_push<T>(e: Seq<(String, T)>, i: int)
    requires
        ascending(entry_keys(e)),
        0 <= i < e.len(),
    ensures
        entry_map(e.take(i + 1)) == entry_map(e.take(i)).insert(e[i].0@, e[i].1),
{
    let a = e.take(i);
    let b = e.take(i + 1);
    let ka = entry_keys(a);
    let kb = entry_keys(b);
    assert(ka =~= entry_keys(e).take(i));
    assert(kb =~= entry_keys(e).take(i + 1));
    assert(kb =~= ka.push(e[i].0@));
    assert(ascending(ka)) by {
        assert forall|x: int, y: int| 0 <= x < y < ka.len() implies before(
            #[trigger] ka[x],
            #[trigger] ka[y],
        ) by {
            assert(before(entry_keys(e)[x], entry_keys(e)[y]));
        }
    }
    assert(ascending(kb)) by {
        assert forall|x: int, y: int| 0 <= x < y < kb.len() implies before(
            #[trigger] kb[x],
            #[trigger] kb[y],
        ) by {
            assert(before(entry_keys(e)[x], entry_keys(e)[y]));
        }
    }
    let target = entry_map(a).insert(e[i].0@, e[i].1);
    assert forall|k: Seq<char>| #[trigger] kb.contains(k) <==> ka.contains(k) || k == e[i].0@ by {
        if kb.contains(k) {
            let j = choose|j: int| 0 <= j < kb.len() && kb[j] == k;
            if j < i {
                assert(ka[j] == k);
            }
        }
        if ka.contains(k) {
            let j = choose|j: int| 0 <= j < ka.len() && ka[j] == k;
            assert(kb[j] == k);
        }
        assert(kb[i] == e[i].0@);
    }
    assert forall|k: Seq<char>| entry_map(b).contains_key(k) implies #[trigger] entry_map(b)[k]
        == target[k] by {
        let j = choose|j: int| 0 <= j < kb.len() && kb[j] == k;
        lemma_entry(b, j);
        if j < i {
            lemma_entry(a, j);
            assert(ka[j] == k);
            assert(before(kb[j], kb[i]));
            lemma_before_irreflexive(k);
        }
    }
    assert(entry_map(b) =~= target);
}

/// A map from texts to values.
#[derive(Debug, PartialEq)]
pub struct StringMap<T> {
    entries: Vec<(String, T)>,
}

impl<T> View for StringMap<T> {
    type V = Map<Seq<char>, T>;

    closed spec fn view(&self) -> Map<Seq<char>, T> {
        entry_map(self.entries@)
    }
}

impl<T> StringMap<T> {
    #[verifier::type_invariant]
    spec fn ordered(self) -> bool {
        ascending(entry_keys(self.entries@))
    }

    /// A map without entries.
    pub fn new() -> (r: Self)
        ensures
            r@ == Map::<Seq<char>, T>::empty(),
    {
        let entries: Vec<(String, T)> = Vec::new();
        assert(entry_map(entries@) =~= Map::empty());
        StringMap { entries }
    }

    /// The first place whose key does not stand before `key`.
    fn place(&self, key: &str) -> (r: usize)
        ensures
            r <= self.entries@.len(),
            forall|i: int|
                0 <= i < r ==> before(#[trigger] entry_keys(self.entries@)[i], key@),
            forall|i: int|
                r <= i < self.entries@.len() ==> #[trigger] entry_keys(self.entries@)[i] == key@
                    || before(key@, entry_keys(self.entries@)[i]),
    {
        proof {
            use_type_invariant(self);
        }
        let mut i: usize = 0;
        while i < self.entries.len()
            invariant
                i <= self.entries@.len(),
                ascending(entry_keys(self.entries@)),
                forall|j: int|
                    0 <= j < i ==> before(#[trigger] entry_keys(self.entries@)[j], key@),
            decreases self.entries@.len() - i,
        {
            let ghost ks = entry_keys(self.entries@);
            assert(ks[i as int] == self.entries@[i as int].0@);
            match rank(self.entries[i].0.as_str(), key) {
                Rank::Before => {
                    i = i + 1;
                },
                Rank::Same => {
                    assert forall|j: int| i <= j < ks.len() implies #[trigger] ks[j] == key@
                        || before(key@, ks[j]) by {
                        if i < j {
                            assert(before(ks[i as int], ks[j]));
                        }
                    }
                    return i;
                },
                Rank::After => {
                    assert forall|j: int| i <= j < ks.len() implies #[trigger] ks[j] == key@
                        || before(key@, ks[j]) by {
                        if i < j {
                            assert(before(ks[i as int], ks[j]));
                            lemma_before_transitive(key@, ks[i as int], ks[j]);
                        }
                    }
                    return i;
                },
            }
        }
        i
    }

    /// Whether the map has an entry for `key`, and at which place.
    fn lookup(&self, key: &str) -> (r: Option<usize>)
        ensures
            match r {
                Some(i) => i < self.entries@.len() && self.entries@[i as int].0@ == key@
                    && self@.contains_key(key@) && self@[key@] == self.entries@[i as int].1,
                None => !self@.contains_key(key@),
            },
    {
        let i: usize = self.place(key);
        proof {
            use_type_invariant(self);
        }
        let ghost ks = entry_keys(self.entries@);
        if i < self.entries.len() {
            assert(ks[i as int] == self.entries@[i as int].0@);
            match rank(self.entries[i].0.as_str(), key) {
                Rank::Same => {
                    proof {
                        lemma_entry(self.entries@, i as int);
                    }
                    return Some(i);
                },
                _ => {
                    assert(ks[i as int] != key@) by {
                        lemma_before_irreflexive(key@);
                    }
                },
            }
        }
        proof {
            if self@.contains_key(key@) {
                let j = choose|j: int| 0 <= j < ks.len() && ks[j] == key@;
                lemma_before_irreflexive(key@);
                if j > i {
                    assert(before(ks[i as int], ks[j]));
                    lemma_before_transitive(key@, ks[i as int], key@);
                }
            }
        }
        None
    }

    /// Whether there is an entry for `key`.
    pub fn contains_key(&self, key: &str) -> (r: bool)
        ensures
            r == self@.contains_key(key@),
    {
        self.lookup(key).is_some()
    }

    /// The value for `key`.
    pub fn get(&self, key: &str) -> (r: Option<&T>)
        ensures
            match r {
                Some(v) => self@.contains_key(key@) && *v == self@[key@],
                None => !self@.contains_key(key@),
            },
    {
        match self.lookup(key) {
            Some(i) => Some(&self.entries[i].1),
            None => None,
        }
    }

    /// The map with `value` for `key`, in place of what it had for it.
    pub fn insert(self, key: String, value: T) -> (r: Self)
        ensures
            r@ == self@.insert(key@, value),
    {
        let i: usize = self.place(key.as_str());
        let found: Option<usize> = self.lookup(key.as_str());
        proof {
            use_type_invariant(&self);
        }
        let ghost old_entries = self.entries@;
        let ghost ks = entry_keys(old_entries);
        let mut entries: Vec<(String, T)> = self.entries;
        if let Some(at) = found {
            entries.set(at, (key, value));
            let ghost after = entry_keys(entries@);
            proof {
                assert(ks[at as int] == key@);
                assert(after =~= ks);
                assert forall|k: Seq<char>| #[trigger] entry_map(entries@).contains_key(k)
                    <==> entry_map(old_entries).insert(key@, value).contains_key(k) by {
                    assert(ks.contains(ks[at as int]));
                }
                assert forall|k: Seq<char>| entry_map(entries@).contains_key(k) implies #[trigger]
                entry_map(entries@)[k] == entry_map(old_entries).insert(key@, value)[k] by {
                    let j = choose|j: int| 0 <= j < after.len() && after[j] == k;
                    lemma_entry(entries@, j);
                    lemma_entry(old_entries, j);
                    if j == at {
                    } else if k == key@ {
                        assert(ks[j] == ks[at as int]);
                        lemma_before_irreflexive(k);
                        if j < at {
                            assert(before(ks[j], ks[at as int]));
                        } else {
                            assert(before(ks[at as int], ks[j]));
                        }
                    }
                }
                assert(entry_map(entries@) =~= entry_map(old_entries).insert(key@, value));
            }
            StringMap { entries }
        } else {
            entries.insert(i, (key, value));
            let ghost after = entry_keys(entries@);
            proof {
                assert(after =~= ks.insert(i as int, key@));
                assert forall|a: int, b: int| 0 <= a < b < after.len() implies before(
                    #[trigger] after[a],
                    #[trigger] after[b],
                ) by {
                    if a < i && b < i {
                        assert(before(ks[a], ks[b]));
                    } else if a < i && b == i {
                        assert(before(ks[a], key@));
                    } else if a < i && b > i {
                        assert(before(ks[a], ks[b - 1]));
                    } else if a == i {
                        assert(ks.contains(ks[b - 1]));
                        assert(ks[b - 1] == key@ || before(key@, ks[b - 1]));
                    } else {
                        assert(before(ks[a - 1], ks[b - 1]));
                    }
                }
                assert forall|k: Seq<char>| #[trigger] after.contains(k) <==> ks.contains(k) || k
                    == key@ by {
                    if after.contains(k) {
                        let j = choose|j: int| 0 <= j < after.len() && after[j] == k;
                        if j < i {
                            assert(ks[j] == k);
                        } else if j > i {
                            assert(ks[j - 1] == k);
                        }
                    }
                    if ks.contains(k) {
                        let j = choose|j: int| 0 <= j < ks.len() && ks[j] == k;
                        if j < i {
                            assert(after[j] == k);
                        } else {
                            assert(after[j + 1] == k);
                        }
                    }
                    assert(after[i as int] == key@);
                }
                assert forall|k: Seq<char>| entry_map(entries@).contains_key(k) implies #[trigger]
                entry_map(entries@)[k] == entry_map(old_entries).insert(key@, value)[k] by {
                    let j = choose|j: int| 0 <= j < after.len() && after[j] == k;
                    lemma_entry(entries@, j);
                    if j < i {
                        lemma_entry(old_entries, j);
                        assert(ks[j] == k);
                        assert(ks.contains(k));
                    } else if j > i {
                        lemma_entry(old_entries, j - 1);
                        assert(ks[j - 1] == k);
                        assert(ks.contains(k));
                    }
                }
                assert(entry_map(entries@) =~= entry_map(old_entries).insert(key@, value));
            }
            StringMap { entries }
        }
    }

    /// The map with the entries of `other` in place of its own for the same keys.
    pub fn merge(self, other: StringMap<T>) -> (r: Self)
        ensures
            r@ == self@.union_prefer_right(other@),
    {
        proof {
            use_type_invariant(&other);
        }
        let ghost e = other.entries@;
        let mut out = self;
        assert(self@.union_prefer_right(entry_map(e.take(0))) =~= self@);
        for p in it: other.entries
            invariant
                it.seq() == e,
                ascending(entry_keys(e)),
                out@ == self@.union_prefer_right(entry_map(e.take(it.index()))),
        {
            let ghost i = it.index();
            out = out.insert(p.0, p.1);
            proof {
                lemma_entry_push(e, i);
                assert(out@ =~= self@.union_prefer_right(entry_map(e.take(i + 1))));
            }
        }
        assert(e.take(e.len() as int) =~= e);
        out
    }

    /// The keys, in the order of texts.
    pub fn keys(&self) -> (r: Vec<String>)
        ensures
            texts(r@) == sorted_keys(self@),
            lists_keys(texts(r@), self@),
    {
        proof {
            use_type_invariant(self);
        }
        let mut out: Vec<String> = Vec::new();
        let mut i: usize = 0;
        while i < self.entries.len()
            invariant
                i <= self.entries@.len(),
                texts(out@) == entry_keys(self.entries@).take(i as int),
            decreases self.entries@.len() - i,
        {
            let ghost earlier = texts(out@);
            out.push(self.entries[i].0.clone());
            assert(texts(out@) =~= earlier.push(self.entries@[i as int].0@));
            assert(texts(out@) =~= entry_keys(self.entries@).take(i + 1));
            i = i + 1;
        }
        proof {
            let ks = entry_keys(self.entries@);
            assert(ks.take(ks.len() as int) =~= ks);
            assert forall|k: Seq<char>| #[trigger] ks.contains(k) <==> self@.contains_key(k) by {}
            lemma_sorted_keys(ks, self@);
        }
        out
    }

    /// The keys in the order of texts, and the values in the order of their keys.
    pub fn into_columns(self) -> (r: (Vec<String>, Vec<T>))
        ensures
            texts(r.0@) == sorted_keys(self@),
            lists_keys(texts(r.0@), self@),
            r.1@ == sorted_values(self@),
    {
        let keys: Vec<String> = self.keys();
        proof {
            use_type_invariant(&self);
        }
        let ghost e = self.entries@;
        let mut values: Vec<T> = Vec::new();
        for p in it: self.entries
            invariant
                it.seq() == e,
                values@.len() == it.index(),
                forall|j: int| 0 <= j < values@.len() ==> values@[j] == e[j].1,
        {
            values.push(p.1);
        }
        proof {
            let ks = entry_keys(e);
            assert forall|k: Seq<char>| #[trigger] ks.contains(k) <==> self@.contains_key(k) by {}
            lemma_sorted_keys(ks, self@);
            assert forall|j: int| 0 <= j < values@.len() implies values@[j]
                == #[trigger] sorted_values(self@)[j] by {
                lemma_entry(e, j);
            }
            assert(values@ =~= sorted_values(self@));
        }
        (keys, values)
    }
}

} // verus!
