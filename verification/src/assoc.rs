//! A small association list with the contract of a finite map.
//!
//! Every table of this crate is an [`AssocMap`]: a vector of key/value pairs in
//! which no key occurs twice, viewed as a `Map` from key views to value views.
//! Nothing depends on the order of the pairs.

use vstd::prelude::*;

verus! {

/// A key that executable code can compare, where the comparison decides
/// equality of the views.
pub trait Key: View + Sized {
    fn same(&self, other: &Self) -> (r: bool)
        ensures
            r == (self@ == other@),
    ;
}

impl Key for u64 {
    fn same(&self, other: &Self) -> (r: bool) {
        *self == *other
    }
}

impl Key for String {
    fn same(&self, other: &Self) -> (r: bool) {
        *self == *other
    }
}

impl Key for Vec<u8> {
    fn same(&self, other: &Self) -> (r: bool) {
        if self.len() != other.len() {
            return false;
        }
        let mut i: usize = 0;
        while i < self.len()
            invariant
                self.len() == other.len(),
                i <= self.len(),
                forall|j: int| 0 <= j < i ==> self@[j] == other@[j],
            decreases self.len() - i,
        {
            if self[i] != other[i] {
                return false;
            }
            i += 1;
        }
        assert(self@ =~= other@);
        true
    }
}

impl Key for (String, String) {
    fn same(&self, other: &Self) -> (r: bool) {
        self.0 == other.0 && self.1 == other.1
    }
}

/// The view of the key of the `i`-th pair.
pub open spec fn key_at<K: Key, V: View>(s: Seq<(K, V)>, i: int) -> K::V {
    s[i].0@
}

/// Some pair of `s` has the key `k`.
pub open spec fn holds<K: Key, V: View>(s: Seq<(K, V)>, k: K::V) -> bool {
    exists|i: int| 0 <= i < s.len() && #[trigger] key_at(s, i) == k
}

/// The index of a pair with the key `k`, where there is one.
pub open spec fn position<K: Key, V: View>(s: Seq<(K, V)>, k: K::V) -> int {
    choose|i: int| 0 <= i < s.len() && #[trigger] key_at(s, i) == k
}

/// No key occurs in two pairs.
pub open spec fn unique<K: Key, V: View>(s: Seq<(K, V)>) -> bool {
    forall|i: int, j: int|
        0 <= i < j < s.len() ==> #[trigger] key_at(s, i) != #[trigger] key_at(s, j)
}

/// The finite map that a list of pairs stands for.
pub open spec fn to_map<K: Key, V: View>(s: Seq<(K, V)>) -> Map<K::V, V::V> {
    Map::new(|k: K::V| holds(s, k), |k: K::V| s[position(s, k)].1@)
}

proof fn lemma_entry<K: Key, V: View>(s: Seq<(K, V)>, i: int)
    requires
        unique(s),
        0 <= i < s.len(),
    ensures
        to_map(s).contains_key(key_at(s, i)),
        to_map(s)[key_at(s, i)] == s[i].1@,
{
    let k = key_at(s, i);
    let p = position(s, k);
    assert(0 <= p < s.len() && key_at(s, p) == k);
    if p < i {
        assert(key_at(s, p) != key_at(s, i));
    } else if i < p {
        assert(key_at(s, i) != key_at(s, p));
    }
}

proof fn lemma_push<K: Key, V: View>(s: Seq<(K, V)>, key: K, value: V)
    requires
        unique(s),
        !holds(s, key@),
    ensures
        unique(s.push((key, value))),
        to_map(s.push((key, value))) == to_map(s).insert(key@, value@),
{
    let t = s.push((key, value));
    let n = s.len() as int;
    assert forall|i: int, j: int| 0 <= i < j < t.len() implies #[trigger] key_at(t, i)
        != #[trigger] key_at(t, j) by {
        assert(key_at(t, i) == key_at(s, i));
        if j < n {
            assert(key_at(t, j) == key_at(s, j));
        }
    }
    assert(key_at(t, n) == key@);
    lemma_entry(t, n);
    assert forall|k: K::V| to_map(t).contains_key(k) <==> to_map(s).insert(
        key@,
        value@,
    ).contains_key(k) by {
        if holds(s, k) {
            let i = position(s, k);
            assert(key_at(t, i) == k);
        }
        if holds(t, k) && k != key@ {
            let i = position(t, k);
            assert(key_at(s, i) == k);
        }
    }
    assert forall|k: K::V| to_map(t).contains_key(k) implies to_map(t)[k] == to_map(s).insert(
        key@,
        value@,
    )[k] by {
        if k != key@ {
            let i = position(s, k);
            assert(key_at(s, i) == k);
            assert(key_at(t, i) == k);
            lemma_entry(s, i);
            lemma_entry(t, i);
        }
    }
    assert(to_map(t) =~= to_map(s).insert(key@, value@));
}

proof fn lemma_remove<K: Key, V: View>(s: Seq<(K, V)>, i: int)
    requires
        unique(s),
        0 <= i < s.len(),
    ensures
        unique(s.remove(i)),
        to_map(s.remove(i)) == to_map(s).remove(key_at(s, i)),
{
    let t = s.remove(i);
    let gone = key_at(s, i);
    assert forall|a: int| 0 <= a < t.len() implies #[trigger] key_at(t, a) == key_at(
        s,
        if a < i {
            a
        } else {
            a + 1
        },
    ) by {}
    assert forall|a: int, b: int| 0 <= a < b < t.len() implies #[trigger] key_at(t, a)
        != #[trigger] key_at(t, b) by {
        let a2 = if a < i {
            a
        } else {
            a + 1
        };
        let b2 = if b < i {
            b
        } else {
            b + 1
        };
        assert(key_at(s, a2) != key_at(s, b2));
    }
    assert forall|k: K::V| to_map(t).contains_key(k) <==> to_map(s).remove(gone).contains_key(
        k,
    ) by {
        if holds(t, k) {
            let a = position(t, k);
            let a2 = if a < i {
                a
            } else {
                a + 1
            };
            assert(key_at(s, a2) == k);
            if a2 < i {
                assert(key_at(s, a2) != key_at(s, i));
            } else {
                assert(key_at(s, i) != key_at(s, a2));
            }
        }
        if holds(s, k) && k != gone {
            let a = position(s, k);
            let a2 = if a < i {
                a
            } else {
                a - 1
            };
            assert(key_at(t, a2) == k);
        }
    }
    assert forall|k: K::V| to_map(t).contains_key(k) implies to_map(t)[k] == to_map(s).remove(
        gone,
    )[k] by {
        let a = position(t, k);
        let a2 = if a < i {
            a
        } else {
            a + 1
        };
        assert(key_at(s, a2) == k);
        lemma_entry(t, a);
        lemma_entry(s, a2);
    }
    assert(to_map(t) =~= to_map(s).remove(gone));
}

/// A finite map from `K` to `V`, kept as a list of pairs with distinct keys.
#[derive(Debug)]
pub struct AssocMap<K: Key, V: View> {
    entries: Vec<(K, V)>,
}

impl<K: Key, V: View> View for AssocMap<K, V> {
    type V = Map<K::V, V::V>;

    closed spec fn view(&self) -> Map<K::V, V::V> {
        to_map(self.entries@)
    }
}

impl<K: Key, V: View> AssocMap<K, V> {
    #[verifier::type_invariant]
    spec fn distinct_keys(self) -> bool {
        unique(self.entries@)
    }

    /// The empty map.
    pub fn new() -> (m: Self)
        ensures
            m@ == Map::<K::V, V::V>::empty(),
    {
        let m = AssocMap { entries: Vec::new() };
        assert(m@ =~= Map::<K::V, V::V>::empty());
        m
    }

    fn find(entries: &Vec<(K, V)>, key: &K) -> (at: Option<usize>)
        ensures
            match at {
                Some(i) => i < entries.len() && key_at(entries@, i as int) == key@,
                None => !holds(entries@, key@),
            },
    {
        let mut i: usize = 0;
        while i < entries.len()
            invariant
                i <= entries.len(),
                forall|j: int| 0 <= j < i ==> #[trigger] key_at(entries@, j) != key@,
            decreases entries.len() - i,
        {
            if entries[i].0.same(key) {
                return Some(i);
            }
            i += 1;
        }
        None
    }

    /// Whether `key` has a value.
    pub fn contains_key(&self, key: &K) -> (r: bool)
        ensures
            r == self@.contains_key(key@),
    {
        Self::find(&self.entries, key).is_some()
    }

    /// The value of `key`, where it has one.
    pub fn get(&self, key: &K) -> (r: Option<&V>)
        ensures
            match r {
                Some(v) => self@.contains_key(key@) && v@ == self@[key@],
                None => !self@.contains_key(key@),
            },
    {
        proof {
            use_type_invariant(self);
        }
        match Self::find(&self.entries, key) {
            Some(i) => {
                proof {
                    lemma_entry(self.entries@, i as int);
                }
                Some(&self.entries[i].1)
            },
            None => None,
        }
    }

    /// Gives `key` the value `value`, whatever it had before, and returns
    /// what it had before.
    pub fn insert(&mut self, key: K, value: V) -> (prior: Option<V>)
        ensures
            final(self)@ == old(self)@.insert(key@, value@),
            match prior {
                Some(v) => old(self)@.contains_key(key@) && v@ == old(self)@[key@],
                None => !old(self)@.contains_key(key@),
            },
    {
        proof {
            use_type_invariant(&*self);
        }
        let mut entries: Vec<(K, V)> = Vec::new();
        std::mem::swap(&mut entries, &mut self.entries);
        let ghost before = entries@;
        let prior = match Self::find(&entries, &key) {
            Some(i) => {
                proof {
                    lemma_entry(before, i as int);
                    lemma_remove(before, i as int);
                }
                let old_pair = entries.remove(i);
                proof {
                    assert(!holds(entries@, key@)) by {
                        assert(!to_map(entries@).contains_key(key@));
                    }
                    lemma_push(entries@, key, value);
                    assert(to_map(before).remove(key@).insert(key@, value@) =~= to_map(
                        before,
                    ).insert(key@, value@));
                }
                entries.push((key, value));
                Some(old_pair.1)
            },
            None => {
                proof {
                    lemma_push(before, key, value);
                }
                entries.push((key, value));
                None
            },
        };
        self.entries = entries;
        prior
    }

    /// Takes the value of `key` out of the map, where it has one.
    pub fn remove(&mut self, key: &K) -> (taken: Option<V>)
        ensures
            final(self)@ == old(self)@.remove(key@),
            match taken {
                Some(v) => old(self)@.contains_key(key@) && v@ == old(self)@[key@],
                None => !old(self)@.contains_key(key@),
            },
    {
        proof {
            use_type_invariant(&*self);
        }
        let mut entries: Vec<(K, V)> = Vec::new();
        std::mem::swap(&mut entries, &mut self.entries);
        let ghost before = entries@;
        let taken = match Self::find(&entries, key) {
            Some(i) => {
                proof {
                    lemma_entry(before, i as int);
                    lemma_remove(before, i as int);
                }
                let pair = entries.remove(i);
                Some(pair.1)
            },
            None => {
                assert(to_map(before).remove(key@) =~= to_map(before));
                None
            },
        };
        self.entries = entries;
        taken
    }
}

/// The map that a list of pairs gives when its pairs are entered one after
/// the other, from the last to the first: of two pairs with one key, the
/// earlier one stays.
pub open spec fn collect<K: Key, V: View>(s: Seq<(K, V)>) -> Map<K::V, V::V>
    decreases s.len(),
{
    if s.len() == 0 {
        Map::empty()
    } else {
        collect(s.drop_first()).insert(s[0].0@, s[0].1@)
    }
}

/// A list without two pairs of one key gives the map that it stands for.
pub proof fn lemma_collect_distinct<K: Key, V: View>(s: Seq<(K, V)>)
    requires
        unique(s),
    ensures
        collect(s) == to_map(s),
    decreases s.len(),
{
    if s.len() == 0 {
        assert(to_map(s) =~= Map::<K::V, V::V>::empty());
    } else {
        let rest = s.drop_first();
        assert forall|a: int| 0 <= a < rest.len() implies #[trigger] key_at(rest, a) == key_at(
            s,
            a + 1,
        ) by {}
        assert forall|a: int, b: int| 0 <= a < b < rest.len() implies #[trigger] key_at(rest, a)
            != #[trigger] key_at(rest, b) by {
            assert(key_at(s, a + 1) != key_at(s, b + 1));
        }
        lemma_collect_distinct(rest);
        lemma_remove(s, 0);
        assert(rest =~= s.remove(0));
        lemma_entry(s, 0);
        assert(to_map(s).remove(key_at(s, 0)).insert(s[0].0@, s[0].1@) =~= to_map(s));
    }
}

impl<K: Key, V: View> AssocMap<K, V> {
    /// The map that `entries` gives, entered from the last pair to the
    /// first.
    pub fn from_entries(entries: Vec<(K, V)>) -> (m: Self)
        ensures
            m@ == collect(entries@),
    {
        let ghost all = entries@;
        let mut entries = entries;
        let mut m = Self::new();
        assert(all.skip(all.len() as int) =~= Seq::<(K, V)>::empty());
        while entries.len() > 0
            invariant
                entries@ == all.take(entries.len() as int),
                entries.len() <= all.len(),
                m@ == collect(all.skip(entries.len() as int)),
            decreases entries.len(),
        {
            let ghost n = entries.len() as int;
            match entries.pop() {
                None => {},
                Some(pair) => {
                    proof {
                        assert(pair == all[n - 1]);
                        assert(all.skip(n - 1).drop_first() =~= all.skip(n));
                        assert(all.skip(n - 1)[0] == all[n - 1]);
                        assert(entries@ =~= all.take(n - 1));
                    }
                    let _ = m.insert(pair.0, pair.1);
                },
            }
        }
        assert(all.skip(0) =~= all);
        m
    }

    /// The pairs of the map, in no order that callers may rely on: no key
    /// occurs in two of them, and together they stand for the map.
    pub fn into_entries(self) -> (entries: Vec<(K, V)>)
        ensures
            unique(entries@),
            to_map(entries@) == self@,
            collect(entries@) == self@,
    {
        proof {
            use_type_invariant(&self);
            lemma_collect_distinct(self.entries@);
        }
        self.entries
    }
}

} // verus!
