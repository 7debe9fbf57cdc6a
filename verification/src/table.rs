//! A map from strings to values.
//!
//! [`StrMap`] keeps its entries in a vector with pairwise distinct keys. Its
//! view is the mathematical map from key texts to values.

use crate::debug_text::{then, DebugText};
use crate::replica::Replica;
use crate::text::{
    comes_before, is_listed, lemma_precedes_total, lemma_precedes_transitive, listed, precedes,
    same_text,
};
use vstd::prelude::*;

verus! {

/// Whether some entry of `s` has the key `k`.
pub open spec fn has_key<V>(s: Seq<(String, V)>, k: Seq<char>) -> bool {
    exists|i: int| 0 <= i < s.len() && (#[trigger] s[i]).0@ == k
}

/// The position of an entry of `s` with the key `k`.
pub open spec fn key_index<V>(s: Seq<(String, V)>, k: Seq<char>) -> int {
    choose|i: int| 0 <= i < s.len() && (#[trigger] s[i]).0@ == k
}

/// No two entries of `s` have the same key.
pub open spec fn distinct_keys<V>(s: Seq<(String, V)>) -> bool {
    forall|i: int, j: int|
        0 <= i < j < s.len() ==> (#[trigger] s[i]).0@ != (#[trigger] s[j]).0@
}

/// The map that the entries `s` stand for.
pub open spec fn map_of<V>(s: Seq<(String, V)>) -> Map<Seq<char>, V> {
    Map::new(|k: Seq<char>| has_key(s, k), |k: Seq<char>| s[key_index(s, k)].1)
}

/// An entry of a sequence with distinct keys is what the map holds at its key.
pub proof fn lemma_map_of_index<V>(s: Seq<(String, V)>, i: int)
    requires
        distinct_keys(s),
        0 <= i < s.len(),
    ensures
        map_of(s).contains_key(s[i].0@),
        map_of(s)[s[i].0@] == s[i].1,
{
    let k = s[i].0@;
    assert(has_key(s, k));
    let j = key_index(s, k);
    assert(0 <= j < s.len() && s[j].0@ == k);
    assert(i == j);
}

/// Appending an entry under a fresh key inserts it into the map.
pub proof fn lemma_map_of_push<V>(s: Seq<(String, V)>, key: String, value: V)
    requires
        distinct_keys(s),
        !has_key(s, key@),
    ensures
        distinct_keys(s.push((key, value))),
        map_of(s.push((key, value))) == map_of(s).insert(key@, value),
{
    let t = s.push((key, value));
    assert forall|i: int, j: int| 0 <= i < j < t.len() implies (#[trigger] t[i]).0@ != (
    #[trigger] t[j]).0@ by {
        if j == s.len() {
            assert(s[i] == t[i]);
        } else {
            assert(s[i] == t[i]);
            assert(s[j] == t[j]);
        }
    }
    assert forall|k: Seq<char>| #[trigger] map_of(t).contains_key(k) == map_of(s).insert(
        key@,
        value,
    ).contains_key(k) by {
        if has_key(s, k) {
            let i = key_index(s, k);
            assert(t[i].0@ == k);
            assert(has_key(t, k));
        }
        if k == key@ {
            assert(t[s.len() as int].0@ == k);
            assert(has_key(t, k));
        }
        if has_key(t, k) {
            let i = key_index(t, k);
            if i < s.len() {
                assert(s[i].0@ == k);
                assert(has_key(s, k));
            }
        }
    }
    assert forall|k: Seq<char>| #[trigger] map_of(t).contains_key(k) implies map_of(t)[k]
        == map_of(s).insert(key@, value)[k] by {
        let i = key_index(t, k);
        assert(0 <= i < t.len() && t[i].0@ == k);
        if i < s.len() {
            assert(s[i] == t[i]);
            lemma_map_of_index(s, i);
        }
    }
    assert(map_of(t) =~= map_of(s).insert(key@, value));
}

/// Putting an entry under a fresh key anywhere among the others inserts it into the
/// map.
pub proof fn lemma_map_of_insert<V>(s: Seq<(String, V)>, at: int, key: String, value: V)
    requires
        distinct_keys(s),
        !has_key(s, key@),
        0 <= at <= s.len(),
    ensures
        distinct_keys(s.insert(at, (key, value))),
        map_of(s.insert(at, (key, value))) == map_of(s).insert(key@, value),
{
    let t = s.insert(at, (key, value));
    assert forall|a: int| 0 <= a < t.len() && a != at implies #[trigger] t[a] == s[if a < at {
        a
    } else {
        a - 1
    }] by {}
    assert forall|i: int, j: int| 0 <= i < j < t.len() implies (#[trigger] t[i]).0@ != (
    #[trigger] t[j]).0@ by {
        let a = if i < at {
            i
        } else {
            i - 1
        };
        let b = if j < at {
            j
        } else {
            j - 1
        };
        if i == at {
            assert(s[b].0@ != key@);
        } else if j == at {
            assert(s[a].0@ != key@);
        } else {
            assert(s[a].0@ != s[b].0@);
        }
    }
    assert(map_of(t).contains_key(key@) && map_of(t)[key@] == value) by {
        lemma_map_of_index(t, at);
    }
    assert forall|k: Seq<char>| k != key@ implies #[trigger] map_of(t).contains_key(k) == map_of(
        s,
    ).contains_key(k) by {
        if has_key(t, k) {
            let i = key_index(t, k);
            let a = if i < at {
                i
            } else {
                i - 1
            };
            assert(s[a].0@ == k);
        }
        if has_key(s, k) {
            let a = key_index(s, k);
            let i = if a < at {
                a
            } else {
                a + 1
            };
            assert(t[i].0@ == k);
        }
    }
    assert forall|k: Seq<char>| k != key@ && #[trigger] map_of(s).contains_key(k) implies map_of(
        t,
    )[k] == map_of(s)[k] by {
        let a = key_index(s, k);
        let i = if a < at {
            a
        } else {
            a + 1
        };
        lemma_map_of_index(t, i);
        lemma_map_of_index(s, a);
    }
    assert(map_of(t) =~= map_of(s).insert(key@, value));
}

/// Whether the keys of the entries `s` strictly ascend.
pub open spec fn ascending<V>(s: Seq<(String, V)>) -> bool {
    forall|i: int, j: int|
        0 <= i < j < s.len() ==> precedes((#[trigger] s[i]).0@, (#[trigger] s[j]).0@)
}

/// The last of entries with distinct keys has a key that the others have not.
pub proof fn lemma_fresh_last<V>(s: Seq<(String, V)>, key: String, value: V)
    requires
        distinct_keys(s.push((key, value))),
    ensures
        distinct_keys(s),
        !has_key(s, key@),
{
    let full = s.push((key, value));
    if has_key(s, key@) {
        let i = key_index(s, key@);
        assert(full[i].0@ == key@);
        assert(full[s.len() as int].0@ == key@);
    }
    assert forall|i: int, j: int| 0 <= i < j < s.len() implies (#[trigger] s[i]).0@ != (
    #[trigger] s[j]).0@ by {
        assert(full[i] == s[i]);
        assert(full[j] == s[j]);
    }
}

/// Removing the entry at `i` removes its key from the map.
pub proof fn lemma_map_of_remove<V>(s: Seq<(String, V)>, i: int)
    requires
        distinct_keys(s),
        0 <= i < s.len(),
    ensures
        distinct_keys(s.remove(i)),
        !has_key(s.remove(i), s[i].0@),
        map_of(s.remove(i)) == map_of(s).remove(s[i].0@),
{
    let t = s.remove(i);
    assert forall|a: int| 0 <= a < t.len() implies #[trigger] t[a] == s[if a < i {
        a
    } else {
        a + 1
    }] by {}
    assert forall|a: int, b: int| 0 <= a < b < t.len() implies (#[trigger] t[a]).0@ != (
    #[trigger] t[b]).0@ by {}
    assert forall|k: Seq<char>| #[trigger] map_of(t).contains_key(k) == map_of(s).remove(
        s[i].0@,
    ).contains_key(k) by {
        if has_key(t, k) {
            let a = key_index(t, k);
            let b = if a < i {
                a
            } else {
                a + 1
            };
            assert(s[b].0@ == k);
            assert(has_key(s, k));
        }
        if has_key(s, k) && k != s[i].0@ {
            let b = key_index(s, k);
            let a = if b < i {
                b
            } else {
                b - 1
            };
            assert(t[a] == s[b]);
            assert(has_key(t, k));
        }
    }
    assert forall|k: Seq<char>| #[trigger] map_of(t).contains_key(k) implies map_of(t)[k]
        == map_of(s)[k] by {
        let a = key_index(t, k);
        assert(0 <= a < t.len() && t[a].0@ == k);
        lemma_map_of_index(
            s,
            if a < i {
                a
            } else {
                a + 1
            },
        );
    }
    assert(map_of(t) =~= map_of(s).remove(s[i].0@));
}

/// Finitely many keys occur in a finite sequence of entries.
pub proof fn lemma_map_of_finite<V>(s: Seq<(String, V)>)
    ensures
        map_of(s).dom().finite(),
    decreases s.len(),
{
    if s.len() == 0 {
        assert forall|k: Seq<char>| !has_key(s, k) by {}
        assert(map_of(s).dom() =~= Set::<Seq<char>>::empty());
    } else {
        let front = s.drop_last();
        lemma_map_of_finite(front);
        let last = s.last().0@;
        assert(map_of(s).dom() =~= map_of(front).dom().insert(last)) by {
            assert forall|k: Seq<char>| #[trigger] map_of(s).dom().contains(k) == map_of(
                front,
            ).dom().insert(last).contains(k) by {
                if has_key(s, k) {
                    let i = key_index(s, k);
                    if i < front.len() {
                        assert(front[i].0@ == k);
                        assert(has_key(front, k));
                    }
                }
                if has_key(front, k) {
                    let i = key_index(front, k);
                    assert(s[i].0@ == k);
                }
                if k == last {
                    assert(s[s.len() - 1].0@ == k);
                }
            }
        }
    }
}

/// A map from strings to values.
#[derive(Debug)]
pub struct StrMap<V> {
    entries: Vec<(String, V)>,
}

impl<V> View for StrMap<V> {
    type V = Map<Seq<char>, V>;

    closed spec fn view(&self) -> Map<Seq<char>, V> {
        map_of(self.entries@)
    }
}

impl<V> StrMap<V> {
    #[verifier::type_invariant]
    spec fn well_formed(self) -> bool {
        distinct_keys(self.entries@)
    }

    /// The entries in the order in which they are held.
    pub closed spec fn in_order(self) -> Seq<(String, V)> {
        self.entries@
    }

    /// The entries that are held are those of the map.
    pub proof fn lemma_in_order(self)
        ensures
            map_of(self.in_order()) == self@,
    {
    }

    /// The number of entries.
    pub closed spec fn count(self) -> nat {
        self.entries@.len()
    }

    /// A map has finitely many keys.
    pub proof fn lemma_finite(self)
        ensures
            self@.dom().finite(),
    {
        lemma_map_of_finite(self.entries@);
    }

    /// The empty map.
    pub fn new() -> (r: Self)
        ensures
            r@ == Map::<Seq<char>, V>::empty(),
            r.count() == 0,
    {
        let r = StrMap { entries: Vec::new() };
        proof {
            assert forall|k: Seq<char>| !has_key(r.entries@, k) by {}
            assert(map_of(r.entries@) =~= Map::<Seq<char>, V>::empty());
        }
        r
    }

    /// The number of entries.
    pub fn len(&self) -> (r: usize)
        ensures
            r == self.count(),
    {
        self.entries.len()
    }

    /// Whether the map has no entry.
    pub fn is_empty(&self) -> (r: bool)
        ensures
            r == (self.count() == 0),
            r == (self@ == Map::<Seq<char>, V>::empty()),
    {
        proof {
            use_type_invariant(self);
            if self.entries@.len() == 0 {
                assert forall|k: Seq<char>| !has_key(self.entries@, k) by {}
                assert(self@ =~= Map::<Seq<char>, V>::empty());
            } else {
                lemma_map_of_index(self.entries@, 0);
                assert(self@.contains_key(self.entries@[0].0@));
            }
        }
        self.entries.len() == 0
    }

    /// The position of `key` among the entries.
    fn position(entries: &Vec<(String, V)>, key: &str) -> (r: Option<usize>)
        ensures
            match r {
                Some(i) => i < entries@.len() && entries@[i as int].0@ == key@,
                None => !has_key(entries@, key@),
            },
    {
        let mut i: usize = 0;
        while i < entries.len()
            invariant
                i <= entries.len(),
                forall|j: int| 0 <= j < i ==> (#[trigger] entries@[j]).0@ != key@,
            decreases entries.len() - i,
        {
            if same_text(entries[i].0.as_str(), key) {
                return Some(i);
            }
            i = i + 1;
        }
        None
    }

    /// The value at `key`, if the map has it.
    pub fn get(&self, key: &str) -> (r: Option<&V>)
        ensures
            match r {
                Some(v) => self@.contains_key(key@) && *v == self@[key@],
                None => !self@.contains_key(key@),
            },
    {
        proof {
            use_type_invariant(self);
        }
        match Self::position(&self.entries, key) {
            Some(i) => {
                proof {
                    lemma_map_of_index(self.entries@, i as int);
                }
                Some(&self.entries[i].1)
            },
            None => None,
        }
    }

    /// Whether the map has `key`.
    pub fn contains_key(&self, key: &str) -> (r: bool)
        ensures
            r == self@.contains_key(key@),
    {
        proof {
            use_type_invariant(self);
        }
        match Self::position(&self.entries, key) {
            Some(i) => {
                proof {
                    lemma_map_of_index(self.entries@, i as int);
                }
                true
            },
            None => false,
        }
    }

    /// Puts `value` at `key` and returns what was there before.
    pub fn insert(&mut self, key: String, value: V) -> (r: Option<V>)
        ensures
            final(self)@ == old(self)@.insert(key@, value),
            match r {
                Some(v) => old(self)@.contains_key(key@) && v == old(self)@[key@],
                None => !old(self)@.contains_key(key@),
            },
    {
        let before = self.remove(key.as_str());
        let mut entries: Vec<(String, V)> = Vec::new();
        proof {
            use_type_invariant(&*self);
            assert(!self@.contains_key(key@));
            assert(!has_key(self.entries@, key@));
        }
        std::mem::swap(&mut entries, &mut self.entries);
        proof {
            lemma_map_of_push(entries@, key, value);
            assert(old(self)@.remove(key@).insert(key@, value) =~= old(self)@.insert(key@, value));
        }
        entries.push((key, value));
        self.entries = entries;
        before
    }

    /// Takes the entry at `key` out of the map.
    pub fn remove(&mut self, key: &str) -> (r: Option<V>)
        ensures
            final(self)@ == old(self)@.remove(key@),
            match r {
                Some(v) => old(self)@.contains_key(key@) && v == old(self)@[key@],
                None => !old(self)@.contains_key(key@),
            },
    {
        proof {
            use_type_invariant(&*self);
        }
        let found = Self::position(&self.entries, key);
        match found {
            Some(i) => {
                let mut entries: Vec<(String, V)> = Vec::new();
                std::mem::swap(&mut entries, &mut self.entries);
                proof {
                    lemma_map_of_index(entries@, i as int);
                    lemma_map_of_remove(entries@, i as int);
                }
                let taken = entries.remove(i);
                self.entries = entries;
                Some(taken.1)
            },
            None => {
                proof {
                    assert(self@.remove(key@) =~= self@);
                }
                None
            },
        }
    }

    /// The entries, in no particular order.
    pub fn entries(&self) -> (r: &Vec<(String, V)>)
        ensures
            r@ == self.in_order(),
            distinct_keys(r@),
            map_of(r@) == self@,
            r@.len() == self.count(),
    {
        proof {
            use_type_invariant(self);
        }
        &self.entries
    }

    /// The entries, in no particular order.
    pub fn into_entries(self) -> (r: Vec<(String, V)>)
        ensures
            distinct_keys(r@),
            map_of(r@) == self@,
            r@.len() == self.count(),
    {
        proof {
            use_type_invariant(&self);
        }
        self.entries
    }

    /// The entries in ascending order of their keys.
    pub fn into_sorted_entries(self) -> (r: Vec<(String, V)>)
        ensures
            ascending(r@),
            distinct_keys(r@),
            map_of(r@) == self@,
            r@.len() == self.count(),
    {
        let ghost goal = self@;
        let ghost total = self.count();
        let mut pairs = self.into_entries();
        let mut out: Vec<(String, V)> = Vec::new();
        proof {
            assert forall|k: Seq<char>| !has_key(out@, k) by {}
            assert(map_of(out@).union_prefer_right(map_of(pairs@)) =~= goal);
        }
        while pairs.len() > 0
            invariant
                distinct_keys(pairs@),
                distinct_keys(out@),
                ascending(out@),
                out@.len() + pairs@.len() == total,
                forall|k: Seq<char>| has_key(out@, k) ==> !has_key(pairs@, k),
                map_of(out@).union_prefer_right(map_of(pairs@)) == goal,
            decreases pairs@.len(),
        {
            let ghost full = pairs@;
            let ghost before = out@;
            let (key, value) = pairs.pop().unwrap();
            let ghost k = key@;
            proof {
                assert(full == pairs@.push((key, value)));
                lemma_fresh_last(pairs@, key, value);
                lemma_map_of_push(pairs@, key, value);
                assert(full[full.len() - 1].0@ == k);
                assert(has_key(full, k));
                assert(!has_key(before, k));
            }
            let mut at: usize = 0;
            while at < out.len() && comes_before(out[at].0.as_str(), key.as_str())
                invariant
                    at <= out@.len(),
                    forall|j: int| 0 <= j < at ==> precedes((#[trigger] out@[j]).0@, key@),
                decreases out.len() - at,
            {
                at = at + 1;
            }
            proof {
                lemma_map_of_insert(before, at as int, key, value);
                let after = before.insert(at as int, (key, value));
                assert forall|i: int, j: int| 0 <= i < j < after.len() implies precedes(
                    (#[trigger] after[i]).0@,
                    (#[trigger] after[j]).0@,
                ) by {
                    let a = if i < at {
                        i
                    } else {
                        i - 1
                    };
                    let b = if j < at {
                        j
                    } else {
                        j - 1
                    };
                    if i == at {
                        assert(before[b].0@ != k);
                        lemma_precedes_total(before[at as int].0@, k);
                        if b > at {
                            assert(precedes(before[at as int].0@, before[b].0@));
                            lemma_precedes_transitive(k, before[at as int].0@, before[b].0@);
                        }
                    } else if j == at {
                        assert(precedes(before[a].0@, k));
                    } else {
                        assert(precedes(before[a].0@, before[b].0@));
                    }
                }
            }
            out.insert(at, (key, value));
            proof {
                let rest = map_of(pairs@);
                assert(!rest.contains_key(k));
                assert(map_of(before).insert(k, value).union_prefer_right(rest)
                    =~= map_of(before).union_prefer_right(map_of(full)));
                assert forall|n: Seq<char>| has_key(out@, n) implies !has_key(pairs@, n) by {
                    assert(map_of(out@).contains_key(n));
                    if n != k {
                        assert(map_of(before).contains_key(n));
                        assert(!has_key(full, n));
                        if has_key(pairs@, n) {
                            let i = key_index(pairs@, n);
                            assert(full[i].0@ == n);
                        }
                    }
                }
            }
        }
        proof {
            assert forall|k: Seq<char>| !has_key(pairs@, k) by {}
            assert(map_of(out@).union_prefer_right(map_of(pairs@)) =~= map_of(out@));
        }
        out
    }

    /// Adds every entry of `other`; on a shared key the value of `other` stays.
    pub fn extend(&mut self, other: StrMap<V>)
        ensures
            final(self)@ == old(self)@.union_prefer_right(other@),
    {
        let mut pairs = other.into_entries();
        let ghost goal = old(self)@.union_prefer_right(other@);
        while pairs.len() > 0
            invariant
                distinct_keys(pairs@),
                self@.union_prefer_right(map_of(pairs@)) == goal,
            decreases pairs@.len(),
        {
            let ghost full = pairs@;
            let ghost before = self@;
            let (key, value) = pairs.pop().unwrap();
            let ghost k = key@;
            proof {
                assert(full == pairs@.push((key, value)));
                lemma_fresh_last(pairs@, key, value);
                lemma_map_of_push(pairs@, key, value);
            }
            self.insert(key, value);
            proof {
                assert(before.insert(k, value).union_prefer_right(map_of(pairs@))
                    =~= before.union_prefer_right(map_of(full)));
            }
        }
        proof {
            assert forall|k: Seq<char>| !has_key(pairs@, k) by {}
            assert(self@.union_prefer_right(map_of(pairs@)) =~= self@);
        }
    }
}

/// The texts that a map of strings holds.
pub open spec fn texts_in(m: Map<Seq<char>, String>) -> Map<Seq<char>, Seq<char>> {
    m.map_values(|s: String| s@)
}

/// The entries of `m` whose keys `names` has.
pub open spec fn kept<V>(m: Map<Seq<char>, V>, names: Seq<String>) -> Map<Seq<char>, V> {
    m.restrict(Set::new(|k: Seq<char>| listed(names, k)))
}

impl<V> StrMap<V> {
    /// The entries whose keys `names` has.
    pub fn keep_listed(self, names: &Vec<String>) -> (r: Self)
        ensures
            r@ == kept(self@, names@),
    {
        let ghost goal = kept(self@, names@);
        let mut pairs = self.into_entries();
        let mut out: StrMap<V> = StrMap::new();
        proof {
            assert(out@.union_prefer_right(kept(map_of(pairs@), names@)) =~= goal);
        }
        while pairs.len() > 0
            invariant
                distinct_keys(pairs@),
                out@.union_prefer_right(kept(map_of(pairs@), names@)) == goal,
            decreases pairs@.len(),
        {
            let ghost full = pairs@;
            let ghost before = out@;
            let (key, value) = pairs.pop().unwrap();
            let ghost k = key@;
            proof {
                assert(full == pairs@.push((key, value)));
                lemma_fresh_last(pairs@, key, value);
                lemma_map_of_push(pairs@, key, value);
            }
            if is_listed(names, key.as_str()) {
                out.insert(key, value);
                proof {
                    assert(out@.union_prefer_right(kept(map_of(pairs@), names@))
                        =~= before.union_prefer_right(kept(map_of(full), names@)));
                }
            } else {
                proof {
                    assert(kept(map_of(pairs@), names@) =~= kept(map_of(full), names@));
                }
            }
        }
        proof {
            assert forall|k: Seq<char>| !has_key(pairs@, k) by {}
            assert(out@.union_prefer_right(kept(map_of(pairs@), names@)) =~= out@);
        }
        out
    }
}

impl<V> Default for StrMap<V> {
    fn default() -> (r: Self)
        ensures
            r@ == Map::<Seq<char>, V>::empty(),
            r.count() == 0,
    {
        StrMap::new()
    }
}

impl<V: Replica> Replica for StrMap<V> {
    open spec fn same(self, other: Self) -> bool {
        &&& self@.dom() == other@.dom()
        &&& forall|k: Seq<char>|
            self@.contains_key(k) ==> (#[trigger] self@[k]).same(other@[k])
    }

    fn replicate(&self) -> (r: Self) {
        let entries = self.entries();
        let mut out: StrMap<V> = StrMap::new();
        let mut i: usize = 0;
        while i < entries.len()
            invariant
                i <= entries.len(),
                distinct_keys(entries@),
                forall|k: Seq<char>|
                    #![trigger out@.contains_key(k)]
                    out@.contains_key(k) <==> has_key(entries@.take(i as int), k),
                forall|j: int|
                    0 <= j < i ==> (#[trigger] entries@[j]).1.same(out@[entries@[j].0@]),
            decreases entries.len() - i,
        {
            let ghost before = out@;
            let ghost n = i as int;
            out.insert(entries[i].0.clone(), entries[i].1.replicate());
            proof {
                let key = entries@[n].0@;
                assert(entries@.take(n + 1) =~= entries@.take(n).push(entries@[n]));
                assert forall|k: Seq<char>|
                    #![trigger out@.contains_key(k)]
                    out@.contains_key(k) <==> has_key(entries@.take(n + 1), k) by {
                    if has_key(entries@.take(n), k) {
                        let j = key_index(entries@.take(n), k);
                        assert(entries@.take(n + 1)[j].0@ == k);
                    }
                    if k == key {
                        assert(entries@.take(n + 1)[n].0@ == k);
                    }
                    if has_key(entries@.take(n + 1), k) {
                        let j = key_index(entries@.take(n + 1), k);
                        if j < n {
                            assert(entries@.take(n)[j].0@ == k);
                            assert(has_key(entries@.take(n), k));
                        }
                        assert(before.contains_key(k) || k == key);
                    }
                    assert(before.contains_key(k) <==> has_key(entries@.take(n), k));
                }
            }
            i = i + 1;
        }
        proof {
            assert(entries@.take(entries@.len() as int) =~= entries@);
            assert(self@.dom() =~= out@.dom());
            assert forall|k: Seq<char>| self@.contains_key(k) implies (#[trigger] self@[k]).same(
                out@[k],
            ) by {
                let j = key_index(entries@, k);
                lemma_map_of_index(entries@, j);
            }
        }
        out
    }

    fn agrees(&self, other: &Self) -> (b: bool) {
        let mine = self.entries();
        let theirs = other.entries();
        let mut i: usize = 0;
        while i < mine.len()
            invariant
                i <= mine.len(),
                distinct_keys(mine@),
                map_of(mine@) == self@,
                forall|j: int|
                    0 <= j < i ==> other@.contains_key((#[trigger] mine@[j]).0@)
                        && mine@[j].1.same(other@[mine@[j].0@]),
            decreases mine.len() - i,
        {
            proof {
                lemma_map_of_index(mine@, i as int);
            }
            match other.get(mine[i].0.as_str()) {
                Some(v) => {
                    if !mine[i].1.agrees(v) {
                        return false;
                    }
                },
                None => {
                    proof {
                        assert(self@.dom().contains(mine@[i as int].0@));
                        assert(!other@.dom().contains(mine@[i as int].0@));
                    }
                    return false;
                },
            }
            i = i + 1;
        }
        let mut n: usize = 0;
        while n < theirs.len()
            invariant
                n <= theirs.len(),
                distinct_keys(theirs@),
                map_of(theirs@) == other@,
                forall|j: int| 0 <= j < n ==> self@.contains_key((#[trigger] theirs@[j]).0@),
            decreases theirs.len() - n,
        {
            if !self.contains_key(theirs[n].0.as_str()) {
                proof {
                    lemma_map_of_index(theirs@, n as int);
                    assert(other@.dom().contains(theirs@[n as int].0@));
                    assert(!self@.dom().contains(theirs@[n as int].0@));
                }
                return false;
            }
            n = n + 1;
        }
        proof {
            assert forall|k: Seq<char>| self@.dom().contains(k) == other@.dom().contains(k) by {
                if self@.contains_key(k) {
                    let j = key_index(mine@, k);
                    assert(mine@[j].0@ == k);
                }
                if other@.contains_key(k) {
                    let j = key_index(theirs@, k);
                    assert(theirs@[j].0@ == k);
                }
            }
            assert(self@.dom() =~= other@.dom());
            assert forall|k: Seq<char>| self@.contains_key(k) implies (#[trigger] self@[k]).same(
                other@[k],
            ) by {
                let j = key_index(mine@, k);
                assert(mine@[j].0@ == k);
                lemma_map_of_index(mine@, j);
            }
        }
        true
    }

    proof fn same_as_itself(self) {
        assert forall|k: Seq<char>| self@.contains_key(k) implies (#[trigger] self@[k]).same(
            self@[k],
        ) by {
            self@[k].same_as_itself();
        }
    }

    proof fn same_through(self, middle: Self, other: Self) {
        assert forall|k: Seq<char>| self@.contains_key(k) implies (#[trigger] self@[k]).same(
            other@[k],
        ) by {
            assert(self@.dom().contains(k));
            assert(middle@.contains_key(k));
            assert(self@[k].same(middle@[k]));
            assert(middle@[k].same(other@[k]));
            self@[k].same_through(middle@[k], other@[k]);
        }
    }
}

impl<V: Replica> Clone for StrMap<V> {
    fn clone(&self) -> (r: Self)
        ensures
            self.same(r),
    {
        self.replicate()
    }
}

/// The entries of a map, with commas between them.
pub open spec fn entries_shown<V: DebugText>(entries: Seq<(String, V)>) -> Seq<char>
    decreases entries.len(),
{
    if entries.len() == 0 {
        Seq::empty()
    } else if entries.len() == 1 {
        entries[0].0.shown() + ": "@ + entries[0].1.shown()
    } else {
        entries_shown(entries.drop_last()) + ", "@ + (entries.last().0.shown() + ": "@
            + entries.last().1.shown())
    }
}

impl<V: DebugText> DebugText for StrMap<V> {
    open spec fn shown(self) -> Seq<char> {
        "{"@ + entries_shown(self.in_order()) + "}"@
    }

    fn debug_text(&self) -> (r: String)
        ensures
            distinct_keys(self.in_order()),
            map_of(self.in_order()) == self@,
    {
        proof {
            use_type_invariant(self);
        }
        let mut out = String::new();
        let mut i: usize = 0;
        let ghost all = self.entries@;
        proof {
            assert(all.take(0) =~= Seq::empty());
        }
        while i < self.entries.len()
            invariant
                i <= all.len(),
                all == self.entries@,
                out@ == entries_shown(all.take(i as int)),
            decreases self.entries.len() - i,
        {
            proof {
                let next = all.take(i as int + 1);
                assert(next.drop_last() =~= all.take(i as int));
                assert(next.last() == all[i as int]);
            }
            let head = then(self.entries[i].0.debug_text(), ": ");
            let entry = then(head, self.entries[i].1.debug_text().as_str());
            if i == 0 {
                out = entry;
            } else {
                out = then(then(out, ", "), entry.as_str());
            }
            i = i + 1;
        }
        proof {
            assert(all.take(all.len() as int) =~= all);
        }
        then(then("{".to_owned(), out.as_str()), "}")
    }
}

/// What is shown of a map is made of its entries: for some row of entries that holds just what
/// the map holds, it is their text between braces.
pub proof fn law_map_shows_its_entries<V: DebugText>(m: StrMap<V>)
    ensures
        exists|e: Seq<(String, V)>|
            map_of(e) == m@ && m.shown() == "{"@ + #[trigger] entries_shown(e) + "}"@,
{
    m.lemma_in_order();
    assert(m.shown() == "{"@ + entries_shown(m.in_order()) + "}"@);
}

} // verus!
