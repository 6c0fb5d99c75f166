//! A string-keyed map backed by a vector of pairs, with a mathematical
//! `Map<Seq<char>, _>` view. It stands in for the hash maps the orchestrator
//! keeps per task name, per environment variable, and per lockfile entry:
//! a hasher keyed by `String` gives the verifier no model to reason over,
//! while this map's view is exact.

use vstd::prelude::*;

verus! {

/// The map described by an association list: later pairs win.
pub open spec fn assoc_map<V: DeepView>(s: Seq<(String, V)>) -> Map<Seq<char>, V::V>
    decreases s.len(),
{
    if s.len() == 0 {
        Map::empty()
    } else {
        assoc_map(s.drop_last()).insert(s.last().0@, s.last().1.deep_view())
    }
}

/// No two pairs share a key.
pub open spec fn distinct_keys<V>(s: Seq<(String, V)>) -> bool {
    forall|i: int, j: int| 0 <= i < j < s.len() ==> s[i].0@ != s[j].0@
}

/// A key is in the map exactly when some pair holds it.
pub proof fn lemma_assoc_map_contains<V: DeepView>(s: Seq<(String, V)>, k: Seq<char>)
    ensures
        assoc_map(s).contains_key(k) <==> exists|i: int| 0 <= i < s.len() && s[i].0@ == k,
    decreases s.len(),
{
    if s.len() > 0 {
        lemma_assoc_map_contains(s.drop_last(), k);
        if s.last().0@ == k {
            assert(s[s.len() - 1].0@ == k);
        } else {
            if assoc_map(s).contains_key(k) {
                let i = choose|i: int| 0 <= i < s.drop_last().len() && s.drop_last()[i].0@ == k;
                assert(s[i].0@ == k);
            }
            if exists|i: int| 0 <= i < s.len() && s[i].0@ == k {
                let i = choose|i: int| 0 <= i < s.len() && s[i].0@ == k;
                assert(s.drop_last()[i].0@ == k);
            }
        }
    }
}

/// With distinct keys, each pair's key maps to that pair's value.
pub proof fn lemma_assoc_map_index<V: DeepView>(s: Seq<(String, V)>, i: int)
    requires
        distinct_keys(s),
        0 <= i < s.len(),
    ensures
        assoc_map(s).contains_key(s[i].0@),
        assoc_map(s)[s[i].0@] == s[i].1.deep_view(),
    decreases s.len(),
{
    if i < s.len() - 1 {
        assert(distinct_keys(s.drop_last())) by {
            assert(forall|x: int, y: int|
                0 <= x < y < s.drop_last().len() ==> s.drop_last()[x].0@ == s[x].0@
                    && s.drop_last()[y].0@ == s[y].0@);
        }
        lemma_assoc_map_index(s.drop_last(), i);
        assert(s.drop_last()[i].0@ == s[i].0@);
        assert(s[i].0@ != s.last().0@);
    }
}

/// With distinct keys, the map has exactly one entry per pair.
pub proof fn lemma_assoc_map_dom_len<V: DeepView>(s: Seq<(String, V)>)
    requires
        distinct_keys(s),
    ensures
        assoc_map(s).dom().finite(),
        assoc_map(s).dom().len() == s.len(),
    decreases s.len(),
{
    if s.len() == 0 {
        assert(assoc_map(s).dom() =~= Set::<Seq<char>>::empty());
    } else {
        assert(distinct_keys(s.drop_last()));
        lemma_assoc_map_dom_len(s.drop_last());
        lemma_assoc_map_contains(s.drop_last(), s.last().0@);
        assert(!assoc_map(s.drop_last()).contains_key(s.last().0@)) by {
            if exists|i: int|
                0 <= i < s.drop_last().len() && s.drop_last()[i].0@ == s.last().0@ {
                let i = choose|i: int|
                    0 <= i < s.drop_last().len() && s.drop_last()[i].0@ == s.last().0@;
                assert(s[i].0@ == s[s.len() - 1].0@);
            }
        }
        assert(assoc_map(s).dom() =~= assoc_map(s.drop_last()).dom().insert(s.last().0@));
    }
}

/// Replacing one pair's value, keeping its key, inserts into the map.
pub proof fn lemma_assoc_map_set_value<V: DeepView>(s: Seq<(String, V)>, i: int, p: (String, V))
    requires
        distinct_keys(s),
        0 <= i < s.len(),
        p.0@ == s[i].0@,
    ensures
        assoc_map(s.update(i, p)) == assoc_map(s).insert(p.0@, p.1.deep_view()),
        distinct_keys(s.update(i, p)),
    decreases s.len(),
{
    let su = s.update(i, p);
    assert(distinct_keys(su)) by {
        assert(forall|j: int| 0 <= j < su.len() ==> #[trigger] su[j].0@ == s[j].0@);
    }
    if i == s.len() - 1 {
        assert(su.drop_last() =~= s.drop_last());
        assert(su.last() == p);
        assert(assoc_map(su) =~= assoc_map(s).insert(p.0@, p.1.deep_view()));
    } else {
        assert(distinct_keys(s.drop_last())) by {
            assert(forall|j: int|
                0 <= j < s.drop_last().len() ==> #[trigger] s.drop_last()[j].0@ == s[j].0@);
        }
        assert(s.drop_last()[i] == s[i]);
        lemma_assoc_map_set_value(s.drop_last(), i, p);
        assert(su.drop_last() =~= s.drop_last().update(i, p));
        assert(su.last() == s.last());
        assert(p.0@ != s.last().0@);
        assert(assoc_map(su) =~= assoc_map(s).insert(p.0@, p.1.deep_view()));
    }
}

/// A map from strings to values, with unique keys, viewed as a mathematical
/// map from character sequences to the values' deep views.
pub struct StringMap<V> {
    entries: Vec<(String, V)>,
}

impl<V: DeepView> View for StringMap<V> {
    type V = Map<Seq<char>, V::V>;

    closed spec fn view(&self) -> Map<Seq<char>, V::V> {
        assoc_map(self.entries@)
    }
}

impl<V> StringMap<V> {
    #[verifier::type_invariant]
    spec fn wf(self) -> bool {
        distinct_keys(self.entries@)
    }
}

impl<V: DeepView> StringMap<V> {
    /// The empty map.
    pub fn new() -> (r: Self)
        ensures
            r@ == Map::<Seq<char>, V::V>::empty(),
            r@.dom().len() == 0,
    {
        let r = StringMap { entries: Vec::new() };
        proof {
            lemma_assoc_map_dom_len(r.entries@);
        }
        r
    }

    /// How many keys the map holds.
    pub fn len(&self) -> (r: usize)
        ensures
            self@.dom().finite(),
            r == self@.dom().len(),
    {
        proof {
            use_type_invariant(&*self);
            lemma_assoc_map_dom_len(self.entries@);
        }
        self.entries.len()
    }

    /// Whether `key` is in the map.
    pub fn contains_key(&self, key: &String) -> (r: bool)
        ensures
            r == self@.contains_key(key@),
    {
        let n = self.entries.len();
        let mut i: usize = 0;
        while i < n
            invariant
                n == self.entries@.len(),
                0 <= i <= n,
                forall|j: int| 0 <= j < i ==> self.entries@[j].0@ != key@,
            decreases n - i,
        {
            if self.entries[i].0 == *key {
                proof {
                    lemma_assoc_map_contains(self.entries@, key@);
                    assert(self.entries@[i as int].0@ == key@);
                }
                return true;
            }
            i += 1;
        }
        proof {
            lemma_assoc_map_contains(self.entries@, key@);
        }
        false
    }

    /// The value stored under `key`, if any.
    pub fn get(&self, key: &String) -> (r: Option<&V>)
        ensures
            match r {
                Some(v) => self@.contains_key(key@) && v.deep_view() == self@[key@],
                None => !self@.contains_key(key@),
            },
    {
        proof {
            use_type_invariant(&*self);
        }
        let n = self.entries.len();
        let mut i: usize = 0;
        while i < n
            invariant
                n == self.entries@.len(),
                0 <= i <= n,
                forall|j: int| 0 <= j < i ==> self.entries@[j].0@ != key@,
                distinct_keys(self.entries@),
            decreases n - i,
        {
            if self.entries[i].0 == *key {
                proof {
                    lemma_assoc_map_index(self.entries@, i as int);
                }
                return Some(&self.entries[i].1);
            }
            i += 1;
        }
        proof {
            lemma_assoc_map_contains(self.entries@, key@);
        }
        None
    }

    /// Put `value` under `key`, replacing any previous value.
    pub fn insert(&mut self, key: String, value: V)
        ensures
            final(self)@ == old(self)@.insert(key@, value.deep_view()),
    {
        proof {
            use_type_invariant(&*self);
        }
        let ghost s0 = self.entries@;
        let mut entries: Vec<(String, V)> = Vec::new();
        core::mem::swap(&mut entries, &mut self.entries);
        let n = entries.len();
        let mut i: usize = 0;
        while i < n
            invariant
                n == entries@.len(),
                0 <= i <= n,
                forall|j: int| 0 <= j < i ==> entries@[j].0@ != key@,
                distinct_keys(entries@),
                entries@ == s0,
                s0 == old(self).entries@,
            decreases n - i,
        {
            if entries[i].0 == key {
                let ghost k0 = entries@[i as int].0;
                entries[i].1 = value;
                proof {
                    let s1 = entries@;
                    assert(k0@ == key@);
                    assert(s1 == s0.update(i as int, (k0, value)));
                    lemma_assoc_map_set_value(s0, i as int, (k0, value));
                    assert(old(self)@ == assoc_map(s0));
                    assert(assoc_map(s1) == old(self)@.insert(key@, value.deep_view()));
                }
                self.entries = entries;
                return ;
            }
            i += 1;
        }
        entries.push((key, value));
        proof {
            let s1 = entries@;
            assert(s1.drop_last() =~= s0);
            assert(distinct_keys(s1));
            assert(assoc_map(s1) == assoc_map(s0).insert(key@, value.deep_view()));
        }
        self.entries = entries;
    }

    /// The pairs the map holds, in storage order: the keys are distinct, each
    /// pair is in the map, and every key of the map appears.
    pub fn pairs(&self) -> (r: &Vec<(String, V)>)
        ensures
            distinct_keys(r@),
            r@.len() == self@.dom().len(),
            forall|i: int|
                0 <= i < r@.len() ==> self@.contains_key(#[trigger] r@[i].0@) && self@[r@[i].0@]
                    == r@[i].1.deep_view(),
            forall|k: Seq<char>|
                self@.contains_key(k) ==> exists|i: int| 0 <= i < r@.len() && r@[i].0@ == k,
    {
        proof {
            use_type_invariant(&*self);
            lemma_assoc_map_dom_len(self.entries@);
            assert forall|i: int| 0 <= i < self.entries@.len() implies self@.contains_key(
                #[trigger] self.entries@[i].0@,
            ) && self@[self.entries@[i].0@] == self.entries@[i].1.deep_view() by {
                lemma_assoc_map_index(self.entries@, i);
            }
            assert forall|k: Seq<char>| self@.contains_key(k) implies exists|i: int|
                0 <= i < self.entries@.len() && self.entries@[i].0@ == k by {
                lemma_assoc_map_contains(self.entries@, k);
            }
        }
        &self.entries
    }
}

impl StringMap<String> {
    /// An element-by-element copy with the same view.
    pub fn duplicate(&self) -> (r: Self)
        ensures
            r@ == self@,
    {
        proof {
            use_type_invariant(&*self);
        }
        let n = self.entries.len();
        let mut entries: Vec<(String, String)> = Vec::new();
        let mut i: usize = 0;
        while i < n
            invariant
                n == self.entries@.len(),
                0 <= i <= n,
                entries@.len() == i,
                forall|j: int|
                    0 <= j < i ==> entries@[j].0@ == self.entries@[j].0@ && entries@[j].1@
                        == self.entries@[j].1@,
            decreases n - i,
        {
            let k = self.entries[i].0.clone();
            let v = self.entries[i].1.clone();
            entries.push((k, v));
            i += 1;
        }
        let r = StringMap { entries };
        proof {
            assert(distinct_keys(r.entries@));
            lemma_assoc_views_equal(r.entries@, self.entries@);
        }
        r
    }
}

/// Two association lists whose pairs have equal views describe equal maps.
proof fn lemma_assoc_views_equal(a: Seq<(String, String)>, b: Seq<(String, String)>)
    requires
        a.len() == b.len(),
        forall|j: int| 0 <= j < a.len() ==> a[j].0@ == b[j].0@ && a[j].1@ == b[j].1@,
    ensures
        assoc_map(a) == assoc_map(b),
    decreases a.len(),
{
    if a.len() > 0 {
        assert(a.drop_last().len() == b.drop_last().len());
        lemma_assoc_views_equal(a.drop_last(), b.drop_last());
        assert(a.last().0@ == b.last().0@);
        assert(a.last().1.deep_view() == b.last().1.deep_view());
        assert(assoc_map(a) =~= assoc_map(b));
    } else {
        assert(assoc_map(a) =~= assoc_map(b));
    }
}

} // verus!
