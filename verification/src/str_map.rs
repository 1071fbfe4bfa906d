//! A map keyed by strings, kept as a sequence of entries in which no key
//! occurs twice.
use vstd::prelude::*;
use crate::text::eq_str;

verus! {

/// Position of the first entry whose key reads `k`, or -1.
pub open spec fn key_index<V>(s: Seq<(String, V)>, k: Seq<char>) -> int
    decreases s.len(),
{
    if s.len() == 0 {
        -1
    } else {
        let j = key_index(s.drop_last(), k);
        if j >= 0 {
            j
        } else if s.last().0@ == k {
            s.len() - 1
        } else {
            -1
        }
    }
}

/// No key occurs twice among the entries.
pub open spec fn distinct_keys<V>(s: Seq<(String, V)>) -> bool {
    forall|i: int, j: int|
        0 <= i < s.len() && 0 <= j < s.len() && i != j ==> #[trigger] s[i].0@ != #[trigger] s[j].0@
}

/// `key_index` finds the first entry with key `k`, and only such an entry.
pub proof fn lemma_key_index<V>(s: Seq<(String, V)>, k: Seq<char>)
    ensures
        -1 <= key_index(s, k) < s.len(),
        key_index(s, k) >= 0 ==> s[key_index(s, k)].0@ == k,
        forall|j: int|
            0 <= j < s.len() && (key_index(s, k) < 0 || j < key_index(s, k)) ==> s[j].0@ != k,
    decreases s.len(),
{
    if s.len() > 0 {
        lemma_key_index(s.drop_last(), k);
        assert forall|j: int|
            0 <= j < s.len() && (key_index(s, k) < 0 || j < key_index(s, k)) implies s[j].0@ != k by {
            if j < s.len() - 1 {
                assert(s[j] == s.drop_last()[j]);
            }
        }
    }
}

/// An entry with key `k` and none before it is the one `key_index` finds.
pub proof fn lemma_key_index_at<V>(s: Seq<(String, V)>, k: Seq<char>, i: int)
    requires
        i == -1 || (0 <= i < s.len() && s[i].0@ == k),
        forall|j: int| 0 <= j < s.len() && (i < 0 || j < i) ==> s[j].0@ != k,
    ensures
        key_index(s, k) == i,
{
    lemma_key_index(s, k);
    let f = key_index(s, k);
    if f >= 0 && i >= 0 && f < i {
        assert(s[f].0@ != k);
    }
    if f >= 0 && i >= 0 && i < f {
        assert(s[i].0@ != k);
    }
    if f >= 0 && i < 0 {
        assert(s[f].0@ != k);
    }
    if f < 0 && i >= 0 {
        assert(s[i].0@ != k);
    }
}

/// `key_index` only looks at the keys.
pub proof fn lemma_key_index_same_keys<V, W>(s: Seq<(String, V)>, t: Seq<(String, W)>, k: Seq<char>)
    requires
        s.len() == t.len(),
        forall|i: int| 0 <= i < s.len() ==> #[trigger] s[i].0@ == t[i].0@,
    ensures
        key_index(s, k) == key_index(t, k),
    decreases s.len(),
{
    if s.len() > 0 {
        lemma_key_index_same_keys(s.drop_last(), t.drop_last(), k);
        assert(s.last().0@ == t[t.len() - 1].0@);
    }
}

/// A string-keyed map. Its entries keep the order in which keys were
/// first inserted; each key occurs in at most one entry.
pub struct StrMap<V> {
    entries: Vec<(String, V)>,
}

impl<V: View> View for StrMap<V> {
    type V = Map<Seq<char>, V::V>;

    closed spec fn view(&self) -> Map<Seq<char>, V::V> {
        Map::new(
            |k: Seq<char>| key_index(self.entries@, k) >= 0,
            |k: Seq<char>| self.entries@[key_index(self.entries@, k)].1@,
        )
    }
}

impl<V> StrMap<V> {
    #[verifier::type_invariant]
    spec fn keys_distinct(self) -> bool {
        distinct_keys(self.entries@)
    }
}

impl<V: View> StrMap<V> {
    /// The entries in insertion order.
    pub closed spec fn entry_seq(self) -> Seq<(String, V)> {
        self.entries@
    }

    /// An empty map.
    pub fn new() -> (m: Self)
        ensures
            m@ == Map::<Seq<char>, V::V>::empty(),
            m.entry_seq().len() == 0,
    {
        let m = StrMap { entries: Vec::new() };
        assert(m@ =~= Map::<Seq<char>, V::V>::empty());
        m
    }

    /// Position of the entry with key `k`, if any.
    fn find(&self, k: &str) -> (r: Option<usize>)
        ensures
            match r {
                Some(i) => i == key_index(self.entries@, k@) && i < self.entries@.len(),
                None => key_index(self.entries@, k@) == -1,
            },
    {
        let mut i: usize = 0;
        while i < self.entries.len()
            invariant
                i <= self.entries@.len(),
                forall|j: int| 0 <= j < i ==> self.entries@[j].0@ != k@,
            decreases self.entries.len() - i,
        {
            if eq_str(self.entries[i].0.as_str(), k) {
                proof {
                    lemma_key_index_at(self.entries@, k@, i as int);
                }
                return Some(i);
            }
            i = i + 1;
        }
        proof {
            lemma_key_index_at(self.entries@, k@, -1);
        }
        None
    }

    /// The value stored under `k` (`HashMap::get`).
    pub fn get(&self, k: &str) -> (r: Option<&V>)
        ensures
            match r {
                Some(v) => self@.contains_key(k@) && v@ == self@[k@],
                None => !self@.contains_key(k@),
            },
    {
        match self.find(k) {
            Some(i) => Some(&self.entries[i].1),
            None => None,
        }
    }

    /// Stores `v` under `k`, replacing what was there (`HashMap::insert`).
    pub fn insert(&mut self, k: String, v: V)
        ensures
            final(self)@ == old(self)@.insert(k@, v@),
    {
        proof {
            use_type_invariant(&*self);
        }
        let ghost old_entries = self.entries@;
        match self.find(k.as_str()) {
            Some(i) => {
                proof {
                    lemma_key_index(old_entries, k@);
                }
                let ghost new_entries = old_entries.update(i as int, (k, v));
                proof {
                    assert forall|j: int| 0 <= j < old_entries.len() implies #[trigger] old_entries[j].0@
                        == new_entries[j].0@ by {}
                    assert forall|q: Seq<char>| true implies key_index(old_entries, q) == key_index(new_entries, q) by {
                        lemma_key_index_same_keys(old_entries, new_entries, q);
                    }
                }
                let mut entries: Vec<(String, V)> = Vec::new();
                std::mem::swap(&mut entries, &mut self.entries);
                entries.set(i, (k, v));
                proof {
                    assert(entries@ == new_entries);
                    assert(distinct_keys(entries@));
                }
                self.entries = entries;
                proof {
                    let kv = new_entries[i as int].0@;
                    let vv = new_entries[i as int].1@;
                    assert forall|q: Seq<char>| #[trigger] self@.contains_key(q) == old(self)@.insert(kv, vv).contains_key(q) by {
                        lemma_key_index_same_keys(old_entries, new_entries, q);
                    }
                    assert forall|q: Seq<char>| #[trigger] self@.contains_key(q) implies self@[q] == old(self)@.insert(kv, vv)[q] by {
                        lemma_key_index_same_keys(old_entries, new_entries, q);
                        lemma_key_index(old_entries, q);
                    }
                    assert(self@ =~= old(self)@.insert(kv, vv));
                }
            },
            None => {
                proof {
                    lemma_key_index(old_entries, k@);
                }
                let ghost kv = k@;
                let ghost vv = v@;
                let mut entries: Vec<(String, V)> = Vec::new();
                std::mem::swap(&mut entries, &mut self.entries);
                entries.push((k, v));
                proof {
                    let s = entries@;
                    assert(s.drop_last() =~= old_entries);
                    assert forall|q: Seq<char>| true implies key_index(s, q) == (if key_index(old_entries, q)
                        >= 0 {
                        key_index(old_entries, q)
                    } else if q == kv {
                        s.len() - 1
                    } else {
                        -1
                    }) by {}
                    assert(distinct_keys(s)) by {
                        assert forall|a: int, b: int|
                            0 <= a < s.len() && 0 <= b < s.len() && a != b implies #[trigger] s[a].0@
                            != #[trigger] s[b].0@ by {
                            if a == s.len() - 1 {
                                assert(s[b] == old_entries[b]);
                            } else if b == s.len() - 1 {
                                assert(s[a] == old_entries[a]);
                            } else {
                                assert(s[a] == old_entries[a]);
                                assert(s[b] == old_entries[b]);
                            }
                        }
                    }
                }
                self.entries = entries;
                proof {
                    let s = self.entries@;
                    assert forall|q: Seq<char>| #[trigger] self@.contains_key(q) implies self@[q] == old(self)@.insert(kv, vv)[q] by {
                        lemma_key_index(old_entries, q);
                        if key_index(old_entries, q) >= 0 {
                            assert(s[key_index(old_entries, q)] == old_entries[key_index(old_entries, q)]);
                        }
                    }
                    assert(self@ =~= old(self)@.insert(kv, vv));
                }
            },
        }
    }

    /// The entries, in insertion order.
    pub fn entries(&self) -> (r: &Vec<(String, V)>)
        ensures
            r@ == self.entry_seq(),
            distinct_keys(r@),
            forall|i: int| 0 <= i < r@.len() ==> #[trigger] key_index(r@, r@[i].0@) == i,
            forall|k: Seq<char>| #[trigger] self@.contains_key(k) <==> key_index(r@, k) >= 0,
            forall|k: Seq<char>|
                #[trigger] self@.contains_key(k) ==> self@[k] == r@[key_index(r@, k)].1@,
    {
        proof {
            use_type_invariant(self);
            assert forall|i: int| 0 <= i < self.entries@.len() implies #[trigger] key_index(
                self.entries@,
                self.entries@[i].0@,
            ) == i by {
                lemma_key_index_at(self.entries@, self.entries@[i].0@, i);
            }
        }
        &self.entries
    }
}

/// Reading a key of a map just written by `insert` gives the written
/// value; every other key reads as it did before the write.
pub proof fn lemma_insert_then_get<V: View>(before: StrMap<V>, after: StrMap<V>, k: Seq<char>, v: V, other: Seq<char>)
    requires
        after@ == before@.insert(k, v@),
    ensures
        after@.contains_key(k),
        after@[k] == v@,
        other != k ==> after@.contains_key(other) == before@.contains_key(other),
        other != k && before@.contains_key(other) ==> after@[other] == before@[other],
{
}

} // verus!
