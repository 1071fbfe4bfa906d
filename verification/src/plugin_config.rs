//! Plugin option values from the configuration, and their normalisation
//! before they are handed to a plugin.
use std::collections::HashMap;
use vstd::prelude::*;

use crate::str_map::{key_index, StrMap};
use crate::text::views;

verus! {

broadcast use vstd::std_specs::hash::group_hash_axioms;

/// A value of a plugin option.
///
/// Lua arrays arrive as `Array`, keyed by their 1-based positions; they are
/// turned into `NormalizedArray` before the configuration reaches a plugin.
pub enum ConfigFieldType {
    NormalizedArray(Vec<String>),
    Array(HashMap<usize, String>),
    Single(String),
}

/// What a `ConfigFieldType` holds, as mathematical values.
pub enum FieldView {
    NormalizedArray(Seq<Seq<char>>),
    Array(Map<usize, Seq<char>>),
    Single(Seq<char>),
}

impl View for ConfigFieldType {
    type V = FieldView;

    open spec fn view(&self) -> FieldView {
        match self {
            ConfigFieldType::NormalizedArray(v) => FieldView::NormalizedArray(views(v@)),
            ConfigFieldType::Array(m) => FieldView::Array(string_values(m@)),
            ConfigFieldType::Single(s) => FieldView::Single(s@),
        }
    }
}

/// The views of a map's string values.
pub open spec fn string_values(m: Map<usize, String>) -> Map<usize, Seq<char>> {
    m.map_values(|s: String| s@)
}

/// The keys of a Lua array are exactly its positions `1..=len`.
pub open spec fn array_keys_valid(m: Map<usize, Seq<char>>) -> bool {
    forall|k: usize| #[trigger] m.contains_key(k) ==> 1 <= k <= m.len()
}

/// A value can be normalised: an `Array` must be keyed by its positions.
pub open spec fn normalizable(f: FieldView) -> bool {
    match f {
        FieldView::Array(m) => array_keys_valid(m),
        _ => true,
    }
}

/// An `Array` becomes the `NormalizedArray` whose element `i` is the value
/// under key `i + 1`; other values stay as they are.
pub open spec fn normalize_view(f: FieldView) -> FieldView {
    match f {
        FieldView::Array(m) => FieldView::NormalizedArray(
            Seq::new(m.len(), |i: int| m[(i + 1) as usize]),
        ),
        _ => f,
    }
}

/// Every value of a plugin's options can be normalised.
pub open spec fn config_normalizable(m: Map<Seq<char>, FieldView>) -> bool {
    forall|k: Seq<char>| #[trigger] m.contains_key(k) ==> normalizable(m[k])
}

/// The set of keys `1..=n`.
spec fn positions(n: nat) -> Set<usize> {
    Set::new(|k: usize| 1 <= k && k <= n)
}

proof fn lemma_positions(n: nat)
    requires
        n <= usize::MAX,
    ensures
        positions(n).finite(),
        positions(n).len() == n,
    decreases n,
{
    if n == 0 {
        assert(positions(n) =~= Set::empty());
    } else {
        lemma_positions((n - 1) as nat);
        assert(positions(n) =~= positions((n - 1) as nat).insert(n as usize));
    }
}

/// `n` distinct keys within `1..=n` are all of `1..=n`.
proof fn lemma_keys_cover(m: Map<usize, Seq<char>>)
    requires
        m.dom().finite(),
        array_keys_valid(m),
    ensures
        forall|k: usize| 1 <= k <= m.len() ==> #[trigger] m.contains_key(k),
{
    let n = m.len();
    if n > 0 {
        let some = m.dom().choose();
        assert(m.contains_key(some));
    }
    assert(n <= usize::MAX) by {
        lemma_positions(usize::MAX as nat);
        assert(m.dom().subset_of(positions(usize::MAX as nat)));
        vstd::set_lib::lemma_len_subset(m.dom(), positions(usize::MAX as nat));
    }
    lemma_positions(n);
    assert(m.dom().subset_of(positions(n)));
    vstd::set_lib::lemma_subset_equality(m.dom(), positions(n));
    assert forall|k: usize| 1 <= k <= m.len() implies #[trigger] m.contains_key(k) by {
        assert(positions(n).contains(k));
    }
}

impl ConfigFieldType {
    /// Whether `normalize` may be applied: an `Array`'s keys are `1..=len`.
    pub fn is_normalizable(&self) -> (r: bool)
        ensures
            r == normalizable(self@),
    {
        match self {
            ConfigFieldType::Array(m) => {
                let ghost mv = string_values(m@);
                assert(mv.dom() =~= m@.dom());
                let n = m.len();
                let mut i: usize = 0;
                while i < n
                    invariant
                        n == mv.len(),
                        mv == string_values(m@),
                        self@ == FieldView::Array(mv),
                        mv.dom().finite(),
                        i <= n,
                        forall|j: usize| 1 <= j <= i ==> #[trigger] mv.contains_key(j),
                    decreases n - i,
                {
                    let k: usize = i + 1;
                    if !m.contains_key(&k) {
                        proof {
                            assert(!m@.contains_key(k));
                            assert(!mv.contains_key(k));
                            if array_keys_valid(mv) {
                                lemma_keys_cover(mv);
                            }
                        }
                        return false;
                    }
                    i = i + 1;
                }
                proof {
                    lemma_positions(n as nat);
                    assert(positions(n as nat).subset_of(mv.dom()));
                    vstd::set_lib::lemma_subset_equality(positions(n as nat), mv.dom());
                    assert forall|q: usize| #[trigger] mv.contains_key(q) implies 1 <= q <= mv.len() by {
                        assert(positions(n as nat).contains(q));
                    }
                }
                true
            },
            _ => true,
        }
    }

    /// The normalised value: an `Array` becomes the `NormalizedArray` of its
    /// values in key order.
    pub fn normalize(&self) -> (r: ConfigFieldType)
        requires
            normalizable(self@),
        ensures
            r@ == normalize_view(self@),
    {
        match self {
            ConfigFieldType::Array(map) => {
                let ghost mv = string_values(map@);
                assert(mv.dom() =~= map@.dom());
                proof {
                    lemma_keys_cover(mv);
                }
                let n = map.len();
                let mut array_field: Vec<String> = Vec::new();
                let mut i: usize = 0;
                while i < n
                    invariant
                        n == mv.len(),
                        i <= n,
                        forall|k: usize| 1 <= k <= mv.len() ==> #[trigger] mv.contains_key(k),
                        mv == string_values(map@),
                        views(array_field@) =~= Seq::new(i as nat, |j: int| mv[(j + 1) as usize]),
                    decreases n - i,
                {
                    let key: usize = i + 1;
                    assert(mv.contains_key(key));
                    match map.get(&key) {
                        Some(element) => {
                            let e = element.clone();
                            assert(e@ == mv[key]);
                            let ghost before = array_field@;
                            array_field.push(e);
                            assert(views(array_field@) =~= views(before).push(e@));
                        },
                        None => {
                            assert(false);
                        },
                    }
                    i = i + 1;
                }
                ConfigFieldType::NormalizedArray(array_field)
            },
            ConfigFieldType::Single(s) => ConfigFieldType::Single(s.clone()),
            ConfigFieldType::NormalizedArray(a) => {
                let c = a.clone();
                proof {
                    assert forall|j: int| 0 <= j < a@.len() implies c@[j] == a@[j] by {
                        assert(cloned::<String>(a[j], c[j]));
                    }
                    assert(views(c@) =~= views(a@));
                }
                ConfigFieldType::NormalizedArray(c)
            },
        }
    }
}

/// Whether every option of a plugin can be normalised.
pub fn config_is_normalizable(plugin_config: &StrMap<ConfigFieldType>) -> (r: bool)
    ensures
        r == config_normalizable(plugin_config@),
{
    let entries = plugin_config.entries();
    let mut i: usize = 0;
    while i < entries.len()
        invariant
            i <= entries@.len(),
            forall|j: int| 0 <= j < i ==> normalizable((#[trigger] entries@[j]).1@),
            forall|j: int| 0 <= j < entries@.len() ==> #[trigger] key_index(entries@, entries@[j].0@) == j,
            forall|k: Seq<char>| #[trigger] plugin_config@.contains_key(k) <==> key_index(entries@, k) >= 0,
            forall|k: Seq<char>|
                #[trigger] plugin_config@.contains_key(k) ==> plugin_config@[k] == entries@[key_index(entries@, k)].1@,
        decreases entries.len() - i,
    {
        if !entries[i].1.is_normalizable() {
            proof {
                let k = entries@[i as int].0@;
                assert(key_index(entries@, k) == i);
                assert(plugin_config@.contains_key(k));
            }
            return false;
        }
        i = i + 1;
    }
    proof {
        assert forall|k: Seq<char>| #[trigger] plugin_config@.contains_key(k) implies normalizable(
            plugin_config@[k],
        ) by {
            crate::str_map::lemma_key_index(entries@, k);
            assert(normalizable(entries@[key_index(entries@, k)].1@));
        }
    }
    true
}

/// A plugin's options with every value normalised; the keys stay the same.
pub fn normalize_config(plugin_config: &StrMap<ConfigFieldType>) -> (r: StrMap<ConfigFieldType>)
    requires
        config_normalizable(plugin_config@),
    ensures
        r@ == plugin_config@.map_values(|f: FieldView| normalize_view(f)),
{
    let entries = plugin_config.entries();
    let mut res: StrMap<ConfigFieldType> = StrMap::new();
    let mut i: usize = 0;
    while i < entries.len()
        invariant
            i <= entries@.len(),
            crate::str_map::distinct_keys(entries@),
            forall|j: int| 0 <= j < entries@.len() ==> #[trigger] key_index(entries@, entries@[j].0@) == j,
            forall|k: Seq<char>| #[trigger] plugin_config@.contains_key(k) <==> key_index(entries@, k) >= 0,
            forall|k: Seq<char>|
                #[trigger] plugin_config@.contains_key(k) ==> plugin_config@[k] == entries@[key_index(entries@, k)].1@,
            config_normalizable(plugin_config@),
            forall|k: Seq<char>|
                #[trigger] res@.contains_key(k) <==> exists|j: int| 0 <= j < i && #[trigger] entries@[j].0@ == k,
            forall|j: int|
                0 <= j < i ==> #[trigger] res@[entries@[j].0@] == normalize_view(entries@[j].1@),
        decreases entries.len() - i,
    {
        let ghost k = entries@[i as int].0@;
        assert(plugin_config@.contains_key(k));
        let value = entries[i].1.normalize();
        let ghost before = res@;
        res.insert(entries[i].0.clone(), value);
        proof {
            assert forall|j: int| 0 <= j < i + 1 implies #[trigger] res@[entries@[j].0@] == normalize_view(
                entries@[j].1@,
            ) by {
                if j < i {
                    assert(entries@[j].0@ != k);
                }
            }
            assert forall|q: Seq<char>| #[trigger] res@.contains_key(q) <==> exists|j: int|
                0 <= j < i + 1 && #[trigger] entries@[j].0@ == q by {
                if res@.contains_key(q) && q != k {
                    let j = choose|j: int| 0 <= j < i && #[trigger] entries@[j].0@ == q;
                    assert(0 <= j < i + 1 && entries@[j].0@ == q);
                }
                if q == k {
                    assert(entries@[i as int].0@ == q);
                }
            }
        }
        i = i + 1;
    }
    proof {
        let target = plugin_config@.map_values(|f: FieldView| normalize_view(f));
        assert forall|q: Seq<char>| #[trigger] res@.contains_key(q) <==> target.contains_key(q) by {
            if target.contains_key(q) {
                let j = key_index(entries@, q);
                crate::str_map::lemma_key_index(entries@, q);
                assert(entries@[j].0@ == q);
            }
            if res@.contains_key(q) {
                let j = choose|j: int| 0 <= j < entries@.len() && #[trigger] entries@[j].0@ == q;
                assert(key_index(entries@, entries@[j].0@) == j);
            }
        }
        assert forall|q: Seq<char>| #[trigger] res@.contains_key(q) implies res@[q] == target[q] by {
            let j = choose|j: int| 0 <= j < entries@.len() && #[trigger] entries@[j].0@ == q;
            assert(key_index(entries@, entries@[j].0@) == j);
        }
        assert(res@ =~= target);
    }
    res
}

/// Normalising a Lua array lists its values in the order of their keys:
/// the value under key `k` ends up at position `k - 1`, and the list has
/// as many values as the array. Single values and lists stay as they are.
pub proof fn lemma_normalize_keeps_positions(f: FieldView)
    ensures
        f is Array ==> normalize_view(f) is NormalizedArray && normalize_view(f)->NormalizedArray_0.len()
            == f->Array_0.len() && forall|k: usize|
            1 <= k <= f->Array_0.len() ==> normalize_view(f)->NormalizedArray_0[k - 1] == #[trigger] f->Array_0[k],
        !(f is Array) ==> normalize_view(f) == f,
{
    if f is Array {
        let m = f->Array_0;
        assert forall|k: usize| 1 <= k <= m.len() implies normalize_view(f)->NormalizedArray_0[k - 1] == #[trigger] m[k] by {
            assert(((k - 1) + 1) as usize == k);
        }
    }
}

/// Normalising twice is normalising once: a normalised value can be
/// normalised again and stays the same.
pub proof fn lemma_normalize_idempotent(f: FieldView)
    ensures
        normalizable(normalize_view(f)),
        normalize_view(normalize_view(f)) == normalize_view(f),
{
}

/// A normalised plugin configuration can be normalised again and stays the
/// same.
pub proof fn lemma_normalize_config_idempotent(m: Map<Seq<char>, FieldView>)
    ensures
        config_normalizable(m.map_values(|f: FieldView| normalize_view(f))),
        m.map_values(|f: FieldView| normalize_view(f)).map_values(|f: FieldView| normalize_view(f))
            == m.map_values(|f: FieldView| normalize_view(f)),
{
    let once = m.map_values(|f: FieldView| normalize_view(f));
    assert forall|k: Seq<char>| #[trigger] once.contains_key(k) implies normalizable(once[k]) by {
        lemma_normalize_idempotent(m[k]);
    }
    assert forall|k: Seq<char>| #[trigger] once.contains_key(k) implies normalize_view(once[k]) == once[k] by {
        lemma_normalize_idempotent(m[k]);
    }
    assert(once.map_values(|f: FieldView| normalize_view(f)) =~= once);
}

} // verus!
