//! First-match lookup in a keyed table, modelled as a sequence of
//! `(key, value)` pairs, together with the lemmas that connect a scan of
//! the table to the lookup function.

use vstd::prelude::*;

verus! {

/// First-match lookup scanning from index `i`.
pub open spec fn table_lookup_from<V>(m: Seq<(Seq<char>, V)>, key: Seq<char>, i: int) -> Option<V>
    decreases m.len() - i,
{
    if i < 0 || i >= m.len() {
        None
    } else if m[i].0 == key {
        Some(m[i].1)
    } else {
        table_lookup_from(m, key, i + 1)
    }
}

/// The value stored under `key`, or `None` if the key is absent.
pub open spec fn table_lookup<V>(m: Seq<(Seq<char>, V)>, key: Seq<char>) -> Option<V> {
    table_lookup_from(m, key, 0)
}

/// If every key from `s` on differs from `key`, the scan finds nothing.
pub proof fn lemma_table_lookup_none<V>(m: Seq<(Seq<char>, V)>, key: Seq<char>, s: int)
    requires
        forall|j: int| s <= j < m.len() ==> (#[trigger] m[j]).0 != key,
    ensures
        table_lookup_from(m, key, s) is None,
    decreases m.len() - s,
{
    if 0 <= s < m.len() {
        lemma_table_lookup_none(m, key, s + 1);
    }
}

/// If `i` is the first index at or after `s` whose key matches, the scan
/// finds exactly that entry's value.
pub proof fn lemma_table_lookup_found<V>(m: Seq<(Seq<char>, V)>, key: Seq<char>, s: int, i: int)
    requires
        0 <= s <= i < m.len(),
        forall|j: int| s <= j < i ==> (#[trigger] m[j]).0 != key,
        m[i].0 == key,
    ensures
        table_lookup_from(m, key, s) == Some(m[i].1),
    decreases i - s,
{
    if s < i {
        lemma_table_lookup_found(m, key, s + 1, i);
    }
}

/// Appending an entry under a different key leaves a lookup unchanged.
pub proof fn lemma_table_lookup_push_other<V>(
    m: Seq<(Seq<char>, V)>,
    p: (Seq<char>, V),
    key: Seq<char>,
    s: int,
)
    requires
        p.0 != key,
        0 <= s,
    ensures
        table_lookup_from(m.push(p), key, s) == table_lookup_from(m, key, s),
    decreases m.len() + 1 - s,
{
    if s < m.len() + 1 {
        lemma_table_lookup_push_other(m, p, key, s + 1);
    }
}

/// Two tables with the same keys in the same order, agreeing on the values
/// of every entry whose key is `key`, agree on a lookup of `key`.
pub proof fn lemma_table_lookup_same_keys<V>(
    m1: Seq<(Seq<char>, V)>,
    m2: Seq<(Seq<char>, V)>,
    key: Seq<char>,
    s: int,
)
    requires
        m1.len() == m2.len(),
        forall|j: int| 0 <= j < m1.len() ==> (#[trigger] m1[j]).0 == (#[trigger] m2[j]).0,
        forall|j: int| 0 <= j < m1.len() && (#[trigger] m1[j]).0 == key ==> m1[j].1 == m2[j].1,
        0 <= s,
    ensures
        table_lookup_from(m1, key, s) == table_lookup_from(m2, key, s),
    decreases m1.len() - s,
{
    if s < m1.len() {
        lemma_table_lookup_same_keys(m1, m2, key, s + 1);
    }
}

} // verus!
