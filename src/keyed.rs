//! The model of a store kept as a sequence of entries with distinct keys: the
//! map from each key to its entry's value.

use vstd::prelude::*;

verus! {

pub open spec fn entries_to_map<V>(s: Seq<(Seq<char>, V)>) -> Map<Seq<char>, V>
    decreases s.len(),
{
    if s.len() == 0 {
        Map::empty()
    } else {
        entries_to_map(s.drop_last()).insert(s.last().0, s.last().1)
    }
}

pub open spec fn unique_keys<V>(s: Seq<(Seq<char>, V)>) -> bool {
    forall|i: int, j: int| 0 <= i < j < s.len() ==> s[i].0 != s[j].0
}

pub proof fn lemma_map_finite<V>(s: Seq<(Seq<char>, V)>)
    ensures
        entries_to_map(s).dom().finite(),
    decreases s.len(),
{
    if s.len() > 0 {
        lemma_map_finite(s.drop_last());
    }
}

/// A key that no entry holds is not in the map.
pub proof fn lemma_map_absent<V>(s: Seq<(Seq<char>, V)>, k: Seq<char>)
    requires
        forall|i: int| 0 <= i < s.len() ==> s[i].0 != k,
    ensures
        !entries_to_map(s).dom().contains(k),
    decreases s.len(),
{
    if s.len() > 0 {
        lemma_map_absent(s.drop_last(), k);
    }
}

/// With distinct keys, the map sends each entry's key to that entry's value.
pub proof fn lemma_map_entry<V>(s: Seq<(Seq<char>, V)>, i: int)
    requires
        unique_keys(s),
        0 <= i < s.len(),
    ensures
        entries_to_map(s).dom().contains(s[i].0),
        entries_to_map(s)[s[i].0] == s[i].1,
    decreases s.len(),
{
    if i < s.len() - 1 {
        lemma_map_entry(s.drop_last(), i);
    }
}

pub proof fn lemma_map_push<V>(s: Seq<(Seq<char>, V)>, e: (Seq<char>, V))
    ensures
        entries_to_map(s.push(e)) == entries_to_map(s).insert(e.0, e.1),
{
    assert(s.push(e).drop_last() =~= s);
}

/// Taking out the entry at `i` takes its key out of the map.
pub proof fn lemma_map_remove<V>(s: Seq<(Seq<char>, V)>, i: int)
    requires
        unique_keys(s),
        0 <= i < s.len(),
    ensures
        entries_to_map(s.remove(i)) == entries_to_map(s).remove(s[i].0),
    decreases s.len(),
{
    let k = s[i].0;
    let init = s.drop_last();
    if i == s.len() - 1 {
        assert(s.remove(i) =~= init);
        assert forall|j: int| 0 <= j < init.len() implies init[j].0 != k by {
            assert(s[j].0 != s[i].0);
        }
        lemma_map_absent(init, k);
        assert(entries_to_map(s).remove(k) =~= entries_to_map(init));
    } else {
        assert(s.remove(i) =~= init.remove(i).push(s.last()));
        lemma_map_remove(init, i);
        lemma_map_push(init.remove(i), s.last());
        assert(s.last().0 != k);
        assert(entries_to_map(s.remove(i)) =~= entries_to_map(s).remove(k));
    }
}

/// Replacing the value of the entry at `i` replaces it in the map.
pub proof fn lemma_map_update<V>(s: Seq<(Seq<char>, V)>, i: int, v: V)
    requires
        unique_keys(s),
        0 <= i < s.len(),
    ensures
        entries_to_map(s.update(i, (s[i].0, v))) == entries_to_map(s).insert(s[i].0, v),
    decreases s.len(),
{
    let k = s[i].0;
    let t = s.update(i, (k, v));
    let init = s.drop_last();
    if i == s.len() - 1 {
        assert(t.drop_last() =~= init);
        assert(entries_to_map(t) =~= entries_to_map(s).insert(k, v));
    } else {
        assert(t.drop_last() =~= init.update(i, (k, v)));
        lemma_map_update(init, i, v);
        assert(s.last().0 != k);
        assert(entries_to_map(t) =~= entries_to_map(s).insert(k, v));
    }
}

/// With distinct keys, the map has one key per entry.
pub proof fn lemma_entries_len<V>(s: Seq<(Seq<char>, V)>)
    requires
        unique_keys(s),
    ensures
        entries_to_map(s).dom().finite(),
        entries_to_map(s).len() == s.len(),
    decreases s.len(),
{
    lemma_map_finite(s);
    if s.len() > 0 {
        let init = s.drop_last();
        lemma_entries_len(init);
        assert forall|j: int| 0 <= j < init.len() implies init[j].0 != s.last().0 by {
            assert(s[j].0 != s[s.len() - 1].0);
        }
        lemma_map_absent(init, s.last().0);
    }
}

/// A key that the map lacks is held by no entry.
pub proof fn lemma_map_absent_entries<V>(s: Seq<(Seq<char>, V)>, k: Seq<char>)
    requires
        unique_keys(s),
        !entries_to_map(s).contains_key(k),
    ensures
        forall|i: int| 0 <= i < s.len() ==> s[i].0 != k,
{
    assert forall|i: int| 0 <= i < s.len() implies s[i].0 != k by {
        lemma_map_entry(s, i);
    }
}

pub proof fn lemma_unique_after_remove<V>(s: Seq<(Seq<char>, V)>, i: int)
    requires
        unique_keys(s),
        0 <= i < s.len(),
    ensures
        unique_keys(s.remove(i)),
{
    let t = s.remove(i);
    assert forall|a: int, b: int| 0 <= a < b < t.len() implies t[a].0 != t[b].0 by {
        if a < i {
            if b >= i {
                assert(t[b] == s[b + 1]);
            }
        } else {
            assert(t[a] == s[a + 1]);
            assert(t[b] == s[b + 1]);
        }
    }
}

} // verus!
