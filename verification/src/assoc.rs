//! Lists of keyed entries in which no key occurs twice, read as maps.

use vstd::prelude::*;

verus! {

/// Whether no key occurs twice in the list.
pub open spec fn keys_distinct<K, V>(s: Seq<(K, V)>) -> bool {
    forall|i: int, j: int| 0 <= i < j < s.len() ==> (#[trigger] s[i]).0 != (#[trigger] s[j]).0
}

/// Whether some entry of the list has the key.
pub open spec fn has_key<K, V>(s: Seq<(K, V)>, k: K) -> bool {
    exists|i: int| 0 <= i < s.len() && (#[trigger] s[i]).0 == k
}

/// The position of an entry with the key.
pub open spec fn position_of<K, V>(s: Seq<(K, V)>, k: K) -> int {
    choose|i: int| 0 <= i < s.len() && (#[trigger] s[i]).0 == k
}

/// The map that the list stands for.
pub open spec fn as_map<K, V>(s: Seq<(K, V)>) -> Map<K, V> {
    Map::new(|k: K| has_key(s, k), |k: K| s[position_of(s, k)].1)
}

/// An entry of a list without repeated keys is what the map holds for its key.
pub proof fn lemma_entry_in_map<K, V>(s: Seq<(K, V)>, i: int)
    requires
        keys_distinct(s),
        0 <= i < s.len(),
    ensures
        as_map(s).contains_key(s[i].0),
        as_map(s)[s[i].0] == s[i].1,
        position_of(s, s[i].0) == i,
{
    let k = s[i].0;
    assert(has_key(s, k));
    let p = position_of(s, k);
    assert(0 <= p < s.len() && s[p].0 == k);
    if p != i {
        if p < i {
            assert(s[p].0 != s[i].0);
        } else {
            assert(s[i].0 != s[p].0);
        }
    }
}

/// The empty list stands for the empty map.
pub proof fn lemma_empty_map<K, V>()
    ensures
        keys_distinct(Seq::<(K, V)>::empty()),
        as_map(Seq::<(K, V)>::empty()) == Map::<K, V>::empty(),
{
    assert(as_map(Seq::<(K, V)>::empty()) =~= Map::<K, V>::empty());
}

/// Appending an entry under a key that the list does not have adds that entry
/// to the map.
pub proof fn lemma_push_in_map<K, V>(s: Seq<(K, V)>, k: K, v: V)
    requires
        keys_distinct(s),
        !has_key(s, k),
    ensures
        keys_distinct(s.push((k, v))),
        as_map(s.push((k, v))) == as_map(s).insert(k, v),
{
    let t = s.push((k, v));
    assert forall|i: int, j: int| 0 <= i < j < t.len() implies (#[trigger] t[i]).0 != (
    #[trigger] t[j]).0 by {
        if j < s.len() {
            assert(s[i].0 != s[j].0);
        } else {
            assert(t[i] == s[i]);
            if s[i].0 == k {
                assert(has_key(s, k));
            }
        }
    }
    assert forall|q: K| #[trigger]
        as_map(t).contains_key(q) == as_map(s).insert(k, v).contains_key(q) by {
        if has_key(t, q) {
            let p = position_of(t, q);
            if p < s.len() {
                assert(s[p] == t[p]);
                assert(has_key(s, q));
            }
        }
        if has_key(s, q) {
            let p = position_of(s, q);
            assert(t[p] == s[p]);
            assert(has_key(t, q));
        }
        if q == k {
            assert(t[s.len() as int].0 == k);
            assert(has_key(t, q));
        }
    }
    assert forall|q: K| #[trigger] as_map(t).contains_key(q) implies as_map(t)[q] == as_map(
        s,
    ).insert(k, v)[q] by {
        if q == k {
            lemma_entry_in_map(t, s.len() as int);
        } else {
            let p = position_of(t, q);
            assert(p < s.len());
            assert(t[p] == s[p]);
            lemma_entry_in_map(s, p);
        }
    }
    assert(as_map(t) =~= as_map(s).insert(k, v));
}

/// Replacing the value of one entry replaces what the map holds for its key.
pub proof fn lemma_update_in_map<K, V>(s: Seq<(K, V)>, i: int, v: V)
    requires
        keys_distinct(s),
        0 <= i < s.len(),
    ensures
        keys_distinct(s.update(i, (s[i].0, v))),
        as_map(s.update(i, (s[i].0, v))) == as_map(s).insert(s[i].0, v),
{
    let k = s[i].0;
    let t = s.update(i, (k, v));
    assert forall|a: int, b: int| 0 <= a < b < t.len() implies (#[trigger] t[a]).0 != (
    #[trigger] t[b]).0 by {
        assert(t[a].0 == s[a].0);
        assert(t[b].0 == s[b].0);
    }
    assert forall|q: K| #[trigger]
        as_map(t).contains_key(q) == as_map(s).insert(k, v).contains_key(q) by {
        if has_key(t, q) {
            let p = position_of(t, q);
            assert(s[p].0 == t[p].0);
            assert(has_key(s, q));
        }
        if has_key(s, q) {
            let p = position_of(s, q);
            assert(s[p].0 == t[p].0);
            assert(has_key(t, q));
        }
        if q == k {
            assert(t[i].0 == k);
            assert(has_key(t, q));
        }
    }
    assert forall|q: K| #[trigger] as_map(t).contains_key(q) implies as_map(t)[q] == as_map(
        s,
    ).insert(k, v)[q] by {
        let p = position_of(t, q);
        lemma_entry_in_map(t, p);
        if q != k {
            assert(p != i);
            assert(t[p] == s[p]);
            lemma_entry_in_map(s, p);
        } else {
            lemma_entry_in_map(t, i);
        }
    }
    assert(as_map(t) =~= as_map(s).insert(k, v));
}

/// Taking one entry out of the list takes its key out of the map.
pub proof fn lemma_remove_in_map<K, V>(s: Seq<(K, V)>, i: int)
    requires
        keys_distinct(s),
        0 <= i < s.len(),
    ensures
        keys_distinct(s.remove(i)),
        !has_key(s.remove(i), s[i].0),
        as_map(s.remove(i)) == as_map(s).remove(s[i].0),
{
    let k = s[i].0;
    let t = s.remove(i);
    assert forall|a: int| 0 <= a < t.len() implies #[trigger] t[a] == s[if a < i {
        a
    } else {
        a + 1
    }] by {}
    assert forall|a: int, b: int| 0 <= a < b < t.len() implies (#[trigger] t[a]).0 != (
    #[trigger] t[b]).0 by {
        let a2 = if a < i { a } else { a + 1 };
        let b2 = if b < i { b } else { b + 1 };
        assert(t[a] == s[a2]);
        assert(t[b] == s[b2]);
        assert(s[a2].0 != s[b2].0);
    }
    if has_key(t, k) {
        let p = position_of(t, k);
        let shifted = if p < i { p } else { p + 1 };
        assert(t[p] == s[shifted]);
        if shifted < i {
            assert(s[shifted].0 != s[i].0);
        } else {
            assert(s[i].0 != s[shifted].0);
        }
    }
    assert forall|q: K| #[trigger] as_map(t).contains_key(q) == as_map(s).remove(k).contains_key(q) by {
        if has_key(t, q) {
            let p = position_of(t, q);
            let shifted = if p < i { p } else { p + 1 };
            assert(t[p] == s[shifted]);
            assert(has_key(s, q));
        }
        if has_key(s, q) && q != k {
            let p = position_of(s, q);
            assert(p != i);
            let shifted = if p < i { p } else { p - 1 };
            assert(t[shifted] == s[p]);
            assert(has_key(t, q));
        }
    }
    assert forall|q: K| #[trigger] as_map(t).contains_key(q) implies as_map(t)[q] == as_map(
        s,
    ).remove(k)[q] by {
        let p = position_of(t, q);
        let shifted = if p < i { p } else { p + 1 };
        assert(t[p] == s[shifted]);
        lemma_entry_in_map(t, p);
        lemma_entry_in_map(s, shifted);
    }
    assert(as_map(t) =~= as_map(s).remove(k));
}

} // verus!
