//! Association lists keyed by text, read as finite maps.

use vstd::prelude::*;

verus! {

/// Some entry of `e` has key `k`.
pub open spec fn has_key<V>(e: Seq<(Seq<char>, V)>, k: Seq<char>) -> bool {
    exists|i: int| 0 <= i < e.len() && #[trigger] e[i].0 == k
}

/// No two entries of `e` share a key.
pub open spec fn distinct_keys<V>(e: Seq<(Seq<char>, V)>) -> bool {
    forall|i: int, j: int| 0 <= i < e.len() && 0 <= j < e.len() && i != j ==> #[trigger] e[i].0 != #[trigger] e[j].0
}

/// The map from each key of `e` to its value.
pub open spec fn assoc_map<V>(e: Seq<(Seq<char>, V)>) -> Map<Seq<char>, V> {
    Map::new(
        |k: Seq<char>| has_key(e, k),
        |k: Seq<char>| e[choose|i: int| 0 <= i < e.len() && #[trigger] e[i].0 == k].1,
    )
}

/// The entry at `i` is what the map holds for its key.
pub proof fn lemma_assoc_at<V>(e: Seq<(Seq<char>, V)>, i: int)
    requires
        distinct_keys(e),
        0 <= i < e.len(),
    ensures
        assoc_map(e).contains_key(e[i].0),
        assoc_map(e)[e[i].0] == e[i].1,
{
    let k = e[i].0;
    assert(has_key(e, k));
    let j = choose|j: int| 0 <= j < e.len() && #[trigger] e[j].0 == k;
    assert(j == i);
}

/// The map of an empty list is empty.
pub proof fn lemma_assoc_empty<V>(e: Seq<(Seq<char>, V)>)
    requires
        e.len() == 0,
    ensures
        assoc_map(e) == Map::<Seq<char>, V>::empty(),
{
    assert(assoc_map(e) =~= Map::<Seq<char>, V>::empty());
}

/// Replacing the value at `i` replaces the map's value for its key.
pub proof fn lemma_assoc_update<V>(e: Seq<(Seq<char>, V)>, i: int, v: V)
    requires
        distinct_keys(e),
        0 <= i < e.len(),
    ensures
        distinct_keys(e.update(i, (e[i].0, v))),
        assoc_map(e.update(i, (e[i].0, v))) == assoc_map(e).insert(e[i].0, v),
{
    let k = e[i].0;
    let e2 = e.update(i, (k, v));
    assert forall|a: int, b: int| 0 <= a < e2.len() && 0 <= b < e2.len() && a != b implies #[trigger] e2[a].0 != #[trigger] e2[b].0 by {
        assert(e2[a].0 == e[a].0);
        assert(e2[b].0 == e[b].0);
    }
    assert forall|x: Seq<char>| has_key(e2, x) <==> has_key(e, x) by {
        if has_key(e, x) {
            let j = choose|j: int| 0 <= j < e.len() && #[trigger] e[j].0 == x;
            assert(e2[j].0 == x);
        }
        if has_key(e2, x) {
            let j = choose|j: int| 0 <= j < e2.len() && #[trigger] e2[j].0 == x;
            assert(e[j].0 == x);
        }
    }
    assert forall|x: Seq<char>| #[trigger] assoc_map(e2).contains_key(x) implies assoc_map(e2)[x] == assoc_map(e).insert(k, v)[x] by {
        let j = choose|j: int| 0 <= j < e2.len() && #[trigger] e2[j].0 == x;
        lemma_assoc_at(e2, j);
        if j == i {
        } else {
            assert(e[j].0 == x);
            lemma_assoc_at(e, j);
        }
    }
    assert(assoc_map(e2) =~= assoc_map(e).insert(k, v));
}

/// Appending an entry with a new key adds it to the map.
pub proof fn lemma_assoc_push<V>(e: Seq<(Seq<char>, V)>, k: Seq<char>, v: V)
    requires
        distinct_keys(e),
        !has_key(e, k),
    ensures
        distinct_keys(e.push((k, v))),
        assoc_map(e.push((k, v))) == assoc_map(e).insert(k, v),
{
    let e2 = e.push((k, v));
    assert forall|a: int, b: int| 0 <= a < e2.len() && 0 <= b < e2.len() && a != b implies #[trigger] e2[a].0 != #[trigger] e2[b].0 by {
        if a < e.len() && b < e.len() {
            assert(e2[a] == e[a]);
            assert(e2[b] == e[b]);
        } else if a < e.len() {
            assert(e2[a] == e[a]);
        } else {
            assert(e2[b] == e[b]);
        }
    }
    assert forall|x: Seq<char>| has_key(e2, x) <==> (has_key(e, x) || x == k) by {
        if has_key(e, x) {
            let j = choose|j: int| 0 <= j < e.len() && #[trigger] e[j].0 == x;
            assert(e2[j].0 == x);
        }
        if x == k {
            assert(e2[e.len() as int].0 == x);
        }
        if has_key(e2, x) && x != k {
            let j = choose|j: int| 0 <= j < e2.len() && #[trigger] e2[j].0 == x;
            assert(j < e.len());
            assert(e[j].0 == x);
        }
    }
    assert forall|x: Seq<char>| #[trigger] assoc_map(e2).contains_key(x) implies assoc_map(e2)[x] == assoc_map(e).insert(k, v)[x] by {
        let j = choose|j: int| 0 <= j < e2.len() && #[trigger] e2[j].0 == x;
        lemma_assoc_at(e2, j);
        if j < e.len() {
            assert(e2[j] == e[j]);
            lemma_assoc_at(e, j);
        }
    }
    assert(assoc_map(e2) =~= assoc_map(e).insert(k, v));
}

/// Removing the entry at `i` removes its key from the map.
pub proof fn lemma_assoc_remove<V>(e: Seq<(Seq<char>, V)>, i: int)
    requires
        distinct_keys(e),
        0 <= i < e.len(),
    ensures
        distinct_keys(e.remove(i)),
        assoc_map(e.remove(i)) == assoc_map(e).remove(e[i].0),
{
    let k = e[i].0;
    let e2 = e.remove(i);
    assert forall|a: int| 0 <= a < e2.len() implies #[trigger] e2[a] == e[if a < i { a } else { a + 1 }] by {}
    assert forall|a: int, b: int| 0 <= a < e2.len() && 0 <= b < e2.len() && a != b implies #[trigger] e2[a].0 != #[trigger] e2[b].0 by {
        assert(e2[a] == e[if a < i { a } else { a + 1 }]);
        assert(e2[b] == e[if b < i { b } else { b + 1 }]);
    }
    assert forall|x: Seq<char>| has_key(e2, x) <==> (has_key(e, x) && x != k) by {
        if has_key(e2, x) {
            let j = choose|j: int| 0 <= j < e2.len() && #[trigger] e2[j].0 == x;
            let jj = if j < i { j } else { j + 1 };
            assert(e2[j] == e[jj]);
            assert(e[jj].0 == x);
            assert(jj != i);
        }
        if has_key(e, x) && x != k {
            let j = choose|j: int| 0 <= j < e.len() && #[trigger] e[j].0 == x;
            assert(j != i);
            let jj = if j < i { j } else { j - 1 };
            assert(e2[jj] == e[j]);
            assert(e2[jj].0 == x);
        }
    }
    assert forall|x: Seq<char>| #[trigger] assoc_map(e2).contains_key(x) implies assoc_map(e2)[x] == assoc_map(e).remove(k)[x] by {
        let j = choose|j: int| 0 <= j < e2.len() && #[trigger] e2[j].0 == x;
        lemma_assoc_at(e2, j);
        let jj = if j < i { j } else { j + 1 };
        assert(e2[j] == e[jj]);
        lemma_assoc_at(e, jj);
    }
    assert(assoc_map(e2) =~= assoc_map(e).remove(k));
}

} // verus!
