//! Association lists: a sequence of `(key, value)` pairs whose keys are
//! pairwise distinct, read as a finite map.  Both the configuration
//! properties of a topic and the topic table of the in-memory backend are
//! kept this way.
use vstd::prelude::*;

verus! {

/// No key occurs twice in `s`.
pub open spec fn keys_distinct<K, V>(s: Seq<(K, V)>) -> bool {
    forall|i: int, j: int|
        0 <= i < s.len() && 0 <= j < s.len() && i != j ==> #[trigger] s[i].0 != #[trigger] s[j].0
}

/// Some pair of `s` has key `k`.
pub open spec fn has_key<K, V>(s: Seq<(K, V)>, k: K) -> bool {
    exists|i: int| 0 <= i < s.len() && #[trigger] s[i].0 == k
}

/// The map that an association list denotes.
pub open spec fn pairs_to_map<K, V>(s: Seq<(K, V)>) -> Map<K, V> {
    Map::new(
        |k: K| has_key(s, k),
        |k: K| s[choose|i: int| 0 <= i < s.len() && #[trigger] s[i].0 == k].1,
    )
}

/// Looking a present key up gives the value stored beside it.
pub proof fn lemma_lookup<K, V>(s: Seq<(K, V)>, i: int)
    requires
        keys_distinct(s),
        0 <= i < s.len(),
    ensures
        pairs_to_map(s).contains_key(s[i].0),
        pairs_to_map(s)[s[i].0] == s[i].1,
{
    let k = s[i].0;
    assert(has_key(s, k));
    let j = choose|j: int| 0 <= j < s.len() && #[trigger] s[j].0 == k;
    assert(s[j].0 == k);
    assert(j == i);
}

/// A key of the map occurs at some index of the list.
pub proof fn lemma_key_index<K, V>(s: Seq<(K, V)>, k: K) -> (i: int)
    requires
        pairs_to_map(s).contains_key(k),
    ensures
        0 <= i < s.len(),
        s[i].0 == k,
{
    choose|i: int| 0 <= i < s.len() && #[trigger] s[i].0 == k
}

/// The empty list denotes the empty map.
pub proof fn lemma_empty<K, V>(s: Seq<(K, V)>)
    requires
        s.len() == 0,
    ensures
        pairs_to_map(s) == Map::<K, V>::empty(),
        keys_distinct(s),
{
    assert(pairs_to_map(s) =~= Map::<K, V>::empty());
}

/// Replacing the value at an index updates the map at that key.
pub proof fn lemma_update<K, V>(s: Seq<(K, V)>, i: int, v: V)
    requires
        keys_distinct(s),
        0 <= i < s.len(),
    ensures
        keys_distinct(s.update(i, (s[i].0, v))),
        pairs_to_map(s.update(i, (s[i].0, v))) == pairs_to_map(s).insert(s[i].0, v),
{
    let t = s.update(i, (s[i].0, v));
    let k = s[i].0;
    assert forall|a: int, b: int| 0 <= a < t.len() && 0 <= b < t.len() && a != b implies #[trigger] t[a].0
        != #[trigger] t[b].0 by {
        assert(t[a].0 == s[a].0);
        assert(t[b].0 == s[b].0);
    }
    assert forall|x: K| #[trigger] has_key(t, x) == has_key(s, x) by {
        if has_key(t, x) {
            let j = choose|j: int| 0 <= j < t.len() && #[trigger] t[j].0 == x;
            assert(s[j].0 == x);
        }
        if has_key(s, x) {
            let j = choose|j: int| 0 <= j < s.len() && #[trigger] s[j].0 == x;
            assert(t[j].0 == x);
        }
    }
    assert forall|x: K| #[trigger] pairs_to_map(t).contains_key(x) implies pairs_to_map(t)[x]
        == pairs_to_map(s).insert(k, v)[x] by {
        let j = lemma_key_index(t, x);
        lemma_lookup(t, j);
        if j == i {
        } else {
            assert(s[j] == t[j]);
            lemma_lookup(s, j);
        }
    }
    assert(pairs_to_map(t) =~= pairs_to_map(s).insert(k, v));
}

/// Appending a pair with a fresh key inserts it into the map.
pub proof fn lemma_push<K, V>(s: Seq<(K, V)>, k: K, v: V)
    requires
        keys_distinct(s),
        !has_key(s, k),
    ensures
        keys_distinct(s.push((k, v))),
        pairs_to_map(s.push((k, v))) == pairs_to_map(s).insert(k, v),
        has_key(s.push((k, v)), k),
{
    let t = s.push((k, v));
    assert(t[s.len() as int].0 == k);
    assert forall|a: int, b: int| 0 <= a < t.len() && 0 <= b < t.len() && a != b implies #[trigger] t[a].0
        != #[trigger] t[b].0 by {
        if a < s.len() && b < s.len() {
            assert(t[a] == s[a]);
            assert(t[b] == s[b]);
        } else if a < s.len() {
            assert(t[a] == s[a]);
            assert(!(s[a].0 == k));
        } else {
            assert(t[b] == s[b]);
            assert(!(s[b].0 == k));
        }
    }
    assert forall|x: K| #[trigger] has_key(t, x) == (has_key(s, x) || x == k) by {
        if has_key(t, x) {
            let j = choose|j: int| 0 <= j < t.len() && #[trigger] t[j].0 == x;
            if j < s.len() {
                assert(s[j].0 == x);
            }
        }
        if has_key(s, x) {
            let j = choose|j: int| 0 <= j < s.len() && #[trigger] s[j].0 == x;
            assert(t[j].0 == x);
        }
    }
    assert forall|x: K| #[trigger] pairs_to_map(t).contains_key(x) implies pairs_to_map(t)[x]
        == pairs_to_map(s).insert(k, v)[x] by {
        let j = lemma_key_index(t, x);
        lemma_lookup(t, j);
        if j < s.len() {
            assert(s[j] == t[j]);
            lemma_lookup(s, j);
        }
    }
    assert(pairs_to_map(t) =~= pairs_to_map(s).insert(k, v));
}

/// Removing the pair at an index removes its key from the map.
pub proof fn lemma_remove<K, V>(s: Seq<(K, V)>, i: int)
    requires
        keys_distinct(s),
        0 <= i < s.len(),
    ensures
        keys_distinct(s.remove(i)),
        pairs_to_map(s.remove(i)) == pairs_to_map(s).remove(s[i].0),
{
    let t = s.remove(i);
    let k = s[i].0;
    assert forall|a: int| 0 <= a < t.len() implies #[trigger] t[a] == (if a < i { s[a] } else {
        s[a + 1]
    }) by {}
    assert forall|a: int, b: int| 0 <= a < t.len() && 0 <= b < t.len() && a != b implies #[trigger] t[a].0
        != #[trigger] t[b].0 by {
        let sa = if a < i { a } else { a + 1 };
        let sb = if b < i { b } else { b + 1 };
        assert(t[a] == s[sa]);
        assert(t[b] == s[sb]);
    }
    assert forall|x: K| #[trigger] has_key(t, x) == (has_key(s, x) && x != k) by {
        if has_key(t, x) {
            let j = choose|j: int| 0 <= j < t.len() && #[trigger] t[j].0 == x;
            let sj = if j < i { j } else { j + 1 };
            assert(t[j] == s[sj]);
            assert(s[sj].0 == x);
        }
        if has_key(s, x) && x != k {
            let j = choose|j: int| 0 <= j < s.len() && #[trigger] s[j].0 == x;
            if j < i {
                assert(t[j] == s[j]);
            } else {
                assert(j != i);
                assert(t[j - 1] == s[j]);
            }
        }
    }
    assert forall|x: K| #[trigger] pairs_to_map(t).contains_key(x) implies pairs_to_map(t)[x]
        == pairs_to_map(s).remove(k)[x] by {
        let j = lemma_key_index(t, x);
        lemma_lookup(t, j);
        let sj = if j < i { j } else { j + 1 };
        assert(t[j] == s[sj]);
        lemma_lookup(s, sj);
    }
    assert(pairs_to_map(t) =~= pairs_to_map(s).remove(k));
}

/// Prefixes of a list with distinct keys grow by one binding at a time.
pub proof fn lemma_take_push<K, V>(s: Seq<(K, V)>, i: int)
    requires
        keys_distinct(s),
        0 <= i < s.len(),
    ensures
        keys_distinct(s.take(i)),
        keys_distinct(s.take(i + 1)),
        !has_key(s.take(i), s[i].0),
        s.take(i + 1) == s.take(i).push(s[i]),
        pairs_to_map(s.take(i + 1)) == pairs_to_map(s.take(i)).insert(s[i].0, s[i].1),
{
    let t = s.take(i);
    assert forall|a: int, b: int| 0 <= a < t.len() && 0 <= b < t.len() && a != b implies #[trigger] t[a].0
        != #[trigger] t[b].0 by {
        assert(t[a] == s[a]);
        assert(t[b] == s[b]);
    }
    if has_key(t, s[i].0) {
        let j = choose|j: int| 0 <= j < t.len() && #[trigger] t[j].0 == s[i].0;
        assert(t[j] == s[j]);
    }
    assert(s.take(i + 1) =~= t.push(s[i]));
    lemma_push(t, s[i].0, s[i].1);
}

/// A whole list is its own longest prefix.
pub proof fn lemma_take_all<K, V>(s: Seq<(K, V)>)
    ensures
        s.take(s.len() as int) == s,
{
    assert(s.take(s.len() as int) =~= s);
}

} // verus!
