//! Sequences of records viewed as maps from a text key to a value.
//!
//! Several tables of the library (users by subject, whitelist entries by
//! command, sessions by identifier) are kept in a `Vec` whose elements have
//! pairwise distinct keys.  `index_map` gives the map such a vector stands
//! for; the lemmas relate the usual vector updates to map updates.

use vstd::prelude::*;

verus! {

/// Some position of `s` whose element has key `k` (meaningful when one exists).
pub open spec fn key_pos<A>(s: Seq<A>, key: spec_fn(A) -> Seq<char>, k: Seq<char>) -> int {
    choose|i: int| 0 <= i < s.len() && key(s[i]) == k
}

/// Whether some element of `s` has key `k`.
pub open spec fn has_key<A>(s: Seq<A>, key: spec_fn(A) -> Seq<char>, k: Seq<char>) -> bool {
    exists|i: int| 0 <= i < s.len() && key(s[i]) == k
}

/// The map from each key occurring in `s` to the value of its element.
pub open spec fn index_map<A, V>(
    s: Seq<A>,
    key: spec_fn(A) -> Seq<char>,
    val: spec_fn(A) -> V,
) -> Map<Seq<char>, V> {
    Map::new(|k: Seq<char>| has_key(s, key, k), |k: Seq<char>| val(s[key_pos(s, key, k)]))
}

/// No two elements of `s` share a key.
pub open spec fn keys_unique<A>(s: Seq<A>, key: spec_fn(A) -> Seq<char>) -> bool {
    forall|i: int, j: int|
        0 <= i < s.len() && 0 <= j < s.len() && i != j ==> key(s[i]) != key(s[j])
}

/// With unique keys, the element found for the key of `s[i]` is `s[i]`.
pub proof fn lemma_key_pos<A>(s: Seq<A>, key: spec_fn(A) -> Seq<char>, i: int)
    requires
        keys_unique(s, key),
        0 <= i < s.len(),
    ensures
        has_key(s, key, key(s[i])),
        key_pos(s, key, key(s[i])) == i,
{
    assert(has_key(s, key, key(s[i])));
}

/// The map of `s[i]`'s key gives its value.
pub proof fn lemma_index_map_at<A, V>(
    s: Seq<A>,
    key: spec_fn(A) -> Seq<char>,
    val: spec_fn(A) -> V,
    i: int,
)
    requires
        keys_unique(s, key),
        0 <= i < s.len(),
    ensures
        index_map(s, key, val).contains_key(key(s[i])),
        index_map(s, key, val)[key(s[i])] == val(s[i]),
{
    lemma_key_pos(s, key, i);
}

/// Pushing an element with a fresh key inserts that key into the map.
pub proof fn lemma_index_map_push<A, V>(
    s: Seq<A>,
    key: spec_fn(A) -> Seq<char>,
    val: spec_fn(A) -> V,
    x: A,
)
    requires
        keys_unique(s, key),
        !has_key(s, key, key(x)),
    ensures
        keys_unique(s.push(x), key),
        index_map(s.push(x), key, val) == index_map(s, key, val).insert(key(x), val(x)),
{
    let t = s.push(x);
    assert forall|i: int, j: int|
        0 <= i < t.len() && 0 <= j < t.len() && i != j implies key(t[i]) != key(t[j]) by {
        if i < s.len() && j < s.len() {
            assert(t[i] == s[i] && t[j] == s[j]);
        } else if i < s.len() {
            assert(t[i] == s[i]);
        } else {
            assert(t[j] == s[j]);
        }
    }
    let m1 = index_map(t, key, val);
    let m2 = index_map(s, key, val).insert(key(x), val(x));
    assert forall|k: Seq<char>| m1.contains_key(k) <==> m2.contains_key(k) by {
        if has_key(t, key, k) {
            let i = choose|i: int| 0 <= i < t.len() && key(t[i]) == k;
            if i < s.len() {
                assert(s[i] == t[i]);
            }
        }
        if has_key(s, key, k) {
            let i = choose|i: int| 0 <= i < s.len() && key(s[i]) == k;
            assert(t[i] == s[i]);
        }
        if k == key(x) {
            assert(t[s.len() as int] == x);
        }
    }
    assert forall|k: Seq<char>| m1.contains_key(k) implies m1[k] == m2[k] by {
        let i = choose|i: int| 0 <= i < t.len() && key(t[i]) == k;
        lemma_key_pos(t, key, i);
        if i < s.len() {
            assert(t[i] == s[i]);
            lemma_key_pos(s, key, i);
        } else {
            assert(t[i] == x);
        }
    }
    assert(m1 =~= m2);
}

/// Replacing the element at `i` by one with the same key updates that key.
pub proof fn lemma_index_map_update<A, V>(
    s: Seq<A>,
    key: spec_fn(A) -> Seq<char>,
    val: spec_fn(A) -> V,
    i: int,
    x: A,
)
    requires
        keys_unique(s, key),
        0 <= i < s.len(),
        key(x) == key(s[i]),
    ensures
        keys_unique(s.update(i, x), key),
        index_map(s.update(i, x), key, val) == index_map(s, key, val).insert(key(x), val(x)),
{
    let t = s.update(i, x);
    assert forall|a: int, b: int|
        0 <= a < t.len() && 0 <= b < t.len() && a != b implies key(t[a]) != key(t[b]) by {
        assert(key(t[a]) == key(s[a]));
        assert(key(t[b]) == key(s[b]));
    }
    let m1 = index_map(t, key, val);
    let m2 = index_map(s, key, val).insert(key(x), val(x));
    assert forall|k: Seq<char>| m1.contains_key(k) <==> m2.contains_key(k) by {
        if has_key(t, key, k) {
            let a = choose|a: int| 0 <= a < t.len() && key(t[a]) == k;
            assert(key(s[a]) == k);
        }
        if has_key(s, key, k) {
            let a = choose|a: int| 0 <= a < s.len() && key(s[a]) == k;
            assert(key(t[a]) == k);
        }
        if k == key(x) {
            assert(key(t[i]) == k);
        }
    }
    assert forall|k: Seq<char>| m1.contains_key(k) implies m1[k] == m2[k] by {
        let a = choose|a: int| 0 <= a < t.len() && key(t[a]) == k;
        lemma_key_pos(t, key, a);
        if a != i {
            assert(t[a] == s[a]);
            lemma_key_pos(s, key, a);
        }
    }
    assert(m1 =~= m2);
}

/// The empty sequence stands for the empty map.
pub proof fn lemma_index_map_empty<A, V>(
    s: Seq<A>,
    key: spec_fn(A) -> Seq<char>,
    val: spec_fn(A) -> V,
)
    requires
        s.len() == 0,
    ensures
        keys_unique(s, key),
        index_map(s, key, val) == Map::<Seq<char>, V>::empty(),
{
    assert(index_map(s, key, val) =~= Map::<Seq<char>, V>::empty());
}

} // verus!
