//! Tables of records stored in a sequence and looked up by a key.
use vstd::prelude::*;

verus! {

/// No two entries of the table share a key.
pub open spec fn unique_keys<T, K>(s: Seq<T>, key: spec_fn(T) -> K) -> bool {
    forall|i: int, j: int|
        0 <= i < s.len() && 0 <= j < s.len() && #[trigger] key(s[i]) == #[trigger] key(s[j])
            ==> i == j
}

/// Whether some entry of the table has the key.
pub open spec fn has_key<T, K>(s: Seq<T>, key: spec_fn(T) -> K, k: K) -> bool {
    exists|i: int| 0 <= i < s.len() && #[trigger] key(s[i]) == k
}

/// The table as a map from key to record.
pub open spec fn keyed_map<T, K>(s: Seq<T>, key: spec_fn(T) -> K) -> Map<K, T> {
    Map::new(
        |k: K| has_key(s, key, k),
        |k: K| s[choose|i: int| 0 <= i < s.len() && #[trigger] key(s[i]) == k],
    )
}

/// An entry of a table with unique keys is what the map gives for its key.
pub proof fn lemma_entry<T, K>(s: Seq<T>, key: spec_fn(T) -> K, i: int)
    requires
        unique_keys(s, key),
        0 <= i < s.len(),
    ensures
        keyed_map(s, key).contains_key(key(s[i])),
        keyed_map(s, key)[key(s[i])] == s[i],
{
    let k = key(s[i]);
    assert(has_key(s, key, k));
    let j = choose|j: int| 0 <= j < s.len() && #[trigger] key(s[j]) == k;
    assert(key(s[j]) == key(s[i]));
}

/// Appending a record under a fresh key inserts it into the map.
pub proof fn lemma_push<T, K>(s: Seq<T>, key: spec_fn(T) -> K, x: T)
    requires
        unique_keys(s, key),
        !has_key(s, key, key(x)),
    ensures
        unique_keys(s.push(x), key),
        keyed_map(s.push(x), key) == keyed_map(s, key).insert(key(x), x),
{
    let t = s.push(x);
    assert forall|i: int, j: int|
        0 <= i < t.len() && 0 <= j < t.len() && #[trigger] key(t[i]) == #[trigger] key(t[j])
        implies i == j by {
        if i < s.len() && j == s.len() {
            assert(key(s[i]) == key(x));
        }
        if j < s.len() && i == s.len() {
            assert(key(s[j]) == key(x));
        }
    }
    assert forall|k: K| #[trigger] has_key(t, key, k) == (has_key(s, key, k) || k == key(x)) by {
        if has_key(t, key, k) {
            let i = choose|i: int| 0 <= i < t.len() && #[trigger] key(t[i]) == k;
            if i < s.len() {
                assert(key(s[i]) == k);
            }
        }
        if has_key(s, key, k) {
            let i = choose|i: int| 0 <= i < s.len() && #[trigger] key(s[i]) == k;
            assert(key(t[i]) == k);
        }
        if k == key(x) {
            assert(key(t[s.len() as int]) == k);
        }
    }
    assert forall|k: K| #[trigger] keyed_map(t, key).contains_key(k)
        implies keyed_map(t, key)[k] == keyed_map(s, key).insert(key(x), x)[k] by {
        let i = choose|i: int| 0 <= i < t.len() && #[trigger] key(t[i]) == k;
        lemma_entry(t, key, i);
        if i < s.len() {
            assert(t[i] == s[i]);
            lemma_entry(s, key, i);
        }
    }
    assert(keyed_map(t, key) =~= keyed_map(s, key).insert(key(x), x));
}

/// Replacing an entry by a record under the same key updates the map.
pub proof fn lemma_update<T, K>(s: Seq<T>, key: spec_fn(T) -> K, i: int, x: T)
    requires
        unique_keys(s, key),
        0 <= i < s.len(),
        key(x) == key(s[i]),
    ensures
        unique_keys(s.update(i, x), key),
        keyed_map(s.update(i, x), key) == keyed_map(s, key).insert(key(x), x),
{
    let t = s.update(i, x);
    assert forall|a: int, b: int|
        0 <= a < t.len() && 0 <= b < t.len() && #[trigger] key(t[a]) == #[trigger] key(t[b])
        implies a == b by {
        assert(key(t[a]) == key(s[a]));
        assert(key(t[b]) == key(s[b]));
    }
    assert forall|k: K| #[trigger] has_key(t, key, k) == has_key(s, key, k) by {
        if has_key(t, key, k) {
            let a = choose|a: int| 0 <= a < t.len() && #[trigger] key(t[a]) == k;
            assert(key(s[a]) == k);
        }
        if has_key(s, key, k) {
            let a = choose|a: int| 0 <= a < s.len() && #[trigger] key(s[a]) == k;
            assert(key(t[a]) == k);
        }
    }
    lemma_entry(s, key, i);
    assert forall|k: K| #[trigger] keyed_map(t, key).contains_key(k)
        implies keyed_map(t, key)[k] == keyed_map(s, key).insert(key(x), x)[k] by {
        let a = choose|a: int| 0 <= a < t.len() && #[trigger] key(t[a]) == k;
        lemma_entry(t, key, a);
        if a != i {
            lemma_entry(s, key, a);
        }
    }
    assert(keyed_map(t, key) =~= keyed_map(s, key).insert(key(x), x));
}

/// Removing an entry removes its key from the map.
pub proof fn lemma_remove<T, K>(s: Seq<T>, key: spec_fn(T) -> K, i: int)
    requires
        unique_keys(s, key),
        0 <= i < s.len(),
    ensures
        unique_keys(s.remove(i), key),
        keyed_map(s.remove(i), key) == keyed_map(s, key).remove(key(s[i])),
{
    let t = s.remove(i);
    assert forall|a: int| 0 <= a < t.len() implies #[trigger] t[a] == s[if a < i { a } else { a + 1 }] by {}
    assert forall|a: int, b: int|
        0 <= a < t.len() && 0 <= b < t.len() && #[trigger] key(t[a]) == #[trigger] key(t[b])
        implies a == b by {
        let a1 = if a < i { a } else { a + 1 };
        let b1 = if b < i { b } else { b + 1 };
        assert(key(s[a1]) == key(s[b1]));
    }
    assert forall|k: K| #[trigger] has_key(t, key, k) == (has_key(s, key, k) && k != key(s[i])) by {
        if has_key(t, key, k) {
            let a = choose|a: int| 0 <= a < t.len() && #[trigger] key(t[a]) == k;
            let a1 = if a < i { a } else { a + 1 };
            assert(key(s[a1]) == k);
            assert(a1 != i);
        }
        if has_key(s, key, k) && k != key(s[i]) {
            let a = choose|a: int| 0 <= a < s.len() && #[trigger] key(s[a]) == k;
            assert(a != i);
            let a1 = if a < i { a } else { a - 1 };
            assert(key(t[a1]) == k);
        }
    }
    assert forall|k: K| #[trigger] keyed_map(t, key).contains_key(k)
        implies keyed_map(t, key)[k] == keyed_map(s, key).remove(key(s[i]))[k] by {
        let a = choose|a: int| 0 <= a < t.len() && #[trigger] key(t[a]) == k;
        lemma_entry(t, key, a);
        let a1 = if a < i { a } else { a + 1 };
        lemma_entry(s, key, a1);
    }
    assert(keyed_map(t, key) =~= keyed_map(s, key).remove(key(s[i])));
}

} // verus!
