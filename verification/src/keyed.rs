//! Sequences of entries with distinct integer keys, seen as maps from key to entry.

use vstd::prelude::*;

verus! {

/// The map from key to entry that a sequence of entries denotes (a later entry wins a key).
pub open spec fn seq_to_map<K, E>(s: Seq<E>, key: spec_fn(E) -> K) -> Map<K, E>
    decreases s.len(),
{
    if s.len() == 0 {
        Map::empty()
    } else {
        seq_to_map(s.drop_last(), key).insert(key(s.last()), s.last())
    }
}

/// No two entries share a key.
pub open spec fn distinct_keys<K, E>(s: Seq<E>, key: spec_fn(E) -> K) -> bool {
    forall|i: int, j: int| 0 <= i < s.len() && 0 <= j < s.len() && i != j ==> key(s[i]) != key(
        s[j],
    )
}

/// Keys of the map are exactly the keys of the entries, and each maps to its entry.
pub proof fn lemma_seq_to_map_contents<K, E>(s: Seq<E>, key: spec_fn(E) -> K)
    requires
        distinct_keys(s, key),
    ensures
        seq_to_map(s, key).dom().finite(),
        seq_to_map(s, key).len() == s.len(),
        forall|k: K|
            seq_to_map(s, key).contains_key(k) <==> exists|i: int| 0 <= i < s.len() && key(s[i]) == k,
        forall|i: int| 0 <= i < s.len() ==> #[trigger] seq_to_map(s, key)[key(s[i])] == s[i],
    decreases s.len(),
{
    if s.len() > 0 {
        let t = s.drop_last();
        assert(distinct_keys(t, key));
        lemma_seq_to_map_contents(t, key);
        let k0 = key(s.last());
        assert(!seq_to_map(t, key).contains_key(k0)) by {
            if seq_to_map(t, key).contains_key(k0) {
                let i = choose|i: int| 0 <= i < t.len() && key(t[i]) == k0;
                assert(key(s[i]) == key(s[s.len() - 1]));
            }
        }
        assert forall|k: K|
            seq_to_map(s, key).contains_key(k) implies exists|i: int|
                0 <= i < s.len() && key(s[i]) == k by {
            if k == k0 {
                assert(key(s[s.len() - 1]) == k);
            } else {
                let i = choose|i: int| 0 <= i < t.len() && key(t[i]) == k;
                assert(s[i] == t[i]);
            }
        }
        assert forall|k: K| (exists|i: int| 0 <= i < s.len() && key(s[i]) == k) implies seq_to_map(
            s,
            key,
        ).contains_key(k) by {
            let i = choose|i: int| 0 <= i < s.len() && key(s[i]) == k;
            if i < s.len() - 1 {
                assert(t[i] == s[i]);
            }
        }
        assert forall|i: int| 0 <= i < s.len() implies #[trigger] seq_to_map(s, key)[key(s[i])]
            == s[i] by {
            if i < s.len() - 1 {
                assert(t[i] == s[i]);
                assert(key(s[i]) != k0);
            }
        }
    }
}

/// Appending an entry with a fresh key inserts it into the map.
pub proof fn lemma_seq_to_map_push<K, E>(s: Seq<E>, key: spec_fn(E) -> K, e: E)
    ensures
        seq_to_map(s.push(e), key) == seq_to_map(s, key).insert(key(e), e),
{
    assert(s.push(e).drop_last() =~= s);
}

/// Replacing an entry by one with the same key updates the map at that key.
pub proof fn lemma_seq_to_map_update<K, E>(s: Seq<E>, key: spec_fn(E) -> K, i: int, e: E)
    requires
        distinct_keys(s, key),
        0 <= i < s.len(),
        key(e) == key(s[i]),
    ensures
        distinct_keys(s.update(i, e), key),
        seq_to_map(s.update(i, e), key) == seq_to_map(s, key).insert(key(e), e),
    decreases s.len(),
{
    let u = s.update(i, e);
    assert(distinct_keys(u, key)) by {
        assert forall|a: int, b: int| 0 <= a < u.len() && 0 <= b < u.len() && a != b implies key(
            u[a],
        ) != key(u[b]) by {
            if a == i {
                assert(key(u[a]) == key(s[i]));
            }
            if b == i {
                assert(key(u[b]) == key(s[i]));
            }
        }
    }
    if i == s.len() - 1 {
        assert(u.drop_last() =~= s.drop_last());
        assert(seq_to_map(s, key) == seq_to_map(s.drop_last(), key).insert(key(s.last()), s.last()));
        assert(seq_to_map(s.drop_last(), key).insert(key(s.last()), s.last()).insert(key(e), e)
            =~= seq_to_map(s.drop_last(), key).insert(key(e), e));
    } else {
        let t = s.drop_last();
        assert(distinct_keys(t, key));
        lemma_seq_to_map_update(t, key, i, e);
        assert(u.drop_last() =~= t.update(i, e));
        assert(u.last() == s.last());
        assert(key(s.last()) != key(e)) by {
            assert(key(s[s.len() - 1]) != key(s[i]));
        }
        assert(seq_to_map(u, key) =~= seq_to_map(s, key).insert(key(e), e));
    }
}

/// Removing an entry removes its key from the map.
pub proof fn lemma_seq_to_map_remove<K, E>(s: Seq<E>, key: spec_fn(E) -> K, i: int)
    requires
        distinct_keys(s, key),
        0 <= i < s.len(),
    ensures
        distinct_keys(s.remove(i), key),
        seq_to_map(s.remove(i), key) == seq_to_map(s, key).remove(key(s[i])),
    decreases s.len(),
{
    let u = s.remove(i);
    assert(distinct_keys(u, key)) by {
        assert forall|a: int, b: int| 0 <= a < u.len() && 0 <= b < u.len() && a != b implies key(
            u[a],
        ) != key(u[b]) by {
            let a2 = if a < i { a } else { a + 1 };
            let b2 = if b < i { b } else { b + 1 };
            assert(u[a] == s[a2]);
            assert(u[b] == s[b2]);
        }
    }
    let t = s.drop_last();
    assert(distinct_keys(t, key));
    lemma_seq_to_map_contents(t, key);
    if i == s.len() - 1 {
        assert(u =~= t);
        let k0 = key(s.last());
        assert(!seq_to_map(t, key).contains_key(k0)) by {
            if seq_to_map(t, key).contains_key(k0) {
                let j = choose|j: int| 0 <= j < t.len() && key(t[j]) == k0;
                assert(key(s[j]) == key(s[s.len() - 1]));
            }
        }
        assert(seq_to_map(s, key).remove(k0) =~= seq_to_map(t, key));
    } else {
        lemma_seq_to_map_remove(t, key, i);
        assert(u.drop_last() =~= t.remove(i));
        assert(u.last() == s.last());
        assert(key(s.last()) != key(s[i])) by {
            assert(key(s[s.len() - 1]) != key(s[i]));
        }
        assert(seq_to_map(u, key) =~= seq_to_map(s, key).remove(key(s[i])));
    }
}

/// The entries of `s` that satisfy `keep`, each transformed by `f`, in order.
pub open spec fn keep_map<E>(s: Seq<E>, keep: spec_fn(E) -> bool, f: spec_fn(E) -> E) -> Seq<E>
    decreases s.len(),
{
    if s.len() == 0 {
        Seq::empty()
    } else if keep(s.last()) {
        keep_map(s.drop_last(), keep, f).push(f(s.last()))
    } else {
        keep_map(s.drop_last(), keep, f)
    }
}

/// The map denoted by `m` restricted to the entries that satisfy `keep`, each transformed by `f`.
pub open spec fn restrict_map<K, E>(m: Map<K, E>, keep: spec_fn(E) -> bool, f: spec_fn(E) -> E) -> Map<K, E> {
    Map::new(|k: K| m.contains_key(k) && keep(m[k]), |k: K| f(m[k]))
}

/// Keeping and transforming entries (without changing keys) keeps keys distinct and acts on the
/// map entry by entry.
pub proof fn lemma_keep_map<K, E>(s: Seq<E>, key: spec_fn(E) -> K, keep: spec_fn(E) -> bool, f: spec_fn(E) -> E)
    requires
        distinct_keys(s, key),
        forall|e: E| #[trigger] key(f(e)) == key(e),
    ensures
        distinct_keys(keep_map(s, keep, f), key),
        keep_map(s, keep, f).len() <= s.len(),
        forall|i: int| 0 <= i < keep_map(s, keep, f).len() ==> exists|j: int| 0 <= j < s.len() && #[trigger] keep_map(s, keep, f)[i] == f(s[j]) && keep(s[j]),
        seq_to_map(keep_map(s, keep, f), key) == restrict_map(seq_to_map(s, key), keep, f),
    decreases s.len(),
{
    lemma_seq_to_map_contents(s, key);
    if s.len() == 0 {
        assert(restrict_map(seq_to_map(s, key), keep, f) =~= Map::empty());
    } else {
        let t = s.drop_last();
        assert(distinct_keys(t, key));
        lemma_keep_map(t, key, keep, f);
        lemma_seq_to_map_contents(t, key);
        let kt = keep_map(t, keep, f);
        let e = s.last();
        let k0 = key(e);
        assert(!seq_to_map(t, key).contains_key(k0)) by {
            if seq_to_map(t, key).contains_key(k0) {
                let i = choose|i: int| 0 <= i < t.len() && key(t[i]) == k0;
                assert(key(s[i]) == key(s[s.len() - 1]));
            }
        }
        assert forall|i: int| 0 <= i < kt.len() implies key(kt[i]) != k0 by {
            let j = choose|j: int| 0 <= j < t.len() && kt[i] == f(t[j]) && keep(t[j]);
            assert(key(kt[i]) == key(t[j]));
            assert(key(s[j]) != key(s[s.len() - 1]));
        }
        if keep(e) {
            let r = kt.push(f(e));
            assert(keep_map(s, keep, f) == r);
            assert(distinct_keys(r, key)) by {
                assert forall|a: int, b: int| 0 <= a < r.len() && 0 <= b < r.len() && a != b implies key(r[a]) != key(r[b]) by {
                    if a == r.len() - 1 {
                        assert(key(r[a]) == k0);
                        assert(r[b] == kt[b]);
                    } else if b == r.len() - 1 {
                        assert(key(r[b]) == k0);
                        assert(r[a] == kt[a]);
                    } else {
                        assert(r[a] == kt[a] && r[b] == kt[b]);
                    }
                }
            }
            assert forall|i: int| 0 <= i < r.len() implies exists|j: int| 0 <= j < s.len() && #[trigger] r[i] == f(s[j]) && keep(s[j]) by {
                if i == r.len() - 1 {
                    assert(r[i] == f(s[s.len() - 1]));
                } else {
                    let j = choose|j: int| 0 <= j < t.len() && kt[i] == f(t[j]) && keep(t[j]);
                    assert(s[j] == t[j]);
                }
            }
            lemma_seq_to_map_push(kt, key, f(e));
            assert(seq_to_map(r, key) =~= restrict_map(seq_to_map(s, key), keep, f));
        } else {
            assert(keep_map(s, keep, f) == kt);
            assert forall|i: int| 0 <= i < kt.len() implies exists|j: int| 0 <= j < s.len() && #[trigger] kt[i] == f(s[j]) && keep(s[j]) by {
                let j = choose|j: int| 0 <= j < t.len() && kt[i] == f(t[j]) && keep(t[j]);
                assert(s[j] == t[j]);
            }
            assert(seq_to_map(kt, key) =~= restrict_map(seq_to_map(s, key), keep, f));
        }
    }
}

} // verus!
