//! Association lists with distinct keys, viewed as maps.
//!
//! The conflict buffer and the settings store keep their entries in plain
//! vectors; these spec functions and lemmas let their contracts speak the
//! language of `Map` instead of vector indices.

use vstd::prelude::*;

verus! {

/// The keys of an association list, in order.
pub open spec fn keys_of<K, V>(items: Seq<(K, V)>) -> Seq<K> {
    items.map_values(|it: (K, V)| it.0)
}

/// No key occurs twice.
pub open spec fn distinct_keys<K, V>(items: Seq<(K, V)>) -> bool {
    keys_of(items).no_duplicates()
}

/// The index of the entry holding `k`.
pub open spec fn idx_of<K, V>(items: Seq<(K, V)>, k: K) -> int {
    choose|i: int| 0 <= i < items.len() && items[i].0 == k
}

/// The association list read as a map.
pub open spec fn as_map<K, V>(items: Seq<(K, V)>) -> Map<K, V> {
    Map::new(|k: K| keys_of(items).contains(k), |k: K| items[idx_of(items, k)].1)
}

/// In a duplicate-free list the entry at index `i` is what the map gives
/// for its key.
pub proof fn lemma_as_map_index<K, V>(items: Seq<(K, V)>, i: int)
    requires
        distinct_keys(items),
        0 <= i < items.len(),
    ensures
        as_map(items).dom().contains(items[i].0),
        as_map(items)[items[i].0] == items[i].1,
{
    let k = items[i].0;
    assert(keys_of(items)[i] == k);
    let j = idx_of(items, k);
    assert(0 <= j < items.len() && items[j].0 == k) by {
        assert(0 <= i < items.len() && items[i].0 == k);
    }
    assert(keys_of(items)[j] == k);
    assert(j == i);
}

/// Appending an entry with a fresh key is `Map::insert`.
pub proof fn lemma_as_map_push<K, V>(items: Seq<(K, V)>, k: K, v: V)
    requires
        distinct_keys(items),
        !keys_of(items).contains(k),
    ensures
        distinct_keys(items.push((k, v))),
        as_map(items.push((k, v))) =~= as_map(items).insert(k, v),
{
    let post = items.push((k, v));
    let n = items.len() as int;
    assert(keys_of(post) =~= keys_of(items).push(k));
    assert(distinct_keys(post)) by {
        assert forall|a: int, b: int|
            0 <= a < b < keys_of(post).len() implies keys_of(post)[a] != keys_of(post)[b] by {
            if b < n {
                assert(keys_of(items)[a] == keys_of(post)[a]);
                assert(keys_of(items)[b] == keys_of(post)[b]);
            } else {
                assert(keys_of(post)[b] == k);
                assert(keys_of(items)[a] == keys_of(post)[a]);
                assert(!keys_of(items).contains(k));
            }
        }
    }
    assert forall|k2: K| #[trigger]
        as_map(post).dom().contains(k2) <==> as_map(items).insert(k, v).dom().contains(k2) by {
        if k2 == k {
            lemma_as_map_index(post, n);
        } else {
            if keys_of(post).contains(k2) {
                let j = choose|j: int| 0 <= j < keys_of(post).len() && keys_of(post)[j] == k2;
                assert(keys_of(items)[j] == k2);
            }
            if keys_of(items).contains(k2) {
                let j = choose|j: int| 0 <= j < keys_of(items).len() && keys_of(items)[j] == k2;
                assert(keys_of(post)[j] == k2);
            }
        }
    }
    assert forall|k2: K| as_map(post).dom().contains(k2) implies #[trigger] as_map(post)[k2]
        == as_map(items).insert(k, v)[k2] by {
        if k2 == k {
            lemma_as_map_index(post, n);
        } else {
            let j = choose|j: int| 0 <= j < keys_of(post).len() && keys_of(post)[j] == k2;
            assert(post[j].0 == k2);
            assert(j < n) by {
                assert(post[n].0 == k);
            }
            assert(items[j].0 == k2);
            lemma_as_map_index(post, j);
            lemma_as_map_index(items, j);
        }
    }
}

/// Removing the entry at index `i` is `Map::remove` of its key.
pub proof fn lemma_as_map_remove<K, V>(items: Seq<(K, V)>, i: int)
    requires
        distinct_keys(items),
        0 <= i < items.len(),
    ensures
        distinct_keys(items.remove(i)),
        as_map(items.remove(i)) =~= as_map(items).remove(items[i].0),
{
    let post = items.remove(i);
    let k = items[i].0;
    assert(keys_of(post) =~= keys_of(items).remove(i));
    assert(distinct_keys(post)) by {
        assert forall|a: int, b: int|
            0 <= a < b < keys_of(post).len() implies keys_of(post)[a] != keys_of(post)[b] by {
            let a0 = if a < i {
                a
            } else {
                a + 1
            };
            let b0 = if b < i {
                b
            } else {
                b + 1
            };
            assert(keys_of(post)[a] == keys_of(items)[a0]);
            assert(keys_of(post)[b] == keys_of(items)[b0]);
        }
    }
    assert forall|k2: K| #[trigger]
        as_map(post).dom().contains(k2) <==> as_map(items).remove(k).dom().contains(k2) by {
        if keys_of(post).contains(k2) {
            let j = choose|j: int| 0 <= j < keys_of(post).len() && keys_of(post)[j] == k2;
            if j < i {
                assert(keys_of(items)[j] == k2);
            } else {
                assert(keys_of(items)[j + 1] == k2);
            }
            assert(k2 != k) by {
                if j < i {
                    assert(keys_of(items)[i] == k);
                } else {
                    assert(keys_of(items)[i] == k);
                }
            }
        }
        if keys_of(items).contains(k2) && k2 != k {
            let j = choose|j: int| 0 <= j < keys_of(items).len() && keys_of(items)[j] == k2;
            assert(j != i) by {
                assert(keys_of(items)[i] == k);
            }
            if j < i {
                assert(keys_of(post)[j] == k2);
            } else {
                assert(keys_of(post)[j - 1] == k2);
            }
        }
    }
    assert forall|k2: K| as_map(post).dom().contains(k2) implies #[trigger] as_map(post)[k2]
        == as_map(items).remove(k)[k2] by {
        let j = choose|j: int| 0 <= j < keys_of(post).len() && keys_of(post)[j] == k2;
        assert(post[j].0 == k2);
        lemma_as_map_index(post, j);
        if j < i {
            assert(items[j] == post[j]);
            lemma_as_map_index(items, j);
        } else {
            assert(items[j + 1] == post[j]);
            lemma_as_map_index(items, j + 1);
        }
        assert(k2 != k) by {
            assert(keys_of(items)[i] == k);
        }
    }
}

} // verus!
