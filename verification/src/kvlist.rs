//! Association-list reasoning: a sequence of key-value pairs with distinct
//! keys, viewed as a `Map`. Both broker stores (pending sessions keyed by
//! CSRF state, token records keyed by client identity) are vectors whose
//! mathematical content is given by these definitions.

use vstd::prelude::*;

verus! {

/// The value bound to `k`, taking the first matching pair.
pub open spec fn kv_lookup<K, V>(s: Seq<(K, V)>, k: K) -> Option<V>
    decreases s.len(),
{
    if s.len() == 0 {
        None
    } else if s[0].0 == k {
        Some(s[0].1)
    } else {
        kv_lookup(s.skip(1), k)
    }
}

/// No two pairs share a key.
pub open spec fn kv_distinct<K, V>(s: Seq<(K, V)>) -> bool {
    forall|i: int, j: int| 0 <= i < j < s.len() ==> s[i].0 != s[j].0
}

/// The association list as a map.
pub open spec fn kv_map<K, V>(s: Seq<(K, V)>) -> Map<K, V> {
    Map::new(|k: K| kv_lookup(s, k) is Some, |k: K| kv_lookup(s, k)->Some_0)
}

pub proof fn lemma_kv_lookup_none<K, V>(s: Seq<(K, V)>, k: K)
    ensures
        (kv_lookup(s, k) is None) <==> (forall|i: int| 0 <= i < s.len() ==> s[i].0 != k),
    decreases s.len(),
{
    if s.len() > 0 {
        lemma_kv_lookup_none(s.skip(1), k);
        if s[0].0 != k {
            if forall|i: int| 0 <= i < s.skip(1).len() ==> s.skip(1)[i].0 != k {
                assert forall|i: int| 0 <= i < s.len() implies s[i].0 != k by {
                    if i > 0 {
                        assert(s.skip(1)[i - 1] == s[i]);
                    }
                }
            } else {
                let i = choose|i: int| 0 <= i < s.skip(1).len() && s.skip(1)[i].0 == k;
                assert(s[i + 1].0 == k);
            }
        }
    }
}

pub proof fn lemma_kv_lookup_at<K, V>(s: Seq<(K, V)>, i: int)
    requires
        kv_distinct(s),
        0 <= i < s.len(),
    ensures
        kv_lookup(s, s[i].0) == Some(s[i].1),
    decreases i,
{
    if i > 0 {
        assert(kv_distinct(s.skip(1))) by {
            assert forall|m: int, n: int| 0 <= m < n < s.skip(1).len() implies s.skip(1)[m].0
                != s.skip(1)[n].0 by {
                assert(s.skip(1)[m] == s[m + 1]);
                assert(s.skip(1)[n] == s[n + 1]);
            }
        }
        assert(s.skip(1)[i - 1] == s[i]);
        lemma_kv_lookup_at(s.skip(1), i - 1);
    }
}

pub proof fn lemma_kv_lookup_push<K, V>(s: Seq<(K, V)>, e: (K, V), k: K)
    ensures
        kv_lookup(s.push(e), k) == (if kv_lookup(s, k) is Some {
            kv_lookup(s, k)
        } else if e.0 == k {
            Some(e.1)
        } else {
            None
        }),
    decreases s.len(),
{
    if s.len() == 0 {
        assert(s.push(e)[0] == e);
        assert(s.push(e).skip(1) =~= Seq::<(K, V)>::empty());
        assert(kv_lookup(Seq::<(K, V)>::empty(), k) is None);
        assert(kv_lookup(s, k) is None);
    } else {
        assert(s.push(e)[0] == s[0]);
        assert(s.push(e).skip(1) =~= s.skip(1).push(e));
        lemma_kv_lookup_push(s.skip(1), e, k);
        assert(kv_lookup(s.push(e), k) == (if s[0].0 == k {
            Some(s[0].1)
        } else {
            kv_lookup(s.skip(1).push(e), k)
        }));
    }
}

pub proof fn lemma_kv_lookup_remove<K, V>(s: Seq<(K, V)>, i: int, k: K)
    requires
        kv_distinct(s),
        0 <= i < s.len(),
    ensures
        kv_lookup(s.remove(i), k) == (if s[i].0 == k {
            None
        } else {
            kv_lookup(s, k)
        }),
    decreases i,
{
    assert(kv_distinct(s.skip(1))) by {
        assert forall|m: int, n: int| 0 <= m < n < s.skip(1).len() implies s.skip(1)[m].0
            != s.skip(1)[n].0 by {
            assert(s.skip(1)[m] == s[m + 1]);
            assert(s.skip(1)[n] == s[n + 1]);
        }
    }
    if i == 0 {
        assert(s.remove(0) =~= s.skip(1));
        if s[0].0 == k {
            lemma_kv_lookup_none(s.skip(1), k);
            assert forall|j: int| 0 <= j < s.skip(1).len() implies s.skip(1)[j].0 != k by {
                assert(s.skip(1)[j] == s[j + 1]);
            }
        }
    } else {
        assert(s.remove(i)[0] == s[0]);
        assert(s.remove(i).skip(1) =~= s.skip(1).remove(i - 1));
        assert(s.skip(1)[i - 1] == s[i]);
        lemma_kv_lookup_remove(s.skip(1), i - 1, k);
    }
}

pub proof fn lemma_kv_distinct_remove<K, V>(s: Seq<(K, V)>, i: int)
    requires
        kv_distinct(s),
        0 <= i < s.len(),
    ensures
        kv_distinct(s.remove(i)),
{
    assert forall|m: int, n: int| 0 <= m < n < s.remove(i).len() implies s.remove(i)[m].0
        != s.remove(i)[n].0 by {
        let m0: int = if m < i {
            m
        } else {
            m + 1
        };
        let n0: int = if n < i {
            n
        } else {
            n + 1
        };
        assert(s.remove(i)[m] == s[m0]);
        assert(s.remove(i)[n] == s[n0]);
    }
}

pub proof fn lemma_kv_distinct_push<K, V>(s: Seq<(K, V)>, e: (K, V))
    requires
        kv_distinct(s),
        kv_lookup(s, e.0) is None,
    ensures
        kv_distinct(s.push(e)),
{
    lemma_kv_lookup_none(s, e.0);
    assert forall|m: int, n: int| 0 <= m < n < s.push(e).len() implies s.push(e)[m].0
        != s.push(e)[n].0 by {
        assert(s.push(e)[m] == s[m]);
        if n < s.len() {
            assert(s.push(e)[n] == s[n]);
        } else {
            assert(s.push(e)[n] == e);
        }
    }
}

/// Removing index `i` removes exactly the binding of its key from the map.
pub proof fn lemma_kv_map_remove<K, V>(s: Seq<(K, V)>, i: int)
    requires
        kv_distinct(s),
        0 <= i < s.len(),
    ensures
        kv_map(s.remove(i)) =~= kv_map(s).remove(s[i].0),
{
    assert forall|k: K| true implies #[trigger] kv_lookup(s.remove(i), k) == (if s[i].0 == k {
        None
    } else {
        kv_lookup(s, k)
    }) by {
        lemma_kv_lookup_remove(s, i, k);
    }
}

/// Pushing a pair whose key is absent adds exactly that binding to the map.
pub proof fn lemma_kv_map_push<K, V>(s: Seq<(K, V)>, e: (K, V))
    requires
        kv_lookup(s, e.0) is None,
    ensures
        kv_map(s.push(e)) =~= kv_map(s).insert(e.0, e.1),
{
    assert forall|k: K| true implies #[trigger] kv_lookup(s.push(e), k) == (if kv_lookup(s, k)
        is Some {
        kv_lookup(s, k)
    } else if e.0 == k {
        Some(e.1)
    } else {
        None
    }) by {
        lemma_kv_lookup_push(s, e, k);
    }
}

pub proof fn lemma_kv_map_empty<K, V>()
    ensures
        kv_map(Seq::<(K, V)>::empty()) =~= Map::<K, V>::empty(),
{
}

} // verus!
