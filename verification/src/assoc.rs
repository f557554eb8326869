//! Ordered key-value lists with string keys: lookup and merge semantics.
//!
//! Shell tables and environment-variable lists are kept as ordered lists of
//! `(String, value)` pairs. Lookup is last-writer-wins; the lists produced
//! and consumed here keep their keys unique.

use crate::text::str_eq;
use vstd::prelude::*;

verus! {

/// Value bound to `key`, taking the last binding when a key repeats.
pub open spec fn assoc_value<T>(entries: Seq<(String, T)>, key: Seq<char>) -> Option<T>
    decreases entries.len(),
{
    if entries.len() == 0 {
        None
    } else if entries.last().0@ == key {
        Some(entries.last().1)
    } else {
        assoc_value(entries.drop_last(), key)
    }
}

/// Whether some binding for `key` is present.
pub open spec fn assoc_has<T>(entries: Seq<(String, T)>, key: Seq<char>) -> bool {
    assoc_value(entries, key) is Some
}

/// No two bindings share a key.
pub open spec fn keys_unique<T>(entries: Seq<(String, T)>) -> bool {
    forall|i: int, j: int| 0 <= i < j < entries.len() ==> entries[i].0@ != entries[j].0@
}

/// A key is bound exactly when some entry carries it.
pub proof fn lemma_assoc_has_exists<T>(entries: Seq<(String, T)>, key: Seq<char>)
    ensures
        assoc_has(entries, key) <==> exists|i: int|
            0 <= i < entries.len() && entries[i].0@ == key,
    decreases entries.len(),
{
    if entries.len() > 0 {
        lemma_assoc_has_exists(entries.drop_last(), key);
        if entries.last().0@ == key {
            assert(entries[entries.len() - 1].0@ == key);
        } else if exists|i: int| 0 <= i < entries.len() && entries[i].0@ == key {
            let i = choose|i: int| 0 <= i < entries.len() && entries[i].0@ == key;
            assert(entries.drop_last()[i] == entries[i]);
        }
    }
}

/// With unique keys, the binding at index `i` is the one lookup returns.
pub proof fn lemma_assoc_value_at<T>(entries: Seq<(String, T)>, i: int, key: Seq<char>)
    requires
        keys_unique(entries),
        0 <= i < entries.len(),
        entries[i].0@ == key,
    ensures
        assoc_value(entries, key) == Some(entries[i].1),
    decreases entries.len(),
{
    if i == entries.len() - 1 {
    } else {
        assert(entries.last().0@ != key);
        assert(entries.drop_last()[i] == entries[i]);
        lemma_assoc_value_at(entries.drop_last(), i, key);
    }
}

/// Index of the first entry bound to `key`, if any.
pub fn assoc_find<T>(entries: &Vec<(String, T)>, key: &str) -> (r: Option<usize>)
    ensures
        r is Some ==> r.unwrap() < entries@.len() && entries@[r.unwrap() as int].0@ == key@,
        r is None ==> forall|i: int| 0 <= i < entries@.len() ==> entries@[i].0@ != key@,
{
    let n = entries.len();
    let mut i: usize = 0;
    while i < n
        invariant
            0 <= i <= n,
            n == entries@.len(),
            forall|j: int| 0 <= j < i ==> entries@[j].0@ != key@,
        decreases n - i,
    {
        if str_eq(entries[i].0.as_str(), key) {
            return Some(i);
        }
        i += 1;
    }
    None
}

/// The merged binding of `key`: the specific layer's value when it binds the
/// key, else the base layer's.
pub open spec fn merged_value<T>(
    base: Seq<(String, T)>,
    specific: Seq<(String, T)>,
    key: Seq<char>,
) -> Option<T> {
    if assoc_has(specific, key) {
        assoc_value(specific, key)
    } else {
        assoc_value(base, key)
    }
}

/// Merge two environment layers key by key: every key of the base layer keeps
/// its position but takes the specific layer's value when that layer binds
/// it, and keys only the specific layer binds are appended in its order.
/// The merge never replaces the base map wholesale.
pub fn merge_env(
    base: &Vec<(String, String)>,
    specific: &Vec<(String, String)>,
) -> (r: Vec<(String, String)>)
    requires
        keys_unique(base@),
        keys_unique(specific@),
    ensures
        keys_unique(r@),
        forall|key: Seq<char>| #[trigger]
            assoc_value(r@, key) == merged_value(base@, specific@, key),
{
    let mut r: Vec<(String, String)> = Vec::new();
    let bn = base.len();
    let mut i: usize = 0;
    while i < bn
        invariant
            keys_unique(base@),
            keys_unique(specific@),
            0 <= i <= bn,
            bn == base@.len(),
            r@.len() == i,
            forall|j: int| 0 <= j < i ==> #[trigger] r@[j].0@ == base@[j].0@,
            keys_unique(r@),
            forall|key: Seq<char>| #[trigger]
                assoc_value(r@, key) == (if assoc_has(base@.take(i as int), key) {
                    merged_value(base@, specific@, key)
                } else {
                    None::<String>
                }),
        decreases bn - i,
    {
        let ghost r_old = r@;
        let ghost key_view = base@[i as int].0@;
        let value: String = match assoc_find(specific, base[i].0.as_str()) {
            Some(idx) => {
                proof {
                    lemma_assoc_value_at(specific@, idx as int, key_view);
                }
                specific[idx].1.clone()
            },
            None => {
                proof {
                    lemma_assoc_has_exists(specific@, key_view);
                }
                base[i].1.clone()
            },
        };
        r.push((base[i].0.clone(), value));
        i += 1;
        proof {
            assert(r@.drop_last() =~= r_old);
            assert(base@.take(i as int).drop_last() =~= base@.take(i - 1));
            lemma_assoc_value_at(base@, i - 1, key_view);
            assert forall|key: Seq<char>| #[trigger]
                assoc_value(r@, key) == (if assoc_has(base@.take(i as int), key) {
                    merged_value(base@, specific@, key)
                } else {
                    None::<String>
                }) by {
                if key != key_view {
                    assert(assoc_value(r@, key) == assoc_value(r_old, key));
                    assert(assoc_value(base@.take(i as int), key) == assoc_value(
                        base@.take(i - 1),
                        key,
                    ));
                }
            }
        }
    }
    proof {
        assert(base@.take(bn as int) =~= base@);
    }
    let sn = specific.len();
    let mut k: usize = 0;
    while k < sn
        invariant
            keys_unique(base@),
            keys_unique(specific@),
            0 <= k <= sn,
            sn == specific@.len(),
            keys_unique(r@),
            forall|key: Seq<char>| #[trigger]
                assoc_value(r@, key) == (if assoc_has(base@, key) || assoc_has(
                    specific@.take(k as int),
                    key,
                ) {
                    merged_value(base@, specific@, key)
                } else {
                    None::<String>
                }),
        decreases sn - k,
    {
        let ghost r_old = r@;
        let ghost key_view = specific@[k as int].0@;
        let found = assoc_find(&r, specific[k].0.as_str());
        proof {
            lemma_assoc_has_exists(r@, key_view);
        }
        if found.is_none() {
            r.push((specific[k].0.clone(), specific[k].1.clone()));
            proof {
                assert(r@.drop_last() =~= r_old);
                lemma_assoc_has_exists(r@, key_view);
                assert forall|a: int, b: int| 0 <= a < b < r@.len() implies r@[a].0@
                    != r@[b].0@ by {
                    if b == r@.len() - 1 {
                        assert(r_old[a] == r@[a]);
                        assert(!assoc_has(r_old, key_view));
                        lemma_assoc_has_exists(r_old, key_view);
                    } else {
                        assert(r_old[a] == r@[a]);
                        assert(r_old[b] == r@[b]);
                    }
                }
            }
        }
        k += 1;
        proof {
            lemma_assoc_value_at(specific@, k - 1, key_view);
            assert(specific@.take(k as int).drop_last() =~= specific@.take(k - 1));
            assert forall|key: Seq<char>| #[trigger]
                assoc_value(r@, key) == (if assoc_has(base@, key) || assoc_has(
                    specific@.take(k as int),
                    key,
                ) {
                    merged_value(base@, specific@, key)
                } else {
                    None::<String>
                }) by {
                if key != key_view {
                    assert(assoc_value(r@, key) == assoc_value(r_old, key));
                    assert(assoc_value(specific@.take(k as int), key) == assoc_value(
                        specific@.take(k - 1),
                        key,
                    ));
                }
            }
        }
    }
    proof {
        assert(specific@.take(sn as int) =~= specific@);
    }
    r
}

/// Copy a key-value list, keeping its bindings exactly.
pub fn clone_env(v: &Vec<(String, String)>) -> (r: Vec<(String, String)>)
    ensures
        r@ == v@,
{
    let n = v.len();
    let mut r: Vec<(String, String)> = Vec::new();
    let mut i: usize = 0;
    while i < n
        invariant
            0 <= i <= n,
            n == v@.len(),
            r@ =~= v@.take(i as int),
        decreases n - i,
    {
        r.push((v[i].0.clone(), v[i].1.clone()));
        i += 1;
    }
    proof {
        assert(v@.take(n as int) =~= v@);
    }
    r
}

} // verus!
