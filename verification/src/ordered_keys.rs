//! The keys of a map in ascending order.

use std::collections::BTreeMap;
use vstd::prelude::*;

verus! {

broadcast use vstd::std_specs::btree::group_btree_axioms;

/// The elements of `keys` below `bound`, in ascending order.
pub open spec fn keys_below(keys: Set<u64>, bound: nat) -> Seq<u64>
    decreases bound,
{
    if bound == 0 {
        Seq::empty()
    } else {
        let key = (bound - 1) as u64;
        if keys.contains(key) {
            keys_below(keys, (bound - 1) as nat).push(key)
        } else {
            keys_below(keys, (bound - 1) as nat)
        }
    }
}

/// All elements of `keys`, in ascending order.
pub open spec fn ordered(keys: Set<u64>) -> Seq<u64> {
    keys_below(keys, (u64::MAX + 1) as nat)
}

/// Every element of `s` is smaller than all that follow it.
pub open spec fn ascending(s: Seq<u64>) -> bool {
    forall|i: int, j: int| 0 <= i < j < s.len() ==> s[i] < s[j]
}

proof fn lemma_keys_below(keys: Set<u64>, bound: nat)
    requires
        bound <= u64::MAX + 1,
    ensures
        ascending(keys_below(keys, bound)),
        forall|k: u64|
            #![trigger keys_below(keys, bound).contains(k)]
            keys_below(keys, bound).contains(k) <==> keys.contains(k) && k < bound,
    decreases bound,
{
    if bound > 0 {
        let lower = keys_below(keys, (bound - 1) as nat);
        let key = (bound - 1) as u64;
        lemma_keys_below(keys, (bound - 1) as nat);
        let all = keys_below(keys, bound);
        if keys.contains(key) {
            assert forall|i: int, j: int| 0 <= i < j < all.len() implies all[i] < all[j] by {
                assert(lower.contains(lower[i]));
            }
            assert forall|k: u64| all.contains(k) <==> keys.contains(k) && k < bound by {
                if k == key {
                    assert(all[all.len() - 1] == key);
                } else if lower.contains(k) {
                    let i = choose|i: int| 0 <= i < lower.len() && lower[i] == k;
                    assert(all[i] == k);
                } else if all.contains(k) {
                    let i = choose|i: int| 0 <= i < all.len() && all[i] == k;
                    assert(lower[i] == k);
                }
            }
        }
    }
}

/// The ordering of a set of keys lists exactly those keys, in ascending order.
pub proof fn lemma_ordered(keys: Set<u64>)
    ensures
        ascending(ordered(keys)),
        forall|k: u64| #[trigger] ordered(keys).contains(k) <==> keys.contains(k),
{
    lemma_keys_below(keys, (u64::MAX + 1) as nat);
}

/// Two ascending sequences with the same elements are the same.
proof fn lemma_ascending_unique(a: Seq<u64>, b: Seq<u64>)
    requires
        ascending(a),
        ascending(b),
        forall|k: u64| #[trigger] a.contains(k) <==> b.contains(k),
    ensures
        a == b,
    decreases a.len(),
{
    if a.len() == 0 {
        if b.len() > 0 {
            assert(b.contains(b[0]));
            assert(a.contains(b[0]));
        }
        assert(a =~= b);
    } else {
        assert(a.contains(a.last()));
        assert(b.contains(a.last()));
        assert(b.contains(b.last()));
        assert(a.contains(b.last()));
        let i = choose|i: int| 0 <= i < b.len() && b[i] == a.last();
        let j = choose|j: int| 0 <= j < a.len() && a[j] == b.last();
        assert(a.last() == b.last());
        let a0 = a.drop_last();
        let b0 = b.drop_last();
        assert forall|k: u64| #[trigger] a0.contains(k) <==> b0.contains(k) by {
            if a0.contains(k) {
                let x = choose|x: int| 0 <= x < a0.len() && a0[x] == k;
                assert(a[x] == k);
                assert(a.contains(k));
                let y = choose|y: int| 0 <= y < b.len() && b[y] == k;
                assert(b0[y] == k);
            }
            if b0.contains(k) {
                let x = choose|x: int| 0 <= x < b0.len() && b0[x] == k;
                assert(b[x] == k);
                assert(a.contains(k) <==> b.contains(k));
                let y = choose|y: int| 0 <= y < a.len() && a[y] == k;
                assert(a0[y] == k);
            }
        }
        lemma_ascending_unique(a0, b0);
        assert(a =~= a0.push(a.last()));
        assert(b =~= b0.push(b.last()));
    }
}

/// An ascending sequence with exactly the given keys is their ordering.
pub proof fn lemma_ordered_unique(keys: Set<u64>, s: Seq<u64>)
    requires
        ascending(s),
        forall|k: u64| #[trigger] s.contains(k) <==> keys.contains(k),
    ensures
        s == ordered(keys),
{
    lemma_ordered(keys);
    lemma_ascending_unique(s, ordered(keys));
}

/// The keys of a map, in ascending order.
pub fn ordered_keys<V>(map: &BTreeMap<u64, V>) -> (keys: Vec<u64>)
    ensures
        keys@ == ordered(map@.dom()),
{
    let mut keys: Vec<u64> = Vec::new();
    let entries = map.iter();
    let ghost listed = vstd::std_specs::iter::IteratorSpec::remaining(&entries);
    let ghost names = listed.map_values(|kv: (&u64, &V)| *kv.0);
    for entry in it: entries
        invariant
            it.seq() == listed,
            keys@.len() == it.index(),
            forall|i: int| 0 <= i < it.index() ==> keys@[i] == *(#[trigger] listed[i]).0,
    {
        keys.push(*entry.0);
    }
    proof {
        assert(keys@ =~= names);
        assert(ascending(keys@)) by {
            assert forall|i: int, j: int| 0 <= i < j < keys@.len() implies keys@[i]
                < keys@[j] by {
                assert(vstd::std_specs::cmp::OrdSpec::cmp_spec(&names[i], &names[j]) is Less);
            }
        }
        assert forall|k: u64| #[trigger] keys@.contains(k) <==> map@.dom().contains(k) by {
            if keys@.contains(k) {
                let i = choose|i: int| 0 <= i < keys@.len() && keys@[i] == k;
                assert(map@.contains_key(*listed[i].0));
            }
            if map@.contains_key(k) {
                assert(listed.contains((&k, &map@[k])));
                let i = choose|i: int| 0 <= i < listed.len() && listed[i] == (&k, &map@[k]);
                assert(names[i] == k);
                assert(keys@[i] == k);
            }
        }
        lemma_ordered_unique(map@.dom(), keys@);
    }
    keys
}

} // verus!
