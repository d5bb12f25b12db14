use std::collections::{HashMap, HashSet};
use vstd::prelude::*;
use vstd::std_specs::iter::IteratorSpec;

verus! {

broadcast use vstd::std_specs::hash::group_hash_axioms;

/// The keys of a map, each once, in the order the map yields them.
pub fn map_keys<V>(m: &HashMap<u128, V>) -> (keys: Vec<u128>)
    ensures
        keys@.no_duplicates(),
        keys@.to_set() == m@.dom(),
        keys@.len() == m@.dom().len(),
{
    let mut keys: Vec<u128> = Vec::new();
    for k in it: m.keys()
        invariant
            keys@.len() == it.index(),
            forall|j: int| 0 <= j < keys@.len() ==> keys@[j] == *it.seq()[j],
    {
        keys.push(*k);
    }
    proof {
        let ks = m.keys().remaining();
        assert(keys@ =~= ks.unref());
    }
    keys
}

/// The items of a set, each once, in the order the set yields them.
pub fn set_items(s: &HashSet<u128>) -> (items: Vec<u128>)
    ensures
        items@.no_duplicates(),
        items@.to_set() == s@,
        items@.len() == s@.len(),
{
    let mut items: Vec<u128> = Vec::new();
    for k in it: s.iter()
        invariant
            items@.len() == it.index(),
            forall|j: int| 0 <= j < items@.len() ==> items@[j] == *it.seq()[j],
    {
        items.push(*k);
    }
    proof {
        let ks = s.iter().remaining();
        assert(items@ =~= ks.unref());
        items@.unique_seq_to_set();
    }
    items
}

/// Whether `picked` holds, without repeats, exactly those of the first `n`
/// items of `all` that satisfy `keep`.
pub open spec fn selects(picked: Seq<u128>, all: Seq<u128>, n: int, keep: spec_fn(u128) -> bool) -> bool {
    &&& picked.no_duplicates()
    &&& forall|j: int|
        0 <= j < picked.len() ==> keep(#[trigger] picked[j]) && exists|k: int|
            0 <= k < n && all[k] == picked[j]
    &&& forall|k: int| 0 <= k < n && keep(#[trigger] all[k]) ==> picked.contains(all[k])
}

/// Looking at one more item of a duplicate-free `all` keeps the selection:
/// the item is appended if it passes and skipped if not.
pub proof fn lemma_selects_step(picked: Seq<u128>, all: Seq<u128>, n: int, keep: spec_fn(u128) -> bool)
    requires
        all.no_duplicates(),
        0 <= n < all.len(),
        selects(picked, all, n, keep),
    ensures
        keep(all[n]) ==> selects(picked.push(all[n]), all, n + 1, keep),
        !keep(all[n]) ==> selects(picked, all, n + 1, keep),
{
    if keep(all[n]) {
        let next = picked.push(all[n]);
        assert forall|a: int, b: int| 0 <= a < next.len() && 0 <= b < next.len() && a != b implies next[a]
            != next[b] by {
            if a < picked.len() && b < picked.len() {
            } else if a < picked.len() {
                let k = choose|k: int| 0 <= k < n && all[k] == picked[a];
            } else {
                let k = choose|k: int| 0 <= k < n && all[k] == picked[b];
            }
        }
        assert forall|j: int| 0 <= j < next.len() implies keep(#[trigger] next[j]) && exists|k: int|
            0 <= k < n + 1 && all[k] == next[j] by {
            if j < picked.len() {
                let k = choose|k: int| 0 <= k < n && all[k] == picked[j];
                assert(0 <= k < n + 1 && all[k] == next[j]);
            } else {
                assert(0 <= n < n + 1 && all[n] == next[j]);
            }
        }
        assert forall|k: int| 0 <= k < n + 1 && keep(#[trigger] all[k]) implies next.contains(all[k]) by {
            if k < n {
                let j = choose|j: int| 0 <= j < picked.len() && picked[j] == all[k];
                assert(next[j] == all[k]);
            } else {
                assert(next[picked.len() as int] == all[k]);
            }
        }
    } else {
        assert forall|j: int| 0 <= j < picked.len() implies keep(#[trigger] picked[j]) && exists|k: int|
            0 <= k < n + 1 && all[k] == picked[j] by {
            let k = choose|k: int| 0 <= k < n && all[k] == picked[j];
            assert(0 <= k < n + 1 && all[k] == picked[j]);
        }
    }
}

/// A selection over the whole of `all` holds exactly the items of `all` that
/// satisfy `keep`.
pub proof fn lemma_selects_all(picked: Seq<u128>, all: Seq<u128>, keep: spec_fn(u128) -> bool)
    requires
        selects(picked, all, all.len() as int, keep),
    ensures
        picked.no_duplicates(),
        picked.to_set() == all.to_set().filter(keep),
        picked.len() == all.to_set().filter(keep).len(),
{
    assert forall|x: u128| picked.to_set().contains(x) <==> all.to_set().filter(keep).contains(x) by {
        if picked.to_set().contains(x) {
            let j = choose|j: int| 0 <= j < picked.len() && picked[j] == x;
            let k = choose|k: int| 0 <= k < all.len() && all[k] == picked[j];
            assert(all.contains(x));
        }
        if all.to_set().filter(keep).contains(x) {
            assert(all.contains(x));
            let k = choose|k: int| 0 <= k < all.len() && all[k] == x;
            assert(picked.contains(all[k]));
        }
    }
    assert(picked.to_set() =~= all.to_set().filter(keep));
    picked.unique_seq_to_set();
}

} // verus!
