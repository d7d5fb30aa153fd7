//! Trace ports.
//!
//! The ports to capture are a set. In an artifact they stand as a list, in
//! ascending order, each port once.

use vstd::prelude::*;
use std::collections::BTreeSet;
use vstd::std_specs::btree::*;
use vstd::std_specs::cmp::OrdSpec;
use vstd::std_specs::iter::IteratorSpec;

verus! {

/// Whether each number of `list` is less than the next.
pub open spec fn ascending(list: Seq<u32>) -> bool {
    forall|i: int, j: int| 0 <= i < j < list.len() ==> list[i] < list[j]
}

/// The numbers of `ports` in ascending order.
pub open spec fn ordered(ports: Set<u32>) -> Seq<u32> {
    choose|list: Seq<u32>| ascending(list) && list.to_set() == ports
}

/// A set has one ascending list at most.
pub proof fn lemma_ascending_is_unique(first: Seq<u32>, second: Seq<u32>)
    requires
        ascending(first),
        ascending(second),
        first.to_set() == second.to_set(),
    ensures
        first == second,
    decreases first.len(),
{
    if first.len() == 0 {
        if second.len() > 0 {
            assert(second.to_set().contains(second[0]));
            assert(first.to_set().contains(second[0]));
        }
        assert(first =~= second);
    } else {
        let top = first.last();
        assert(first.to_set().contains(first[first.len() - 1]));
        assert(second.to_set().contains(top));
        let at = choose|k: int| 0 <= k < second.len() && second[k] == top;
        let other = second.last();
        assert(second.to_set().contains(second[second.len() - 1]));
        assert(first.to_set().contains(other));
        let back = choose|k: int| 0 <= k < first.len() && first[k] == other;
        assert(other == top);
        let a = first.drop_last();
        let b = second.drop_last();
        assert forall|x: u32| a.to_set().contains(x) <==> b.to_set().contains(x) by {
            if a.to_set().contains(x) {
                let k = choose|k: int| 0 <= k < a.len() && a[k] == x;
                assert(first[k] == x);
                assert(first.to_set().contains(x));
                assert(second.to_set().contains(x));
                let m = choose|m: int| 0 <= m < second.len() && second[m] == x;
                assert(m < second.len() - 1);
                assert(b[m] == x);
            }
            if b.to_set().contains(x) {
                let k = choose|k: int| 0 <= k < b.len() && b[k] == x;
                assert(second[k] == x);
                assert(second.to_set().contains(x));
                assert(first.to_set().contains(x));
                let m = choose|m: int| 0 <= m < first.len() && first[m] == x;
                assert(m < first.len() - 1);
                assert(a[m] == x);
            }
        }
        assert(a.to_set() =~= b.to_set());
        lemma_ascending_is_unique(a, b);
        assert(first =~= a.push(top));
        assert(second =~= b.push(top));
    }
}

/// An ascending list of a set is its ordered list.
pub proof fn lemma_ordered(list: Seq<u32>)
    requires
        ascending(list),
    ensures
        ordered(list.to_set()) == list,
        ascending(ordered(list.to_set())),
{
    let chosen = ordered(list.to_set());
    lemma_ascending_is_unique(list, chosen);
}

proof fn lemma_keys_are_ordered()
    ensures
        key_obeys_cmp_spec::<u32>(),
{
    broadcast use group_btree_axioms;
    broadcast use vstd::laws_cmp::group_laws_cmp;

}

proof fn lemma_increasing_is_ascending(all: Seq<&u32>)
    requires
        increasing_seq(all),
    ensures
        ascending(all.unref()),
{
    broadcast use group_btree_axioms;
    broadcast use vstd::laws_cmp::group_laws_cmp;

    assert(vstd::laws_cmp::obeys_cmp::<u32>());
    assert(vstd::laws_cmp::obeys_cmp::<&u32>());
    axiom_increasing_seq_meaning::<&u32>(all);
    assert forall|i: int, j: int| 0 <= i < j < all.unref().len() implies all.unref()[i]
        < all.unref()[j] by {
        assert((&all[i]).cmp_spec(&all[j]) is Less);
    }
}

/// Lists `ports` in ascending order.
pub fn port_list(ports: &BTreeSet<u32>) -> (list: Vec<u32>)
    ensures
        list@ == ordered(ports@),
        ascending(list@),
        list@.to_set() == ports@,
{
    broadcast use group_btree_axioms;

    proof {
        lemma_keys_are_ordered();
    }
    let ghost all = ports.iter().remaining();
    let mut list: Vec<u32> = Vec::new();
    for port in it: ports.iter()
        invariant
            it.seq() == all,
            list@ == all.unref().take(it.index()),
    {
        list.push(*port);
        proof {
            assert(all.unref().take(it.index() + 1) =~= all.unref().take(it.index()).push(*port));
        }
    }
    proof {
        assert(all.unref().take(all.len() as int) =~= all.unref());
        lemma_increasing_is_ascending(all);
        lemma_ordered(list@);
    }
    list
}

} // verus!
