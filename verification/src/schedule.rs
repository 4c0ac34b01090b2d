//! The serialized history of one mutex walkthrough. The lock admits the n
//! workers of a round one at a time, so every run is equivalent to replaying
//! the workers' units of work in some acquisition order: a sequence holding
//! each worker index exactly once, arranged however the scheduler chose. The
//! results proved here hold of every such order, which is exactly the claim
//! the walkthroughs make about every run.

use crate::cells::{CollectionCell, CounterCell};
use vstd::prelude::*;
use vstd::seq_lib::group_to_multiset_ensures;

verus! {

/// The worker indices of a round of n workers, in spawn order.
pub open spec fn worker_indices(n: nat) -> Seq<u64> {
    Seq::new(n, |i: int| i as u64)
}

/// An acquisition order of a round of n workers: the order in which the lock
/// admitted them. It holds each worker index exactly once; the arrangement is
/// the scheduler's choice.
pub open spec fn is_acquisition_order(order: Seq<u64>, n: nat) -> bool {
    order.to_multiset() == worker_indices(n).to_multiset()
}

/// Every acquisition order of a round of n workers has length n.
pub proof fn lemma_acquisition_order_len(order: Seq<u64>, n: nat)
    requires
        is_acquisition_order(order, n),
    ensures
        order.len() == n,
{
    broadcast use group_to_multiset_ensures;

    assert(order.to_multiset().len() == order.len());
    assert(worker_indices(n).to_multiset().len() == n);
}

/// The counter's value after replaying a round: one increment per
/// acquisition, applied in order.
pub open spec fn counter_after(start: nat, order: Seq<u64>) -> nat
    decreases order.len(),
{
    if order.len() == 0 {
        start
    } else {
        counter_after(start, order.drop_last()) + 1
    }
}

/// Replaying increments adds exactly the number of acquisitions.
pub proof fn lemma_counter_after_adds_len(start: nat, order: Seq<u64>)
    ensures
        counter_after(start, order) == start + order.len(),
    decreases order.len(),
{
    if order.len() > 0 {
        lemma_counter_after_adds_len(start, order.drop_last());
    }
}

/// What the counter walkthrough exists to show: whatever acquisition order
/// the scheduler produces for its n workers, a counter started at zero ends
/// at exactly n — no increment is lost or double-counted.
pub proof fn lemma_counter_round_exact(order: Seq<u64>, n: nat)
    requires
        is_acquisition_order(order, n),
    ensures
        counter_after(0, order) == n,
{
    lemma_acquisition_order_len(order, n);
    lemma_counter_after_adds_len(0, order);
}

/// Replays a round on the counter: one increment per acquiring worker, in the
/// given order. This is the serialized history the lock enforces at run time.
pub fn run_counter_round(cell: &mut CounterCell, order: &Vec<u64>)
    requires
        old(cell).value + order@.len() <= u64::MAX,
    ensures
        final(cell).value == counter_after(old(cell).value as nat, order@),
        final(cell).value == old(cell).value + order@.len(),
{
    let n: usize = order.len();
    let mut k: usize = 0;
    while k < n
        invariant
            k <= n,
            n == order@.len(),
            old(cell).value + n <= u64::MAX,
            cell.value == old(cell).value + k,
        decreases n - k,
    {
        cell.increment();
        k = k + 1;
    }
    proof {
        lemma_counter_after_adds_len(old(cell).value as nat, order@);
    }
}

/// The collection's contents after replaying a round: the initial contents,
/// then each acquiring worker's index, in acquisition order.
pub open spec fn collection_after(init: Seq<u64>, order: Seq<u64>) -> Seq<u64> {
    init + order
}

/// Replays a round on the collection: each acquiring worker appends its own
/// index, in the given order.
pub fn run_collection_round(cell: &mut CollectionCell, order: &Vec<u64>)
    ensures
        final(cell).items@ == collection_after(old(cell).items@, order@),
{
    let n: usize = order.len();
    let mut k: usize = 0;
    while k < n
        invariant
            k <= n,
            n == order@.len(),
            cell.items@ == old(cell).items@ + order@.take(k as int),
        decreases n - k,
    {
        proof {
            assert((old(cell).items@ + order@.take(k as int)).push(order@[k as int]) =~= old(
                cell,
            ).items@ + order@.take(k + 1 as int));
        }
        cell.append(order[k]);
        k = k + 1;
    }
    proof {
        assert(order@.take(n as int) =~= order@);
    }
}

/// What the collection walkthrough exists to show: whatever acquisition order
/// the scheduler produces for its n workers, a collection started empty ends
/// holding each index below n exactly once — only the arrangement is the
/// scheduler's choice.
pub proof fn lemma_collection_round_exact(order: Seq<u64>, n: nat)
    requires
        is_acquisition_order(order, n),
        n <= u64::MAX,
    ensures
        collection_after(Seq::<u64>::empty(), order) == order,
        order.len() == n,
        order.no_duplicates(),
        order.to_set() == Set::new(|x: u64| (x as nat) < n),
{
    broadcast use group_to_multiset_ensures;

    assert(collection_after(Seq::<u64>::empty(), order) =~= order);
    lemma_acquisition_order_len(order, n);
    assert(worker_indices(n).no_duplicates()) by {
        assert forall|i: int, j: int|
            0 <= i < n && 0 <= j < n && i != j implies worker_indices(n)[i] != worker_indices(
            n,
        )[j] by {
            assert(worker_indices(n)[i] == i as u64);
            assert(worker_indices(n)[j] == j as u64);
        }
    }
    worker_indices(n).lemma_multiset_has_no_duplicates();
    order.lemma_multiset_has_no_duplicates_conv();
    assert(order.to_set() =~= Set::new(|x: u64| (x as nat) < n)) by {
        assert forall|x: u64| order.contains(x) implies (x as nat) < n by {
            assert(order.to_multiset().count(x) > 0);
            assert(worker_indices(n).contains(x));
            let i = choose|i: int| 0 <= i < n && worker_indices(n)[i] == x;
            assert(x == i as u64);
        }
        assert forall|x: u64| (x as nat) < n implies order.contains(x) by {
            assert(worker_indices(n)[x as int] == x);
            assert(worker_indices(n).contains(x));
            assert(order.to_multiset().count(x) > 0);
        }
    }
}

} // verus!
