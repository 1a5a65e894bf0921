//! A verified ascending sort for `u64` readings.
//!
//! The aggregator computes medians over sorted copies of the submitted
//! readings; this module provides the sort together with the facts the
//! median specification needs: the result is sorted and is a permutation
//! of the input.

use vstd::prelude::*;
use vstd::relations::{antisymmetric, reflexive, sorted_by, strongly_connected, total_ordering, transitive};

verus! {

/// The ascending order on `u64` readings.
pub open spec fn u64_le() -> spec_fn(u64, u64) -> bool {
    |x: u64, y: u64| x <= y
}

/// `u64_le()` is a total ordering, which makes the sorted permutation of a
/// sequence of readings unique.
pub proof fn lemma_u64_le_total_ordering()
    ensures
        total_ordering(u64_le()),
{
    let r = u64_le();
    assert forall|x: u64| #[trigger] r(x, x) by {}
    assert(reflexive(r));
    assert forall|x: u64, y: u64| #[trigger] r(x, y) && #[trigger] r(y, x) implies x == y by {}
    assert(antisymmetric(r));
    assert forall|x: u64, y: u64, z: u64|
        #[trigger] r(x, y) && #[trigger] r(y, z) implies r(x, z) by {}
    assert(transitive(r));
    assert forall|x: u64, y: u64| #[trigger] r(x, y) || #[trigger] r(y, x) by {}
    assert(strongly_connected(r));
}

/// Inserting an element anywhere in a sequence adds exactly that element to
/// the sequence's multiset.
proof fn lemma_insert_to_multiset(s: Seq<u64>, i: int, x: u64)
    requires
        0 <= i <= s.len(),
    ensures
        s.insert(i, x).to_multiset() == s.to_multiset().insert(x),
{
    broadcast use vstd::seq_lib::group_to_multiset_ensures;
    broadcast use vstd::multiset::group_multiset_axioms;

    let t = s.insert(i, x);
    assert(t.remove(i) =~= s);
    assert(t[i] == x);
    assert(t.remove(i).to_multiset() =~= t.to_multiset().remove(x));
    assert(t.contains(x));
    assert(t.to_multiset().count(x) > 0);
    assert(t.to_multiset() =~= s.to_multiset().insert(x));
}

/// Insert `x` into an already-sorted vector at its ordered position.
fn insert_in_order(sorted: &mut Vec<u64>, x: u64)
    requires
        sorted_by(old(sorted)@, u64_le()),
    ensures
        sorted_by(final(sorted)@, u64_le()),
        final(sorted)@.to_multiset() == old(sorted)@.to_multiset().insert(x),
        final(sorted)@.len() == old(sorted)@.len() + 1,
{
    let mut j: usize = 0;
    while j < sorted.len() && sorted[j] <= x
        invariant
            j <= sorted@.len(),
            sorted@ == old(sorted)@,
            forall|k: int| 0 <= k < j ==> sorted@[k] <= x,
        decreases sorted@.len() - j,
    {
        j += 1;
    }
    proof {
        lemma_insert_to_multiset(old(sorted)@, j as int, x);
    }
    sorted.insert(j, x);
    proof {
        let s = sorted@;
        let prev = old(sorted)@;
        let ji = j as int;
        assert forall|a: int, b: int| 0 <= a < b < s.len() implies #[trigger] u64_le()(s[a], s[b]) by {
            assert forall|k: int| 0 <= k < s.len() implies s[k]
                == (if k < ji { prev[k] } else if k == ji { x } else { prev[k - 1] }) by {}
            if b < ji {
                assert(u64_le()(prev[a], prev[b]));
            } else if b == ji {
                assert(prev[a] <= x);
                assert(u64_le()(s[a], s[b]));
            } else {
                assert(ji < prev.len());
                assert(prev[ji] > x);
                if a < ji {
                    assert(u64_le()(prev[a], prev[b - 1]));
                } else if a == ji {
                    if ji < b - 1 {
                        assert(u64_le()(prev[ji], prev[b - 1]));
                    }
                    assert(s[a] <= s[b]);
                    assert(u64_le()(s[a], s[b]));
                } else {
                    assert(u64_le()(prev[a - 1], prev[b - 1]));
                }
            }
        }
    }
}

/// Sort the given readings into ascending order.
///
/// The result is a sorted permutation of the input; together with
/// `vstd::seq_lib::lemma_sorted_unique` this pins it to the unique sorted
/// rearrangement `values@.sort_by(u64_le())`.
pub fn sort_ascending(values: &Vec<u64>) -> (r: Vec<u64>)
    ensures
        sorted_by(r@, u64_le()),
        r@.to_multiset() == values@.to_multiset(),
        r@.len() == values@.len(),
        r@ == values@.sort_by(u64_le()),
{
    broadcast use vstd::seq_lib::group_to_multiset_ensures;
    let mut r: Vec<u64> = Vec::new();
    let mut i: usize = 0;
    proof {
        assert(values@.take(0).to_multiset() =~= r@.to_multiset());
    }
    while i < values.len()
        invariant
            i <= values@.len(),
            sorted_by(r@, u64_le()),
            r@.to_multiset() == values@.take(i as int).to_multiset(),
            r@.len() == i,
        decreases values@.len() - i,
    {
        let x = values[i];
        insert_in_order(&mut r, x);
        proof {
            broadcast use vstd::seq_lib::group_to_multiset_ensures;
            assert(values@.take(i as int + 1) =~= values@.take(i as int).push(values@[i as int]));
            assert(values@.take(i as int).push(x).to_multiset()
                =~= values@.take(i as int).to_multiset().insert(x));
        }
        i += 1;
    }
    proof {
        assert(values@.take(values@.len() as int) =~= values@);
        lemma_u64_le_total_ordering();
        values@.lemma_sort_by_ensures(u64_le());
        vstd::seq_lib::lemma_sorted_unique(r@, values@.sort_by(u64_le()), u64_le());
        assert(r@ =~= values@.sort_by(u64_le()));
    }
    r
}

} // verus!
