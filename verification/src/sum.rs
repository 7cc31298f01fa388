use vstd::multiset::Multiset;
use vstd::prelude::*;

verus! {

broadcast use vstd::multiset::group_multiset_axioms;

/// Total number of bytes in a bag of allocation sizes.
pub open spec fn sum_of(m: Multiset<nat>) -> int
    decreases m.len(),
{
    if m.len() == 0 {
        0
    } else {
        let v = m.choose();
        v + sum_of(m.remove(v))
    }
}

/// Removing one occurrence of a member subtracts exactly that member from the
/// total, no matter which occurrence the recursion in `sum_of` picks first.
pub proof fn lemma_sum_remove(m: Multiset<nat>, v: nat)
    requires
        m.contains(v),
    ensures
        sum_of(m) == v + sum_of(m.remove(v)),
    decreases m.len(),
{
    let y = m.choose();
    assert(m.len() > 0);
    assert(m.count(y) > 0);
    if y == v {
    } else {
        assert(m.remove(y).count(v) == m.count(v));
        lemma_sum_remove(m.remove(y), v);
        assert(m.remove(y).remove(v) =~= m.remove(v).remove(y));
        assert(m.remove(v).count(y) == m.count(y));
        lemma_sum_remove(m.remove(v), y);
    }
}

/// A bag of sizes never sums to a negative byte count.
pub proof fn lemma_sum_nonneg(m: Multiset<nat>)
    ensures
        sum_of(m) >= 0,
    decreases m.len(),
{
    if m.len() == 0 {
    } else {
        let y = m.choose();
        assert(m.count(y) > 0);
        lemma_sum_nonneg(m.remove(y));
    }
}

/// Every member of the bag is bounded by the total.
pub proof fn lemma_sum_member_le(m: Multiset<nat>, v: nat)
    requires
        m.contains(v),
    ensures
        v <= sum_of(m),
{
    lemma_sum_remove(m, v);
    lemma_sum_nonneg(m.remove(v));
}

/// Adding one occurrence of a size adds exactly that size to the total.
pub proof fn lemma_sum_insert(m: Multiset<nat>, v: nat)
    ensures
        sum_of(m.insert(v)) == sum_of(m) + v,
{
    assert(m.insert(v).count(v) > 0);
    lemma_sum_remove(m.insert(v), v);
    assert(m.insert(v).remove(v) =~= m);
}

} // verus!
