//! Sums over the agents of a fleet.

use vstd::prelude::*;

verus! {

/// The sum of the values of a finite map.
pub open spec fn total_over(amounts: Map<Seq<char>, nat>) -> nat
    decreases amounts.dom().len(),
{
    if amounts.dom().finite() && amounts.dom().len() > 0 {
        let key = amounts.dom().choose();
        amounts[key] + total_over(amounts.remove(key))
    } else {
        0
    }
}

/// A value can be split off the sum, whichever it is.
pub proof fn lemma_total_remove(amounts: Map<Seq<char>, nat>, key: Seq<char>)
    requires
        amounts.dom().finite(),
        amounts.contains_key(key),
    ensures
        total_over(amounts) == amounts[key] + total_over(amounts.remove(key)),
    decreases amounts.dom().len(),
{
    let first = amounts.dom().choose();
    if first != key {
        lemma_total_remove(amounts.remove(first), key);
        lemma_total_remove(amounts.remove(key), first);
        assert(amounts.remove(first).remove(key) =~= amounts.remove(key).remove(first));
    }
}

/// A new value counts in place of the old one under its key.
pub proof fn lemma_total_insert(amounts: Map<Seq<char>, nat>, key: Seq<char>, amount: nat)
    requires
        amounts.dom().finite(),
    ensures
        total_over(amounts.insert(key, amount)) == total_over(amounts.remove(key)) + amount,
        total_over(amounts.remove(key)) <= total_over(amounts),
        amounts.contains_key(key) ==> total_over(amounts) == amounts[key] + total_over(
            amounts.remove(key),
        ),
{
    lemma_total_remove(amounts.insert(key, amount), key);
    assert(amounts.insert(key, amount).remove(key) =~= amounts.remove(key));
    if amounts.contains_key(key) {
        lemma_total_remove(amounts, key);
    } else {
        assert(amounts.remove(key) =~= amounts);
    }
}

/// A map that is smaller at every key has the smaller sum.
pub proof fn lemma_total_monotone(low: Map<Seq<char>, nat>, high: Map<Seq<char>, nat>)
    requires
        low.dom().finite(),
        low.dom() == high.dom(),
        forall|key: Seq<char>| #[trigger] low.contains_key(key) ==> low[key] <= high[key],
    ensures
        total_over(low) <= total_over(high),
    decreases low.dom().len(),
{
    if low.dom().len() > 0 {
        let key = low.dom().choose();
        lemma_total_remove(high, key);
        lemma_total_monotone(low.remove(key), high.remove(key));
    }
}

} // verus!
