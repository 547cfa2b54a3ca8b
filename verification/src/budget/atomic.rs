//! The counter behind every budget.

use vstd::prelude::*;

use crate::error::{BudgetError, BudgetErrorView};
use crate::money::{micros_of, micros_to_usd, nanos_of, usd_to_micros, NanoUsd};

verus! {

/// A fraction that is kept as its two parts. Where the library gives one, its
/// `whole` is at least one, so that it has a value.
#[derive(Debug, Clone, Copy, PartialEq, Eq, Structural)]
pub struct Ratio {
    pub part: u64,
    pub whole: u64,
}

/// Spend against a hard limit, in micro-dollars.
pub struct AtomicBudget {
    /// Current spend.
    spent_micros: u64,
    /// Hard limit.
    limit_micros: u64,
}

/// Spend and limit in micro-dollars.
pub struct AtomicBudgetView {
    pub spent: nat,
    pub limit: nat,
}

impl AtomicBudgetView {
    /// The spend is within the limit, and the limit fits the counter.
    pub open spec fn valid(self) -> bool {
        self.spent <= self.limit <= u64::MAX
    }

    /// Whether a cost fits under the limit.
    pub open spec fn admits(self, cost: nat) -> bool {
        fits(self.spent, cost, self.limit)
    }

    /// The budget after a charge: a cost that fits is added, one that does not
    /// changes nothing.
    pub open spec fn charged(self, cost: nat) -> AtomicBudgetView {
        if self.admits(cost) {
            AtomicBudgetView { spent: self.spent + cost, ..self }
        } else {
            self
        }
    }

    /// What is left, in micro-dollars.
    pub open spec fn remaining(self) -> nat {
        if self.spent >= self.limit {
            0
        } else {
            (self.limit - self.spent) as nat
        }
    }

    /// What the spend is a fraction of: the limit, or one micro-dollar where the
    /// limit is none, so that an untouched budget is at zero.
    pub open spec fn whole(self) -> nat {
        if self.limit == 0 {
            1
        } else {
            self.limit
        }
    }
}

/// Whether a cost fits under a limit on top of what is counted already.
pub open spec fn fits(before: nat, cost: nat, limit: nat) -> bool {
    before + cost <= limit
}

/// What a charge comes to once its cost was added to a counter.
#[derive(Debug, Clone, Copy, PartialEq, Eq, Structural)]
pub enum Settlement {
    /// The sum is within the limit: the new total stands.
    Accepted(u64),
    /// The sum is over the limit: the cost does not count, and has to be taken
    /// back where it was added already, which leaves the total from before.
    TakeBack(u64),
}

/// Decides a charge from what the counter shows without its cost.
pub fn settle(before: u64, cost: u64, limit: u64) -> (settlement: Settlement)
    ensures
        match settlement {
            Settlement::Accepted(total) => {
                &&& fits(before as nat, cost as nat, limit as nat)
                &&& total == before + cost
            },
            Settlement::TakeBack(spent) => {
                &&& !fits(before as nat, cost as nat, limit as nat)
                &&& spent == before
            },
        },
{
    if before <= limit && cost <= limit - before {
        Settlement::Accepted(before + cost)
    } else {
        Settlement::TakeBack(before)
    }
}

/// What is left of a limit, in micro-dollars.
pub fn remaining_micros(spent: u64, limit: u64) -> (remaining: u64)
    ensures
        remaining == (AtomicBudgetView { spent: spent as nat, limit: limit as nat }).remaining(),
{
    if spent >= limit {
        0
    } else {
        limit - spent
    }
}

/// The part of a limit that is spent.
pub fn spent_ratio(spent: u64, limit: u64) -> (ratio: Ratio)
    ensures
        ratio.part == spent,
        ratio.whole == (AtomicBudgetView { spent: spent as nat, limit: limit as nat }).whole(),
        ratio.whole >= 1,
{
    Ratio {
        part: spent,
        whole: if limit == 0 {
            1
        } else {
            limit
        },
    }
}

impl View for AtomicBudget {
    type V = AtomicBudgetView;

    closed spec fn view(&self) -> AtomicBudgetView {
        AtomicBudgetView { spent: self.spent_micros as nat, limit: self.limit_micros as nat }
    }
}

impl AtomicBudget {
    #[verifier::type_invariant]
    spec fn inv(self) -> bool {
        self@.valid()
    }

    /// Creates a budget with a hard cap of `limit_usd`.
    pub fn new(limit_usd: NanoUsd) -> (result: Result<AtomicBudget, BudgetError>)
        ensures
            match result {
                Ok(budget) => {
                    &&& 0 < limit_usd
                    &&& budget@ == (AtomicBudgetView { spent: 0, limit: micros_of(limit_usd as int) })
                },
                Err(error) => {
                    &&& limit_usd <= 0
                    &&& error@ == BudgetErrorView::InvalidConfig("limit must be positive"@)
                },
            },
    {
        if limit_usd <= 0 {
            return Err(BudgetError::InvalidConfig("limit must be positive".to_owned()));
        }
        Ok(AtomicBudget { spent_micros: 0, limit_micros: usd_to_micros(limit_usd) })
    }

    /// Charges `cost_usd`. Returns the new total, or, if that would be over the
    /// limit, leaves the budget alone and returns what was spent before.
    pub fn charge(&mut self, cost_usd: NanoUsd) -> (result: Result<NanoUsd, NanoUsd>)
        ensures
            final(self)@ == old(self)@.charged(micros_of(cost_usd as int)),
            final(self)@.valid(),
            match result {
                Ok(total) => {
                    &&& old(self)@.admits(micros_of(cost_usd as int))
                    &&& total == nanos_of(final(self)@.spent)
                },
                Err(spent) => {
                    &&& !old(self)@.admits(micros_of(cost_usd as int))
                    &&& spent == nanos_of(old(self)@.spent)
                },
            },
    {
        proof {
            use_type_invariant(&*self);
        }
        let cost_micros: u64 = usd_to_micros(cost_usd);
        match settle(self.spent_micros, cost_micros, self.limit_micros) {
            Settlement::Accepted(total) => {
                self.spent_micros = total;
                Ok(micros_to_usd(total))
            },
            Settlement::TakeBack(spent) => Err(micros_to_usd(spent)),
        }
    }

    /// Current spend.
    pub fn spent_usd(&self) -> (usd: NanoUsd)
        ensures
            usd == nanos_of(self@.spent),
            0 <= usd <= nanos_of(u64::MAX as nat),
    {
        micros_to_usd(self.spent_micros)
    }

    /// What is left of the budget.
    pub fn remaining_usd(&self) -> (usd: NanoUsd)
        ensures
            usd == nanos_of(self@.remaining()),
            usd + nanos_of(self@.spent) == nanos_of(self@.limit),
    {
        proof {
            use_type_invariant(self);
        }
        micros_to_usd(remaining_micros(self.spent_micros, self.limit_micros))
    }

    /// Hard limit.
    pub fn limit_usd(&self) -> (usd: NanoUsd)
        ensures
            usd == nanos_of(self@.limit),
    {
        micros_to_usd(self.limit_micros)
    }

    /// Whether nothing is left.
    pub fn is_exhausted(&self) -> (exhausted: bool)
        ensures
            exhausted == (self@.spent >= self@.limit),
            exhausted == (self@.remaining() == 0),
    {
        self.spent_micros >= self.limit_micros
    }

    /// The part of the limit that is spent: zero for an untouched budget, one for
    /// a limit that is spent in full.
    pub fn utilization(&self) -> (ratio: Ratio)
        ensures
            ratio.part == self@.spent,
            ratio.whole == self@.whole(),
            ratio.part <= ratio.whole,
            ratio.whole >= 1,
    {
        proof {
            use_type_invariant(self);
        }
        spent_ratio(self.spent_micros, self.limit_micros)
    }
}

/// Law: a charge is accepted exactly if what is spent and its cost together are
/// no more than the limit. An accepted one raises the spend by its cost and
/// lowers what is left by as much; a refused one changes neither; the limit stays.
pub proof fn law_charge_is_held_to_the_limit(budget: AtomicBudgetView, cost: nat)
    ensures
        budget.admits(cost) <==> budget.spent + cost <= budget.limit,
        fits(budget.spent, cost, budget.limit) <==> budget.spent + cost <= budget.limit,
        budget.charged(cost).limit == budget.limit,
        budget.spent + cost <= budget.limit ==> {
            &&& budget.charged(cost).spent == budget.spent + cost
            &&& budget.charged(cost).remaining() + cost == budget.remaining()
        },
        budget.spent + cost > budget.limit ==> budget.charged(cost).spent == budget.spent,
        budget.spent <= budget.limit ==> budget.spent + budget.remaining() == budget.limit,
        budget.spent > budget.limit ==> budget.remaining() == 0,
        budget.limit > 0 ==> budget.whole() == budget.limit,
        budget.limit == 0 ==> budget.whole() == 1,
        budget.valid() <==> budget.spent <= budget.limit && budget.limit <= u64::MAX,
{
}

/// Law: in dollars, a charge is accepted exactly if the spend and its cost together
/// are less than half a micro-dollar over the limit, and then raises the spend by
/// its cost to the nearest micro-dollar; a cost that is not above zero is always
/// accepted and changes nothing. This holds of every cost that a counter can hold.
pub proof fn law_charge_in_dollars(budget: AtomicBudgetView, cost_usd: int)
    requires
        budget.spent <= budget.limit <= u64::MAX,
        cost_usd < 1000 * u64::MAX + 500,
    ensures
        0 < cost_usd ==> (budget.admits(micros_of(cost_usd)) <==> 1000 * budget.spent + cost_usd
            < 1000 * budget.limit + 500),
        0 < cost_usd && budget.admits(micros_of(cost_usd)) ==> cost_usd - 500 < 1000 * (
        budget.charged(micros_of(cost_usd)).spent - budget.spent) <= cost_usd + 500,
        cost_usd <= 0 ==> budget.admits(micros_of(cost_usd)) && budget.charged(micros_of(cost_usd))
            == budget,
{
}

/// The budget after a series of charges.
pub open spec fn after_charges(budget: AtomicBudgetView, costs: Seq<nat>) -> AtomicBudgetView
    decreases costs.len(),
{
    if costs.len() == 0 {
        budget
    } else {
        after_charges(budget, costs.drop_last()).charged(costs.last())
    }
}

/// Law: no series of charges takes the spend over the limit, lowers it, or
/// moves the limit.
pub proof fn law_limit_holds(budget: AtomicBudgetView, costs: Seq<nat>)
    requires
        budget.valid(),
    ensures
        after_charges(budget, costs).valid(),
        after_charges(budget, costs).limit == budget.limit,
        budget.spent <= after_charges(budget, costs).spent,
    decreases costs.len(),
{
    if costs.len() > 0 {
        law_limit_holds(budget, costs.drop_last());
    }
}

/// Law: an exhausted budget refuses every charge that costs anything, whatever
/// charges come in between.
pub proof fn law_exhausted_stays_exhausted(budget: AtomicBudgetView, costs: Seq<nat>, cost: nat)
    requires
        budget.valid(),
        budget.remaining() == 0,
    ensures
        after_charges(budget, costs) == budget,
        after_charges(budget, costs).admits(cost) == (cost == 0),
    decreases costs.len(),
{
    if costs.len() > 0 {
        law_exhausted_stays_exhausted(budget, costs.drop_last(), costs.last());
    }
}

/// Law: the utilization of a budget has a value from zero to one; it is one
/// exactly for a limit that is spent in full, and zero where the limit is none.
pub proof fn law_utilization_is_a_fraction(budget: AtomicBudgetView)
    requires
        budget.valid(),
    ensures
        0 < budget.whole(),
        0 <= budget.spent <= budget.whole(),
        0 < budget.limit ==> (budget.spent == budget.whole() <==> budget.remaining() == 0),
        budget.limit == 0 ==> budget.spent == 0,
{
}

/// Law: what is spent and what is left make up the limit.
pub proof fn law_spent_and_remaining(budget: AtomicBudgetView)
    requires
        budget.valid(),
    ensures
        budget.spent + budget.remaining() == budget.limit,
{
}

} // verus!
