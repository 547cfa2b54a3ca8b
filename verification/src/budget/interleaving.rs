//! Why charges that run side by side keep to the limit.
//!
//! A counter that many tasks share can be charged in one atomic step, which adds
//! a cost only if it fits: then charges that run side by side are a series of
//! charges, of which the laws of a single budget speak. Or it is charged in two
//! steps: the cost is added and the sum compared with the limit; if it is over,
//! the cost is taken back in a second step, and steps of other charges may come
//! in between. The laws here speak of every order in which such steps can fall,
//! for spend against a budget and for allocations against a fleet alike.

use vstd::prelude::*;

use crate::budget::atomic::{fits, AtomicBudgetView};

verus! {

/// A counter in the middle of any number of charges.
pub struct SharedCounter {
    /// What the counter shows.
    pub counter: nat,
    /// The hard limit.
    pub limit: nat,
    /// The sum of the costs of accepted charges.
    pub accepted: nat,
    /// The costs of refused charges that were not taken back yet.
    pub pending: Seq<nat>,
}

/// One step of one charge.
pub enum ChargeStep {
    /// Adds a cost and compares the sum with the limit, as
    /// [`settle`](crate::budget::atomic::settle) does.
    Add(nat),
    /// Takes back the pending cost at this place.
    TakeBack(int),
}

/// The sum of a sequence of costs.
pub open spec fn total(costs: Seq<nat>) -> nat
    decreases costs.len(),
{
    if costs.len() == 0 {
        0
    } else {
        total(costs.drop_last()) + costs.last()
    }
}

impl SharedCounter {
    /// A counter that no charge is under way on.
    pub open spec fn idle(budget: AtomicBudgetView) -> SharedCounter {
        SharedCounter {
            counter: budget.spent,
            limit: budget.limit,
            accepted: budget.spent,
            pending: Seq::empty(),
        }
    }

    /// The counter shows what was accepted and what is still to be taken back;
    /// what was accepted is within the limit.
    pub open spec fn sound(self) -> bool {
        &&& self.counter == self.accepted + total(self.pending)
        &&& self.accepted <= self.limit
    }

    /// The counter after one step.
    pub open spec fn step(self, step: ChargeStep) -> SharedCounter {
        match step {
            ChargeStep::Add(cost) => if fits(self.counter, cost, self.limit) {
                SharedCounter {
                    counter: self.counter + cost,
                    accepted: self.accepted + cost,
                    ..self
                }
            } else {
                SharedCounter {
                    counter: self.counter + cost,
                    pending: self.pending.push(cost),
                    ..self
                }
            },
            ChargeStep::TakeBack(i) => if 0 <= i < self.pending.len() {
                SharedCounter {
                    counter: (self.counter - self.pending[i]) as nat,
                    pending: self.pending.remove(i),
                    ..self
                }
            } else {
                self
            },
        }
    }

    /// The counter after a series of steps.
    pub open spec fn run(self, steps: Seq<ChargeStep>) -> SharedCounter
        decreases steps.len(),
    {
        if steps.len() == 0 {
            self
        } else {
            self.run(steps.drop_last()).step(steps.last())
        }
    }
}

proof fn lemma_total_push(costs: Seq<nat>, cost: nat)
    ensures
        total(costs.push(cost)) == total(costs) + cost,
{
    assert(costs.push(cost).drop_last() =~= costs);
}

proof fn lemma_total_remove(costs: Seq<nat>, i: int)
    requires
        0 <= i < costs.len(),
    ensures
        total(costs.remove(i)) + costs[i] == total(costs),
    decreases costs.len(),
{
    if i == costs.len() - 1 {
        assert(costs.remove(i) =~= costs.drop_last());
    } else {
        lemma_total_remove(costs.drop_last(), i);
        assert(costs.remove(i).drop_last() =~= costs.drop_last().remove(i));
    }
}

proof fn lemma_step_sound(state: SharedCounter, step: ChargeStep)
    requires
        state.sound(),
    ensures
        state.step(step).sound(),
        state.step(step).limit == state.limit,
        state.accepted <= state.step(step).accepted,
{
    match step {
        ChargeStep::Add(cost) => {
            lemma_total_push(state.pending, cost);
        },
        ChargeStep::TakeBack(i) => {
            if 0 <= i < state.pending.len() {
                lemma_total_remove(state.pending, i);
            }
        },
    }
}

/// Law: in whatever order the steps of charges fall, the accepted charges
/// together never go over the limit, and none of them is lost again.
pub proof fn law_accepted_within_limit(budget: AtomicBudgetView, steps: Seq<ChargeStep>)
    requires
        budget.valid(),
    ensures
        SharedCounter::idle(budget).run(steps).sound(),
        SharedCounter::idle(budget).run(steps).accepted <= budget.limit,
        budget.spent <= SharedCounter::idle(budget).run(steps).accepted,
        SharedCounter::idle(budget).run(steps).limit == budget.limit,
    decreases steps.len(),
{
    if steps.len() > 0 {
        law_accepted_within_limit(budget, steps.drop_last());
        lemma_step_sound(SharedCounter::idle(budget).run(steps.drop_last()), steps.last());
    }
}

/// Law: once every refused charge has been taken back, the counter shows
/// exactly what was accepted, and so is within the limit.
pub proof fn law_settled_counter_is_exact(budget: AtomicBudgetView, steps: Seq<ChargeStep>)
    requires
        budget.valid(),
        SharedCounter::idle(budget).run(steps).pending.len() == 0,
    ensures
        SharedCounter::idle(budget).run(steps).counter == SharedCounter::idle(budget).run(
            steps,
        ).accepted,
        SharedCounter::idle(budget).run(steps).counter <= budget.limit,
{
    law_accepted_within_limit(budget, steps);
}

/// The sum of all costs that a series of steps adds.
pub open spec fn asked(steps: Seq<ChargeStep>) -> nat
    decreases steps.len(),
{
    if steps.len() == 0 {
        0
    } else {
        match steps.last() {
            ChargeStep::Add(cost) => asked(steps.drop_last()) + cost,
            ChargeStep::TakeBack(_) => asked(steps.drop_last()),
        }
    }
}

/// Law: charges that fit under the limit all together are all accepted, in
/// whatever order their steps fall, and the counter shows their exact sum.
pub proof fn law_charges_that_fit_are_accepted(budget: AtomicBudgetView, steps: Seq<ChargeStep>)
    requires
        budget.spent + asked(steps) <= budget.limit,
    ensures
        SharedCounter::idle(budget).run(steps).pending.len() == 0,
        SharedCounter::idle(budget).run(steps).accepted == budget.spent + asked(steps),
        SharedCounter::idle(budget).run(steps).counter == budget.spent + asked(steps),
        SharedCounter::idle(budget).run(steps).limit == budget.limit,
    decreases steps.len(),
{
    if steps.len() > 0 {
        law_charges_that_fit_are_accepted(budget, steps.drop_last());
    }
}

/// Law: a charge whose two steps nothing comes between does to the counter what
/// it does to the budget.
pub proof fn law_undisturbed_charge(budget: AtomicBudgetView, cost: nat)
    requires
        budget.valid(),
    ensures
        budget.admits(cost) ==> SharedCounter::idle(budget).step(ChargeStep::Add(cost))
            == SharedCounter::idle(budget.charged(cost)),
        !budget.admits(cost) ==> SharedCounter::idle(budget).step(ChargeStep::Add(cost)).step(
            ChargeStep::TakeBack(0),
        ) == SharedCounter::idle(budget),
        !budget.admits(cost) ==> budget.charged(cost) == budget,
{
    let idle = SharedCounter::idle(budget);
    let added = idle.step(ChargeStep::Add(cost));
    if !budget.admits(cost) {
        assert(added.pending =~= seq![cost]);
        assert(added.step(ChargeStep::TakeBack(0)).pending =~= Seq::<nat>::empty());
    }
}

} // verus!
