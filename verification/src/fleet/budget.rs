//! The fleet-wide cap.

use vstd::prelude::*;

use crate::budget::atomic::{fits, settle, Settlement};
use crate::error::{BudgetError, BudgetErrorView};
use crate::money::{micros_of, micros_to_usd, nanos_of, usd_to_micros, NanoUsd};

verus! {

/// What a fleet may commit to its agents, and what they have spent.
pub struct FleetBudget {
    /// Total fleet budget in micro-dollars.
    fleet_limit_micros: u64,
    /// Micro-dollars committed to agents.
    allocated_micros: u64,
    /// Micro-dollars recorded as spent.
    spent_micros: u64,
}

/// The amounts of a fleet budget, in micro-dollars.
pub struct FleetBudgetView {
    pub limit: nat,
    pub allocated: nat,
    pub spent: nat,
}

impl FleetBudgetView {
    /// No more is committed than there is, and all amounts fit their counters.
    pub open spec fn valid(self) -> bool {
        &&& self.allocated <= self.limit <= u64::MAX
        &&& self.spent <= u64::MAX
    }

    /// Whether an amount can still be committed.
    pub open spec fn admits(self, amount: nat) -> bool {
        fits(self.allocated, amount, self.limit)
    }

    /// What can still be committed.
    pub open spec fn available(self) -> nat {
        if self.allocated >= self.limit {
            0
        } else {
            (self.limit - self.allocated) as nat
        }
    }

    /// The budget after an allocation: an amount that fits is committed, one
    /// that does not changes nothing.
    pub open spec fn allocating(self, amount: nat) -> FleetBudgetView {
        if self.admits(amount) {
            FleetBudgetView { allocated: self.allocated + amount, ..self }
        } else {
            self
        }
    }

    /// The budget with spend added to its record, which wraps around at 64 bits.
    pub open spec fn recording(self, amount: nat) -> FleetBudgetView {
        FleetBudgetView {
            spent: (self.spent + amount) % 0x1_0000_0000_0000_0000,
            ..self
        }
    }

    /// The error for an allocation that was refused.
    pub open spec fn refusal(self, agent_id: Seq<char>, requested: int) -> BudgetErrorView {
        BudgetErrorView::AllocationFailed {
            agent_id,
            requested,
            available: nanos_of(self.available()),
        }
    }
}

impl View for FleetBudget {
    type V = FleetBudgetView;

    closed spec fn view(&self) -> FleetBudgetView {
        FleetBudgetView {
            limit: self.fleet_limit_micros as nat,
            allocated: self.allocated_micros as nat,
            spent: self.spent_micros as nat,
        }
    }
}

impl FleetBudget {
    #[verifier::type_invariant]
    spec fn inv(self) -> bool {
        self@.valid()
    }

    /// Creates a fleet budget with a hard cap of `limit_usd`.
    pub fn new(limit_usd: NanoUsd) -> (result: Result<FleetBudget, BudgetError>)
        ensures
            match result {
                Ok(fleet) => {
                    &&& 0 < limit_usd
                    &&& fleet@ == (FleetBudgetView {
                        limit: micros_of(limit_usd as int),
                        allocated: 0,
                        spent: 0,
                    })
                    &&& fleet@.valid()
                },
                Err(error) => {
                    &&& limit_usd <= 0
                    &&& error@ == BudgetErrorView::InvalidConfig("fleet limit must be positive"@)
                },
            },
    {
        if limit_usd <= 0 {
            return Err(BudgetError::InvalidConfig("fleet limit must be positive".to_owned()));
        }
        Ok(
            FleetBudget {
                fleet_limit_micros: usd_to_micros(limit_usd),
                allocated_micros: 0,
                spent_micros: 0,
            },
        )
    }

    /// The error that committing `amount_usd` to an agent would give, if any.
    pub fn refused(&self, agent_id: &str, amount_usd: NanoUsd) -> (error: Option<BudgetError>)
        ensures
            match error {
                Some(error) => {
                    &&& !self@.admits(micros_of(amount_usd as int))
                    &&& error@ == self@.refusal(agent_id@, amount_usd as int)
                },
                None => self@.admits(micros_of(amount_usd as int)),
            },
    {
        proof {
            use_type_invariant(self);
        }
        let amount_micros: u64 = usd_to_micros(amount_usd);
        match settle(self.allocated_micros, amount_micros, self.fleet_limit_micros) {
            Settlement::Accepted(_) => None,
            Settlement::TakeBack(allocated) => Some(
                BudgetError::AllocationFailed {
                    agent_id: agent_id.to_owned(),
                    requested: amount_usd,
                    available: micros_to_usd(self.fleet_limit_micros - allocated),
                },
            ),
        }
    }

    /// Commits `amount_usd` to an agent. Returns what is available after, or, if
    /// the amount would oversubscribe the fleet, commits nothing.
    pub fn allocate(&mut self, agent_id: &str, amount_usd: NanoUsd) -> (result: Result<
        NanoUsd,
        BudgetError,
    >)
        ensures
            final(self)@ == old(self)@.allocating(micros_of(amount_usd as int)),
            final(self)@.valid(),
            match result {
                Ok(available) => {
                    &&& old(self)@.admits(micros_of(amount_usd as int))
                    &&& available == nanos_of(final(self)@.available())
                },
                Err(error) => {
                    &&& !old(self)@.admits(micros_of(amount_usd as int))
                    &&& error@ == old(self)@.refusal(agent_id@, amount_usd as int)
                },
            },
    {
        proof {
            use_type_invariant(&*self);
        }
        match self.refused(agent_id, amount_usd) {
            Some(error) => Err(error),
            None => {
                let allocated: u64 = self.allocated_micros + usd_to_micros(amount_usd);
                self.allocated_micros = allocated;
                Ok(micros_to_usd(self.fleet_limit_micros - allocated))
            },
        }
    }

    /// Adds to the record of what was spent.
    pub fn record_spend(&mut self, amount_usd: NanoUsd)
        ensures
            final(self)@ == old(self)@.recording(micros_of(amount_usd as int)),
            final(self)@.valid(),
    {
        proof {
            use_type_invariant(&*self);
        }
        let amount_micros: u64 = usd_to_micros(amount_usd);
        self.spent_micros = self.spent_micros.wrapping_add(amount_micros);
    }

    /// Total fleet budget.
    pub fn total_limit_usd(&self) -> (usd: NanoUsd)
        ensures
            usd == nanos_of(self@.limit),
    {
        micros_to_usd(self.fleet_limit_micros)
    }

    /// What is committed to agents.
    pub fn allocated_usd(&self) -> (usd: NanoUsd)
        ensures
            usd == nanos_of(self@.allocated),
    {
        micros_to_usd(self.allocated_micros)
    }

    /// What was recorded as spent.
    pub fn spent_usd(&self) -> (usd: NanoUsd)
        ensures
            usd == nanos_of(self@.spent),
    {
        micros_to_usd(self.spent_micros)
    }

    /// What can still be committed.
    pub fn available_usd(&self) -> (usd: NanoUsd)
        ensures
            usd == nanos_of(self@.available()),
            usd + nanos_of(self@.allocated) == nanos_of(self@.limit),
    {
        proof {
            use_type_invariant(self);
        }
        if self.allocated_micros >= self.fleet_limit_micros {
            0
        } else {
            micros_to_usd(self.fleet_limit_micros - self.allocated_micros)
        }
    }

    /// Whether nothing can be committed any more.
    pub fn is_exhausted(&self) -> (exhausted: bool)
        ensures
            exhausted == (self@.allocated >= self@.limit),
            exhausted == (self@.available() == 0),
    {
        self.allocated_micros >= self.fleet_limit_micros
    }
}

/// Law: an amount can be committed exactly if what is committed and the amount
/// together are no more than the cap. Committing it raises what is committed and
/// lowers what is available by the amount; refusing it changes nothing, and says
/// who asked, for how much, and what is available, in nano-dollars. What was
/// recorded as spent plays no part in it.
pub proof fn law_allocation_is_held_to_the_cap(
    fleet: FleetBudgetView,
    amount: nat,
    other_spent: nat,
    agent_id: Seq<char>,
    requested: int,
)
    ensures
        fleet.admits(amount) <==> fleet.allocated + amount <= fleet.limit,
        fleet.allocating(amount).limit == fleet.limit,
        fleet.allocating(amount).spent == fleet.spent,
        fleet.allocated + amount <= fleet.limit ==> {
            &&& fleet.allocating(amount).allocated == fleet.allocated + amount
            &&& fleet.allocating(amount).available() + amount == fleet.available()
        },
        fleet.allocated + amount > fleet.limit ==> fleet.allocating(amount) == fleet,
        fleet.allocated <= fleet.limit ==> fleet.allocated + fleet.available() == fleet.limit,
        fleet.allocated > fleet.limit ==> fleet.available() == 0,
        fleet.refusal(agent_id, requested) == (BudgetErrorView::AllocationFailed {
            agent_id,
            requested,
            available: 1000int * fleet.available(),
        }),
        (FleetBudgetView { spent: other_spent, ..fleet }).admits(amount) == fleet.admits(amount),
        (FleetBudgetView { spent: other_spent, ..fleet }).available() == fleet.available(),
        fleet.valid() <==> {
            &&& fleet.allocated <= fleet.limit
            &&& fleet.limit <= u64::MAX
            &&& fleet.spent <= u64::MAX
        },
{
}

/// Law: recording spend adds it to the record, which wraps around at 64 bits, and
/// touches neither the cap nor what is committed.
pub proof fn law_recording_adds_up(fleet: FleetBudgetView, amount: nat)
    ensures
        fleet.recording(amount).limit == fleet.limit,
        fleet.recording(amount).allocated == fleet.allocated,
        fleet.recording(amount).spent <= u64::MAX,
        fleet.spent + amount <= u64::MAX ==> fleet.recording(amount).spent == fleet.spent + amount,
        (fleet.spent + amount - fleet.recording(amount).spent) % 0x1_0000_0000_0000_0000 == 0,
{
}

/// The fleet budget after a series of allocations.
pub open spec fn after_allocations(fleet: FleetBudgetView, amounts: Seq<nat>) -> FleetBudgetView
    decreases amounts.len(),
{
    if amounts.len() == 0 {
        fleet
    } else {
        after_allocations(fleet, amounts.drop_last()).allocating(amounts.last())
    }
}

/// Law: no series of allocations commits more than the fleet has, and nothing
/// that was committed is taken back.
pub proof fn law_never_oversubscribed(fleet: FleetBudgetView, amounts: Seq<nat>)
    requires
        fleet.valid(),
    ensures
        after_allocations(fleet, amounts).valid(),
        after_allocations(fleet, amounts).limit == fleet.limit,
        fleet.allocated <= after_allocations(fleet, amounts).allocated,
    decreases amounts.len(),
{
    if amounts.len() > 0 {
        law_never_oversubscribed(fleet, amounts.drop_last());
    }
}

} // verus!
