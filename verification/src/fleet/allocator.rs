//! The agents of a fleet, and what is committed to them.

use dashmap::DashMap;
use std::collections::hash_map::RandomState;
use vstd::prelude::*;

use crate::budget::agent::{
    agent_config_error, lemma_charged_valid, AgentBudget, AgentView, BudgetSnapshot, RequestView,
};
use crate::budget::envelope::ScopeKind;
use crate::budget::record::text_of;
use crate::clock::{is_reading, now_ms};
use crate::error::{BudgetError, BudgetErrorView};
use crate::fleet::budget::{FleetBudget, FleetBudgetView};
use crate::fleet::registry::{
    count_handles, empty_index, entries_of, get_handle, has_handle, insert_handle, list_handles,
};
use crate::fleet::totals::{lemma_total_insert, lemma_total_monotone, total_over};
use crate::model::{threshold_error, ModelTier};
use crate::money::{micros_of, nanos_of, Billionths, NanoUsd};

verus! {

/// Registers agents against a fleet-wide cap.
pub struct FleetAllocator {
    fleet: FleetBudget,
    /// Which slot holds the budget of an agent.
    agents: DashMap<String, usize, RandomState>,
    slots: Vec<AgentBudget>,
    default_tier: ModelTier,
    default_cascade_threshold: Billionths,
}

/// What a fleet holds.
pub struct FleetView {
    pub budget: FleetBudgetView,
    pub agents: Map<Seq<char>, AgentView>,
    pub default_tier: ModelTier,
    pub default_cascade_threshold: int,
}

impl FleetView {
    /// The limit of every agent, in micro-dollars.
    pub open spec fn limits(self) -> Map<Seq<char>, nat> {
        self.agents.map_values(|agent: AgentView| agent.envelope.budget.limit)
    }

    /// The spend of every agent, in micro-dollars.
    pub open spec fn spends(self) -> Map<Seq<char>, nat> {
        self.agents.map_values(|agent: AgentView| agent.envelope.budget.spent)
    }

    /// The agents are in order, each under its own ID, and their limits are
    /// covered by what the fleet has committed.
    pub open spec fn valid(self) -> bool {
        &&& self.budget.valid()
        &&& self.agents.dom().finite()
        &&& forall|agent_id: Seq<char>| #[trigger]
            self.agents.contains_key(agent_id) ==> {
                &&& self.agents[agent_id].valid()
                &&& self.agents[agent_id].agent_id == agent_id
            }
        &&& total_over(self.limits()) <= self.budget.allocated
    }

    /// What is wrong with a registration, if anything: first whether it would
    /// oversubscribe the fleet, then the limit and the threshold.
    pub open spec fn registration_error(self, agent_id: Seq<char>, limit_usd: int) -> Option<
        BudgetErrorView,
    > {
        if !self.budget.admits(micros_of(limit_usd)) {
            Some(self.budget.refusal(agent_id, limit_usd))
        } else {
            agent_config_error(limit_usd, self.default_cascade_threshold)
        }
    }

    /// The fleet after a registration: one that goes through commits the limit to
    /// the agent, one that is refused changes nothing. A known ID gets a new
    /// budget, and the old one stays committed.
    pub open spec fn registering(self, agent_id: Seq<char>, limit_usd: int) -> FleetView {
        if self.registration_error(agent_id, limit_usd) is None {
            FleetView {
                budget: self.budget.allocating(micros_of(limit_usd)),
                agents: self.agents.insert(
                    agent_id,
                    AgentView::fresh(
                        agent_id,
                        limit_usd,
                        self.default_tier,
                        self.default_cascade_threshold,
                    ),
                ),
                ..self
            }
        } else {
            self
        }
    }

    /// Whether a request of an agent goes through.
    pub open spec fn accepts(
        self,
        agent_id: Seq<char>,
        input_tokens: int,
        output_tokens: int,
    ) -> bool {
        self.agents.contains_key(agent_id) && self.agents[agent_id].accepts(
            input_tokens,
            output_tokens,
        )
    }

    /// The error for a request that was refused.
    pub open spec fn refusal(self, agent_id: Seq<char>) -> BudgetErrorView {
        if self.agents.contains_key(agent_id) {
            self.agents[agent_id].envelope.refusal()
        } else {
            BudgetErrorView::UnknownAgent(agent_id)
        }
    }

    /// The fleet after a request of an agent: an accepted one is charged to the
    /// agent, and the agent's total spend is added to the fleet's record; a
    /// refused one changes nothing.
    pub open spec fn charging(self, agent_id: Seq<char>, request: RequestView) -> FleetView {
        if self.accepts(agent_id, request.input_tokens, request.output_tokens) {
            let agent = self.agents[agent_id].charged(request);
            FleetView {
                agents: self.agents.insert(agent_id, agent),
                budget: self.budget.recording(agent.envelope.budget.spent),
                ..self
            }
        } else {
            self
        }
    }

    /// The fleet after an amount was committed without an agent to hold it.
    pub open spec fn reserving(self, amount_usd: int) -> FleetView {
        FleetView { budget: self.budget.allocating(micros_of(amount_usd)), ..self }
    }

    /// The fleet with spend added to its record.
    pub open spec fn recording(self, amount_usd: int) -> FleetView {
        FleetView { budget: self.budget.recording(micros_of(amount_usd)), ..self }
    }

    /// The fleet with one agent killed.
    pub open spec fn stopping(self, agent_id: Seq<char>) -> FleetView {
        FleetView {
            agents: self.agents.insert(agent_id, self.agents[agent_id].stopped()),
            ..self
        }
    }

    /// The fleet with every agent killed.
    pub open spec fn stopped(self) -> FleetView {
        FleetView { agents: self.agents.map_values(|agent: AgentView| agent.stopped()), ..self }
    }

    /// What is wrong with a reallocation, if anything.
    pub open spec fn reallocation_error(
        self,
        from_agent: Seq<char>,
        to_agent: Seq<char>,
        amount_usd: int,
    ) -> Option<BudgetErrorView> {
        if !self.agents.contains_key(from_agent) {
            Some(BudgetErrorView::UnknownAgent(from_agent))
        } else if nanos_of(self.agents[from_agent].envelope.budget.remaining()) < amount_usd {
            Some(
                BudgetErrorView::ReallocationFailed {
                    from: from_agent,
                    to: to_agent,
                    amount: amount_usd,
                    available: nanos_of(self.agents[from_agent].envelope.budget.remaining()),
                },
            )
        } else if !self.agents.contains_key(to_agent) {
            Some(BudgetErrorView::UnknownAgent(to_agent))
        } else {
            None
        }
    }
}

impl View for FleetAllocator {
    type V = FleetView;

    closed spec fn view(&self) -> FleetView {
        FleetView {
            budget: self.fleet@,
            agents: entries_of(self.agents).map_values(
                |handle: usize| self.slots@[handle as int]@,
            ),
            default_tier: self.default_tier,
            default_cascade_threshold: self.default_cascade_threshold as int,
        }
    }
}

impl FleetAllocator {
    /// Every registered ID leads to a slot of its own.
    pub closed spec fn wf(&self) -> bool {
        let entries = entries_of(self.agents);
        &&& entries.dom().finite()
        &&& forall|agent_id: Seq<char>| #[trigger]
            entries.contains_key(agent_id) ==> entries[agent_id] < self.slots.len()
        &&& forall|a: Seq<char>, b: Seq<char>|
            entries.contains_key(a) && entries.contains_key(b) && a != b
                ==> #[trigger] entries[a] != #[trigger] entries[b]
    }

    /// Creates a fleet without agents. The tier and the threshold are those of
    /// the agents that are registered later.
    pub fn new(
        fleet_limit_usd: NanoUsd,
        default_tier: ModelTier,
        default_cascade_threshold: Billionths,
    ) -> (result: Result<FleetAllocator, BudgetError>)
        ensures
            match result {
                Ok(fleet) => {
                    &&& 0 < fleet_limit_usd
                    &&& fleet.wf()
                    &&& fleet@.valid()
                    &&& fleet@.budget == (FleetBudgetView {
                        limit: micros_of(fleet_limit_usd as int),
                        allocated: 0,
                        spent: 0,
                    })
                    &&& fleet@.agents == Map::<Seq<char>, AgentView>::empty()
                    &&& fleet@.default_tier == default_tier
                    &&& fleet@.default_cascade_threshold == default_cascade_threshold
                },
                Err(error) => {
                    &&& fleet_limit_usd <= 0
                    &&& error@ == BudgetErrorView::InvalidConfig("fleet limit must be positive"@)
                },
            },
    {
        let fleet = FleetBudget::new(fleet_limit_usd)?;
        let allocator = FleetAllocator {
            fleet,
            agents: empty_index(),
            slots: Vec::new(),
            default_tier,
            default_cascade_threshold,
        };
        assert(allocator@.agents =~= Map::<Seq<char>, AgentView>::empty());
        Ok(allocator)
    }

    /// Registers an agent with a limit of its own, which the fleet commits to it.
    /// A registration that is refused changes nothing.
    pub fn register_agent(&mut self, agent_id: &str, limit_usd: NanoUsd) -> (result: Result<
        (),
        BudgetError,
    >)
        requires
            old(self).wf(),
        ensures
            final(self).wf(),
            final(self)@ == old(self)@.registering(agent_id@, limit_usd as int),
            old(self)@.valid() ==> final(self)@.valid(),
            match result {
                Ok(_) => old(self)@.registration_error(agent_id@, limit_usd as int) is None,
                Err(error) => old(self)@.registration_error(agent_id@, limit_usd as int) == Some(
                    error@,
                ),
            },
    {
        proof {
            lemma_registering_valid(self@, agent_id@, limit_usd as int);
        }
        if let Some(error) = self.fleet.refused(agent_id, limit_usd) {
            return Err(error);
        }
        let budget = AgentBudget::new(
            agent_id,
            limit_usd,
            self.default_tier,
            self.default_cascade_threshold,
        )?;
        let _ = self.fleet.allocate(agent_id, limit_usd)?;
        let handle: usize = match get_handle(&self.agents, agent_id) {
            Some(handle) => {
                self.slots.set(handle, budget);
                handle
            },
            None => {
                self.slots.push(budget);
                self.slots.len() - 1
            },
        };
        let _ = insert_handle(&mut self.agents, agent_id.to_owned(), handle);
        assert(self@.agents =~= old(self)@.registering(agent_id@, limit_usd as int).agents);
        Ok(())
    }

    /// Charges a request of an agent that was made at a given time.
    pub fn charge_agent_at(
        &mut self,
        agent_id: &str,
        input_tokens: u32,
        output_tokens: u32,
        task_id: Option<String>,
        session_id: Option<String>,
        timestamp_ms: u64,
    ) -> (result: Result<(NanoUsd, Option<ModelTier>), BudgetError>)
        requires
            old(self).wf(),
        ensures
            final(self).wf(),
            final(self)@ == old(self)@.charging(
                agent_id@,
                RequestView {
                    input_tokens: input_tokens as int,
                    output_tokens: output_tokens as int,
                    task_id: text_of(task_id),
                    session_id: text_of(session_id),
                    timestamp_ms: timestamp_ms as int,
                },
            ),
            old(self)@.valid() ==> final(self)@.valid(),
            match result {
                Ok((total, new_tier)) => {
                    let before = old(self)@.agents[agent_id@];
                    &&& old(self)@.accepts(agent_id@, input_tokens as int, output_tokens as int)
                    &&& total == nanos_of(final(self)@.agents[agent_id@].envelope.budget.spent)
                    &&& new_tier == before.downgrade(input_tokens as int, output_tokens as int)
                },
                Err(error) => {
                    &&& !old(self)@.accepts(agent_id@, input_tokens as int, output_tokens as int)
                    &&& error@ == old(self)@.refusal(agent_id@)
                },
            },
    {
        let ghost request = RequestView {
            input_tokens: input_tokens as int,
            output_tokens: output_tokens as int,
            task_id: text_of(task_id),
            session_id: text_of(session_id),
            timestamp_ms: timestamp_ms as int,
        };
        proof {
            lemma_charging_valid(self@, agent_id@, request);
        }
        let handle: usize = match get_handle(&self.agents, agent_id) {
            Some(handle) => handle,
            None => return Err(BudgetError::UnknownAgent(agent_id.to_owned())),
        };
        let outcome = self.slots[handle].charge_at(
            input_tokens,
            output_tokens,
            task_id,
            session_id,
            timestamp_ms,
        );
        match outcome {
            Ok(charged) => {
                let spent: NanoUsd = self.slots[handle].spent_usd();
                self.fleet.record_spend(spent);
                assert(self@.agents =~= old(self)@.charging(agent_id@, request).agents);
                Ok(charged)
            },
            Err(error) => {
                assert(self@.agents =~= old(self)@.agents);
                Err(error)
            },
        }
    }

    /// Charges a request of an agent that is made now.
    pub fn charge_agent(
        &mut self,
        agent_id: &str,
        input_tokens: u32,
        output_tokens: u32,
        task_id: Option<String>,
        session_id: Option<String>,
    ) -> (result: Result<(NanoUsd, Option<ModelTier>), BudgetError>)
        requires
            old(self).wf(),
        ensures
            final(self).wf(),
            exists|timestamp_ms: u64|
                is_reading(timestamp_ms as int) && final(self)@ == #[trigger] old(self)@.charging(
                    agent_id@,
                    RequestView {
                        input_tokens: input_tokens as int,
                        output_tokens: output_tokens as int,
                        task_id: text_of(task_id),
                        session_id: text_of(session_id),
                        timestamp_ms: timestamp_ms as int,
                    },
                ),
            old(self)@.valid() ==> final(self)@.valid(),
            match result {
                Ok((total, new_tier)) => {
                    let before = old(self)@.agents[agent_id@];
                    &&& old(self)@.accepts(agent_id@, input_tokens as int, output_tokens as int)
                    &&& total == nanos_of(final(self)@.agents[agent_id@].envelope.budget.spent)
                    &&& new_tier == before.downgrade(input_tokens as int, output_tokens as int)
                },
                Err(error) => {
                    &&& !old(self)@.accepts(agent_id@, input_tokens as int, output_tokens as int)
                    &&& error@ == old(self)@.refusal(agent_id@)
                    &&& final(self)@ == old(self)@
                },
            },
    {
        let timestamp_ms: u64 = now_ms();
        self.charge_agent_at(
            agent_id,
            input_tokens,
            output_tokens,
            task_id,
            session_id,
            timestamp_ms,
        )
    }

    /// Kills the budget of one agent.
    pub fn kill_agent(&mut self, agent_id: &str, reason: &str) -> (result: Result<(), BudgetError>)
        requires
            old(self).wf(),
        ensures
            final(self).wf(),
            old(self)@.valid() ==> final(self)@.valid(),
            match result {
                Ok(_) => {
                    &&& old(self)@.agents.contains_key(agent_id@)
                    &&& final(self)@ == old(self)@.stopping(agent_id@)
                },
                Err(error) => {
                    &&& !old(self)@.agents.contains_key(agent_id@)
                    &&& final(self)@ == old(self)@
                    &&& error@ == BudgetErrorView::UnknownAgent(agent_id@)
                },
            },
    {
        proof {
            lemma_stopping_valid(self@, agent_id@);
        }
        match get_handle(&self.agents, agent_id) {
            Some(handle) => {
                self.slots[handle].kill(reason);
                assert(self@.agents =~= old(self)@.stopping(agent_id@).agents);
                Ok(())
            },
            None => Err(BudgetError::UnknownAgent(agent_id.to_owned())),
        }
    }

    /// Kills the budgets of all agents.
    pub fn kill_all(&mut self, reason: &str)
        requires
            old(self).wf(),
        ensures
            final(self).wf(),
            final(self)@ == old(self)@.stopped(),
            old(self)@.valid() ==> final(self)@.valid(),
    {
        proof {
            lemma_stopped_valid(self@);
        }
        let handles = list_handles(&self.agents);
        let ghost entries = entries_of(self.agents);
        let ghost before = self.slots@;
        let mut i: usize = 0;
        while i < handles.len()
            invariant
                i <= handles.len(),
                entries == entries_of(self.agents),
                self.agents == old(self).agents,
                self.fleet == old(self).fleet,
                self.default_tier == old(self).default_tier,
                self.default_cascade_threshold == old(self).default_cascade_threshold,
                self.slots.len() == before.len(),
                forall|k: int|
                    0 <= k < handles.len() ==> (#[trigger] handles[k]).1 < before.len(),
                forall|k: int, l: int|
                    0 <= k < l < handles.len() ==> (#[trigger] handles[k]).1 != (
                    #[trigger] handles[l]).1,
                forall|k: int|
                    0 <= k < i ==> self.slots@[(#[trigger] handles[k]).1 as int]@
                        == before[handles[k].1 as int]@.stopped(),
                forall|k: int|
                    i <= k < handles.len() ==> self.slots@[(#[trigger] handles[k]).1 as int]
                        == before[handles[k].1 as int],
            decreases handles.len() - i,
        {
            let handle: usize = handles[i].1;
            self.slots[handle].kill(reason);
            i += 1;
        }
        assert(self@.agents =~= old(self)@.stopped().agents);
    }

    /// Checks whether an amount could be moved from one agent to another: the
    /// source has it left, and both are registered. Nothing is moved.
    pub fn reallocate(&self, from_agent: &str, to_agent: &str, amount_usd: NanoUsd) -> (result:
        Result<(), BudgetError>)
        requires
            self.wf(),
        ensures
            match result {
                Ok(_) => self@.reallocation_error(from_agent@, to_agent@, amount_usd as int)
                    is None,
                Err(error) => self@.reallocation_error(from_agent@, to_agent@, amount_usd as int)
                    == Some(error@),
            },
    {
        let handle: usize = match get_handle(&self.agents, from_agent) {
            Some(handle) => handle,
            None => return Err(BudgetError::UnknownAgent(from_agent.to_owned())),
        };
        let available: NanoUsd = self.slots[handle].remaining_usd();
        if available < amount_usd {
            return Err(
                BudgetError::ReallocationFailed {
                    from: from_agent.to_owned(),
                    to: to_agent.to_owned(),
                    amount: amount_usd,
                    available,
                },
            );
        }
        if !has_handle(&self.agents, to_agent) {
            return Err(BudgetError::UnknownAgent(to_agent.to_owned()));
        }
        Ok(())
    }

    /// A snapshot of every agent, in no particular order. Each is marked with
    /// the time at which it was taken.
    pub fn fleet_snapshot(&self) -> (snapshots: Vec<BudgetSnapshot>)
        requires
            self.wf(),
        ensures
            snapshots.len() == self@.agents.len(),
            forall|i: int|
                0 <= i < snapshots.len() ==> is_reading(
                    (#[trigger] snapshots[i]).timestamp_ms as int,
                ),
            exists|order: Seq<Seq<char>>|
                {
                    &&& order.no_duplicates()
                    &&& #[trigger] order.to_set() == self@.agents.dom()
                    &&& order.len() == snapshots.len()
                    &&& forall|i: int|
                        0 <= i < order.len() ==> snapshots[i]@
                            == self@.agents[#[trigger] order[i]].snapshot(
                            snapshots[i].timestamp_ms as int,
                        )
                },
    {
        let handles = list_handles(&self.agents);
        let ghost order = handles@.map_values(|entry: (String, usize)| entry.0@);
        let mut snapshots: Vec<BudgetSnapshot> = Vec::new();
        let mut i: usize = 0;
        while i < handles.len()
            invariant
                self.wf(),
                i <= handles.len(),
                snapshots.len() == i,
                forall|k: int|
                    0 <= k < i ==> is_reading((#[trigger] snapshots[k]).timestamp_ms as int),
                order == handles@.map_values(|entry: (String, usize)| entry.0@),
                forall|k: int|
                    0 <= k < handles.len() ==> entries_of(self.agents).contains_key(
                        (#[trigger] handles[k]).0@,
                    ) && entries_of(self.agents)[handles[k].0@] == handles[k].1,
                forall|k: int|
                    0 <= k < i ==> snapshots[k]@ == self@.agents[#[trigger] order[k]].snapshot(
                        snapshots[k].timestamp_ms as int,
                    ),
            decreases handles.len() - i,
        {
            assert(entries_of(self.agents).contains_key(handles[i as int].0@));
            let handle: usize = handles[i].1;
            let snapshot = self.slots[handle].snapshot();
            snapshots.push(snapshot);
            i += 1;
        }
        proof {
            assert(order.no_duplicates());
            assert(order.to_set() =~= self@.agents.dom()) by {
                assert forall|agent_id: Seq<char>| self@.agents.dom().contains(
                    agent_id,
                ) implies order.to_set().contains(agent_id) by {
                    assert(entries_of(self.agents).contains_key(agent_id));
                    let k = choose|k: int|
                        0 <= k < handles.len() && (#[trigger] handles[k]).0@ == agent_id;
                    assert(order[k] == agent_id);
                }
            }
            order.unique_seq_to_set();
        }
        snapshots
    }

    /// The fleet-wide cap.
    pub fn fleet_budget(&self) -> (budget: &FleetBudget)
        ensures
            budget@ == self@.budget,
    {
        &self.fleet
    }

    /// Commits an amount of the fleet budget without an agent to hold it, under
    /// a name for the error. Returns what is available after, or, if the amount
    /// would oversubscribe the fleet, commits nothing.
    pub fn reserve(&mut self, holder: &str, amount_usd: NanoUsd) -> (result: Result<
        NanoUsd,
        BudgetError,
    >)
        requires
            old(self).wf(),
        ensures
            final(self).wf(),
            final(self)@ == old(self)@.reserving(amount_usd as int),
            old(self)@.valid() ==> final(self)@.valid(),
            match result {
                Ok(available) => {
                    &&& old(self)@.budget.admits(micros_of(amount_usd as int))
                    &&& available == nanos_of(final(self)@.budget.available())
                },
                Err(error) => {
                    &&& !old(self)@.budget.admits(micros_of(amount_usd as int))
                    &&& error@ == old(self)@.budget.refusal(holder@, amount_usd as int)
                },
            },
    {
        let result = self.fleet.allocate(holder, amount_usd);
        assert(self@.agents =~= old(self)@.agents);
        result
    }

    /// Adds to the fleet's record of what was spent.
    pub fn record_spend(&mut self, amount_usd: NanoUsd)
        requires
            old(self).wf(),
        ensures
            final(self).wf(),
            final(self)@ == old(self)@.recording(amount_usd as int),
            old(self)@.valid() ==> final(self)@.valid(),
    {
        self.fleet.record_spend(amount_usd);
        assert(self@.agents =~= old(self)@.agents);
    }

    /// The number of registered agents.
    pub fn agent_count(&self) -> (count: usize)
        requires
            self.wf(),
        ensures
            count == self@.agents.len(),
    {
        assert(self@.agents.dom() =~= entries_of(self.agents).dom());
        count_handles(&self.agents)
    }

    /// Whether nothing can be committed any more.
    pub fn is_fleet_exhausted(&self) -> (exhausted: bool)
        ensures
            exhausted == (self@.budget.available() == 0),
    {
        self.fleet.is_exhausted()
    }
}

proof fn lemma_registering_valid(fleet: FleetView, agent_id: Seq<char>, limit_usd: int)
    ensures
        fleet.valid() ==> fleet.registering(agent_id, limit_usd).valid(),
{
    if fleet.valid() && fleet.registration_error(agent_id, limit_usd) is None {
        let after = fleet.registering(agent_id, limit_usd);
        assert(fleet.limits().dom() =~= fleet.agents.dom());
        lemma_total_insert(fleet.limits(), agent_id, micros_of(limit_usd));
        assert(after.limits() =~= fleet.limits().insert(agent_id, micros_of(limit_usd)));
    }
}

proof fn lemma_charging_valid(fleet: FleetView, agent_id: Seq<char>, request: RequestView)
    ensures
        fleet.valid() ==> fleet.charging(agent_id, request).valid(),
{
    if fleet.valid() && fleet.accepts(agent_id, request.input_tokens, request.output_tokens) {
        let after = fleet.charging(agent_id, request);
        lemma_charged_valid(fleet.agents[agent_id], request);
        assert(after.limits() =~= fleet.limits());
    }
}

proof fn lemma_stopping_valid(fleet: FleetView, agent_id: Seq<char>)
    ensures
        fleet.valid() && fleet.agents.contains_key(agent_id) ==> fleet.stopping(agent_id).valid(),
{
    if fleet.agents.contains_key(agent_id) {
        assert(fleet.stopping(agent_id).limits() =~= fleet.limits());
    }
}

proof fn lemma_stopped_valid(fleet: FleetView)
    ensures
        fleet.valid() ==> fleet.stopped().valid(),
{
    assert(fleet.stopped().limits() =~= fleet.limits());
    assert(fleet.stopped().agents.dom() =~= fleet.agents.dom());
}

/// Law: all agents together have spent no more than their limits, which
/// together are no more than was committed, which is no more than the fleet
/// has.
pub proof fn law_fleet_cap_covers_all_spend(fleet: FleetView)
    requires
        fleet.valid(),
    ensures
        total_over(fleet.spends()) <= total_over(fleet.limits()),
        total_over(fleet.limits()) <= fleet.budget.allocated,
        fleet.budget.allocated <= fleet.budget.limit,
{
    assert(fleet.spends().dom() =~= fleet.agents.dom());
    assert(fleet.limits().dom() =~= fleet.agents.dom());
    assert forall|agent_id: Seq<char>| #[trigger]
        fleet.spends().contains_key(agent_id) implies fleet.spends()[agent_id]
        <= fleet.limits()[agent_id] by {
        assert(fleet.agents.contains_key(agent_id));
    }
    lemma_total_monotone(fleet.spends(), fleet.limits());
}

/// Something done to a fleet.
pub enum FleetOp {
    Register(Seq<char>, int),
    Charge(Seq<char>, RequestView),
    Reserve(int),
    Record(int),
    Kill(Seq<char>),
    KillAll,
}

impl FleetView {
    /// The fleet after one operation.
    pub open spec fn step(self, op: FleetOp) -> FleetView {
        match op {
            FleetOp::Register(agent_id, limit_usd) => self.registering(agent_id, limit_usd),
            FleetOp::Charge(agent_id, request) => self.charging(agent_id, request),
            FleetOp::Reserve(amount_usd) => self.reserving(amount_usd),
            FleetOp::Record(amount_usd) => self.recording(amount_usd),
            FleetOp::Kill(agent_id) => if self.agents.contains_key(agent_id) {
                self.stopping(agent_id)
            } else {
                self
            },
            FleetOp::KillAll => self.stopped(),
        }
    }

    /// The fleet after a series of operations.
    pub open spec fn run(self, ops: Seq<FleetOp>) -> FleetView
        decreases ops.len(),
    {
        if ops.len() == 0 {
            self
        } else {
            self.run(ops.drop_last()).step(ops.last())
        }
    }
}

/// Law: whatever is done to a fleet, and in whatever order, its agents stay in
/// order, the cap stays where it is, and all spend together stays under it.
pub proof fn law_fleet_cap_always_holds(fleet: FleetView, ops: Seq<FleetOp>)
    requires
        fleet.valid(),
    ensures
        fleet.run(ops).valid(),
        fleet.run(ops).budget.limit == fleet.budget.limit,
        fleet.budget.allocated <= fleet.run(ops).budget.allocated,
        total_over(fleet.run(ops).spends()) <= fleet.budget.limit,
    decreases ops.len(),
{
    if ops.len() > 0 {
        law_fleet_cap_always_holds(fleet, ops.drop_last());
        let before = fleet.run(ops.drop_last());
        match ops.last() {
            FleetOp::Register(agent_id, limit_usd) => {
                lemma_registering_valid(before, agent_id, limit_usd);
            },
            FleetOp::Charge(agent_id, request) => {
                lemma_charging_valid(before, agent_id, request);
            },
            FleetOp::Reserve(_) => {},
            FleetOp::Record(_) => {},
            FleetOp::Kill(agent_id) => {
                lemma_stopping_valid(before, agent_id);
            },
            FleetOp::KillAll => {
                lemma_stopped_valid(before);
            },
        }
    }
    law_fleet_cap_covers_all_spend(fleet.run(ops));
}

/// The fleet after a series of requests.
pub open spec fn after_requests(
    fleet: FleetView,
    requests: Seq<(Seq<char>, RequestView)>,
) -> FleetView
    decreases requests.len(),
{
    if requests.len() == 0 {
        fleet
    } else {
        after_requests(fleet, requests.drop_last()).charging(requests.last().0, requests.last().1)
    }
}

/// Law: after a fleet shutdown no request of any agent changes anything, and
/// every request of a registered agent is refused with the kill switch error.
pub proof fn law_shutdown_stops_every_agent(
    fleet: FleetView,
    requests: Seq<(Seq<char>, RequestView)>,
    agent_id: Seq<char>,
    input_tokens: int,
    output_tokens: int,
)
    ensures
        after_requests(fleet.stopped(), requests) == fleet.stopped(),
        !fleet.stopped().accepts(agent_id, input_tokens, output_tokens),
        fleet.agents.contains_key(agent_id) ==> fleet.stopped().refusal(
            agent_id,
        ) is KillSwitchActivated,
        !fleet.agents.contains_key(agent_id) ==> fleet.stopped().refusal(agent_id)
            == BudgetErrorView::UnknownAgent(agent_id),
    decreases requests.len(),
{
    if requests.len() > 0 {
        let last = requests.last();
        law_shutdown_stops_every_agent(
            fleet,
            requests.drop_last(),
            last.0,
            last.1.input_tokens,
            last.1.output_tokens,
        );
    }
}

/// Law: a request of a registered agent that was not killed is refused exactly if
/// the agent's spend and the price on its current tier together are over the
/// agent's own limit, in micro-dollars. One of a killed agent is refused for the
/// kill switch, one of an unknown ID because it is unknown.
pub proof fn law_request_is_held_to_the_agents_limit(
    fleet: FleetView,
    agent_id: Seq<char>,
    input_tokens: int,
    output_tokens: int,
)
    ensures
        fleet.accepts(agent_id, input_tokens, output_tokens) <==> {
            let agent = fleet.agents[agent_id];
            &&& fleet.agents.contains_key(agent_id)
            &&& !agent.envelope.killed
            &&& agent.envelope.budget.spent + micros_of(
                agent.cascade.current.request_price(input_tokens, output_tokens),
            ) <= agent.envelope.budget.limit
        },
        !fleet.agents.contains_key(agent_id) ==> fleet.refusal(agent_id)
            == BudgetErrorView::UnknownAgent(agent_id),
        fleet.agents.contains_key(agent_id) ==> {
            let agent = fleet.agents[agent_id];
            &&& agent.envelope.killed ==> fleet.refusal(agent_id) == (
            BudgetErrorView::KillSwitchActivated {
                agent_id: agent.envelope.scope_id,
                reason: "envelope kill switch is active"@,
            })
            &&& !agent.envelope.killed && agent.envelope.scope_kind == ScopeKind::Agent
                ==> fleet.refusal(agent_id) == (BudgetErrorView::AgentExhausted {
                agent_id: agent.envelope.scope_id,
                spent: 1000int * agent.envelope.budget.spent,
                limit: 1000int * agent.envelope.budget.limit,
            })
        },
{
}

/// Law: whether a request goes through, what it does to the agent, and how it is
/// refused do not depend on the fleet's cap, on what is committed, or on what was
/// recorded as spent, nor on the tier and threshold for new agents, nor on other
/// agents.
pub proof fn law_request_depends_on_its_agent_only(
    fleet: FleetView,
    other: FleetView,
    agent_id: Seq<char>,
    request: RequestView,
)
    requires
        fleet.agents.contains_key(agent_id) == other.agents.contains_key(agent_id),
        fleet.agents.contains_key(agent_id) ==> fleet.agents[agent_id] == other.agents[agent_id],
    ensures
        fleet.accepts(agent_id, request.input_tokens, request.output_tokens) == other.accepts(
            agent_id,
            request.input_tokens,
            request.output_tokens,
        ),
        fleet.refusal(agent_id) == other.refusal(agent_id),
        fleet.agents.contains_key(agent_id) ==> fleet.charging(agent_id, request).agents[agent_id]
            == other.charging(agent_id, request).agents[agent_id],
{
}

/// Law: an accepted request is charged to its agent as to an agent alone, and the
/// agent's new total spend is added to the fleet's record; cap, commitments and
/// the settings for new agents stay. A refused one changes nothing.
pub proof fn law_request_in_a_fleet(fleet: FleetView, agent_id: Seq<char>, request: RequestView)
    ensures
        fleet.accepts(agent_id, request.input_tokens, request.output_tokens) ==> {
            let after = fleet.charging(agent_id, request);
            let spent = after.agents[agent_id].envelope.budget.spent;
            &&& after.agents.contains_key(agent_id)
            &&& after.agents[agent_id] == fleet.agents[agent_id].charged(request)
            &&& spent == fleet.agents[agent_id].envelope.budget.spent + micros_of(
                fleet.agents[agent_id].cascade.current.request_price(
                    request.input_tokens,
                    request.output_tokens,
                ),
            )
            &&& fleet.budget.spent + spent <= u64::MAX ==> after.budget.spent == fleet.budget.spent
                + spent
            &&& after.budget.limit == fleet.budget.limit
            &&& after.budget.allocated == fleet.budget.allocated
            &&& after.default_tier == fleet.default_tier
            &&& after.default_cascade_threshold == fleet.default_cascade_threshold
        },
        !fleet.accepts(agent_id, request.input_tokens, request.output_tokens) ==> fleet.charging(
            agent_id,
            request,
        ) == fleet,
{
    law_request_is_held_to_the_agents_limit(
        fleet,
        agent_id,
        request.input_tokens,
        request.output_tokens,
    );
}

/// Law: a reallocation is approved exactly if both agents are registered and the
/// source's spend and the amount together are no more than the source's limit, in
/// nano-dollars. A source that is unknown is named first; then one that has less
/// than the amount left, with what it has left; then an unknown receiver.
pub proof fn law_reallocation_is_held_to_what_is_left(
    fleet: FleetView,
    from_agent: Seq<char>,
    to_agent: Seq<char>,
    amount_usd: int,
)
    requires
        fleet.agents.contains_key(from_agent) ==> fleet.agents[from_agent].envelope.budget.spent
            <= fleet.agents[from_agent].envelope.budget.limit,
    ensures
        ({
            let budget = fleet.agents[from_agent].envelope.budget;
            let error = fleet.reallocation_error(from_agent, to_agent, amount_usd);
            &&& error is None <==> {
                &&& fleet.agents.contains_key(from_agent)
                &&& fleet.agents.contains_key(to_agent)
                &&& 1000 * budget.spent + amount_usd <= 1000 * budget.limit
            }
            &&& !fleet.agents.contains_key(from_agent) ==> error == Some(
                BudgetErrorView::UnknownAgent(from_agent),
            )
            &&& fleet.agents.contains_key(from_agent) && 1000 * budget.spent + amount_usd > 1000
                * budget.limit ==> error == Some(
                BudgetErrorView::ReallocationFailed {
                    from: from_agent,
                    to: to_agent,
                    amount: amount_usd,
                    available: 1000 * (budget.limit - budget.spent),
                },
            )
            &&& fleet.agents.contains_key(from_agent) && 1000 * budget.spent + amount_usd <= 1000
                * budget.limit && !fleet.agents.contains_key(to_agent) ==> error == Some(
                BudgetErrorView::UnknownAgent(to_agent),
            )
        }),
{
}

/// Law: a registration goes through exactly if what is committed and the limit
/// together are no more than the cap, the limit is above zero, and the fleet's
/// threshold is a fraction. The agent then starts alive and without spend on the
/// fleet's default tier, steps down at the fleet's default threshold, and has the
/// limit it was registered with, for its spend and for its cascade.
pub proof fn law_registered_agent_gets_the_fleets_defaults(
    fleet: FleetView,
    agent_id: Seq<char>,
    limit_usd: int,
)
    ensures
        fleet.registration_error(agent_id, limit_usd) is None <==> {
            &&& fleet.budget.allocated + micros_of(limit_usd) <= fleet.budget.limit
            &&& 0 < limit_usd
            &&& 0 <= fleet.default_cascade_threshold <= 1_000_000_000
        },
        fleet.budget.allocated + micros_of(limit_usd) > fleet.budget.limit
            ==> fleet.registration_error(agent_id, limit_usd) == Some(
            BudgetErrorView::AllocationFailed {
                agent_id,
                requested: limit_usd,
                available: 1000int * fleet.budget.available(),
            },
        ),
        fleet.budget.allocated + micros_of(limit_usd) <= fleet.budget.limit && limit_usd <= 0
            ==> fleet.registration_error(agent_id, limit_usd) == Some(
            BudgetErrorView::InvalidConfig("limit must be positive"@),
        ),
        fleet.budget.allocated + micros_of(limit_usd) <= fleet.budget.limit && 0 < limit_usd && !(0
            <= fleet.default_cascade_threshold <= 1_000_000_000) ==> fleet.registration_error(
            agent_id,
            limit_usd,
        ) == Some(threshold_error(fleet.default_cascade_threshold)),
        fleet.registration_error(agent_id, limit_usd) is None ==> {
            let after = fleet.registering(agent_id, limit_usd);
            let agent = after.agents[agent_id];
            &&& after.agents.dom() == fleet.agents.dom().insert(agent_id)
            &&& agent.agent_id == agent_id
            &&& agent.cascade.current == fleet.default_tier
            &&& agent.cascade.pressure_threshold == fleet.default_cascade_threshold
            &&& agent.cascade.total_budget == limit_usd
            &&& agent.envelope.scope_id == agent_id
            &&& agent.envelope.scope_kind == ScopeKind::Agent
            &&& agent.envelope.budget.limit == micros_of(limit_usd)
            &&& agent.envelope.budget.spent == 0
            &&& agent.envelope.log.len() == 0
            &&& !agent.envelope.killed
            &&& after.budget.allocated == fleet.budget.allocated + micros_of(limit_usd)
            &&& after.budget.limit == fleet.budget.limit
            &&& after.budget.spent == fleet.budget.spent
            &&& after.default_tier == fleet.default_tier
            &&& after.default_cascade_threshold == fleet.default_cascade_threshold
        },
{
}

/// Law: killing one agent, or all, turns on kill switches and changes nothing
/// else: no agent comes or goes, and budgets, logs, tiers, the cap and the
/// settings for new agents stay. Committing without an agent and recording spend
/// touch no agent.
pub proof fn law_fleet_operations_touch_nothing_else(
    fleet: FleetView,
    agent_id: Seq<char>,
    any: Seq<char>,
    amount_usd: int,
)
    requires
        fleet.agents.contains_key(agent_id),
        fleet.agents.contains_key(any),
    ensures
        fleet.stopping(agent_id).agents.dom() == fleet.agents.dom(),
        fleet.stopping(agent_id).agents[any].envelope.killed == (any == agent_id
            || fleet.agents[any].envelope.killed),
        fleet.stopping(agent_id).agents[any].envelope.budget == fleet.agents[any].envelope.budget,
        fleet.stopping(agent_id).agents[any].envelope.log == fleet.agents[any].envelope.log,
        fleet.stopping(agent_id).agents[any].cascade == fleet.agents[any].cascade,
        fleet.stopping(agent_id).agents[any].agent_id == fleet.agents[any].agent_id,
        fleet.stopping(agent_id).budget == fleet.budget,
        fleet.stopping(agent_id).default_tier == fleet.default_tier,
        fleet.stopping(agent_id).default_cascade_threshold == fleet.default_cascade_threshold,
        fleet.stopped().agents.dom() == fleet.agents.dom(),
        fleet.stopped().agents[any].envelope.killed,
        fleet.stopped().agents[any].envelope.budget == fleet.agents[any].envelope.budget,
        fleet.stopped().agents[any].envelope.log == fleet.agents[any].envelope.log,
        fleet.stopped().agents[any].cascade == fleet.agents[any].cascade,
        fleet.stopped().agents[any].agent_id == fleet.agents[any].agent_id,
        fleet.stopped().budget == fleet.budget,
        fleet.stopped().default_tier == fleet.default_tier,
        fleet.stopped().default_cascade_threshold == fleet.default_cascade_threshold,
        fleet.reserving(amount_usd).agents == fleet.agents,
        fleet.reserving(amount_usd).default_tier == fleet.default_tier,
        fleet.reserving(amount_usd).default_cascade_threshold == fleet.default_cascade_threshold,
        fleet.reserving(amount_usd).budget == fleet.budget.allocating(micros_of(amount_usd)),
        fleet.recording(amount_usd).agents == fleet.agents,
        fleet.recording(amount_usd).default_tier == fleet.default_tier,
        fleet.recording(amount_usd).default_cascade_threshold == fleet.default_cascade_threshold,
        fleet.recording(amount_usd).budget == fleet.budget.recording(micros_of(amount_usd)),
{
    assert(fleet.stopping(agent_id).agents.dom() =~= fleet.agents.dom());
    assert(fleet.stopped().agents.dom() =~= fleet.agents.dom());
}

/// Law: a fleet is valid exactly if each of its agents is valid and stands under
/// its own ID, the limits of all of them together are no more than is committed,
/// and no more is committed than the cap.
pub proof fn law_valid_fleet(fleet: FleetView)
    ensures
        fleet.valid() <==> {
            &&& fleet.agents.dom().finite()
            &&& forall|agent_id: Seq<char>| #[trigger]
                fleet.agents.contains_key(agent_id) ==> fleet.agents[agent_id].valid()
                    && fleet.agents[agent_id].agent_id == agent_id
            &&& total_over(fleet.limits()) <= fleet.budget.allocated
            &&& fleet.budget.allocated <= fleet.budget.limit
            &&& fleet.budget.limit <= u64::MAX
            &&& fleet.budget.spent <= u64::MAX
        },
{
}

/// Law: the limits and the spends of a fleet are those of its agents, one each.
pub proof fn law_sums_are_over_the_agents(fleet: FleetView, agent_id: Seq<char>)
    ensures
        fleet.limits().dom() == fleet.agents.dom(),
        fleet.spends().dom() == fleet.agents.dom(),
        fleet.agents.contains_key(agent_id) ==> {
            &&& fleet.limits()[agent_id] == fleet.agents[agent_id].envelope.budget.limit
            &&& fleet.spends()[agent_id] == fleet.agents[agent_id].envelope.budget.spent
        },
{
    assert(fleet.limits().dom() =~= fleet.agents.dom());
    assert(fleet.spends().dom() =~= fleet.agents.dom());
}

/// Law: killing one agent stops that agent and leaves the others alone.
pub proof fn law_kill_stops_one_agent(
    fleet: FleetView,
    agent_id: Seq<char>,
    other: Seq<char>,
    input_tokens: int,
    output_tokens: int,
)
    requires
        fleet.agents.contains_key(agent_id),
        other != agent_id,
    ensures
        !fleet.stopping(agent_id).accepts(agent_id, input_tokens, output_tokens),
        fleet.stopping(agent_id).refusal(agent_id) is KillSwitchActivated,
        fleet.stopping(agent_id).agents.contains_key(other) == fleet.agents.contains_key(other),
        fleet.agents.contains_key(other) ==> fleet.stopping(agent_id).agents[other]
            == fleet.agents[other],
{
}

/// Law: a request touches no agent but the one that made it.
pub proof fn law_request_touches_one_agent(
    fleet: FleetView,
    agent_id: Seq<char>,
    request: RequestView,
    other: Seq<char>,
)
    requires
        other != agent_id,
    ensures
        fleet.charging(agent_id, request).agents.dom() == fleet.agents.dom(),
        fleet.agents.contains_key(other) ==> fleet.charging(agent_id, request).agents[other]
            == fleet.agents[other],
        fleet.charging(agent_id, request).budget.allocated == fleet.budget.allocated,
{
    assert(fleet.charging(agent_id, request).agents.dom() =~= fleet.agents.dom());
}

/// Law: a registration that is refused changes nothing, and one that would
/// oversubscribe the fleet is refused for that; one that goes through adds a
/// fresh agent, leaves the others alone, and commits the limit to it.
pub proof fn law_registration(
    fleet: FleetView,
    agent_id: Seq<char>,
    limit_usd: int,
    other: Seq<char>,
)
    requires
        other != agent_id,
    ensures
        fleet.registration_error(agent_id, limit_usd) is Some ==> fleet.registering(
            agent_id,
            limit_usd,
        ) == fleet,
        !fleet.budget.admits(micros_of(limit_usd)) <==> {
            &&& fleet.registration_error(agent_id, limit_usd) is Some
            &&& fleet.registration_error(agent_id, limit_usd)->Some_0 is AllocationFailed
        },
        fleet.registration_error(agent_id, limit_usd) is None ==> {
            let after = fleet.registering(agent_id, limit_usd);
            &&& after.agents.contains_key(agent_id)
            &&& after.agents[agent_id].envelope.budget.spent == 0
            &&& after.agents[agent_id].envelope.budget.limit == micros_of(limit_usd)
            &&& !after.agents[agent_id].envelope.killed
            &&& after.agents.contains_key(other) == fleet.agents.contains_key(other)
            &&& fleet.agents.contains_key(other) ==> after.agents[other] == fleet.agents[other]
            &&& after.budget.allocated == fleet.budget.allocated + micros_of(limit_usd)
        },
{
}

impl FleetView {
    /// Whether a series of operations gives an agent a new budget.
    pub open spec fn registers(self, ops: Seq<FleetOp>, agent_id: Seq<char>) -> bool
        decreases ops.len(),
    {
        ops.len() > 0 && (self.registers(ops.drop_last(), agent_id) || match ops.last() {
            FleetOp::Register(id, limit_usd) => {
                &&& id == agent_id
                &&& self.run(ops.drop_last()).registration_error(id, limit_usd) is None
            },
            _ => false,
        })
    }

    /// Whether the fleet's record of spend never wraps around in a series of
    /// operations.
    pub open spec fn record_only_grows(self, ops: Seq<FleetOp>) -> bool
        decreases ops.len(),
    {
        ops.len() == 0 || {
            &&& self.record_only_grows(ops.drop_last())
            &&& self.run(ops.drop_last()).budget.spent <= self.run(ops).budget.spent
        }
    }
}

proof fn lemma_killed_stays(fleet: FleetView, ops: Seq<FleetOp>, agent_id: Seq<char>)
    requires
        fleet.agents.contains_key(agent_id),
        fleet.agents[agent_id].envelope.killed,
        !fleet.registers(ops, agent_id),
    ensures
        fleet.run(ops).agents.contains_key(agent_id),
        fleet.run(ops).agents[agent_id] == fleet.agents[agent_id],
    decreases ops.len(),
{
    if ops.len() > 0 {
        lemma_killed_stays(fleet, ops.drop_last(), agent_id);
    }
}

/// Law: an agent that was killed stays so whatever is done to the fleet, unless
/// its ID is registered again: its budget does not change, and every request of
/// it is refused with the kill switch error.
pub proof fn law_killed_agent_stays_killed(
    fleet: FleetView,
    ops: Seq<FleetOp>,
    agent_id: Seq<char>,
    input_tokens: int,
    output_tokens: int,
)
    requires
        fleet.agents.contains_key(agent_id),
        !fleet.stopping(agent_id).registers(ops, agent_id),
    ensures
        fleet.stopping(agent_id).run(ops).agents.contains_key(agent_id),
        fleet.stopping(agent_id).run(ops).agents[agent_id] == fleet.agents[agent_id].stopped(),
        !fleet.stopping(agent_id).run(ops).accepts(agent_id, input_tokens, output_tokens),
        fleet.stopping(agent_id).run(ops).refusal(agent_id) is KillSwitchActivated,
{
    lemma_killed_stays(fleet.stopping(agent_id), ops, agent_id);
}

/// Law: after a fleet shutdown every agent stays killed whatever is done to the
/// fleet, unless its ID is registered again: its budget does not change, and
/// every request of it is refused with the kill switch error.
pub proof fn law_shutdown_lasts(
    fleet: FleetView,
    ops: Seq<FleetOp>,
    agent_id: Seq<char>,
    input_tokens: int,
    output_tokens: int,
)
    requires
        fleet.agents.contains_key(agent_id),
        !fleet.stopped().registers(ops, agent_id),
    ensures
        fleet.stopped().run(ops).agents.contains_key(agent_id),
        fleet.stopped().run(ops).agents[agent_id] == fleet.agents[agent_id].stopped(),
        !fleet.stopped().run(ops).accepts(agent_id, input_tokens, output_tokens),
        fleet.stopped().run(ops).refusal(agent_id) is KillSwitchActivated,
{
    lemma_killed_stays(fleet.stopped(), ops, agent_id);
}

proof fn lemma_record_covers(fleet: FleetView, op: FleetOp)
    requires
        fleet.valid(),
        total_over(fleet.spends()) <= fleet.budget.spent,
        fleet.budget.spent <= fleet.step(op).budget.spent,
    ensures
        total_over(fleet.step(op).spends()) <= fleet.step(op).budget.spent,
{
    let after = fleet.step(op);
    let spends = fleet.spends();
    assert(spends.dom() =~= fleet.agents.dom());
    match op {
        FleetOp::Register(agent_id, limit_usd) => {
            if fleet.registration_error(agent_id, limit_usd) is None {
                lemma_total_insert(spends, agent_id, 0);
                assert(after.spends() =~= spends.insert(agent_id, 0));
            }
        },
        FleetOp::Charge(agent_id, request) => {
            if fleet.accepts(agent_id, request.input_tokens, request.output_tokens) {
                let agent = fleet.agents[agent_id].charged(request);
                let spent = agent.envelope.budget.spent;
                lemma_charged_valid(fleet.agents[agent_id], request);
                lemma_total_insert(spends, agent_id, spent);
                assert(after.spends() =~= spends.insert(agent_id, spent));
            }
        },
        FleetOp::Kill(agent_id) => {
            if fleet.agents.contains_key(agent_id) {
                assert(after.spends() =~= spends);
            }
        },
        FleetOp::KillAll => {
            assert(after.spends() =~= spends);
        },
        FleetOp::Reserve(_) => {},
        FleetOp::Record(_) => {},
    }
}

/// Law: a fleet's record of spend covers what all its agents have spent, whatever
/// is done to the fleet, as long as the record does not wrap around.
pub proof fn law_record_covers_all_spend(fleet: FleetView, ops: Seq<FleetOp>)
    requires
        fleet.valid(),
        total_over(fleet.spends()) <= fleet.budget.spent,
        fleet.record_only_grows(ops),
    ensures
        total_over(fleet.run(ops).spends()) <= fleet.run(ops).budget.spent,
    decreases ops.len(),
{
    if ops.len() > 0 {
        law_record_covers_all_spend(fleet, ops.drop_last());
        law_fleet_cap_always_holds(fleet, ops.drop_last());
        lemma_record_covers(fleet.run(ops.drop_last()), ops.last());
    }
}

/// Law: what an accepted request adds to the fleet's record of spend is at
/// least what the request cost, as long as the record does not wrap around.
pub proof fn law_recorded_spend_is_no_underestimate(
    fleet: FleetView,
    agent_id: Seq<char>,
    request: RequestView,
)
    requires
        fleet.accepts(agent_id, request.input_tokens, request.output_tokens),
        fleet.budget.spent + fleet.charging(
            agent_id,
            request,
        ).agents[agent_id].envelope.budget.spent <= u64::MAX,
    ensures
        fleet.charging(agent_id, request).budget.spent >= fleet.budget.spent + micros_of(
            fleet.agents[agent_id].price(request.input_tokens, request.output_tokens),
        ),
{
}

} // verus!
