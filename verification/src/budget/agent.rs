//! The budget of an agent: an envelope, and the cascade that picks its tier.

use vstd::prelude::*;

use crate::budget::atomic::Ratio;
use crate::budget::envelope::{BudgetEnvelope, EnvelopeView, ScopeKind};
use crate::budget::record::{log_total, text_of, SpendRecord, SpendRecordView};
use crate::clock::{is_reading, now_ms};
use crate::error::{BudgetError, BudgetErrorView};
use crate::model::{threshold_error, CascadeView, ModelCascade, ModelTier};
use crate::money::{micros_of, nanos_of, Billionths, NanoUsd, WHOLE};

verus! {

/// The state of an agent's budget at one point in time.
#[derive(Debug)]
pub struct BudgetSnapshot {
    pub agent_id: String,
    pub spent_usd: NanoUsd,
    pub limit_usd: NanoUsd,
    pub remaining_usd: NanoUsd,
    pub utilization: Ratio,
    pub is_killed: bool,
    pub model_tier: ModelTier,
    pub timestamp_ms: u64,
}

/// A snapshot with its string as a sequence of characters.
pub struct SnapshotView {
    pub agent_id: Seq<char>,
    pub spent_usd: int,
    pub limit_usd: int,
    pub remaining_usd: int,
    pub utilization: Ratio,
    pub is_killed: bool,
    pub model_tier: ModelTier,
    pub timestamp_ms: int,
}

impl View for BudgetSnapshot {
    type V = SnapshotView;

    open spec fn view(&self) -> SnapshotView {
        SnapshotView {
            agent_id: self.agent_id@,
            spent_usd: self.spent_usd as int,
            limit_usd: self.limit_usd as int,
            remaining_usd: self.remaining_usd as int,
            utilization: self.utilization,
            is_killed: self.is_killed,
            model_tier: self.model_tier,
            timestamp_ms: self.timestamp_ms as int,
        }
    }
}

impl Clone for BudgetSnapshot {
    fn clone(&self) -> (copy: BudgetSnapshot)
        ensures
            copy == *self,
    {
        BudgetSnapshot {
            agent_id: self.agent_id.clone(),
            spent_usd: self.spent_usd,
            limit_usd: self.limit_usd,
            remaining_usd: self.remaining_usd,
            utilization: self.utilization,
            is_killed: self.is_killed,
            model_tier: self.model_tier,
            timestamp_ms: self.timestamp_ms,
        }
    }
}

/// The budget of an agent.
pub struct AgentBudget {
    pub agent_id: String,
    envelope: BudgetEnvelope,
    cascade: ModelCascade,
}

/// What the budget of an agent holds.
pub struct AgentView {
    pub agent_id: Seq<char>,
    pub envelope: EnvelopeView,
    pub cascade: CascadeView,
}

/// A request to charge for.
pub struct RequestView {
    pub input_tokens: int,
    pub output_tokens: int,
    pub task_id: Option<Seq<char>>,
    pub session_id: Option<Seq<char>>,
    pub timestamp_ms: int,
}

impl AgentView {
    /// The budget of a new agent.
    pub open spec fn fresh(
        agent_id: Seq<char>,
        limit_usd: int,
        initial_tier: ModelTier,
        cascade_threshold: int,
    ) -> AgentView {
        AgentView {
            agent_id,
            envelope: EnvelopeView::fresh(agent_id, ScopeKind::Agent, micros_of(limit_usd)),
            cascade: CascadeView {
                current: initial_tier,
                pressure_threshold: cascade_threshold,
                total_budget: limit_usd,
            },
        }
    }

    /// Envelope and cascade are valid, and the envelope is that of the agent; the
    /// fraction that the cascade looks at is taken of the agent's own limit;
    /// every logged charge was priced at the tier it was made on; the tiers of
    /// the log only go down, to the current one.
    pub open spec fn valid(self) -> bool {
        &&& self.envelope.valid()
        &&& self.envelope.scope_kind == ScopeKind::Agent
        &&& self.envelope.scope_id == self.agent_id
        &&& self.cascade.valid()
        &&& self.envelope.budget.limit == micros_of(self.cascade.total_budget)
        &&& forall|i: int|
            0 <= i < self.envelope.log.len() ==> (#[trigger] self.envelope.log[i]).cost_usd
                == self.envelope.log[i].model_tier.request_price(
                self.envelope.log[i].input_tokens,
                self.envelope.log[i].output_tokens,
            )
        &&& forall|i: int, j: int|
            0 <= i <= j < self.envelope.log.len() ==> (
            #[trigger] self.envelope.log[j]).model_tier.spec_rank() <= (
            #[trigger] self.envelope.log[i]).model_tier.spec_rank()
        &&& forall|i: int|
            0 <= i < self.envelope.log.len() ==> self.cascade.current.spec_rank() <= (
            #[trigger] self.envelope.log[i]).model_tier.spec_rank()
    }

    /// What a request costs on the current tier.
    pub open spec fn price(self, input_tokens: int, output_tokens: int) -> int {
        self.cascade.current.request_price(input_tokens, output_tokens)
    }

    /// Whether a request goes through.
    pub open spec fn accepts(self, input_tokens: int, output_tokens: int) -> bool {
        self.envelope.accepts(self.price(input_tokens, output_tokens))
    }

    /// The record of a request.
    pub open spec fn record(self, request: RequestView) -> SpendRecordView {
        SpendRecordView {
            agent_id: self.agent_id,
            task_id: request.task_id,
            session_id: request.session_id,
            model_tier: self.cascade.current,
            input_tokens: request.input_tokens,
            output_tokens: request.output_tokens,
            cost_usd: self.price(request.input_tokens, request.output_tokens),
            timestamp_ms: request.timestamp_ms,
        }
    }

    /// What is left, in nano-dollars, once a cost was charged.
    pub open spec fn left_after(self, cost_usd: int) -> int {
        nanos_of(self.envelope.budget.charged(micros_of(cost_usd)).remaining())
    }

    /// The budget after a request: an accepted one is charged, and then the
    /// cascade looks at what is left; a refused one changes nothing.
    pub open spec fn charged(self, request: RequestView) -> AgentView {
        let record = self.record(request);
        if self.envelope.accepts(record.cost_usd) {
            AgentView {
                envelope: self.envelope.charged(record),
                cascade: self.cascade.evaluated(self.left_after(record.cost_usd)),
                ..self
            }
        } else {
            self
        }
    }

    /// The tier that an accepted request makes the agent move to, if any.
    pub open spec fn downgrade(self, input_tokens: int, output_tokens: int) -> Option<ModelTier> {
        self.cascade.evaluation(self.left_after(self.price(input_tokens, output_tokens)))
    }

    /// The budget with its kill switch on.
    pub open spec fn stopped(self) -> AgentView {
        AgentView { envelope: self.envelope.stopped(), ..self }
    }

    /// The snapshot of the budget at a point in time.
    pub open spec fn snapshot(self, timestamp_ms: int) -> SnapshotView {
        SnapshotView {
            agent_id: self.agent_id,
            spent_usd: nanos_of(self.envelope.budget.spent),
            limit_usd: nanos_of(self.envelope.budget.limit),
            remaining_usd: nanos_of(self.envelope.budget.remaining()),
            utilization: Ratio {
                part: self.envelope.budget.spent as u64,
                whole: self.envelope.budget.whole() as u64,
            },
            is_killed: self.envelope.killed,
            model_tier: self.cascade.current,
            timestamp_ms,
        }
    }
}

impl View for AgentBudget {
    type V = AgentView;

    closed spec fn view(&self) -> AgentView {
        AgentView {
            agent_id: self.agent_id@,
            envelope: self.envelope@,
            cascade: self.cascade@,
        }
    }
}

/// What is said of the limit and the threshold of a new agent.
pub open spec fn agent_config_error(limit_usd: int, cascade_threshold: int) -> Option<
    BudgetErrorView,
> {
    if limit_usd <= 0 {
        Some(BudgetErrorView::InvalidConfig("limit must be positive"@))
    } else if cascade_threshold < 0 || cascade_threshold > WHOLE {
        Some(threshold_error(cascade_threshold))
    } else {
        None
    }
}

impl AgentBudget {
    /// Creates the budget of an agent.
    pub fn new(
        agent_id: &str,
        limit_usd: NanoUsd,
        initial_tier: ModelTier,
        cascade_threshold: Billionths,
    ) -> (result: Result<AgentBudget, BudgetError>)
        ensures
            match result {
                Ok(agent) => {
                    &&& agent_config_error(limit_usd as int, cascade_threshold as int) is None
                    &&& agent@ == AgentView::fresh(
                        agent_id@,
                        limit_usd as int,
                        initial_tier,
                        cascade_threshold as int,
                    )
                    &&& agent@.valid()
                },
                Err(error) => agent_config_error(limit_usd as int, cascade_threshold as int)
                    == Some(error@),
            },
    {
        let envelope = BudgetEnvelope::new(agent_id, ScopeKind::Agent, limit_usd)?;
        let cascade = ModelCascade::new(initial_tier, cascade_threshold, limit_usd)?;
        Ok(AgentBudget { agent_id: agent_id.to_owned(), envelope, cascade })
    }

    /// The agent that the budget is for.
    pub fn agent_id(&self) -> (id: &str)
        ensures
            id@ == self@.agent_id,
    {
        self.agent_id.as_str()
    }

    /// Charges a request that was made at a given time at the price of the
    /// current tier, and lets the cascade look at what is left. Returns the new
    /// total, and the new tier if there was a downgrade.
    pub fn charge_at(
        &mut self,
        input_tokens: u32,
        output_tokens: u32,
        task_id: Option<String>,
        session_id: Option<String>,
        timestamp_ms: u64,
    ) -> (result: Result<(NanoUsd, Option<ModelTier>), BudgetError>)
        ensures
            final(self)@ == old(self)@.charged(
                RequestView {
                    input_tokens: input_tokens as int,
                    output_tokens: output_tokens as int,
                    task_id: text_of(task_id),
                    session_id: text_of(session_id),
                    timestamp_ms: timestamp_ms as int,
                },
            ),
            old(self)@.valid() ==> final(self)@.valid(),
            match result {
                Ok((total, new_tier)) => {
                    &&& old(self)@.accepts(input_tokens as int, output_tokens as int)
                    &&& total == nanos_of(final(self)@.envelope.budget.spent)
                    &&& new_tier == old(self)@.downgrade(input_tokens as int, output_tokens as int)
                },
                Err(error) => {
                    &&& !old(self)@.accepts(input_tokens as int, output_tokens as int)
                    &&& error@ == old(self)@.envelope.refusal()
                },
            },
    {
        let ghost request = RequestView {
            input_tokens: input_tokens as int,
            output_tokens: output_tokens as int,
            task_id: text_of(task_id),
            session_id: text_of(session_id),
            timestamp_ms: timestamp_ms as int,
        };
        proof {
            lemma_charged_valid(self@, request);
        }
        let current_tier = self.cascade.current();
        let cost_usd: NanoUsd = current_tier.estimate_cost(input_tokens, output_tokens);
        let record = SpendRecord {
            agent_id: self.agent_id.clone(),
            task_id,
            session_id,
            model_tier: current_tier,
            input_tokens,
            output_tokens,
            cost_usd,
            timestamp_ms,
        };
        assert(record@ == old(self)@.record(request));
        match self.envelope.charge(record) {
            Ok(total) => {
                let remaining: NanoUsd = self.envelope.remaining_usd();
                let new_tier = self.cascade.evaluate(remaining);
                Ok((total, new_tier))
            },
            Err(error) => Err(error),
        }
    }

    /// Charges a request that is made now.
    pub fn charge(
        &mut self,
        input_tokens: u32,
        output_tokens: u32,
        task_id: Option<String>,
        session_id: Option<String>,
    ) -> (result: Result<(NanoUsd, Option<ModelTier>), BudgetError>)
        ensures
            exists|timestamp_ms: u64|
                is_reading(timestamp_ms as int) && final(self)@ == #[trigger] old(self)@.charged(
                    RequestView {
                        input_tokens: input_tokens as int,
                        output_tokens: output_tokens as int,
                        task_id: text_of(task_id),
                        session_id: text_of(session_id),
                        timestamp_ms: timestamp_ms as int,
                    },
                ),
            old(self)@.valid() ==> final(self)@.valid(),
            match result {
                Ok((total, new_tier)) => {
                    &&& old(self)@.accepts(input_tokens as int, output_tokens as int)
                    &&& total == nanos_of(final(self)@.envelope.budget.spent)
                    &&& new_tier == old(self)@.downgrade(input_tokens as int, output_tokens as int)
                },
                Err(error) => {
                    &&& !old(self)@.accepts(input_tokens as int, output_tokens as int)
                    &&& error@ == old(self)@.envelope.refusal()
                    &&& final(self)@ == old(self)@
                },
            },
    {
        let timestamp_ms: u64 = now_ms();
        self.charge_at(input_tokens, output_tokens, task_id, session_id, timestamp_ms)
    }

    /// Turns the kill switch on: every later charge is refused.
    pub fn kill(&mut self, reason: &str)
        ensures
            final(self)@ == old(self)@.stopped(),
            old(self)@.valid() ==> final(self)@.valid(),
    {
        self.envelope.kill(reason);
    }

    /// Whether the kill switch is on.
    pub fn is_killed(&self) -> (killed: bool)
        ensures
            killed == self@.envelope.killed,
    {
        self.envelope.is_killed()
    }

    /// Current spend.
    pub fn spent_usd(&self) -> (usd: NanoUsd)
        ensures
            usd == nanos_of(self@.envelope.budget.spent),
            0 <= usd <= nanos_of(u64::MAX as nat),
    {
        self.envelope.spent_usd()
    }

    /// What is left of the budget.
    pub fn remaining_usd(&self) -> (usd: NanoUsd)
        ensures
            usd == nanos_of(self@.envelope.budget.remaining()),
            usd + nanos_of(self@.envelope.budget.spent) == nanos_of(self@.envelope.budget.limit),
    {
        self.envelope.remaining_usd()
    }

    /// The tier that the next request is charged at.
    pub fn current_tier(&self) -> (tier: ModelTier)
        ensures
            tier == self@.cascade.current,
    {
        self.cascade.current()
    }

    /// The state of the budget, marked with a given time.
    pub fn snapshot_at(&self, timestamp_ms: u64) -> (snapshot: BudgetSnapshot)
        ensures
            snapshot@ == self@.snapshot(timestamp_ms as int),
            snapshot.spent_usd + snapshot.remaining_usd == snapshot.limit_usd,
            snapshot.utilization.part == self@.envelope.budget.spent,
            snapshot.utilization.whole == self@.envelope.budget.whole(),
            snapshot.utilization.part <= snapshot.utilization.whole,
            snapshot.utilization.whole >= 1,
    {
        BudgetSnapshot {
            agent_id: self.agent_id.clone(),
            spent_usd: self.envelope.spent_usd(),
            limit_usd: self.envelope.limit_usd(),
            remaining_usd: self.envelope.remaining_usd(),
            utilization: self.envelope.utilization(),
            is_killed: self.envelope.is_killed(),
            model_tier: self.cascade.current(),
            timestamp_ms,
        }
    }

    /// The state of the budget now.
    pub fn snapshot(&self) -> (snapshot: BudgetSnapshot)
        ensures
            snapshot@ == self@.snapshot(snapshot.timestamp_ms as int),
            is_reading(snapshot.timestamp_ms as int),
            snapshot.spent_usd + snapshot.remaining_usd == snapshot.limit_usd,
            snapshot.utilization.part == self@.envelope.budget.spent,
            snapshot.utilization.whole == self@.envelope.budget.whole(),
            snapshot.utilization.part <= snapshot.utilization.whole,
            snapshot.utilization.whole >= 1,
    {
        self.snapshot_at(now_ms())
    }
}

/// A request keeps an agent valid, its limit, and its tier from rising.
pub proof fn lemma_charged_valid(agent: AgentView, request: RequestView)
    ensures
        agent.valid() ==> agent.charged(request).valid(),
        agent.charged(request).cascade.current.spec_rank() <= agent.cascade.current.spec_rank(),
        agent.charged(request).envelope.budget.limit == agent.envelope.budget.limit,
{
    let record = agent.record(request);
    assert(agent.envelope.log.push(record).drop_last() =~= agent.envelope.log);
}

/// Law: a request goes through exactly if the agent is alive and what is spent and
/// its price on the current tier together are no more than the limit, in
/// micro-dollars. The spend then rises by the price, and the log gains one record
/// at its end, which says who asked, for what task and session, on which tier, for
/// how many tokens, at which price, and when. A refused request changes nothing.
pub proof fn law_request_is_priced_and_recorded(agent: AgentView, request: RequestView, i: int)
    ensures
        agent.accepts(request.input_tokens, request.output_tokens) <==> {
            &&& !agent.envelope.killed
            &&& agent.envelope.budget.spent + micros_of(
                agent.cascade.current.request_price(request.input_tokens, request.output_tokens),
            ) <= agent.envelope.budget.limit
        },
        agent.price(request.input_tokens, request.output_tokens)
            == agent.cascade.current.request_price(request.input_tokens, request.output_tokens),
        agent.charged(request).agent_id == agent.agent_id,
        agent.charged(request).envelope.scope_id == agent.envelope.scope_id,
        agent.charged(request).envelope.scope_kind == agent.envelope.scope_kind,
        agent.charged(request).envelope.killed == agent.envelope.killed,
        agent.charged(request).envelope.budget.limit == agent.envelope.budget.limit,
        agent.accepts(request.input_tokens, request.output_tokens) ==> {
            let price = agent.cascade.current.request_price(
                request.input_tokens,
                request.output_tokens,
            );
            let after = agent.charged(request).envelope;
            &&& after.budget.spent == agent.envelope.budget.spent + micros_of(price)
            &&& after.log.len() == agent.envelope.log.len() + 1
            &&& 0 <= i < agent.envelope.log.len() ==> after.log[i] == agent.envelope.log[i]
            &&& after.log.last().agent_id == agent.agent_id
            &&& after.log.last().task_id == request.task_id
            &&& after.log.last().session_id == request.session_id
            &&& after.log.last().model_tier == agent.cascade.current
            &&& after.log.last().input_tokens == request.input_tokens
            &&& after.log.last().output_tokens == request.output_tokens
            &&& after.log.last().cost_usd == price
            &&& after.log.last().timestamp_ms == request.timestamp_ms
        },
        !agent.accepts(request.input_tokens, request.output_tokens) ==> agent.charged(request)
            == agent,
{
}

/// Law: after an accepted request the agent steps down one tier exactly if less
/// than the threshold of its budget is left then and it is not on the local tier
/// yet; it is told the tier it moved to, and nothing if it did not move. What is
/// left is the limit without the new spend, in nano-dollars.
pub proof fn law_request_steps_down_below_the_threshold(agent: AgentView, request: RequestView)
    requires
        agent.accepts(request.input_tokens, request.output_tokens),
    ensures
        ({
            let after = agent.charged(request);
            let left = 1000 * (agent.envelope.budget.limit - after.envelope.budget.spent);
            let told = agent.downgrade(request.input_tokens, request.output_tokens);
            &&& after.cascade.pressure_threshold == agent.cascade.pressure_threshold
            &&& after.cascade.total_budget == agent.cascade.total_budget
            &&& told == (if after.cascade.current == agent.cascade.current {
                None
            } else {
                Some(after.cascade.current)
            })
            &&& left * 1_000_000_000 < agent.cascade.pressure_threshold
                * agent.cascade.total_budget ==> after.cascade.current == (
            match agent.cascade.current {
                ModelTier::Premium => ModelTier::Standard,
                ModelTier::Standard => ModelTier::Economy,
                ModelTier::Economy => ModelTier::Local,
                ModelTier::Local => ModelTier::Local,
            })
            &&& left * 1_000_000_000 >= agent.cascade.pressure_threshold
                * agent.cascade.total_budget ==> after.cascade.current == agent.cascade.current
        }),
{
    law_request_is_priced_and_recorded(agent, request, 0);
}

/// Law: an agent is refused for a limit that is not above zero, else for a
/// threshold that is no fraction, and for nothing else. A new one is alive, has
/// spent nothing, has its limit to the nearest micro-dollar, starts on the tier it
/// is given, and steps down at the threshold it is given, of the limit it is given.
pub proof fn law_new_agent(
    agent_id: Seq<char>,
    limit_usd: int,
    initial_tier: ModelTier,
    cascade_threshold: int,
)
    ensures
        ({
            let agent = AgentView::fresh(agent_id, limit_usd, initial_tier, cascade_threshold);
            &&& agent.agent_id == agent_id
            &&& agent.envelope.scope_id == agent_id
            &&& agent.envelope.scope_kind == ScopeKind::Agent
            &&& agent.envelope.budget.spent == 0
            &&& agent.envelope.budget.limit == micros_of(limit_usd)
            &&& agent.envelope.log.len() == 0
            &&& !agent.envelope.killed
            &&& agent.cascade.current == initial_tier
            &&& agent.cascade.pressure_threshold == cascade_threshold
            &&& agent.cascade.total_budget == limit_usd
        }),
        agent_config_error(limit_usd, cascade_threshold) is None <==> {
            &&& 0 < limit_usd
            &&& 0 <= cascade_threshold <= 1_000_000_000
        },
        limit_usd <= 0 ==> agent_config_error(limit_usd, cascade_threshold) == Some(
            BudgetErrorView::InvalidConfig("limit must be positive"@),
        ),
        0 < limit_usd && !(0 <= cascade_threshold <= 1_000_000_000) ==> agent_config_error(
            limit_usd,
            cascade_threshold,
        ) == Some(threshold_error(cascade_threshold)),
{
}

/// Law: a valid agent has spent no more than its limit and exactly what its log
/// adds up to; its envelope is its own; its threshold is a fraction, taken of its
/// own limit; every record in its log has the price of its tokens on its tier, and
/// no tier in the log is below a later one or below the current one.
pub proof fn law_valid_agent(agent: AgentView, i: int, j: int)
    requires
        agent.valid(),
        0 <= i <= j < agent.envelope.log.len(),
    ensures
        agent.envelope.budget.spent <= agent.envelope.budget.limit <= u64::MAX,
        agent.envelope.budget.spent == log_total(agent.envelope.log),
        agent.envelope.scope_id == agent.agent_id,
        agent.envelope.scope_kind == ScopeKind::Agent,
        0 <= agent.cascade.pressure_threshold <= 1_000_000_000,
        0 < agent.cascade.total_budget,
        agent.envelope.budget.limit == micros_of(agent.cascade.total_budget),
        agent.envelope.log[i].cost_usd == agent.envelope.log[i].model_tier.request_price(
            agent.envelope.log[i].input_tokens,
            agent.envelope.log[i].output_tokens,
        ),
        agent.envelope.log[j].model_tier.spec_rank() <= agent.envelope.log[i].model_tier.spec_rank(),
        agent.cascade.current.spec_rank() <= agent.envelope.log[j].model_tier.spec_rank(),
{
}

/// Law: a kill turns the kill switch on, and nothing else about an agent changes.
pub proof fn law_agent_kill_touches_the_switch_only(agent: AgentView)
    ensures
        agent.stopped().envelope.killed,
        agent.stopped().agent_id == agent.agent_id,
        agent.stopped().cascade == agent.cascade,
        agent.stopped().envelope.scope_id == agent.envelope.scope_id,
        agent.stopped().envelope.scope_kind == agent.envelope.scope_kind,
        agent.stopped().envelope.budget == agent.envelope.budget,
        agent.stopped().envelope.log == agent.envelope.log,
{
}

/// Law: a snapshot shows the agent as it is: its spend, its limit and the
/// difference of the two in nano-dollars, spend and limit as a fraction, whether
/// it was killed, its tier, and the time it is given.
pub proof fn law_snapshot_shows_the_agent(
    agent: AgentView,
    timestamp_ms: int,
    snapshot: BudgetSnapshot,
)
    requires
        agent.envelope.budget.spent <= agent.envelope.budget.limit <= u64::MAX,
        snapshot@ == agent.snapshot(timestamp_ms),
    ensures
        snapshot.agent_id@ == agent.agent_id,
        snapshot.spent_usd == 1000 * agent.envelope.budget.spent,
        snapshot.limit_usd == 1000 * agent.envelope.budget.limit,
        snapshot.remaining_usd == 1000 * (agent.envelope.budget.limit
            - agent.envelope.budget.spent),
        snapshot.utilization.part == agent.envelope.budget.spent,
        agent.envelope.budget.limit > 0 ==> snapshot.utilization.whole
            == agent.envelope.budget.limit,
        agent.envelope.budget.limit == 0 ==> snapshot.utilization.whole == 1,
        snapshot.is_killed == agent.envelope.killed,
        snapshot.model_tier == agent.cascade.current,
        snapshot.timestamp_ms == timestamp_ms,
{
}

/// The budget after a series of requests.
pub open spec fn after_requests(agent: AgentView, requests: Seq<RequestView>) -> AgentView
    decreases requests.len(),
{
    if requests.len() == 0 {
        agent
    } else {
        after_requests(agent, requests.drop_last()).charged(requests.last())
    }
}

/// Law: no series of requests takes an agent over its limit or up a tier, and
/// its log stays a true account: it adds up to the spend, every charge in it
/// was priced at the tier it was made on, and the tiers in it only go down. The
/// fraction that the cascade looks at stays one of the agent's own limit.
pub proof fn law_agent_keeps_its_budget(agent: AgentView, requests: Seq<RequestView>)
    requires
        agent.valid(),
    ensures
        after_requests(agent, requests).valid(),
        after_requests(agent, requests).envelope.budget.limit == agent.envelope.budget.limit,
        after_requests(agent, requests).envelope.budget.spent <= agent.envelope.budget.limit,
        after_requests(agent, requests).cascade.current.spec_rank()
            <= agent.cascade.current.spec_rank(),
        after_requests(agent, requests).cascade.total_budget == agent.cascade.total_budget,
        after_requests(agent, requests).envelope.budget.limit == micros_of(
            after_requests(agent, requests).cascade.total_budget,
        ),
    decreases requests.len(),
{
    if requests.len() > 0 {
        law_agent_keeps_its_budget(agent, requests.drop_last());
        lemma_charged_valid(after_requests(agent, requests.drop_last()), requests.last());
    }
}

/// Law: once an agent was killed, no series of requests changes anything, and
/// every request is refused with the kill switch error, which names the agent.
pub proof fn law_killed_agent_is_never_charged(
    agent: AgentView,
    requests: Seq<RequestView>,
    input_tokens: int,
    output_tokens: int,
)
    ensures
        after_requests(agent.stopped(), requests) == agent.stopped(),
        !agent.stopped().accepts(input_tokens, output_tokens),
        agent.stopped().envelope.refusal() is KillSwitchActivated,
        agent.valid() ==> agent.stopped().envelope.refusal()->KillSwitchActivated_agent_id
            == agent.agent_id,
    decreases requests.len(),
{
    if requests.len() > 0 {
        law_killed_agent_is_never_charged(
            agent,
            requests.drop_last(),
            input_tokens,
            output_tokens,
        );
    }
}

/// Law: on the local tier every request of a living agent goes through, costs
/// nothing, and leaves the tier as it is.
pub proof fn law_local_requests_are_free(agent: AgentView, request: RequestView)
    requires
        agent.valid(),
        !agent.envelope.killed,
        agent.cascade.current == ModelTier::Local,
    ensures
        agent.accepts(request.input_tokens, request.output_tokens),
        agent.charged(request).envelope.budget == agent.envelope.budget,
        agent.charged(request).cascade == agent.cascade,
{
    let (i, o) = (request.input_tokens, request.output_tokens);
    let (pi, po) = (agent.cascade.current.input_price(), agent.cascade.current.output_price());
    assert(i * pi == 0 && o * po == 0) by (nonlinear_arith)
        requires
            pi == 0,
            po == 0,
    ;
    assert(agent.price(i, o) == 0);
}

/// Law: a living agent refuses a request exactly if its price would take the
/// spend over the limit, and says so with its ID, its spend and its limit.
pub proof fn law_refused_only_over_the_limit(
    agent: AgentView,
    input_tokens: int,
    output_tokens: int,
)
    requires
        agent.valid(),
        !agent.envelope.killed,
    ensures
        !agent.accepts(input_tokens, output_tokens) <==> agent.envelope.budget.spent + micros_of(
            agent.price(input_tokens, output_tokens),
        ) > agent.envelope.budget.limit,
        agent.envelope.refusal() == (BudgetErrorView::AgentExhausted {
            agent_id: agent.agent_id,
            spent: nanos_of(agent.envelope.budget.spent),
            limit: nanos_of(agent.envelope.budget.limit),
        }),
{
}

} // verus!
