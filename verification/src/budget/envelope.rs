//! A budget with a scope, a kill switch and an audit log.

use vstd::prelude::*;

use crate::budget::atomic::{AtomicBudget, AtomicBudgetView, Ratio};
use crate::budget::record::{clone_log, log_total, log_view, SpendRecord, SpendRecordView};
use crate::error::{BudgetError, BudgetErrorView};
use crate::money::{micros_of, nanos_of, NanoUsd};

verus! {

/// What an envelope is for.
#[derive(Debug, Clone, Copy, PartialEq, Eq, Structural)]
pub enum ScopeKind {
    Agent,
    Task,
    Session,
}

/// A budget with its scope.
pub struct BudgetEnvelope {
    pub scope_id: String,
    pub scope_kind: ScopeKind,
    inner: AtomicBudget,
    /// Kill switch.
    killed: bool,
    /// Accepted charges, oldest first.
    log: Vec<SpendRecord>,
}

/// What an envelope holds.
pub struct EnvelopeView {
    pub scope_id: Seq<char>,
    pub scope_kind: ScopeKind,
    pub budget: AtomicBudgetView,
    pub killed: bool,
    pub log: Seq<SpendRecordView>,
}

impl EnvelopeView {
    /// A new envelope.
    pub open spec fn fresh(scope_id: Seq<char>, scope_kind: ScopeKind, limit: nat) -> EnvelopeView {
        EnvelopeView {
            scope_id,
            scope_kind,
            budget: AtomicBudgetView { spent: 0, limit },
            killed: false,
            log: Seq::empty(),
        }
    }

    /// The spend is within the limit, and is what the log adds up to.
    pub open spec fn valid(self) -> bool {
        &&& self.budget.valid()
        &&& self.budget.spent == log_total(self.log)
    }

    /// Whether a charge goes through: the envelope is alive and the cost fits.
    pub open spec fn accepts(self, cost_usd: int) -> bool {
        !self.killed && self.budget.admits(micros_of(cost_usd))
    }

    /// The envelope after a charge: an accepted one is counted and logged, a
    /// refused one changes nothing.
    pub open spec fn charged(self, record: SpendRecordView) -> EnvelopeView {
        if self.accepts(record.cost_usd) {
            EnvelopeView {
                budget: self.budget.charged(micros_of(record.cost_usd)),
                log: self.log.push(record),
                ..self
            }
        } else {
            self
        }
    }

    /// The error for a charge that was refused.
    pub open spec fn refusal(self) -> BudgetErrorView {
        let spent = nanos_of(self.budget.spent);
        let limit = nanos_of(self.budget.limit);
        if self.killed {
            BudgetErrorView::KillSwitchActivated {
                agent_id: self.scope_id,
                reason: "envelope kill switch is active"@,
            }
        } else {
            match self.scope_kind {
                ScopeKind::Agent => BudgetErrorView::AgentExhausted {
                    agent_id: self.scope_id,
                    spent,
                    limit,
                },
                ScopeKind::Task => BudgetErrorView::TaskExhausted {
                    task_id: self.scope_id,
                    spent,
                    limit,
                },
                ScopeKind::Session => BudgetErrorView::SessionExhausted {
                    session_id: self.scope_id,
                    spent,
                    limit,
                },
            }
        }
    }

    /// The envelope with its kill switch on.
    pub open spec fn stopped(self) -> EnvelopeView {
        EnvelopeView { killed: true, ..self }
    }
}

impl View for BudgetEnvelope {
    type V = EnvelopeView;

    closed spec fn view(&self) -> EnvelopeView {
        EnvelopeView {
            scope_id: self.scope_id@,
            scope_kind: self.scope_kind,
            budget: self.inner@,
            killed: self.killed,
            log: log_view(self.log@),
        }
    }
}

impl BudgetEnvelope {
    /// Creates an envelope with a hard cap of `limit_usd`.
    pub fn new(scope_id: &str, scope_kind: ScopeKind, limit_usd: NanoUsd) -> (result: Result<
        BudgetEnvelope,
        BudgetError,
    >)
        ensures
            match result {
                Ok(envelope) => {
                    &&& 0 < limit_usd
                    &&& envelope@ == EnvelopeView::fresh(
                        scope_id@,
                        scope_kind,
                        micros_of(limit_usd as int),
                    )
                    &&& envelope@.valid()
                },
                Err(error) => {
                    &&& limit_usd <= 0
                    &&& error@ == BudgetErrorView::InvalidConfig("limit must be positive"@)
                },
            },
    {
        let inner = AtomicBudget::new(limit_usd)?;
        let log: Vec<SpendRecord> = Vec::new();
        proof {
            assert(log_view(log@) =~= Seq::<SpendRecordView>::empty());
        }
        Ok(
            BudgetEnvelope {
                scope_id: scope_id.to_owned(),
                scope_kind,
                inner,
                killed: false,
                log,
            },
        )
    }

    /// Charges the cost of `record`. Returns the new total and keeps the record,
    /// or, if the kill switch is on or the cost does not fit, changes nothing.
    pub fn charge(&mut self, record: SpendRecord) -> (result: Result<NanoUsd, BudgetError>)
        ensures
            final(self)@ == old(self)@.charged(record@),
            old(self)@.valid() ==> final(self)@.valid(),
            match result {
                Ok(total) => {
                    &&& old(self)@.accepts(record.cost_usd as int)
                    &&& total == nanos_of(final(self)@.budget.spent)
                },
                Err(error) => {
                    &&& !old(self)@.accepts(record.cost_usd as int)
                    &&& error@ == old(self)@.refusal()
                },
            },
    {
        proof {
            lemma_charged_valid(self@, record@);
        }
        if self.killed {
            return Err(
                BudgetError::KillSwitchActivated {
                    agent_id: self.scope_id.clone(),
                    reason: "envelope kill switch is active".to_owned(),
                },
            );
        }
        match self.inner.charge(record.cost_usd) {
            Ok(total) => {
                self.log.push(record);
                proof {
                    assert(log_view(self.log@) =~= log_view(old(self).log@).push(record@));
                }
                Ok(total)
            },
            Err(spent) => {
                let limit: NanoUsd = self.inner.limit_usd();
                let scope_id = self.scope_id.clone();
                let error = match self.scope_kind {
                    ScopeKind::Agent => BudgetError::AgentExhausted {
                        agent_id: scope_id,
                        spent,
                        limit,
                    },
                    ScopeKind::Task => BudgetError::TaskExhausted { task_id: scope_id, spent, limit },
                    ScopeKind::Session => BudgetError::SessionExhausted {
                        session_id: scope_id,
                        spent,
                        limit,
                    },
                };
                Err(error)
            },
        }
    }

    /// What the envelope is for: the ID of an agent, a task or a session.
    pub fn scope_id(&self) -> (id: &str)
        ensures
            id@ == self@.scope_id,
    {
        self.scope_id.as_str()
    }

    /// Whether the envelope is for an agent, a task or a session.
    pub fn scope_kind(&self) -> (kind: ScopeKind)
        ensures
            kind == self@.scope_kind,
    {
        self.scope_kind
    }

    /// Turns the kill switch on: every later charge is refused. The reason is
    /// not kept.
    pub fn kill(&mut self, reason: &str)
        ensures
            final(self)@ == old(self)@.stopped(),
    {
        self.killed = true;
    }

    /// Whether the kill switch is on.
    pub fn is_killed(&self) -> (killed: bool)
        ensures
            killed == self@.killed,
    {
        self.killed
    }

    /// Current spend.
    pub fn spent_usd(&self) -> (usd: NanoUsd)
        ensures
            usd == nanos_of(self@.budget.spent),
            0 <= usd <= nanos_of(u64::MAX as nat),
    {
        self.inner.spent_usd()
    }

    /// What is left of the budget.
    pub fn remaining_usd(&self) -> (usd: NanoUsd)
        ensures
            usd == nanos_of(self@.budget.remaining()),
            usd + nanos_of(self@.budget.spent) == nanos_of(self@.budget.limit),
    {
        self.inner.remaining_usd()
    }

    /// Hard limit.
    pub fn limit_usd(&self) -> (usd: NanoUsd)
        ensures
            usd == nanos_of(self@.budget.limit),
    {
        self.inner.limit_usd()
    }

    /// Whether nothing is left.
    pub fn is_exhausted(&self) -> (exhausted: bool)
        ensures
            exhausted == (self@.budget.remaining() == 0),
    {
        self.inner.is_exhausted()
    }

    /// The part of the limit that is spent.
    pub fn utilization(&self) -> (ratio: Ratio)
        ensures
            ratio.part == self@.budget.spent,
            ratio.whole == self@.budget.whole(),
            ratio.part <= ratio.whole,
            ratio.whole >= 1,
    {
        self.inner.utilization()
    }

    /// The accepted charges, oldest first.
    pub fn audit_log(&self) -> (log: Vec<SpendRecord>)
        ensures
            log_view(log@) == self@.log,
    {
        clone_log(&self.log)
    }
}

proof fn lemma_charged_valid(envelope: EnvelopeView, record: SpendRecordView)
    ensures
        envelope.valid() ==> envelope.charged(record).valid(),
{
    assert(envelope.log.push(record).drop_last() =~= envelope.log);
}

/// Law: a charge goes through exactly if the kill switch is off and what is spent
/// and the cost together are no more than the limit, in micro-dollars. Then the
/// spend rises by the cost, and the audit log is the log from before followed by
/// the record as it was charged, field for field. Otherwise nothing changes.
pub proof fn law_accepted_charge_is_logged_as_it_is(
    envelope: EnvelopeView,
    record: SpendRecordView,
    i: int,
)
    ensures
        envelope.accepts(record.cost_usd) <==> {
            &&& !envelope.killed
            &&& envelope.budget.spent + micros_of(record.cost_usd) <= envelope.budget.limit
        },
        envelope.charged(record).scope_id == envelope.scope_id,
        envelope.charged(record).scope_kind == envelope.scope_kind,
        envelope.charged(record).killed == envelope.killed,
        envelope.charged(record).budget.limit == envelope.budget.limit,
        envelope.accepts(record.cost_usd) ==> {
            let after = envelope.charged(record);
            &&& after.budget.spent == envelope.budget.spent + micros_of(record.cost_usd)
            &&& after.log.len() == envelope.log.len() + 1
            &&& 0 <= i < envelope.log.len() ==> after.log[i] == envelope.log[i]
            &&& after.log.last().agent_id == record.agent_id
            &&& after.log.last().task_id == record.task_id
            &&& after.log.last().session_id == record.session_id
            &&& after.log.last().model_tier == record.model_tier
            &&& after.log.last().input_tokens == record.input_tokens
            &&& after.log.last().output_tokens == record.output_tokens
            &&& after.log.last().cost_usd == record.cost_usd
            &&& after.log.last().timestamp_ms == record.timestamp_ms
        },
        !envelope.accepts(record.cost_usd) ==> envelope.charged(record) == envelope,
{
}

/// Law: a refused charge is answered with the kill switch error if the switch is
/// on, and otherwise with the error of the kind of envelope; the error names the
/// scope, and gives spend and limit, in nano-dollars.
pub proof fn law_refusal_names_the_scope(envelope: EnvelopeView)
    ensures
        envelope.killed ==> envelope.refusal() == (BudgetErrorView::KillSwitchActivated {
            agent_id: envelope.scope_id,
            reason: "envelope kill switch is active"@,
        }),
        !envelope.killed && envelope.scope_kind == ScopeKind::Agent ==> envelope.refusal() == (
        BudgetErrorView::AgentExhausted {
            agent_id: envelope.scope_id,
            spent: 1000int * envelope.budget.spent,
            limit: 1000int * envelope.budget.limit,
        }),
        !envelope.killed && envelope.scope_kind == ScopeKind::Task ==> envelope.refusal() == (
        BudgetErrorView::TaskExhausted {
            task_id: envelope.scope_id,
            spent: 1000int * envelope.budget.spent,
            limit: 1000int * envelope.budget.limit,
        }),
        !envelope.killed && envelope.scope_kind == ScopeKind::Session ==> envelope.refusal() == (
        BudgetErrorView::SessionExhausted {
            session_id: envelope.scope_id,
            spent: 1000int * envelope.budget.spent,
            limit: 1000int * envelope.budget.limit,
        }),
{
}

/// Law: the kill switch turns on, and nothing else about an envelope changes.
pub proof fn law_kill_touches_the_switch_only(envelope: EnvelopeView)
    ensures
        envelope.stopped().killed,
        envelope.stopped().scope_id == envelope.scope_id,
        envelope.stopped().scope_kind == envelope.scope_kind,
        envelope.stopped().budget == envelope.budget,
        envelope.stopped().log == envelope.log,
        envelope.stopped().stopped() == envelope.stopped(),
        envelope.killed ==> envelope.stopped() == envelope,
{
}

/// Law: a new envelope has its scope and its limit, no spend, an empty log, and
/// its kill switch off. An envelope is valid exactly if its spend is within its
/// limit, which the counter can hold, and is what its log adds up to.
pub proof fn law_new_envelope(
    scope_id: Seq<char>,
    scope_kind: ScopeKind,
    limit: nat,
    envelope: EnvelopeView,
)
    ensures
        EnvelopeView::fresh(scope_id, scope_kind, limit).scope_id == scope_id,
        EnvelopeView::fresh(scope_id, scope_kind, limit).scope_kind == scope_kind,
        EnvelopeView::fresh(scope_id, scope_kind, limit).budget.limit == limit,
        EnvelopeView::fresh(scope_id, scope_kind, limit).budget.spent == 0,
        EnvelopeView::fresh(scope_id, scope_kind, limit).log.len() == 0,
        !EnvelopeView::fresh(scope_id, scope_kind, limit).killed,
        envelope.valid() <==> {
            &&& envelope.budget.spent <= envelope.budget.limit
            &&& envelope.budget.limit <= u64::MAX
            &&& envelope.budget.spent == log_total(envelope.log)
        },
{
}

/// The envelope after a series of charges.
pub open spec fn after_charges(envelope: EnvelopeView, records: Seq<SpendRecordView>) -> EnvelopeView
    decreases records.len(),
{
    if records.len() == 0 {
        envelope
    } else {
        after_charges(envelope, records.drop_last()).charged(records.last())
    }
}

/// Law: after any series of charges the audit log adds up to the spend, and
/// the spend is within the limit.
pub proof fn law_audit_log_accounts_for_spend(
    envelope: EnvelopeView,
    records: Seq<SpendRecordView>,
)
    requires
        envelope.valid(),
    ensures
        after_charges(envelope, records).valid(),
        log_total(after_charges(envelope, records).log) <= envelope.budget.limit,
        after_charges(envelope, records).budget.limit == envelope.budget.limit,
    decreases records.len(),
{
    if records.len() > 0 {
        law_audit_log_accounts_for_spend(envelope, records.drop_last());
        lemma_charged_valid(after_charges(envelope, records.drop_last()), records.last());
    }
}

/// Law: the audit log only grows at its end; what is logged stays.
pub proof fn law_audit_log_is_append_only(envelope: EnvelopeView, records: Seq<SpendRecordView>)
    ensures
        envelope.log.is_prefix_of(after_charges(envelope, records).log),
    decreases records.len(),
{
    if records.len() > 0 {
        law_audit_log_is_append_only(envelope, records.drop_last());
    }
}

/// Law: once the kill switch is on, no series of charges changes anything, and
/// every charge fails with the kill switch error.
pub proof fn law_killed_for_good(
    envelope: EnvelopeView,
    records: Seq<SpendRecordView>,
    record: SpendRecordView,
)
    ensures
        after_charges(envelope.stopped(), records) == envelope.stopped(),
        !envelope.stopped().accepts(record.cost_usd),
        envelope.stopped().refusal() is KillSwitchActivated,
    decreases records.len(),
{
    if records.len() > 0 {
        law_killed_for_good(envelope, records.drop_last(), records.last());
    }
}

} // verus!
