//! The errors of budget operations, and the text that describes each.

use vstd::prelude::*;
use vstd::string::*;

use crate::model::ModelTier;
use crate::money::{append_usd, usd_text, NanoUsd};

verus! {

/// What a budget operation can fail with.
#[allow(inconsistent_fields)]
#[derive(Debug, PartialEq)]
pub enum BudgetError {
    /// The agent has exhausted its per-agent spend limit.
    AgentExhausted { agent_id: String, spent: NanoUsd, limit: NanoUsd },
    /// A task-scoped budget envelope has been depleted.
    TaskExhausted { task_id: String, spent: NanoUsd, limit: NanoUsd },
    /// A session-scoped budget envelope has been depleted.
    SessionExhausted { session_id: String, spent: NanoUsd, limit: NanoUsd },
    /// The fleet-wide budget cap has been reached.
    FleetExhausted { spent: NanoUsd, limit: NanoUsd },
    /// The kill switch was triggered; execution must halt.
    KillSwitchActivated { agent_id: String, reason: String },
    /// A model downgrade was required due to budget pressure.
    ModelDowngraded { from: ModelTier, to: ModelTier, remaining: NanoUsd },
    /// No lower-cost model is available for downgrade.
    NoFallbackAvailable { from: ModelTier },
    /// The requested amount exceeds what the fleet has left to allocate.
    AllocationFailed { agent_id: String, requested: NanoUsd, available: NanoUsd },
    /// The source agent has too little budget left to give the amount away.
    ReallocationFailed { from: String, to: String, amount: NanoUsd, available: NanoUsd },
    /// The agent is not in the fleet registry.
    UnknownAgent(String),
    /// Saving or loading budget state failed.
    PersistenceError(String),
    /// A limit or threshold is out of range.
    InvalidConfig(String),
}

/// An error with its strings as sequences of characters.
#[allow(inconsistent_fields)]
pub enum BudgetErrorView {
    AgentExhausted { agent_id: Seq<char>, spent: int, limit: int },
    TaskExhausted { task_id: Seq<char>, spent: int, limit: int },
    SessionExhausted { session_id: Seq<char>, spent: int, limit: int },
    FleetExhausted { spent: int, limit: int },
    KillSwitchActivated { agent_id: Seq<char>, reason: Seq<char> },
    ModelDowngraded { from: ModelTier, to: ModelTier, remaining: int },
    NoFallbackAvailable { from: ModelTier },
    AllocationFailed { agent_id: Seq<char>, requested: int, available: int },
    ReallocationFailed { from: Seq<char>, to: Seq<char>, amount: int, available: int },
    UnknownAgent(Seq<char>),
    PersistenceError(Seq<char>),
    InvalidConfig(Seq<char>),
}

impl View for BudgetError {
    type V = BudgetErrorView;

    open spec fn view(&self) -> BudgetErrorView {
        match *self {
            BudgetError::AgentExhausted { agent_id, spent, limit } =>
                BudgetErrorView::AgentExhausted {
                    agent_id: agent_id@,
                    spent: spent as int,
                    limit: limit as int,
                },
            BudgetError::TaskExhausted { task_id, spent, limit } =>
                BudgetErrorView::TaskExhausted {
                    task_id: task_id@,
                    spent: spent as int,
                    limit: limit as int,
                },
            BudgetError::SessionExhausted { session_id, spent, limit } =>
                BudgetErrorView::SessionExhausted {
                    session_id: session_id@,
                    spent: spent as int,
                    limit: limit as int,
                },
            BudgetError::FleetExhausted { spent, limit } =>
                BudgetErrorView::FleetExhausted { spent: spent as int, limit: limit as int },
            BudgetError::KillSwitchActivated { agent_id, reason } =>
                BudgetErrorView::KillSwitchActivated { agent_id: agent_id@, reason: reason@ },
            BudgetError::ModelDowngraded { from, to, remaining } =>
                BudgetErrorView::ModelDowngraded { from, to, remaining: remaining as int },
            BudgetError::NoFallbackAvailable { from } =>
                BudgetErrorView::NoFallbackAvailable { from },
            BudgetError::AllocationFailed { agent_id, requested, available } =>
                BudgetErrorView::AllocationFailed {
                    agent_id: agent_id@,
                    requested: requested as int,
                    available: available as int,
                },
            BudgetError::ReallocationFailed { from, to, amount, available } =>
                BudgetErrorView::ReallocationFailed {
                    from: from@,
                    to: to@,
                    amount: amount as int,
                    available: available as int,
                },
            BudgetError::UnknownAgent(agent_id) => BudgetErrorView::UnknownAgent(agent_id@),
            BudgetError::PersistenceError(text) => BudgetErrorView::PersistenceError(text@),
            BudgetError::InvalidConfig(text) => BudgetErrorView::InvalidConfig(text@),
        }
    }
}

impl Clone for BudgetError {
    fn clone(&self) -> (copy: BudgetError)
        ensures
            copy == *self,
    {
        match self {
            BudgetError::AgentExhausted { agent_id, spent, limit } => BudgetError::AgentExhausted {
                agent_id: agent_id.clone(),
                spent: *spent,
                limit: *limit,
            },
            BudgetError::TaskExhausted { task_id, spent, limit } => BudgetError::TaskExhausted {
                task_id: task_id.clone(),
                spent: *spent,
                limit: *limit,
            },
            BudgetError::SessionExhausted { session_id, spent, limit } => BudgetError::SessionExhausted {
                session_id: session_id.clone(),
                spent: *spent,
                limit: *limit,
            },
            BudgetError::FleetExhausted { spent, limit } => BudgetError::FleetExhausted {
                spent: *spent,
                limit: *limit,
            },
            BudgetError::KillSwitchActivated { agent_id, reason } => BudgetError::KillSwitchActivated {
                agent_id: agent_id.clone(),
                reason: reason.clone(),
            },
            BudgetError::ModelDowngraded { from, to, remaining } => BudgetError::ModelDowngraded {
                from: *from,
                to: *to,
                remaining: *remaining,
            },
            BudgetError::NoFallbackAvailable { from } => BudgetError::NoFallbackAvailable {
                from: *from,
            },
            BudgetError::AllocationFailed { agent_id, requested, available } => BudgetError::AllocationFailed {
                agent_id: agent_id.clone(),
                requested: *requested,
                available: *available,
            },
            BudgetError::ReallocationFailed { from, to, amount, available } => BudgetError::ReallocationFailed {
                from: from.clone(),
                to: to.clone(),
                amount: *amount,
                available: *available,
            },
            BudgetError::UnknownAgent(agent_id) => BudgetError::UnknownAgent(agent_id.clone()),
            BudgetError::PersistenceError(text) => BudgetError::PersistenceError(text.clone()),
            BudgetError::InvalidConfig(text) => BudgetError::InvalidConfig(text.clone()),
        }
    }
}

/// The name of a tier.
pub open spec fn tier_name(tier: ModelTier) -> Seq<char> {
    match tier {
        ModelTier::Premium => "Premium"@,
        ModelTier::Standard => "Standard"@,
        ModelTier::Economy => "Economy"@,
        ModelTier::Local => "Local"@,
    }
}

/// The part of a message that gives the spend and the limit.
pub open spec fn spend_text(spent: int, limit: int) -> Seq<char> {
    "budget exhausted: spent $"@ + usd_text(spent) + ", limit $"@ + usd_text(limit)
}

impl BudgetErrorView {
    /// The message for people.
    pub open spec fn message(self) -> Seq<char> {
        match self {
            BudgetErrorView::AgentExhausted { agent_id, spent, limit } =>
                "Agent '"@ + agent_id + "' "@ + spend_text(spent, limit),
            BudgetErrorView::TaskExhausted { task_id, spent, limit } =>
                "Task '"@ + task_id + "' "@ + spend_text(spent, limit),
            BudgetErrorView::SessionExhausted { session_id, spent, limit } =>
                "Session '"@ + session_id + "' "@ + spend_text(spent, limit),
            BudgetErrorView::FleetExhausted { spent, limit } =>
                "Fleet "@ + spend_text(spent, limit),
            BudgetErrorView::KillSwitchActivated { agent_id, reason } =>
                "Kill switch activated for agent '"@ + agent_id + "': "@ + reason,
            BudgetErrorView::ModelDowngraded { from, to, remaining } =>
                "Model downgraded from "@ + tier_name(from) + " to "@ + tier_name(to)
                    + " due to budget pressure (remaining: $"@ + usd_text(remaining) + ")"@,
            BudgetErrorView::NoFallbackAvailable { from } =>
                "No fallback model available from "@ + tier_name(from) + "; all tiers exhausted"@,
            BudgetErrorView::AllocationFailed { agent_id, requested, available } =>
                "Cannot allocate $"@ + usd_text(requested) + " to agent '"@ + agent_id + "': only $"@
                    + usd_text(available) + " available in fleet"@,
            BudgetErrorView::ReallocationFailed { from, to, amount, available } =>
                "Cannot reallocate $"@ + usd_text(amount) + " from '"@ + from + "' to '"@ + to
                    + "': source has $"@ + usd_text(available),
            BudgetErrorView::UnknownAgent(agent_id) =>
                "Agent '"@ + agent_id + "' not registered in fleet"@,
            BudgetErrorView::PersistenceError(text) => "Budget persistence error: "@ + text,
            BudgetErrorView::InvalidConfig(text) => "Invalid budget configuration: "@ + text,
        }
    }
}

/// Law: the contracts speak of an error as it is: of the same kind, with the same
/// texts, tiers and amounts.
pub proof fn law_error_is_viewed_as_it_is(error: BudgetError)
    ensures
        match error {
            BudgetError::AgentExhausted { agent_id, spent, limit } => {
                &&& error@ is AgentExhausted
                &&& error@->AgentExhausted_agent_id == agent_id@
                &&& error@->AgentExhausted_spent == spent
                &&& error@->AgentExhausted_limit == limit
            },
            BudgetError::TaskExhausted { task_id, spent, limit } => {
                &&& error@ is TaskExhausted
                &&& error@->TaskExhausted_task_id == task_id@
                &&& error@->TaskExhausted_spent == spent
                &&& error@->TaskExhausted_limit == limit
            },
            BudgetError::SessionExhausted { session_id, spent, limit } => {
                &&& error@ is SessionExhausted
                &&& error@->SessionExhausted_session_id == session_id@
                &&& error@->SessionExhausted_spent == spent
                &&& error@->SessionExhausted_limit == limit
            },
            BudgetError::FleetExhausted { spent, limit } => {
                &&& error@ is FleetExhausted
                &&& error@->FleetExhausted_spent == spent
                &&& error@->FleetExhausted_limit == limit
            },
            BudgetError::KillSwitchActivated { agent_id, reason } => {
                &&& error@ is KillSwitchActivated
                &&& error@->KillSwitchActivated_agent_id == agent_id@
                &&& error@->KillSwitchActivated_reason == reason@
            },
            BudgetError::ModelDowngraded { from, to, remaining } => {
                &&& error@ is ModelDowngraded
                &&& error@->ModelDowngraded_from == from
                &&& error@->ModelDowngraded_to == to
                &&& error@->ModelDowngraded_remaining == remaining
            },
            BudgetError::NoFallbackAvailable { from } => {
                &&& error@ is NoFallbackAvailable
                &&& error@->NoFallbackAvailable_from == from
            },
            BudgetError::AllocationFailed { agent_id, requested, available } => {
                &&& error@ is AllocationFailed
                &&& error@->AllocationFailed_agent_id == agent_id@
                &&& error@->AllocationFailed_requested == requested
                &&& error@->AllocationFailed_available == available
            },
            BudgetError::ReallocationFailed { from, to, amount, available } => {
                &&& error@ is ReallocationFailed
                &&& error@->ReallocationFailed_from == from@
                &&& error@->ReallocationFailed_to == to@
                &&& error@->ReallocationFailed_amount == amount
                &&& error@->ReallocationFailed_available == available
            },
            BudgetError::UnknownAgent(agent_id) => error@ is UnknownAgent && error@->UnknownAgent_0 == agent_id@,
            BudgetError::PersistenceError(text) => error@ is PersistenceError && error@->PersistenceError_0 == text@,
            BudgetError::InvalidConfig(text) => error@ is InvalidConfig && error@->InvalidConfig_0 == text@,
        },
{
}

/// Law: how each message reads, whatever texts and amounts are in it.
pub proof fn law_messages(text: Seq<char>, more: Seq<char>, a: int, b: int)
    ensures
        (BudgetErrorView::AgentExhausted { agent_id: text, spent: a, limit: b }).message()
            == "Agent '"@ + text + "' budget exhausted: spent $"@ + usd_text(a) + ", limit $"@
            + usd_text(b),
        (BudgetErrorView::TaskExhausted { task_id: text, spent: a, limit: b }).message()
            == "Task '"@ + text + "' budget exhausted: spent $"@ + usd_text(a) + ", limit $"@
            + usd_text(b),
        (BudgetErrorView::SessionExhausted { session_id: text, spent: a, limit: b }).message()
            == "Session '"@ + text + "' budget exhausted: spent $"@ + usd_text(a) + ", limit $"@
            + usd_text(b),
        (BudgetErrorView::FleetExhausted { spent: a, limit: b }).message()
            == "Fleet budget exhausted: spent $"@ + usd_text(a) + ", limit $"@ + usd_text(b),
        (BudgetErrorView::KillSwitchActivated { agent_id: text, reason: more }).message()
            == "Kill switch activated for agent '"@ + text + "': "@ + more,
        (BudgetErrorView::AllocationFailed {
            agent_id: text,
            requested: a,
            available: b,
        }).message() == "Cannot allocate $"@ + usd_text(a) + " to agent '"@ + text + "': only $"@
            + usd_text(b) + " available in fleet"@,
        (BudgetErrorView::ReallocationFailed {
            from: text,
            to: more,
            amount: a,
            available: b,
        }).message() == "Cannot reallocate $"@ + usd_text(a) + " from '"@ + text + "' to '"@ + more
            + "': source has $"@ + usd_text(b),
        BudgetErrorView::UnknownAgent(text).message() == "Agent '"@ + text
            + "' not registered in fleet"@,
        BudgetErrorView::PersistenceError(text).message() == "Budget persistence error: "@ + text,
        BudgetErrorView::InvalidConfig(text).message() == "Invalid budget configuration: "@ + text,
{
    reveal_strlit("' ");
    reveal_strlit("Fleet ");
    reveal_strlit("budget exhausted: spent $");
    reveal_strlit("' budget exhausted: spent $");
    reveal_strlit("Fleet budget exhausted: spent $");
    assert("' budget exhausted: spent $"@ =~= "' "@ + "budget exhausted: spent $"@);
    assert("Fleet budget exhausted: spent $"@ =~= "Fleet "@ + "budget exhausted: spent $"@);
    assert((BudgetErrorView::AgentExhausted { agent_id: text, spent: a, limit: b }).message()
        =~= "Agent '"@ + text + "' budget exhausted: spent $"@ + usd_text(a) + ", limit $"@
        + usd_text(b));
    assert((BudgetErrorView::TaskExhausted { task_id: text, spent: a, limit: b }).message()
        =~= "Task '"@ + text + "' budget exhausted: spent $"@ + usd_text(a) + ", limit $"@
        + usd_text(b));
    assert((BudgetErrorView::SessionExhausted { session_id: text, spent: a, limit: b }).message()
        =~= "Session '"@ + text + "' budget exhausted: spent $"@ + usd_text(a) + ", limit $"@
        + usd_text(b));
    assert((BudgetErrorView::FleetExhausted { spent: a, limit: b }).message()
        =~= "Fleet budget exhausted: spent $"@ + usd_text(a) + ", limit $"@ + usd_text(b));
}

/// Law: how the messages about tiers read, whatever the tiers and the amount.
pub proof fn law_tier_messages(from: ModelTier, to: ModelTier, remaining: int)
    ensures
        tier_name(ModelTier::Premium) == "Premium"@,
        tier_name(ModelTier::Standard) == "Standard"@,
        tier_name(ModelTier::Economy) == "Economy"@,
        tier_name(ModelTier::Local) == "Local"@,
        (BudgetErrorView::ModelDowngraded { from, to, remaining }).message()
            == "Model downgraded from "@ + tier_name(from) + " to "@ + tier_name(to)
            + " due to budget pressure (remaining: $"@ + usd_text(remaining) + ")"@,
        (BudgetErrorView::NoFallbackAvailable { from }).message()
            == "No fallback model available from "@ + tier_name(from)
            + "; all tiers exhausted"@,
{
}

fn append_tier(out: &mut String, tier: ModelTier)
    ensures
        final(out)@ == old(out)@ + tier_name(tier),
{
    match tier {
        ModelTier::Premium => out.append("Premium"),
        ModelTier::Standard => out.append("Standard"),
        ModelTier::Economy => out.append("Economy"),
        ModelTier::Local => out.append("Local"),
    }
}

fn append_spend(out: &mut String, spent: NanoUsd, limit: NanoUsd)
    ensures
        final(out)@ == old(out)@ + spend_text(spent as int, limit as int),
{
    out.append("budget exhausted: spent $");
    append_usd(out, spent);
    out.append(", limit $");
    append_usd(out, limit);
}

impl BudgetError {
    /// The message for people.
    pub fn message(&self) -> (text: String)
        ensures
            text@ == self@.message(),
    {
        let mut out = String::new();
        match self {
            BudgetError::AgentExhausted { agent_id, spent, limit } => {
                out.append("Agent '");
                out.append(agent_id.as_str());
                out.append("' ");
                append_spend(&mut out, *spent, *limit);
            },
            BudgetError::TaskExhausted { task_id, spent, limit } => {
                out.append("Task '");
                out.append(task_id.as_str());
                out.append("' ");
                append_spend(&mut out, *spent, *limit);
            },
            BudgetError::SessionExhausted { session_id, spent, limit } => {
                out.append("Session '");
                out.append(session_id.as_str());
                out.append("' ");
                append_spend(&mut out, *spent, *limit);
            },
            BudgetError::FleetExhausted { spent, limit } => {
                out.append("Fleet ");
                append_spend(&mut out, *spent, *limit);
            },
            BudgetError::KillSwitchActivated { agent_id, reason } => {
                out.append("Kill switch activated for agent '");
                out.append(agent_id.as_str());
                out.append("': ");
                out.append(reason.as_str());
            },
            BudgetError::ModelDowngraded { from, to, remaining } => {
                out.append("Model downgraded from ");
                append_tier(&mut out, *from);
                out.append(" to ");
                append_tier(&mut out, *to);
                out.append(" due to budget pressure (remaining: $");
                append_usd(&mut out, *remaining);
                out.append(")");
            },
            BudgetError::NoFallbackAvailable { from } => {
                out.append("No fallback model available from ");
                append_tier(&mut out, *from);
                out.append("; all tiers exhausted");
            },
            BudgetError::AllocationFailed { agent_id, requested, available } => {
                out.append("Cannot allocate $");
                append_usd(&mut out, *requested);
                out.append(" to agent '");
                out.append(agent_id.as_str());
                out.append("': only $");
                append_usd(&mut out, *available);
                out.append(" available in fleet");
            },
            BudgetError::ReallocationFailed { from, to, amount, available } => {
                out.append("Cannot reallocate $");
                append_usd(&mut out, *amount);
                out.append(" from '");
                out.append(from.as_str());
                out.append("' to '");
                out.append(to.as_str());
                out.append("': source has $");
                append_usd(&mut out, *available);
            },
            BudgetError::UnknownAgent(agent_id) => {
                out.append("Agent '");
                out.append(agent_id.as_str());
                out.append("' not registered in fleet");
            },
            BudgetError::PersistenceError(text) => {
                out.append("Budget persistence error: ");
                out.append(text.as_str());
            },
            BudgetError::InvalidConfig(text) => {
                out.append("Invalid budget configuration: ");
                out.append(text.as_str());
            },
        }
        out
    }
}

} // verus!
