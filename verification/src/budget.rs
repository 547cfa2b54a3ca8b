//! Budgets: the counter, the scoped envelope around it, and the budget of an
//! agent.

pub mod agent;
pub mod atomic;
pub mod envelope;
pub mod interleaving;
pub mod record;
pub mod shared;

pub use agent::{AgentBudget, AgentView, BudgetSnapshot, RequestView, SnapshotView};
pub use atomic::{
    remaining_micros, settle, spent_ratio, AtomicBudget, AtomicBudgetView, Ratio, Settlement,
};
pub use envelope::{BudgetEnvelope, EnvelopeView, ScopeKind};
pub use record::{SpendRecord, SpendRecordView};
pub use shared::{EnvelopeHandle, EnvelopeTable, TableView};
