//! Hard spend limits for fleets of LLM agents.
//!
//! Every request is charged against a per-agent budget and refused once the
//! cap is hit. A fleet-wide cap governs how much can be committed to agents,
//! a kill switch stops an agent for good, and a cascade moves an agent to a
//! cheaper model tier when little of its budget is left.
//!
//! Money is an integer count of nano-dollars at the interface ([`money::NanoUsd`])
//! and of whole micro-dollars inside the counters.

pub mod budget;
pub mod clock;
pub mod error;
pub mod fleet;
pub mod model;
pub mod money;
pub mod persistence;

pub use budget::{AgentBudget, BudgetEnvelope, BudgetSnapshot, SpendRecord};
pub use error::BudgetError;
pub use fleet::{FleetAllocator, FleetBudget};
pub use model::{ModelCascade, ModelTier};
pub use persistence::BudgetStore;
