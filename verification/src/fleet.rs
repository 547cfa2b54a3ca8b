//! The fleet: a shared cap, and the agents that it is committed to.

pub mod allocator;
pub mod budget;
mod registry;
pub mod totals;

pub use allocator::{FleetAllocator, FleetView};
pub use budget::{FleetBudget, FleetBudgetView};
