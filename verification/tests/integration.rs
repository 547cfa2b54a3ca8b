use llm_budget::budget::AgentBudget;
use llm_budget::error::BudgetError;
use llm_budget::fleet::FleetAllocator;
use llm_budget::model::ModelTier;

fn usd(dollars: f64) -> i128 {
    (dollars * 1e9).round() as i128
}

fn fraction(value: f64) -> i64 {
    (value * 1e9).round() as i64
}

fn fleet_of(limit: f64) -> FleetAllocator {
    FleetAllocator::new(usd(limit), ModelTier::Standard, fraction(0.2)).ok().unwrap()
}

fn agent_of(agent_id: &str, limit: f64, tier: ModelTier, threshold: f64) -> AgentBudget {
    AgentBudget::new(agent_id, usd(limit), tier, fraction(threshold)).ok().unwrap()
}

#[test]
fn test_agent_budget_charge_and_snapshot() {
    let mut agent = agent_of("agent-1", 10.0, ModelTier::Standard, 0.2);
    let (cost, downgrade) = agent.charge(100, 50, None, None).unwrap();
    assert!(cost >= usd(0.0));
    assert!(downgrade.is_none() || downgrade.is_some());
    let snap = agent.snapshot();
    assert_eq!(snap.agent_id, "agent-1");
    assert!(snap.spent_usd >= usd(0.0));
}

#[test]
fn test_agent_budget_exhausted_after_overspend() {
    let mut agent = agent_of("agent-tiny", 0.000001, ModelTier::Standard, 0.2);
    let result = agent.charge(100_000, 100_000, None, None);
    assert!(matches!(result, Err(BudgetError::AgentExhausted { .. })));
}

#[test]
fn test_agent_kill_switch_blocks_subsequent_charges() {
    let mut agent = agent_of("agent-kill", 100.0, ModelTier::Standard, 0.2);
    agent.kill("test shutdown");
    let result = agent.charge(100, 50, None, None);
    assert!(matches!(result, Err(BudgetError::KillSwitchActivated { .. })));
}

#[test]
fn test_agent_budget_snapshot_reflects_kill() {
    let mut agent = agent_of("agent-x", 50.0, ModelTier::Premium, 0.3);
    agent.kill("testing");
    let snap = agent.snapshot();
    assert!(snap.is_killed);
}

#[test]
fn test_fleet_register_multiple_agents_within_budget() {
    let mut fleet = fleet_of(100.0);
    fleet.register_agent("a1", usd(30.0)).unwrap();
    fleet.register_agent("a2", usd(30.0)).unwrap();
    fleet.register_agent("a3", usd(30.0)).unwrap();
    assert_eq!(fleet.agent_count(), 3);
    assert!(!fleet.is_fleet_exhausted());
}

#[test]
fn test_fleet_register_exceeds_budget_fails() {
    let mut fleet = fleet_of(50.0);
    fleet.register_agent("a1", usd(30.0)).unwrap();
    let result = fleet.register_agent("a2", usd(30.0));
    assert!(matches!(result, Err(BudgetError::AllocationFailed { .. })));
}

#[test]
fn test_fleet_charge_multiple_agents() {
    let mut fleet = fleet_of(100.0);
    fleet.register_agent("a1", usd(50.0)).unwrap();
    fleet.register_agent("a2", usd(50.0)).unwrap();
    let r1 = fleet.charge_agent("a1", 0, 0, None, None);
    let r2 = fleet.charge_agent("a2", 0, 0, None, None);
    assert!(r1.is_ok());
    assert!(r2.is_ok());
}

#[test]
fn test_fleet_kill_all_prevents_charges() {
    let mut fleet = fleet_of(100.0);
    fleet.register_agent("a1", usd(20.0)).unwrap();
    fleet.register_agent("a2", usd(20.0)).unwrap();
    fleet.kill_all("fleet shutdown test");
    let r1 = fleet.charge_agent("a1", 100, 50, None, None);
    let r2 = fleet.charge_agent("a2", 100, 50, None, None);
    assert!(matches!(r1, Err(BudgetError::KillSwitchActivated { .. })));
    assert!(matches!(r2, Err(BudgetError::KillSwitchActivated { .. })));
}

#[test]
fn test_fleet_snapshot_all_agents() {
    let mut fleet = fleet_of(100.0);
    fleet.register_agent("a1", usd(25.0)).unwrap();
    fleet.register_agent("a2", usd(25.0)).unwrap();
    fleet.register_agent("a3", usd(25.0)).unwrap();
    let snaps = fleet.fleet_snapshot();
    assert_eq!(snaps.len(), 3);
}

#[test]
fn test_fleet_reallocate_unknown_dest_fails() {
    let mut fleet = fleet_of(100.0);
    fleet.register_agent("src", usd(50.0)).unwrap();
    let result = fleet.reallocate("src", "dst", usd(10.0));
    assert!(matches!(result, Err(BudgetError::UnknownAgent(_))));
}

#[test]
fn the_readme_walkthrough() {
    let mut agent = agent_of("researcher", 5.0, ModelTier::Premium, 0.2);
    assert_eq!(agent.charge(1_200, 400, None, None), Ok((usd(0.048), None)));

    let mut fleet = fleet_of(100.0);
    fleet.register_agent("planner", usd(40.0)).unwrap();
    fleet.register_agent("coder", usd(40.0)).unwrap();
    assert!(fleet.register_agent("extra", usd(40.0)).is_err());
    fleet.charge_agent("coder", 2_000, 800, Some("task-42".into()), None).unwrap();
    fleet.kill_all("runaway loop detected");
    assert!(fleet.charge_agent("coder", 10, 10, None, None).is_err());
    assert_eq!(fleet.fleet_snapshot().len(), 2);
}
