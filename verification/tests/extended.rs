use llm_budget::budget::{AgentBudget, AtomicBudget, BudgetEnvelope, ScopeKind, SpendRecord};
use llm_budget::error::BudgetError;
use llm_budget::fleet::FleetBudget;
use llm_budget::model::{ModelCascade, ModelTier};

fn usd(dollars: f64) -> i128 {
    (dollars * 1e9).round() as i128
}

fn dollars(usd: i128) -> f64 {
    usd as f64 / 1e9
}

fn fraction(value: f64) -> i64 {
    (value * 1e9).round() as i64
}

#[test]
fn test_error_agent_exhausted_display() {
    let e = BudgetError::AgentExhausted {
        agent_id: "a1".into(),
        spent: usd(10.0),
        limit: usd(10.0),
    };
    assert!(e.message().contains("a1"));
    assert!(e.message().contains("10"));
}

#[test]
fn test_error_task_exhausted_display() {
    let e = BudgetError::TaskExhausted {
        task_id: "task-1".into(),
        spent: usd(5.0),
        limit: usd(5.0),
    };
    assert!(e.message().contains("task-1"));
}

#[test]
fn test_error_session_exhausted_display() {
    let e = BudgetError::SessionExhausted {
        session_id: "sess-42".into(),
        spent: usd(3.0),
        limit: usd(3.0),
    };
    assert!(e.message().contains("sess-42"));
}

#[test]
fn test_error_fleet_exhausted_display() {
    let e = BudgetError::FleetExhausted { spent: usd(100.0), limit: usd(100.0) };
    assert!(e.message().contains("Fleet"));
}

#[test]
fn test_error_kill_switch_display() {
    let e = BudgetError::KillSwitchActivated {
        agent_id: "bot".into(),
        reason: "hard limit".into(),
    };
    assert!(e.message().contains("bot"));
    assert!(e.message().contains("hard limit"));
}

#[test]
fn test_error_model_downgraded_display() {
    let e = BudgetError::ModelDowngraded {
        from: ModelTier::Premium,
        to: ModelTier::Standard,
        remaining: usd(0.05),
    };
    assert!(e.message().contains("Premium"));
    assert!(e.message().contains("Standard"));
}

#[test]
fn test_error_allocation_failed_display() {
    let e = BudgetError::AllocationFailed {
        agent_id: "x".into(),
        requested: usd(50.0),
        available: usd(20.0),
    };
    assert!(e.message().contains("x"));
    assert!(e.message().contains("50"));
}

#[test]
fn test_error_reallocation_failed_display() {
    let e = BudgetError::ReallocationFailed {
        from: "a".into(),
        to: "b".into(),
        amount: usd(10.0),
        available: usd(5.0),
    };
    assert!(e.message().contains("a"));
    assert!(e.message().contains("b"));
}

#[test]
fn test_error_unknown_agent_display() {
    let e = BudgetError::UnknownAgent("ghost".into());
    assert!(e.message().contains("ghost"));
}

#[test]
fn test_error_persistence_display() {
    let e = BudgetError::PersistenceError("disk full".into());
    assert!(e.message().contains("disk full"));
}

#[test]
fn test_error_invalid_config_display() {
    let e = BudgetError::InvalidConfig("must be positive".into());
    assert!(e.message().contains("must be positive"));
}

#[test]
fn test_error_equality() {
    let e1 = BudgetError::UnknownAgent("a".into());
    let e2 = BudgetError::UnknownAgent("a".into());
    assert_eq!(e1, e2);
    let e3 = BudgetError::UnknownAgent("b".into());
    assert_ne!(e1, e3);
}

#[test]
fn test_atomic_budget_zero_limit_rejected() {
    assert!(AtomicBudget::new(usd(0.0)).is_err());
    assert!(AtomicBudget::new(usd(-1.0)).is_err());
}

#[test]
fn test_atomic_budget_remaining_tracks_spend() {
    let mut b = AtomicBudget::new(usd(10.0)).ok().unwrap();
    b.charge(usd(3.0)).unwrap();
    b.charge(usd(2.0)).unwrap();
    assert!((dollars(b.remaining_usd()) - 5.0).abs() < 1e-4);
}

#[test]
fn extended_test_atomic_budget_utilization() {
    let mut b = AtomicBudget::new(usd(10.0)).ok().unwrap();
    b.charge(usd(5.0)).unwrap();
    let ratio = b.utilization();
    assert!((ratio.part as f64 / ratio.whole as f64 - 0.5).abs() < 1e-4);
}

#[test]
fn test_atomic_budget_over_limit_rejected_and_rolled_back() {
    let mut b = AtomicBudget::new(usd(5.0)).ok().unwrap();
    b.charge(usd(4.5)).unwrap();
    let result = b.charge(usd(1.0));
    assert!(result.is_err());
    assert!((dollars(b.spent_usd()) - 4.5).abs() < 1e-4);
}

#[test]
fn test_cascade_invalid_threshold_above_1_rejected() {
    assert!(ModelCascade::new(ModelTier::Premium, fraction(1.5), usd(100.0)).is_err());
}

#[test]
fn test_cascade_invalid_threshold_negative_rejected() {
    assert!(ModelCascade::new(ModelTier::Standard, fraction(-0.1), usd(100.0)).is_err());
}

#[test]
fn test_cascade_invalid_budget_zero_rejected() {
    assert!(ModelCascade::new(ModelTier::Premium, fraction(0.2), usd(0.0)).is_err());
}

#[test]
fn test_cascade_evaluate_no_downgrade_when_budget_ample() {
    let mut c = ModelCascade::new(ModelTier::Premium, fraction(0.2), usd(100.0)).unwrap();
    let result = c.evaluate(usd(80.0));
    assert!(result.is_none());
    assert_eq!(c.current(), ModelTier::Premium);
}

#[test]
fn test_cascade_evaluate_downgrades_when_under_threshold() {
    let mut c = ModelCascade::new(ModelTier::Premium, fraction(0.2), usd(100.0)).unwrap();
    let result = c.evaluate(usd(15.0));
    assert_eq!(result, Some(ModelTier::Standard));
    assert_eq!(c.current(), ModelTier::Standard);
}

#[test]
fn extended_test_cascade_force_downgrade_chain() {
    let mut c = ModelCascade::new(ModelTier::Premium, fraction(0.1), usd(100.0)).unwrap();
    assert_eq!(c.force_downgrade(), Some(ModelTier::Standard));
    assert_eq!(c.force_downgrade(), Some(ModelTier::Economy));
    assert_eq!(c.force_downgrade(), Some(ModelTier::Local));
    assert_eq!(c.force_downgrade(), None);
}

#[test]
fn test_cascade_at_local_no_further_downgrade() {
    let mut c = ModelCascade::new(ModelTier::Local, fraction(0.5), usd(100.0)).unwrap();
    let result = c.evaluate(usd(10.0));
    assert!(result.is_none());
}

#[test]
fn test_model_tier_estimate_cost_zero_tokens() {
    for tier in [ModelTier::Premium, ModelTier::Standard, ModelTier::Economy, ModelTier::Local] {
        assert_eq!(tier.estimate_cost(0, 0), usd(0.0));
    }
}

#[test]
fn test_model_tier_local_always_zero_cost() {
    assert_eq!(ModelTier::Local.estimate_cost(100_000, 100_000), usd(0.0));
}

#[test]
fn test_model_tier_premium_most_expensive() {
    let cost_premium = ModelTier::Premium.estimate_cost(1000, 1000);
    let cost_standard = ModelTier::Standard.estimate_cost(1000, 1000);
    let cost_economy = ModelTier::Economy.estimate_cost(1000, 1000);
    assert!(cost_premium > cost_standard);
    assert!(cost_standard > cost_economy);
}

#[test]
fn test_fleet_budget_micro_dollar_precision() {
    let mut fleet = FleetBudget::new(usd(10.0)).ok().unwrap();
    fleet.allocate("a", usd(0.000001)).unwrap();
    assert!((dollars(fleet.available_usd()) - 9.999999).abs() < 1e-6);
}

#[test]
fn test_fleet_budget_record_spend_accumulates() {
    let mut fleet = FleetBudget::new(usd(100.0)).ok().unwrap();
    fleet.record_spend(usd(5.0));
    fleet.record_spend(usd(3.0));
    assert!((dollars(fleet.spent_usd()) - 8.0).abs() < 1e-4);
}

#[test]
fn test_fleet_budget_total_limit_accessor() {
    let fleet = FleetBudget::new(usd(42.5)).ok().unwrap();
    assert!((dollars(fleet.total_limit_usd()) - 42.5).abs() < 1e-4);
}

#[test]
fn test_fleet_budget_allocated_tracks_allocations() {
    let mut fleet = FleetBudget::new(usd(100.0)).ok().unwrap();
    fleet.allocate("a1", usd(30.0)).unwrap();
    fleet.allocate("a2", usd(20.0)).unwrap();
    assert!((dollars(fleet.allocated_usd()) - 50.0).abs() < 1e-4);
}

#[test]
fn test_budget_envelope_task_scope() {
    let env = BudgetEnvelope::new("task-1", ScopeKind::Task, usd(1.0)).ok().unwrap();
    assert_eq!(env.scope_kind, ScopeKind::Task);
}

#[test]
fn test_budget_envelope_session_scope() {
    let env = BudgetEnvelope::new("sess-1", ScopeKind::Session, usd(5.0)).ok().unwrap();
    assert_eq!(env.scope_kind, ScopeKind::Session);
}

#[test]
fn test_budget_envelope_kill_blocks_charge() {
    let mut env = BudgetEnvelope::new("a1", ScopeKind::Agent, usd(100.0)).ok().unwrap();
    env.kill("hard limit");
    assert!(env.is_killed());
}

#[test]
fn test_budget_envelope_audit_log_grows() {
    let mut env = BudgetEnvelope::new("a1", ScopeKind::Agent, usd(100.0)).ok().unwrap();
    let rec = SpendRecord {
        agent_id: "a1".into(),
        task_id: None,
        session_id: None,
        model_tier: ModelTier::Standard,
        input_tokens: 100,
        output_tokens: 50,
        cost_usd: usd(0.001),
        timestamp_ms: 0,
    };
    env.charge(rec.clone()).unwrap();
    env.charge(rec).unwrap();
    let log = env.audit_log();
    assert_eq!(log.len(), 2);
}

#[test]
fn test_agent_budget_remaining_decreases_after_charge() {
    let mut agent = AgentBudget::new("a1", usd(10.0), ModelTier::Premium, fraction(0.1))
        .ok()
        .unwrap();
    let before = agent.remaining_usd();
    agent.charge(10, 10, None, None).unwrap();
    let after = agent.remaining_usd();
    assert!(after < before);
}

#[test]
fn test_agent_budget_snapshot_utilization_between_0_and_1() {
    let mut agent = AgentBudget::new("a1", usd(10.0), ModelTier::Standard, fraction(0.1))
        .ok()
        .unwrap();
    agent.charge(100, 50, None, None).unwrap();
    let snap = agent.snapshot();
    let utilization = snap.utilization.part as f64 / snap.utilization.whole as f64;
    assert!(utilization >= 0.0 && utilization <= 1.0);
}
