use llm_budget::error::BudgetError;
use llm_budget::fleet::{FleetAllocator, FleetBudget};
use llm_budget::model::ModelTier;

fn usd(dollars: f64) -> i128 {
    (dollars * 1e9).round() as i128
}

fn dollars(usd: i128) -> f64 {
    usd as f64 / 1e9
}

fn fraction(value: f64) -> i64 {
    (value * 1e9).round() as i64
}

fn make_fleet(limit: f64) -> FleetAllocator {
    FleetAllocator::new(usd(limit), ModelTier::Standard, fraction(0.2)).ok().expect("fleet")
}

#[test]
fn test_fleet_budget_rejects_zero_limit() {
    assert!(FleetBudget::new(usd(0.0)).is_err());
    assert!(FleetBudget::new(usd(-10.0)).is_err());
}

#[test]
fn test_fleet_budget_allocate_within_limit() {
    let mut fleet = FleetBudget::new(usd(100.0)).ok().expect("new");
    let result = fleet.allocate("a1", usd(30.0));
    assert!(result.is_ok());
    assert!((dollars(fleet.available_usd()) - 70.0).abs() < 1e-4);
}

#[test]
fn test_fleet_budget_allocate_over_limit_rejected() {
    let mut fleet = FleetBudget::new(usd(10.0)).ok().expect("new");
    fleet.allocate("a1", usd(8.0)).expect("first");
    let result = fleet.allocate("a2", usd(5.0));
    assert!(matches!(result, Err(BudgetError::AllocationFailed { .. })));
    assert!((dollars(fleet.available_usd()) - 2.0).abs() < 1e-4);
}

#[test]
fn test_fleet_budget_exhausted_when_fully_allocated() {
    let mut fleet = FleetBudget::new(usd(10.0)).ok().expect("new");
    fleet.allocate("a1", usd(10.0)).expect("alloc");
    assert!(fleet.is_exhausted());
}

#[test]
fn test_fleet_allocator_register_agent() {
    let mut fleet = make_fleet(100.0);
    fleet.register_agent("a1", usd(50.0)).expect("register");
    assert_eq!(fleet.agent_count(), 1);
}

#[test]
fn test_fleet_allocator_register_over_budget_fails() {
    let mut fleet = make_fleet(10.0);
    fleet.register_agent("a1", usd(8.0)).expect("ok");
    let result = fleet.register_agent("a2", usd(5.0));
    assert!(matches!(result, Err(BudgetError::AllocationFailed { .. })));
}

#[test]
fn test_fleet_allocator_charge_unknown_agent_fails() {
    let mut fleet = make_fleet(100.0);
    let result = fleet.charge_agent("ghost", 100, 50, None, None);
    assert!(matches!(result, Err(BudgetError::UnknownAgent(_))));
}

#[test]
fn test_fleet_allocator_charge_registered_agent() {
    let mut fleet = make_fleet(100.0);
    fleet.register_agent("a1", usd(10.0)).expect("register");
    let result = fleet.charge_agent("a1", 0, 0, None, None);
    assert!(result.is_ok());
}

#[test]
fn test_fleet_kill_all_blocks_all_agents() {
    let mut fleet = make_fleet(100.0);
    fleet.register_agent("a1", usd(10.0)).expect("reg");
    fleet.register_agent("a2", usd(10.0)).expect("reg");
    fleet.kill_all("emergency shutdown");
    let r1 = fleet.charge_agent("a1", 100, 50, None, None);
    let r2 = fleet.charge_agent("a2", 100, 50, None, None);
    assert!(matches!(r1, Err(BudgetError::KillSwitchActivated { .. })));
    assert!(matches!(r2, Err(BudgetError::KillSwitchActivated { .. })));
}

#[test]
fn test_fleet_snapshot_contains_all_agents() {
    let mut fleet = make_fleet(100.0);
    fleet.register_agent("a1", usd(20.0)).expect("reg");
    fleet.register_agent("a2", usd(20.0)).expect("reg");
    let snapshots = fleet.fleet_snapshot();
    assert_eq!(snapshots.len(), 2);
}

#[test]
fn test_reallocate_fails_for_unknown_dest() {
    let mut fleet = make_fleet(100.0);
    fleet.register_agent("a1", usd(20.0)).expect("reg");
    let result = fleet.reallocate("a1", "ghost", usd(5.0));
    assert!(matches!(result, Err(BudgetError::UnknownAgent(_))));
}

#[test]
fn test_kill_specific_agent() {
    let mut fleet = make_fleet(100.0);
    fleet.register_agent("a1", usd(10.0)).expect("reg");
    fleet.kill_agent("a1", "test kill").expect("kill");
    let result = fleet.charge_agent("a1", 100, 50, None, None);
    assert!(matches!(result, Err(BudgetError::KillSwitchActivated { .. })));
}

#[test]
fn test_kill_unknown_agent_returns_error() {
    let mut fleet = make_fleet(100.0);
    let result = fleet.kill_agent("ghost", "test");
    assert!(matches!(result, Err(BudgetError::UnknownAgent(_))));
}

#[test]
fn test_fleet_allocator_new_invalid_config() {
    let result = FleetAllocator::new(usd(0.0), ModelTier::Standard, fraction(0.2));
    assert!(result.is_err());
}

#[test]
fn allocation_results_in_full() {
    let mut fleet = FleetBudget::new(usd(10.0)).ok().expect("new");
    assert_eq!(fleet.allocate("a1", usd(8.0)), Ok(usd(2.0)));
    assert_eq!(
        fleet.allocate("a2", usd(5.0)),
        Err(BudgetError::AllocationFailed {
            agent_id: "a2".to_string(),
            requested: usd(5.0),
            available: usd(2.0)
        })
    );
    assert_eq!(fleet.allocate("a2", usd(2.0)), Ok(0));
    assert_eq!(fleet.allocated_usd(), usd(10.0));
    assert_eq!(fleet.available_usd(), 0);
    assert!(fleet.allocate("a3", i128::MAX).is_err());
}

#[test]
fn recorded_spend_wraps_around() {
    let mut fleet = FleetBudget::new(usd(10.0)).ok().expect("new");
    fleet.record_spend(i128::MAX);
    assert_eq!(fleet.spent_usd(), u64::MAX as i128 * 1000);
    fleet.record_spend(3000);
    assert_eq!(fleet.spent_usd(), 2000);
}

#[test]
fn config_error_of_a_fleet() {
    assert_eq!(
        FleetBudget::new(usd(-1.0)).err(),
        Some(BudgetError::InvalidConfig("fleet limit must be positive".to_string()))
    );
}

#[test]
fn the_fleet_records_the_running_total_of_the_agent() {
    let mut fleet = make_fleet(100.0);
    fleet.register_agent("coder", usd(40.0)).expect("reg");
    assert_eq!(
        fleet.charge_agent_at("coder", 2_000, 800, Some("task-42".into()), None, 1),
        Ok((usd(0.018), None))
    );
    assert_eq!(fleet.fleet_budget().spent_usd(), usd(0.018));
    assert_eq!(
        fleet.charge_agent_at("coder", 2_000, 800, None, Some("s".into()), 2),
        Ok((usd(0.036), None))
    );
    assert_eq!(fleet.fleet_budget().spent_usd(), usd(0.054));
}

#[test]
fn a_refused_registration_commits_nothing() {
    let mut fleet =
        FleetAllocator::new(usd(100.0), ModelTier::Standard, fraction(1.5)).ok().expect("fleet");
    assert_eq!(
        fleet.register_agent("a", usd(30.0)),
        Err(BudgetError::InvalidConfig(
            "pressure_threshold must be in [0.0, 1.0], got 1.5".to_string()
        ))
    );
    assert_eq!(fleet.agent_count(), 0);
    assert_eq!(fleet.fleet_budget().allocated_usd(), 0);
    for _ in 0..2 {
        assert!(matches!(
            fleet.register_agent("a", usd(60.0)),
            Err(BudgetError::InvalidConfig(_))
        ));
    }
    assert!(matches!(
        fleet.register_agent("a", usd(101.0)),
        Err(BudgetError::AllocationFailed { .. })
    ));
    let mut sound = make_fleet(10.0);
    assert!(sound.register_agent("a", usd(11.0)).is_err());
    assert_eq!(sound.fleet_budget().allocated_usd(), 0);
    assert_eq!(
        sound.register_agent("a", usd(-1.0)),
        Err(BudgetError::InvalidConfig("limit must be positive".to_string()))
    );
    assert_eq!(sound.fleet_budget().allocated_usd(), 0);
}

#[test]
fn a_refusal_can_be_asked_for_ahead() {
    let mut budget = FleetBudget::new(usd(10.0)).ok().expect("new");
    assert_eq!(budget.refused("a", usd(10.0)), None);
    budget.allocate("a", usd(8.0)).expect("alloc");
    assert_eq!(
        budget.refused("b", usd(3.0)),
        Some(BudgetError::AllocationFailed {
            agent_id: "b".to_string(),
            requested: usd(3.0),
            available: usd(2.0)
        })
    );
    assert_eq!(budget.allocated_usd(), usd(8.0));
}

#[test]
fn registering_again_gives_a_new_budget() {
    let mut fleet = make_fleet(100.0);
    fleet.register_agent("a", usd(30.0)).expect("reg");
    fleet.register_agent("b", usd(30.0)).expect("reg");
    fleet.charge_agent("a", 1000, 0, None, None).expect("charge");
    fleet.kill_agent("a", "stop").expect("kill");
    fleet.register_agent("a", usd(10.0)).expect("reg again");
    assert_eq!(fleet.agent_count(), 2);
    assert_eq!(fleet.fleet_budget().allocated_usd(), usd(70.0));
    assert_eq!(fleet.charge_agent("a", 1000, 0, None, None), Ok((usd(0.003), None)));
    let mut ids: Vec<String> =
        fleet.fleet_snapshot().into_iter().map(|snap| snap.agent_id).collect();
    ids.sort();
    assert_eq!(ids, vec!["a", "b"]);
}

#[test]
fn fleet_snapshots_are_marked_with_the_time() {
    let mut fleet = make_fleet(100.0);
    fleet.register_agent("a", usd(10.0)).expect("reg");
    fleet.register_agent("b", usd(10.0)).expect("reg");
    let before = llm_budget::clock::now_ms();
    for snap in fleet.fleet_snapshot() {
        assert!(before <= snap.timestamp_ms && snap.timestamp_ms < before + 60_000);
    }
}

#[test]
fn killing_one_agent_spares_the_others() {
    let mut fleet = make_fleet(100.0);
    fleet.register_agent("a", usd(10.0)).expect("reg");
    fleet.register_agent("b", usd(10.0)).expect("reg");
    fleet.kill_agent("a", "x").expect("kill");
    assert!(fleet.charge_agent("a", 1, 1, None, None).is_err());
    assert!(fleet.charge_agent("b", 1, 1, None, None).is_ok());
}

#[test]
fn shutdown_reaches_every_one_of_many_agents() {
    let mut fleet = make_fleet(1000.0);
    for i in 0..200 {
        fleet.register_agent(&format!("agent-{}", i), usd(1.0)).expect("reg");
    }
    assert_eq!(fleet.agent_count(), 200);
    fleet.kill_all("stop");
    let snapshots = fleet.fleet_snapshot();
    assert_eq!(snapshots.len(), 200);
    for snap in &snapshots {
        assert!(snap.is_killed);
    }
    for i in 0..200 {
        let id = format!("agent-{}", i);
        assert!(snapshots.iter().any(|snap| snap.agent_id == id));
        assert_eq!(
            fleet.charge_agent(&id, 0, 0, None, None),
            Err(BudgetError::KillSwitchActivated {
                agent_id: id,
                reason: "envelope kill switch is active".to_string()
            })
        );
    }
}

#[test]
fn reallocation_is_checked_and_moves_nothing() {
    let mut fleet = make_fleet(100.0);
    fleet.register_agent("a", usd(20.0)).expect("reg");
    fleet.register_agent("b", usd(5.0)).expect("reg");
    assert_eq!(fleet.reallocate("a", "b", usd(20.0)), Ok(()));
    assert_eq!(fleet.reallocate("a", "b", usd(-3.0)), Ok(()));
    assert_eq!(
        fleet.reallocate("a", "ghost", usd(21.0)),
        Err(BudgetError::ReallocationFailed {
            from: "a".to_string(),
            to: "ghost".to_string(),
            amount: usd(21.0),
            available: usd(20.0)
        })
    );
    assert_eq!(
        fleet.reallocate("ghost", "b", usd(1.0)),
        Err(BudgetError::UnknownAgent("ghost".to_string()))
    );
    let mut limits: Vec<i128> =
        fleet.fleet_snapshot().into_iter().map(|snap| snap.limit_usd).collect();
    limits.sort();
    assert_eq!(limits, vec![usd(5.0), usd(20.0)]);
}

#[test]
fn the_cap_can_be_drawn_on_directly() {
    let mut fleet = make_fleet(10.0);
    assert_eq!(fleet.reserve("reserve", usd(9.0)), Ok(usd(1.0)));
    assert_eq!(
        fleet.reserve("more", usd(2.0)),
        Err(BudgetError::AllocationFailed {
            agent_id: "more".to_string(),
            requested: usd(2.0),
            available: usd(1.0)
        })
    );
    fleet.record_spend(usd(1.0));
    assert_eq!(fleet.fleet_budget().spent_usd(), usd(1.0));
    assert!(fleet.register_agent("a", usd(2.0)).is_err());
    assert!(fleet.register_agent("a", usd(1.0)).is_ok());
    assert!(fleet.is_fleet_exhausted());
}

#[test]
fn all_spend_stays_under_the_cap() {
    let mut fleet = make_fleet(1.0);
    for i in 0..4 {
        let _ = fleet.register_agent(&format!("a{}", i), usd(0.3));
    }
    assert_eq!(fleet.agent_count(), 3);
    for round in 0..50u32 {
        for i in 0..4 {
            let _ = fleet.charge_agent(&format!("a{}", i), 1000 * round, 500, None, None);
        }
    }
    let snapshots = fleet.fleet_snapshot();
    let spent: i128 = snapshots.iter().map(|snap| snap.spent_usd).sum();
    let limits: i128 = snapshots.iter().map(|snap| snap.limit_usd).sum();
    assert!(spent > 0);
    assert!(spent <= limits);
    assert!(limits <= fleet.fleet_budget().allocated_usd());
    assert!(fleet.fleet_budget().allocated_usd() <= fleet.fleet_budget().total_limit_usd());
}
