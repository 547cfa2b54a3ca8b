use llm_budget::error::BudgetError;
use llm_budget::model::ModelTier;

fn usd(dollars: f64) -> i128 {
    (dollars * 1e9).round() as i128
}

#[test]
fn test_agent_exhausted_display_contains_agent_id() {
    let e = BudgetError::AgentExhausted {
        agent_id: "agent-42".into(),
        spent: usd(1.5),
        limit: usd(1.0),
    };
    assert!(e.message().contains("agent-42"));
    assert!(e.message().contains("1.5"));
}

#[test]
fn test_task_exhausted_display() {
    let e = BudgetError::TaskExhausted {
        task_id: "task-7".into(),
        spent: usd(0.05),
        limit: usd(0.04),
    };
    assert!(e.message().contains("task-7"));
}

#[test]
fn test_session_exhausted_display() {
    let e = BudgetError::SessionExhausted {
        session_id: "sess-1".into(),
        spent: usd(2.0),
        limit: usd(1.0),
    };
    assert!(e.message().contains("sess-1"));
}

#[test]
fn test_fleet_exhausted_display() {
    let e = BudgetError::FleetExhausted { spent: usd(100.0), limit: usd(99.0) };
    assert!(e.message().contains("Fleet"));
}

#[test]
fn test_kill_switch_display() {
    let e = BudgetError::KillSwitchActivated {
        agent_id: "a1".into(),
        reason: "hard limit breach".into(),
    };
    assert!(e.message().contains("a1"));
    assert!(e.message().contains("hard limit breach"));
}

#[test]
fn test_model_downgraded_display() {
    let e = BudgetError::ModelDowngraded {
        from: ModelTier::Premium,
        to: ModelTier::Standard,
        remaining: usd(0.01),
    };
    assert!(e.message().contains("downgraded"));
}

#[test]
fn test_no_fallback_display() {
    let e = BudgetError::NoFallbackAvailable { from: ModelTier::Economy };
    assert!(e.message().contains("Economy"));
}

#[test]
fn test_allocation_failed_display() {
    let e = BudgetError::AllocationFailed {
        agent_id: "a1".into(),
        requested: usd(10.0),
        available: usd(5.0),
    };
    assert!(e.message().contains("a1"));
    assert!(e.message().contains("10"));
}

#[test]
fn test_reallocation_failed_display() {
    let e = BudgetError::ReallocationFailed {
        from: "a1".into(),
        to: "a2".into(),
        amount: usd(1.0),
        available: usd(0.5),
    };
    assert!(e.message().contains("a1"));
    assert!(e.message().contains("a2"));
}

#[test]
fn test_unknown_agent_display() {
    let e = BudgetError::UnknownAgent("ghost-agent".into());
    assert!(e.message().contains("ghost-agent"));
}

#[test]
fn test_persistence_error_display() {
    let e = BudgetError::PersistenceError("disk full".into());
    assert!(e.message().contains("disk full"));
}

#[test]
fn test_invalid_config_display() {
    let e = BudgetError::InvalidConfig("limit must be positive".into());
    assert!(e.message().contains("positive"));
}

#[test]
fn test_budget_error_is_clone() {
    let e = BudgetError::UnknownAgent("x".into());
    let _ = e.clone();
}

#[test]
fn test_budget_error_is_partial_eq() {
    let a = BudgetError::UnknownAgent("x".into());
    let b = BudgetError::UnknownAgent("x".into());
    assert_eq!(a, b);
}

#[test]
fn messages_in_full() {
    assert_eq!(
        BudgetError::AgentExhausted { agent_id: "a".into(), spent: usd(1.5), limit: usd(10.0) }
            .message(),
        "Agent 'a' budget exhausted: spent $1.500000, limit $10.000000"
    );
    assert_eq!(
        BudgetError::TaskExhausted { task_id: "t".into(), spent: usd(0.05), limit: usd(0.04) }
            .message(),
        "Task 't' budget exhausted: spent $0.050000, limit $0.040000"
    );
    assert_eq!(
        BudgetError::SessionExhausted { session_id: "s".into(), spent: 0, limit: 1000 }.message(),
        "Session 's' budget exhausted: spent $0.000000, limit $0.000001"
    );
    assert_eq!(
        BudgetError::FleetExhausted { spent: usd(100.0), limit: usd(99.0) }.message(),
        "Fleet budget exhausted: spent $100.000000, limit $99.000000"
    );
    assert_eq!(
        BudgetError::KillSwitchActivated { agent_id: "a".into(), reason: "why".into() }.message(),
        "Kill switch activated for agent 'a': why"
    );
    assert_eq!(
        BudgetError::ModelDowngraded {
            from: ModelTier::Premium,
            to: ModelTier::Local,
            remaining: usd(0.01)
        }
        .message(),
        "Model downgraded from Premium to Local due to budget pressure (remaining: $0.010000)"
    );
    assert_eq!(
        BudgetError::NoFallbackAvailable { from: ModelTier::Standard }.message(),
        "No fallback model available from Standard; all tiers exhausted"
    );
    assert_eq!(
        BudgetError::AllocationFailed {
            agent_id: "a".into(),
            requested: usd(50.0),
            available: usd(20.0)
        }
        .message(),
        "Cannot allocate $50.000000 to agent 'a': only $20.000000 available in fleet"
    );
    assert_eq!(
        BudgetError::ReallocationFailed {
            from: "a".into(),
            to: "b".into(),
            amount: usd(10.0),
            available: usd(5.0)
        }
        .message(),
        "Cannot reallocate $10.000000 from 'a' to 'b': source has $5.000000"
    );
    assert_eq!(
        BudgetError::UnknownAgent("g".into()).message(),
        "Agent 'g' not registered in fleet"
    );
    assert_eq!(
        BudgetError::PersistenceError("p".into()).message(),
        "Budget persistence error: p"
    );
    assert_eq!(
        BudgetError::InvalidConfig("c".into()).message(),
        "Invalid budget configuration: c"
    );
}

#[test]
fn amounts_are_rounded_as_floats_are_printed() {
    for nanos in [0i128, 499, 501, 999, 1500499, 7_812_500, 23_437_500, -250_000_000, 1_999_999_700]
    {
        let e = BudgetError::FleetExhausted { spent: nanos, limit: 0 };
        let printed = format!("spent ${:.6}, limit", nanos as f64 / 1e9);
        assert!(e.message().contains(&printed), "{} lacks {}", e.message(), printed);
    }
}

#[test]
fn a_clone_is_equal() {
    let errors = vec![
        BudgetError::AgentExhausted { agent_id: "a".into(), spent: 1, limit: 2 },
        BudgetError::TaskExhausted { task_id: "t".into(), spent: 3, limit: 4 },
        BudgetError::SessionExhausted { session_id: "s".into(), spent: 5, limit: 6 },
        BudgetError::FleetExhausted { spent: 7, limit: 8 },
        BudgetError::KillSwitchActivated { agent_id: "a".into(), reason: "r".into() },
        BudgetError::ModelDowngraded {
            from: ModelTier::Premium,
            to: ModelTier::Standard,
            remaining: 9,
        },
        BudgetError::NoFallbackAvailable { from: ModelTier::Local },
        BudgetError::AllocationFailed { agent_id: "a".into(), requested: 10, available: 11 },
        BudgetError::ReallocationFailed {
            from: "a".into(),
            to: "b".into(),
            amount: 12,
            available: 13,
        },
        BudgetError::UnknownAgent("u".into()),
        BudgetError::PersistenceError("p".into()),
        BudgetError::InvalidConfig("c".into()),
    ];
    for error in &errors {
        assert_eq!(error.clone(), *error);
    }
}
