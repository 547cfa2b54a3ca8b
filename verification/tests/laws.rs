use llm_budget::budget::{AgentBudget, AtomicBudget, BudgetEnvelope, ScopeKind, SpendRecord};
use llm_budget::error::BudgetError;
use llm_budget::fleet::{FleetAllocator, FleetBudget};
use llm_budget::model::{ModelCascade, ModelTier};
use llm_budget::money::{micros_to_usd, usd_to_micros};
use llm_budget::persistence::{session_file_name, BudgetStore, FileRead, LoadStep};

const USD: i128 = 1_000_000_000;

fn record(cost_usd: i128, timestamp_ms: u64) -> SpendRecord {
    SpendRecord {
        agent_id: "a".to_string(),
        task_id: None,
        session_id: None,
        model_tier: ModelTier::Standard,
        input_tokens: 1,
        output_tokens: 1,
        cost_usd,
        timestamp_ms,
    }
}

#[test]
fn rounding_stays_within_half_a_micro_dollar_and_in_order() {
    let mut last = 0;
    for usd in 0..5_000i128 {
        let micros = usd_to_micros(usd);
        let error = micros_to_usd(micros) - usd;
        assert!(-500 <= error && error <= 500);
        assert!(last <= micros);
        last = micros;
    }
}

#[test]
fn more_tokens_cost_at_least_as_much() {
    for tier in [ModelTier::Local, ModelTier::Economy, ModelTier::Standard, ModelTier::Premium] {
        assert!(tier.estimate_cost(10, 20) <= tier.estimate_cost(11, 20));
        assert!(tier.estimate_cost(10, 20) <= tier.estimate_cost(10, 21));
    }
}

#[test]
fn an_exhausted_budget_takes_free_charges_only() {
    let mut budget = AtomicBudget::new(USD).ok().expect("new");
    budget.charge(USD).expect("all of it");
    for cost in [1_000, USD, 0, 499, 500] {
        assert_eq!(budget.charge(cost).is_ok(), usd_to_micros(cost) == 0);
        assert_eq!(budget.spent_usd() + budget.remaining_usd(), budget.limit_usd());
    }
}

#[test]
fn the_log_grows_at_its_end_until_the_kill() {
    let mut envelope = BudgetEnvelope::new("e", ScopeKind::Session, USD).ok().expect("new");
    for i in 0..5 {
        envelope.charge(record(USD / 10, i)).expect("charge");
        let stamps: Vec<u64> = envelope.audit_log().iter().map(|r| r.timestamp_ms).collect();
        assert_eq!(stamps, (0..=i).collect::<Vec<u64>>());
    }
    envelope.kill("enough");
    for i in 5..10 {
        let refused = envelope.charge(record(0, i));
        assert!(matches!(refused, Err(BudgetError::KillSwitchActivated { .. })));
    }
    assert_eq!(envelope.audit_log().len(), 5);
    assert_eq!(envelope.spent_usd(), USD / 2);
}

#[test]
fn a_cascade_goes_down_to_local_and_stays_there() {
    let mut cascade =
        ModelCascade::new(ModelTier::Premium, 500_000_000, 10 * USD).ok().expect("new");
    let mut ranks = vec![cascade.current().rank()];
    for _ in 0..5 {
        let reported = cascade.evaluate(USD);
        let now = cascade.current();
        assert_eq!(reported.is_some(), now.rank() + 1 == ranks[ranks.len() - 1]);
        ranks.push(now.rank());
    }
    assert_eq!(ranks, vec![3, 2, 1, 0, 0, 0]);
}

#[test]
fn an_agent_never_goes_over_its_limit_or_up_a_tier() {
    let mut agent =
        AgentBudget::new("a", USD / 10, ModelTier::Premium, 600_000_000).ok().expect("new");
    let mut rank = agent.current_tier().rank();
    for i in 0..2_000u32 {
        let _ = agent.charge_at(i % 700, i % 300, None, None, i as u64);
        assert!(agent.spent_usd() <= USD / 10);
        assert_eq!(agent.spent_usd() + agent.remaining_usd(), USD / 10);
        assert!(agent.current_tier().rank() <= rank);
        rank = agent.current_tier().rank();
    }
}

#[test]
fn allocations_never_oversubscribe() {
    let mut fleet = FleetBudget::new(10 * USD).ok().expect("new");
    let mut committed = 0;
    for amount in [3, 4, 5, 2, 2, 1, 1] {
        if fleet.allocate("a", amount * USD).is_ok() {
            committed += amount * USD;
        }
        assert_eq!(fleet.allocated_usd(), committed);
        assert_eq!(fleet.available_usd(), 10 * USD - committed);
        assert!(fleet.allocated_usd() <= fleet.total_limit_usd());
    }
    assert_eq!(committed, 10 * USD);
}

#[test]
fn the_record_of_spend_is_no_underestimate() {
    let mut fleet =
        FleetAllocator::new(100 * USD, ModelTier::Standard, 0).ok().expect("new");
    fleet.register_agent("a", 10 * USD).expect("reg");
    fleet.register_agent("b", 10 * USD).expect("reg");
    for _ in 0..10 {
        fleet.charge_agent("a", 1_000, 0, None, None).expect("a");
        fleet.charge_agent("b", 2_000, 0, None, None).expect("b");
        let spent: i128 = fleet.fleet_snapshot().iter().map(|snap| snap.spent_usd).sum();
        assert!(fleet.fleet_budget().spent_usd() >= spent);
    }
}

#[test]
fn a_killed_agent_stays_killed_through_everything_but_a_new_registration() {
    let mut fleet =
        FleetAllocator::new(100 * USD, ModelTier::Standard, 0).ok().expect("new");
    fleet.register_agent("a", 10 * USD).expect("reg");
    fleet.kill_agent("a", "stop").expect("kill");
    fleet.register_agent("b", 10 * USD).expect("reg");
    fleet.reserve("r", USD).expect("reserve");
    fleet.record_spend(USD);
    fleet.kill_agent("b", "stop").expect("kill");
    assert!(fleet.register_agent("a", 1_000 * USD).is_err());
    let refused = fleet.charge_agent("a", 0, 0, None, None);
    assert!(matches!(refused, Err(BudgetError::KillSwitchActivated { .. })));
    fleet.register_agent("a", USD).expect("again");
    assert!(fleet.charge_agent("a", 0, 0, None, None).is_ok());
}

#[test]
fn a_request_touches_one_agent() {
    let mut fleet =
        FleetAllocator::new(100 * USD, ModelTier::Standard, 0).ok().expect("new");
    fleet.register_agent("a", 10 * USD).expect("reg");
    fleet.register_agent("b", 10 * USD).expect("reg");
    fleet.charge_agent("a", 1_000, 0, None, None).expect("charge");
    for snap in fleet.fleet_snapshot() {
        let expected = if snap.agent_id == "a" { 3_000_000 } else { 0 };
        assert_eq!(snap.spent_usd, expected);
    }
}

#[test]
fn sessions_do_not_share_files_or_states() {
    let ids = ["", "a", "a.budget", "a.budget.json", "b"];
    for x in ids {
        for y in ids {
            assert_eq!(session_file_name(x) == session_file_name(y), x == y);
        }
    }
    let mut store = BudgetStore::new();
    let kept = store.save_at("kept", vec![], 1).state;
    store.save_at("gone", vec![], 2);
    store.delete("gone");
    assert!(matches!(store.load("gone"), LoadStep::ReadFile(_)));
    match store.load("kept") {
        LoadStep::Cached(state) => assert_eq!(state.saved_at_ms, kept.saved_at_ms),
        LoadStep::ReadFile(_) => panic!("lost"),
    }
}

#[test]
fn a_load_can_be_repeated() {
    let mut writer = BudgetStore::new();
    let write = writer.save_at("s", vec![], 7);
    let mut reader = BudgetStore::new();
    match reader.load("s") {
        LoadStep::ReadFile(name) => assert_eq!(name, write.file_name),
        LoadStep::Cached(_) => panic!("nothing was cached yet"),
    }
    let first = reader.finish_load("s", FileRead::Parsed(write.state)).ok().expect("read");
    match reader.load("s") {
        LoadStep::Cached(second) => {
            assert_eq!(second.session_id, first.session_id);
            assert_eq!(second.saved_at_ms, first.saved_at_ms);
        }
        LoadStep::ReadFile(_) => panic!("not cached"),
    }
}
