use llm_budget::error::BudgetError;
use llm_budget::model::{ModelCascade, ModelTier};

fn usd(dollars: f64) -> i128 {
    (dollars * 1e9).round() as i128
}

fn fraction(value: f64) -> i64 {
    (value * 1e9).round() as i64
}

#[test]
fn test_model_tier_ordering() {
    assert!(ModelTier::Premium > ModelTier::Standard);
    assert!(ModelTier::Standard > ModelTier::Economy);
    assert!(ModelTier::Economy > ModelTier::Local);
}

#[test]
fn test_downgrade_premium_to_standard() {
    assert_eq!(ModelTier::Premium.downgrade(), Some(ModelTier::Standard));
}

#[test]
fn test_downgrade_standard_to_economy() {
    assert_eq!(ModelTier::Standard.downgrade(), Some(ModelTier::Economy));
}

#[test]
fn test_downgrade_economy_to_local() {
    assert_eq!(ModelTier::Economy.downgrade(), Some(ModelTier::Local));
}

#[test]
fn test_downgrade_local_returns_none() {
    assert_eq!(ModelTier::Local.downgrade(), None);
}

#[test]
fn test_cost_per_1k_decreases_by_tier() {
    assert!(ModelTier::Premium.cost_per_1k_output() > ModelTier::Standard.cost_per_1k_output());
    assert!(ModelTier::Standard.cost_per_1k_output() > ModelTier::Economy.cost_per_1k_output());
    assert_eq!(ModelTier::Local.cost_per_1k_output(), usd(0.0));
}

#[test]
fn test_estimate_cost_local_is_zero() {
    assert_eq!(ModelTier::Local.estimate_cost(10000, 5000), usd(0.0));
}

#[test]
fn test_estimate_cost_premium_nonzero() {
    let cost = ModelTier::Premium.estimate_cost(1000, 1000);
    assert!(cost > usd(0.0));
}

#[test]
fn test_cascade_new_invalid_threshold() {
    let result = ModelCascade::new(ModelTier::Premium, fraction(1.5), usd(100.0));
    assert!(result.is_err());
}

#[test]
fn test_cascade_new_invalid_budget() {
    let result = ModelCascade::new(ModelTier::Premium, fraction(0.2), usd(0.0));
    assert!(result.is_err());
}

#[test]
fn test_cascade_evaluate_triggers_downgrade_when_below_threshold() {
    let mut cascade =
        ModelCascade::new(ModelTier::Premium, fraction(0.2), usd(100.0)).expect("new");
    let result = cascade.evaluate(usd(15.0));
    assert_eq!(result, Some(ModelTier::Standard));
    assert_eq!(cascade.current(), ModelTier::Standard);
}

#[test]
fn test_cascade_evaluate_no_downgrade_when_above_threshold() {
    let mut cascade =
        ModelCascade::new(ModelTier::Premium, fraction(0.2), usd(100.0)).expect("new");
    let result = cascade.evaluate(usd(50.0));
    assert_eq!(result, None);
    assert_eq!(cascade.current(), ModelTier::Premium);
}

#[test]
fn test_cascade_local_cannot_downgrade() {
    let mut cascade = ModelCascade::new(ModelTier::Local, fraction(0.5), usd(100.0)).expect("new");
    let result = cascade.evaluate(usd(10.0));
    assert_eq!(result, None);
}

#[test]
fn model_test_cascade_force_downgrade_chain() {
    let mut cascade =
        ModelCascade::new(ModelTier::Premium, fraction(0.1), usd(100.0)).expect("new");
    assert_eq!(cascade.force_downgrade(), Some(ModelTier::Standard));
    assert_eq!(cascade.force_downgrade(), Some(ModelTier::Economy));
    assert_eq!(cascade.force_downgrade(), Some(ModelTier::Local));
    assert_eq!(cascade.force_downgrade(), None);
}

#[test]
fn tier_ranks() {
    assert_eq!(ModelTier::Premium.rank(), 3);
    assert_eq!(ModelTier::Standard.rank(), 2);
    assert_eq!(ModelTier::Economy.rank(), 1);
    assert_eq!(ModelTier::Local.rank(), 0);
}

#[test]
fn tier_order_agrees_with_total_order() {
    let tiers = [ModelTier::Local, ModelTier::Economy, ModelTier::Standard, ModelTier::Premium];
    for a in tiers {
        for b in tiers {
            assert_eq!(a.partial_cmp(&b), Some(a.cmp(&b)));
        }
    }
}

#[test]
fn prices_per_thousand_tokens() {
    assert_eq!(ModelTier::Premium.cost_per_1k_input(), usd(0.015));
    assert_eq!(ModelTier::Premium.cost_per_1k_output(), usd(0.075));
    assert_eq!(ModelTier::Standard.cost_per_1k_input(), usd(0.003));
    assert_eq!(ModelTier::Standard.cost_per_1k_output(), usd(0.015));
    assert_eq!(ModelTier::Economy.cost_per_1k_input(), usd(0.00025));
    assert_eq!(ModelTier::Economy.cost_per_1k_output(), usd(0.00125));
    assert_eq!(ModelTier::Local.cost_per_1k_input(), 0);
}

#[test]
fn estimates_are_exact() {
    assert_eq!(ModelTier::Premium.estimate_cost(60000, 1000), usd(0.975));
    assert_eq!(ModelTier::Standard.estimate_cost(2000, 800), usd(0.018));
    assert_eq!(ModelTier::Economy.estimate_cost(1, 1), 1500);
    assert_eq!(ModelTier::Economy.estimate_cost(1, 0), 250);
    assert_eq!(
        ModelTier::Premium.estimate_cost(u32::MAX, u32::MAX),
        4_294_967_295 * 90_000
    );
}

#[test]
fn a_cheaper_tier_never_costs_more() {
    let tiers = [ModelTier::Local, ModelTier::Economy, ModelTier::Standard, ModelTier::Premium];
    for pair in tiers.windows(2) {
        assert!(pair[0].estimate_cost(123, 456) < pair[1].estimate_cost(123, 456));
    }
}

#[test]
fn exactly_at_the_threshold_is_no_pressure() {
    let mut cascade =
        ModelCascade::new(ModelTier::Premium, fraction(0.2), usd(100.0)).expect("new");
    assert_eq!(cascade.evaluate(usd(20.0)), None);
    assert_eq!(cascade.evaluate(usd(20.0) - 1), Some(ModelTier::Standard));
}

#[test]
fn zero_threshold_never_downgrades_a_covered_budget() {
    let mut cascade =
        ModelCascade::new(ModelTier::Premium, fraction(0.0), usd(100.0)).expect("new");
    assert_eq!(cascade.evaluate(0), None);
    assert_eq!(cascade.evaluate(-1), Some(ModelTier::Standard));
}

#[test]
fn full_threshold_downgrades_at_the_first_spend() {
    let mut cascade =
        ModelCascade::new(ModelTier::Premium, fraction(1.0), usd(100.0)).expect("new");
    assert_eq!(cascade.evaluate(usd(100.0)), None);
    assert_eq!(cascade.evaluate(usd(100.0) - 1), Some(ModelTier::Standard));
}

#[test]
fn pressure_is_exact_on_huge_budgets() {
    let total = i128::MAX - 7;
    let mut cascade = ModelCascade::new(ModelTier::Premium, fraction(0.5), total).expect("new");
    assert_eq!(cascade.evaluate(total / 2), None);
    assert_eq!(cascade.evaluate(i128::MAX), None);
    assert_eq!(cascade.evaluate(total / 2 - 1), Some(ModelTier::Standard));
    assert_eq!(cascade.evaluate(i128::MIN), Some(ModelTier::Economy));
}

#[test]
fn cascade_config_errors() {
    assert_eq!(
        ModelCascade::new(ModelTier::Premium, fraction(1.5), usd(100.0)).unwrap_err(),
        BudgetError::InvalidConfig(
            "pressure_threshold must be in [0.0, 1.0], got 1.5".to_string()
        )
    );
    assert_eq!(
        ModelCascade::new(ModelTier::Premium, fraction(-0.1), usd(0.0)).unwrap_err(),
        BudgetError::InvalidConfig(
            "pressure_threshold must be in [0.0, 1.0], got -0.1".to_string()
        )
    );
    assert_eq!(
        ModelCascade::new(ModelTier::Premium, fraction(2.0), usd(1.0)).unwrap_err(),
        BudgetError::InvalidConfig("pressure_threshold must be in [0.0, 1.0], got 2".to_string())
    );
    assert_eq!(
        ModelCascade::new(ModelTier::Premium, fraction(0.2), usd(-3.0)).unwrap_err(),
        BudgetError::InvalidConfig("total_budget must be positive".to_string())
    );
}

#[test]
fn a_cloned_cascade_goes_its_own_way() {
    let mut first = ModelCascade::new(ModelTier::Premium, fraction(0.2), usd(1.0)).expect("new");
    let second = first.clone();
    first.force_downgrade();
    assert_eq!(first.current(), ModelTier::Standard);
    assert_eq!(second.current(), ModelTier::Premium);
}
