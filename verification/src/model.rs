//! Model tiers, what they cost, and the cascade from dear to cheap.
//!
//! Under budget pressure the cascade moves to the next cheaper tier:
//! Premium, Standard, Economy, Local.

use vstd::prelude::*;
use vstd::string::*;

use crate::error::{BudgetError, BudgetErrorView};
use crate::money::{append_fraction, fraction_text, Billionths, NanoUsd, WHOLE};
use std::cmp::Ordering;

verus! {

/// Cost tier of an LLM model, from the cheapest to the dearest.
#[derive(Debug, Clone, Copy, PartialEq, Eq, Ord, Hash, Structural)]
pub enum ModelTier {
    /// A local model without marginal cost.
    Local,
    /// Low cost, reduced capability.
    Economy,
    /// Middling capability and cost.
    Standard,
    /// Highest capability, highest cost.
    Premium,
}

impl ModelTier {
    /// How dear the tier is: 0 for the cheapest, 3 for the dearest.
    pub open spec fn spec_rank(self) -> u8 {
        match self {
            ModelTier::Local => 0,
            ModelTier::Economy => 1,
            ModelTier::Standard => 2,
            ModelTier::Premium => 3,
        }
    }

    /// How dear the tier is: 0 for the cheapest, 3 for the dearest.
    #[verifier::when_used_as_spec(spec_rank)]
    pub fn rank(self) -> (rank: u8)
        ensures
            rank == self.spec_rank(),
    {
        match self {
            ModelTier::Local => 0,
            ModelTier::Economy => 1,
            ModelTier::Standard => 2,
            ModelTier::Premium => 3,
        }
    }

    /// The next cheaper tier.
    pub open spec fn next_cheaper(self) -> Option<ModelTier> {
        match self {
            ModelTier::Premium => Some(ModelTier::Standard),
            ModelTier::Standard => Some(ModelTier::Economy),
            ModelTier::Economy => Some(ModelTier::Local),
            ModelTier::Local => None,
        }
    }

    /// Price of a thousand output tokens, in nano-dollars.
    pub open spec fn output_price(self) -> int {
        match self {
            ModelTier::Premium => 75_000_000,
            ModelTier::Standard => 15_000_000,
            ModelTier::Economy => 1_250_000,
            ModelTier::Local => 0,
        }
    }

    /// Price of a thousand input tokens, in nano-dollars.
    pub open spec fn input_price(self) -> int {
        match self {
            ModelTier::Premium => 15_000_000,
            ModelTier::Standard => 3_000_000,
            ModelTier::Economy => 250_000,
            ModelTier::Local => 0,
        }
    }

    /// Price of a request, in nano-dollars.
    pub open spec fn request_price(self, input_tokens: int, output_tokens: int) -> int {
        (input_tokens * self.input_price() + output_tokens * self.output_price()) / 1000
    }

    /// The next cheaper tier, or `None` at the lowest.
    pub fn downgrade(&self) -> (next: Option<ModelTier>)
        ensures
            next == self.next_cheaper(),
    {
        match self {
            ModelTier::Premium => Some(ModelTier::Standard),
            ModelTier::Standard => Some(ModelTier::Economy),
            ModelTier::Economy => Some(ModelTier::Local),
            ModelTier::Local => None,
        }
    }

    /// Approximate cost of a thousand output tokens.
    pub fn cost_per_1k_output(&self) -> (usd: NanoUsd)
        ensures
            usd == self.output_price(),
    {
        match self {
            ModelTier::Premium => 75_000_000,
            ModelTier::Standard => 15_000_000,
            ModelTier::Economy => 1_250_000,
            ModelTier::Local => 0,
        }
    }

    /// Approximate cost of a thousand input tokens.
    pub fn cost_per_1k_input(&self) -> (usd: NanoUsd)
        ensures
            usd == self.input_price(),
    {
        match self {
            ModelTier::Premium => 15_000_000,
            ModelTier::Standard => 3_000_000,
            ModelTier::Economy => 250_000,
            ModelTier::Local => 0,
        }
    }

    /// Estimates the cost of a request. No part of a nano-dollar is lost: all
    /// prices are whole nano-dollars per token.
    pub fn estimate_cost(&self, input_tokens: u32, output_tokens: u32) -> (usd: NanoUsd)
        ensures
            usd == self.request_price(input_tokens as int, output_tokens as int),
            usd * 1000 == input_tokens * self.input_price() + output_tokens * self.output_price(),
            0 <= usd <= u64::MAX,
    {
        let input: i128 = self.cost_per_1k_input();
        let output: i128 = self.cost_per_1k_output();
        proof {
            lemma_request_price(*self, input_tokens as int, output_tokens as int);
            assert(input_tokens as int * input as int == input_tokens as int * self.input_price());
            assert(output_tokens as int * output as int == output_tokens as int * self.output_price());
        }
        let total: i128 = input_tokens as i128 * input + output_tokens as i128 * output;
        (total as u128 / 1000) as i128
    }
}

/// What a request costs is within 64 bits, and a whole number of nano-dollars.
proof fn lemma_request_price(tier: ModelTier, input_tokens: int, output_tokens: int)
    requires
        0 <= input_tokens <= u32::MAX,
        0 <= output_tokens <= u32::MAX,
    ensures
        0 <= input_tokens * tier.input_price() <= 0x1_0000_0000 * 15_000_000,
        0 <= output_tokens * tier.output_price() <= 0x1_0000_0000 * 75_000_000,
        tier.request_price(input_tokens, output_tokens) * 1000 == input_tokens * tier.input_price()
            + output_tokens * tier.output_price(),
{
    let (i, o) = (input_tokens, output_tokens);
    let tokens_price = match tier {
        ModelTier::Premium => i * 15_000 + o * 75_000,
        ModelTier::Standard => i * 3_000 + o * 15_000,
        ModelTier::Economy => i * 250 + o * 1_250,
        ModelTier::Local => 0,
    };
    assert(i * tier.input_price() + o * tier.output_price() == tokens_price * 1000) by {
        match tier {
            ModelTier::Premium => {},
            ModelTier::Standard => {},
            ModelTier::Economy => {},
            ModelTier::Local => {},
        }
    }
    assert((tokens_price * 1000) / 1000 == tokens_price);
    let (pi, po) = (tier.input_price(), tier.output_price());
    assert(0 <= i * pi <= 0x1_0000_0000 * 15_000_000) by (nonlinear_arith)
        requires
            0 <= i <= u32::MAX,
            0 <= pi <= 15_000_000,
    ;
    assert(0 <= o * po <= 0x1_0000_0000 * 75_000_000) by (nonlinear_arith)
        requires
            0 <= o <= u32::MAX,
            0 <= po <= 75_000_000,
    ;
}

/// Law: what a request costs, in nano-dollars: a fixed price for every input token
/// and one for every output token, by the tier.
pub proof fn law_price_list(input_tokens: int, output_tokens: int)
    ensures
        ModelTier::Premium.request_price(input_tokens, output_tokens) == 15_000 * input_tokens
            + 75_000 * output_tokens,
        ModelTier::Standard.request_price(input_tokens, output_tokens) == 3_000 * input_tokens
            + 15_000 * output_tokens,
        ModelTier::Economy.request_price(input_tokens, output_tokens) == 250 * input_tokens + 1_250
            * output_tokens,
        ModelTier::Local.request_price(input_tokens, output_tokens) == 0,
        ModelTier::Premium.input_price() == 15_000_000,
        ModelTier::Premium.output_price() == 75_000_000,
        ModelTier::Standard.input_price() == 3_000_000,
        ModelTier::Standard.output_price() == 15_000_000,
        ModelTier::Economy.input_price() == 250_000,
        ModelTier::Economy.output_price() == 1_250_000,
        ModelTier::Local.input_price() == 0,
        ModelTier::Local.output_price() == 0,
{
}

/// Law: a dearer tier costs more for input tokens and for output tokens.
pub proof fn law_prices_follow_rank(cheap: ModelTier, dear: ModelTier)
    requires
        cheap.spec_rank() < dear.spec_rank(),
    ensures
        cheap.input_price() < dear.input_price(),
        cheap.output_price() < dear.output_price(),
{
}

/// Law: the same request never costs more on a cheaper tier, and costs less there
/// if it has any tokens.
pub proof fn law_cheaper_tier_never_costs_more(
    cheap: ModelTier,
    dear: ModelTier,
    input_tokens: u32,
    output_tokens: u32,
)
    requires
        cheap.spec_rank() <= dear.spec_rank(),
    ensures
        cheap.request_price(input_tokens as int, output_tokens as int) <= dear.request_price(
            input_tokens as int,
            output_tokens as int,
        ),
        cheap.spec_rank() < dear.spec_rank() && (0 < input_tokens || 0 < output_tokens)
            ==> cheap.request_price(input_tokens as int, output_tokens as int)
            < dear.request_price(input_tokens as int, output_tokens as int),
{
    let i = input_tokens as int;
    let o = output_tokens as int;
    lemma_request_price(cheap, i, o);
    lemma_request_price(dear, i, o);
    let (ci, co) = (cheap.input_price(), cheap.output_price());
    let (di, d_o) = (dear.input_price(), dear.output_price());
    assert(i * ci <= i * di) by (nonlinear_arith)
        requires
            0 <= i,
            ci <= di,
    ;
    assert(o * co <= o * d_o) by (nonlinear_arith)
        requires
            0 <= o,
            co <= d_o,
    ;
    if cheap.spec_rank() < dear.spec_rank() {
        assert(0 < i ==> i * ci < i * di) by (nonlinear_arith)
            requires
                ci < di,
        ;
        assert(0 < o ==> o * co < o * d_o) by (nonlinear_arith)
            requires
                co < d_o,
        ;
    }
}

/// Law: more tokens never cost less.
pub proof fn law_more_tokens_never_cost_less(
    tier: ModelTier,
    input_tokens: u32,
    output_tokens: u32,
    more_input: u32,
    more_output: u32,
)
    requires
        input_tokens <= more_input,
        output_tokens <= more_output,
    ensures
        tier.request_price(input_tokens as int, output_tokens as int) <= tier.request_price(
            more_input as int,
            more_output as int,
        ),
{
    lemma_request_price(tier, input_tokens as int, output_tokens as int);
    lemma_request_price(tier, more_input as int, more_output as int);
    let (pi, po) = (tier.input_price(), tier.output_price());
    assert(input_tokens * pi <= more_input * pi) by (nonlinear_arith)
        requires
            input_tokens <= more_input,
            0 <= pi,
    ;
    assert(output_tokens * po <= more_output * po) by (nonlinear_arith)
        requires
            output_tokens <= more_output,
            0 <= po,
    ;
}

/// Law: the local tier is free, and so is a request without tokens.
pub proof fn law_free_requests(tier: ModelTier, input_tokens: u32, output_tokens: u32)
    ensures
        ModelTier::Local.request_price(input_tokens as int, output_tokens as int) == 0,
        tier.request_price(0, 0) == 0,
{
    lemma_request_price(ModelTier::Local, input_tokens as int, output_tokens as int);
    lemma_request_price(tier, 0, 0);
}

/// Law: a downgrade goes down exactly one rank, and is refused only at the
/// lowest.
pub proof fn law_downgrade_is_one_step(tier: ModelTier)
    ensures
        match tier.next_cheaper() {
            Some(next) => next.spec_rank() + 1 == tier.spec_rank(),
            None => tier.spec_rank() == 0,
        },
{
}

/// Tiers are ordered by how dear they are.
impl PartialOrd for ModelTier {
    fn partial_cmp(&self, other: &ModelTier) -> (order: Option<Ordering>) {
        let mine: u8 = self.rank();
        let theirs: u8 = other.rank();
        if mine < theirs {
            Some(Ordering::Less)
        } else if mine == theirs {
            Some(Ordering::Equal)
        } else {
            Some(Ordering::Greater)
        }
    }
}

impl vstd::std_specs::cmp::PartialOrdSpecImpl for ModelTier {
    open spec fn obeys_partial_cmp_spec() -> bool {
        true
    }

    open spec fn partial_cmp_spec(&self, other: &ModelTier) -> Option<Ordering> {
        if self.spec_rank() < other.spec_rank() {
            Some(Ordering::Less)
        } else if self.spec_rank() == other.spec_rank() {
            Some(Ordering::Equal)
        } else {
            Some(Ordering::Greater)
        }
    }
}

/// Whether `part / whole` lies below a fraction.
pub open spec fn below_fraction(part: int, whole: int, fraction: int) -> bool {
    part * WHOLE < fraction * whole
}

/// The product of a 128-bit and a 64-bit number, in digits to the base `2^64`.
fn wide_product(a: u128, m: u64) -> (digits: (u128, u128))
    ensures
        digits.0 * 0x1_0000_0000_0000_0000 + digits.1 == a * m,
        digits.1 < 0x1_0000_0000_0000_0000,
{
    let high: u128 = a / 0x1_0000_0000_0000_0000;
    let low: u128 = a % 0x1_0000_0000_0000_0000;
    let factor: u128 = m as u128;
    proof {
        assert(low * factor <= 0xffff_ffff_ffff_ffff * 0xffff_ffff_ffff_ffff) by (nonlinear_arith)
            requires
                0 <= low <= 0xffff_ffff_ffff_ffff,
                0 <= factor <= 0xffff_ffff_ffff_ffff,
        ;
        assert(high * factor <= 0xffff_ffff_ffff_ffff * 0xffff_ffff_ffff_ffff) by (nonlinear_arith)
            requires
                0 <= high <= 0xffff_ffff_ffff_ffff,
                0 <= factor <= 0xffff_ffff_ffff_ffff,
        ;
        assert(0 <= low * factor && 0 <= high * factor) by (nonlinear_arith)
            requires
                0 <= low,
                0 <= high,
                0 <= factor,
        ;
        assert((high * 0x1_0000_0000_0000_0000 + low) * factor == (high * factor)
            * 0x1_0000_0000_0000_0000 + low * factor) by (nonlinear_arith);
    }
    let carry: u128 = low * factor;
    (high * factor + carry / 0x1_0000_0000_0000_0000, carry % 0x1_0000_0000_0000_0000)
}

/// Decides whether `part / whole` lies below a fraction, without overflow.
fn is_below_fraction(part: NanoUsd, whole: NanoUsd, fraction: Billionths) -> (below: bool)
    requires
        0 < whole,
        0 <= fraction <= WHOLE,
    ensures
        below == below_fraction(part as int, whole as int, fraction as int),
{
    if part < 0 {
        proof {
            assert(0 <= fraction * whole) by (nonlinear_arith)
                requires
                    0 < whole,
                    0 <= fraction,
            ;
        }
        return true;
    }
    let left: (u128, u128) = wide_product(part as u128, 1_000_000_000);
    let right: (u128, u128) = wide_product(whole as u128, fraction as u64);
    assert(fraction * whole == whole * fraction) by (nonlinear_arith);
    left.0 < right.0 || (left.0 == right.0 && left.1 < right.1)
}

/// Moves to cheaper tiers as the budget runs low.
#[derive(Debug)]
pub struct ModelCascade {
    /// Current tier.
    current: ModelTier,
    /// Downgrade when the remaining budget falls below this fraction.
    pressure_threshold: Billionths,
    /// The budget of which the fraction is taken.
    total_budget: NanoUsd,
}

/// What a cascade holds.
pub struct CascadeView {
    pub current: ModelTier,
    pub pressure_threshold: int,
    pub total_budget: int,
}

impl CascadeView {
    /// The threshold is a fraction, and there is a budget to take it of.
    pub open spec fn valid(self) -> bool {
        &&& 0 <= self.pressure_threshold <= WHOLE
        &&& 0 < self.total_budget
    }

    /// Whether so little is left that the cascade has to step down.
    pub open spec fn under_pressure(self, remaining: int) -> bool {
        below_fraction(remaining, self.total_budget, self.pressure_threshold)
    }

    /// The cascade one tier down, unless it is at the lowest already.
    pub open spec fn stepped_down(self) -> CascadeView {
        match self.current.next_cheaper() {
            Some(next) => CascadeView { current: next, ..self },
            None => self,
        }
    }

    /// The cascade after it has seen what is left of the budget.
    pub open spec fn evaluated(self, remaining: int) -> CascadeView {
        if self.under_pressure(remaining) {
            self.stepped_down()
        } else {
            self
        }
    }

    /// The tier that the cascade reports when it has seen what is left of the
    /// budget: the new one, if there is a new one.
    pub open spec fn evaluation(self, remaining: int) -> Option<ModelTier> {
        if self.under_pressure(remaining) {
            self.current.next_cheaper()
        } else {
            None
        }
    }
}

impl View for ModelCascade {
    type V = CascadeView;

    closed spec fn view(&self) -> CascadeView {
        CascadeView {
            current: self.current,
            pressure_threshold: self.pressure_threshold as int,
            total_budget: self.total_budget as int,
        }
    }
}

impl Clone for ModelCascade {
    fn clone(&self) -> (copy: ModelCascade)
        ensures
            copy@ == self@,
    {
        proof {
            use_type_invariant(self);
        }
        ModelCascade {
            current: self.current,
            pressure_threshold: self.pressure_threshold,
            total_budget: self.total_budget,
        }
    }
}

/// Text of the error for a threshold that is no fraction.
pub open spec fn threshold_error(pressure_threshold: int) -> BudgetErrorView {
    BudgetErrorView::InvalidConfig(
        "pressure_threshold must be in [0.0, 1.0], got "@ + fraction_text(pressure_threshold),
    )
}

impl ModelCascade {
    #[verifier::type_invariant]
    spec fn inv(self) -> bool {
        self@.valid()
    }

    /// Creates a cascade that starts at `tier`.
    pub fn new(tier: ModelTier, pressure_threshold: Billionths, total_budget: NanoUsd) -> (result:
        Result<ModelCascade, BudgetError>)
        ensures
            match result {
                Ok(cascade) => {
                    &&& 0 <= pressure_threshold <= WHOLE
                    &&& 0 < total_budget
                    &&& cascade@ == (CascadeView {
                        current: tier,
                        pressure_threshold: pressure_threshold as int,
                        total_budget: total_budget as int,
                    })
                },
                Err(error) => if 0 <= pressure_threshold <= WHOLE {
                    &&& total_budget <= 0
                    &&& error@ == BudgetErrorView::InvalidConfig("total_budget must be positive"@)
                } else {
                    error@ == threshold_error(pressure_threshold as int)
                },
            },
    {
        if pressure_threshold < 0 || pressure_threshold > WHOLE {
            let mut text = "pressure_threshold must be in [0.0, 1.0], got ".to_owned();
            append_fraction(&mut text, pressure_threshold);
            return Err(BudgetError::InvalidConfig(text));
        }
        if total_budget <= 0 {
            return Err(BudgetError::InvalidConfig("total_budget must be positive".to_owned()));
        }
        Ok(ModelCascade { current: tier, pressure_threshold, total_budget })
    }

    /// Current model tier.
    pub fn current(&self) -> (tier: ModelTier)
        ensures
            tier == self@.current,
    {
        self.current
    }

    /// Downgrades one tier if less than the threshold fraction of the budget is
    /// left, and there is a cheaper tier. Returns the new tier in that case.
    pub fn evaluate(&mut self, remaining: NanoUsd) -> (new_tier: Option<ModelTier>)
        ensures
            final(self)@ == old(self)@.evaluated(remaining as int),
            new_tier == old(self)@.evaluation(remaining as int),
    {
        proof {
            use_type_invariant(&*self);
        }
        if is_below_fraction(remaining, self.total_budget, self.pressure_threshold) {
            self.force_downgrade()
        } else {
            None
        }
    }

    /// Downgrades one tier. Returns the new tier, or `None` at the lowest.
    pub fn force_downgrade(&mut self) -> (new_tier: Option<ModelTier>)
        ensures
            final(self)@ == old(self)@.stepped_down(),
            new_tier == old(self)@.current.next_cheaper(),
    {
        proof {
            use_type_invariant(&*self);
        }
        if let Some(next) = self.current.downgrade() {
            self.current = next;
            Some(next)
        } else {
            None
        }
    }
}

/// Law: seeing what is left of the budget moves a cascade down one tier or not
/// at all, and never changes its threshold or its budget.
pub proof fn law_cascade_only_steps_down(cascade: CascadeView, remaining: int)
    ensures
        cascade.evaluated(remaining).current.spec_rank() <= cascade.current.spec_rank(),
        cascade.current.spec_rank() <= cascade.evaluated(remaining).current.spec_rank() + 1,
        cascade.evaluated(remaining).pressure_threshold == cascade.pressure_threshold,
        cascade.evaluated(remaining).total_budget == cascade.total_budget,
        cascade.evaluation(remaining) == (if cascade.evaluated(remaining).current
            == cascade.current {
            None
        } else {
            Some(cascade.evaluated(remaining).current)
        }),
{
}

/// Law: a cascade steps down one tier exactly if less than its threshold of its
/// budget is left and it is not on the local tier yet; it reports the tier that
/// it moves to, and otherwise reports nothing and keeps its tier. The threshold
/// counts to the billionth.
pub proof fn law_steps_down_below_the_threshold(cascade: CascadeView, remaining: int)
    ensures
        remaining * 1_000_000_000 < cascade.pressure_threshold * cascade.total_budget ==> {
            &&& cascade.current == ModelTier::Premium ==> {
                &&& cascade.evaluation(remaining) == Some(ModelTier::Standard)
                &&& cascade.evaluated(remaining).current == ModelTier::Standard
            }
            &&& cascade.current == ModelTier::Standard ==> {
                &&& cascade.evaluation(remaining) == Some(ModelTier::Economy)
                &&& cascade.evaluated(remaining).current == ModelTier::Economy
            }
            &&& cascade.current == ModelTier::Economy ==> {
                &&& cascade.evaluation(remaining) == Some(ModelTier::Local)
                &&& cascade.evaluated(remaining).current == ModelTier::Local
            }
            &&& cascade.current == ModelTier::Local ==> {
                &&& cascade.evaluation(remaining) is None
                &&& cascade.evaluated(remaining).current == ModelTier::Local
            }
        },
        remaining * 1_000_000_000 >= cascade.pressure_threshold * cascade.total_budget ==> {
            &&& cascade.evaluation(remaining) is None
            &&& cascade.evaluated(remaining).current == cascade.current
        },
        cascade.evaluated(remaining).pressure_threshold == cascade.pressure_threshold,
        cascade.evaluated(remaining).total_budget == cascade.total_budget,
{
}

/// Law: a forced downgrade moves to the next cheaper tier whatever is left, stays
/// on the local tier, and touches nothing but the tier.
pub proof fn law_forced_downgrade(cascade: CascadeView)
    ensures
        cascade.stepped_down().pressure_threshold == cascade.pressure_threshold,
        cascade.stepped_down().total_budget == cascade.total_budget,
        match cascade.current {
            ModelTier::Premium => {
                &&& cascade.current.next_cheaper() == Some(ModelTier::Standard)
                &&& cascade.stepped_down().current == ModelTier::Standard
            },
            ModelTier::Standard => {
                &&& cascade.current.next_cheaper() == Some(ModelTier::Economy)
                &&& cascade.stepped_down().current == ModelTier::Economy
            },
            ModelTier::Economy => {
                &&& cascade.current.next_cheaper() == Some(ModelTier::Local)
                &&& cascade.stepped_down().current == ModelTier::Local
            },
            ModelTier::Local => {
                &&& cascade.current.next_cheaper() is None
                &&& cascade.stepped_down().current == ModelTier::Local
            },
        },
{
}

/// Law: a cascade is valid exactly if its threshold lies from zero to one and its
/// budget is above zero; the error for any other threshold says what it was.
pub proof fn law_valid_cascade(cascade: CascadeView, pressure_threshold: int)
    ensures
        cascade.valid() <==> {
            &&& 0 <= cascade.pressure_threshold <= 1_000_000_000
            &&& 0 < cascade.total_budget
        },
        threshold_error(pressure_threshold) == BudgetErrorView::InvalidConfig(
            "pressure_threshold must be in [0.0, 1.0], got "@ + fraction_text(pressure_threshold),
        ),
{
}

/// Law: an untouched budget is never under pressure; one under pressure stays
/// so as more of it goes.
pub proof fn law_pressure_grows_with_spend(cascade: CascadeView, remaining: int, less: int)
    requires
        cascade.valid(),
        less <= remaining,
    ensures
        cascade.total_budget <= remaining ==> !cascade.under_pressure(remaining),
        cascade.under_pressure(remaining) ==> cascade.under_pressure(less),
{
    let t = cascade.pressure_threshold;
    let total = cascade.total_budget;
    assert(t * total <= WHOLE * total) by (nonlinear_arith)
        requires
            t <= WHOLE,
            0 < total,
    ;
}

/// A cascade after a number of forced downgrades.
pub open spec fn after_downgrades(cascade: CascadeView, times: nat) -> CascadeView
    decreases times,
{
    if times == 0 {
        cascade
    } else {
        after_downgrades(cascade, (times - 1) as nat).stepped_down()
    }
}

/// Law: every downgrade lowers the rank by one until the local tier is
/// reached, where a cascade stays.
pub proof fn law_downgrades_end_at_local(cascade: CascadeView, times: nat)
    ensures
        after_downgrades(cascade, times).current.spec_rank() == (if times
            <= cascade.current.spec_rank() {
            cascade.current.spec_rank() - times
        } else {
            0
        }),
    decreases times,
{
    if times > 0 {
        law_downgrades_end_at_local(cascade, (times - 1) as nat);
    }
}

} // verus!
