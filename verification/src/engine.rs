//! The pricing engine: Black-Scholes value and delta in closed form, and
//! gamma, vega and theta as finite-difference bumps of those primitives.
//!
//! Every public operation returns the exact double-precision computation
//! ([`FpExpr`]) for the requested quantity, and its contract pins that
//! computation completely. The identities the engine guarantees between
//! the quantities (put-call parity, delta symmetry, the shared vega, the
//! common finite-difference shape of the two gammas) are stated and proved
//! as lemmas at the end of this module.

use vstd::prelude::*;

use crate::fp::FpExpr;
use crate::option::BSOption;
use crate::option::spec_ttm;

verus! {

/// Seconds in one day: the bump theta applies to the valuation time.
pub const TIMESTAMP_ONE_DAY: u32 = 86_400;

/// The computed quantity for the call and for the put.
#[derive(Debug)]
pub struct OptionResults {
    pub call: FpExpr,
    pub put: FpExpr,
}

// ----------------------------------------------------------------------
// The computations, as specification-level trees.
// ----------------------------------------------------------------------

/// One half, computed as `1 / 2` (exact in double precision).
pub open spec fn spec_one_half() -> FpExpr {
    FpExpr::Div(Box::new(FpExpr::FromU32(1)), Box::new(FpExpr::FromU32(2)))
}

/// The asset-price bump gamma uses: `1 / 1000`, the double nearest 0.001.
pub open spec fn spec_price_step() -> FpExpr {
    FpExpr::Div(Box::new(FpExpr::FromU32(1)), Box::new(FpExpr::FromU32(1000)))
}

/// The volatility bump vega uses: `1 / 10000`, the double nearest 0.0001.
pub open spec fn spec_volatility_step() -> FpExpr {
    FpExpr::Div(Box::new(FpExpr::FromU32(1)), Box::new(FpExpr::FromU32(10000)))
}

/// The normalization vega divides by: `1 / 100`, one volatility point.
pub open spec fn spec_vega_unit() -> FpExpr {
    FpExpr::Div(Box::new(FpExpr::FromU32(1)), Box::new(FpExpr::FromU32(100)))
}

/// The continuously-compounded interest rate: `ln(1 + interest)`.
pub open spec fn spec_r_continuous(o: BSOption) -> FpExpr {
    FpExpr::Ln1p(Box::new(o.interest))
}

/// The continuously-compounded payout rate: `ln(1 + payout_rate)`.
pub open spec fn spec_div_continuous(o: BSOption) -> FpExpr {
    FpExpr::Ln1p(Box::new(o.payout_rate))
}

/// The exponent of the payout discount: `-div_continuous * T`.
pub open spec fn spec_delta_factor(o: BSOption) -> FpExpr {
    FpExpr::Mul(Box::new(FpExpr::Neg(Box::new(spec_div_continuous(o)))), Box::new(o.time_to_maturity))
}

/// The payout discount over the option's life: `e^(-div_continuous * T)`.
pub open spec fn spec_asset_discount(o: BSOption) -> FpExpr {
    FpExpr::Exp(Box::new(spec_delta_factor(o)))
}

/// The interest discount over the option's life: `e^(-r_continuous * T)`.
pub open spec fn spec_strike_discount(o: BSOption) -> FpExpr {
    FpExpr::Exp(
        Box::new(
            FpExpr::Mul(
                Box::new(FpExpr::Neg(Box::new(spec_r_continuous(o)))),
                Box::new(o.time_to_maturity),
            ),
        ),
    )
}

/// `volatility^2 / 2`.
pub open spec fn spec_vol_factor(o: BSOption) -> FpExpr {
    FpExpr::Div(Box::new(FpExpr::PowI(Box::new(o.volatility), 2)), Box::new(FpExpr::FromU32(2)))
}

/// `r_continuous - div_continuous + volatility^2 / 2`.
pub open spec fn spec_rates(o: BSOption) -> FpExpr {
    FpExpr::Add(
        Box::new(
            FpExpr::Sub(Box::new(spec_r_continuous(o)), Box::new(spec_div_continuous(o))),
        ),
        Box::new(spec_vol_factor(o)),
    )
}

/// `volatility * T^(1/2)`, the denominator of `d1`.
pub open spec fn spec_vol_sqrt_t(o: BSOption) -> FpExpr {
    FpExpr::Mul(
        Box::new(o.volatility),
        Box::new(FpExpr::PowF(Box::new(o.time_to_maturity), Box::new(spec_one_half()))),
    )
}

/// `d1 = (ln(asset_price / strike) + rates * T) / (volatility * T^(1/2))`.
pub open spec fn spec_d1(o: BSOption) -> FpExpr {
    FpExpr::Div(
        Box::new(
            FpExpr::Add(
                Box::new(
                    FpExpr::Ln(
                        Box::new(FpExpr::Div(Box::new(o.asset_price), Box::new(o.strike))),
                    ),
                ),
                Box::new(FpExpr::Mul(Box::new(spec_rates(o)), Box::new(o.time_to_maturity))),
            ),
        ),
        Box::new(spec_vol_sqrt_t(o)),
    )
}

/// `d2 = d1 - volatility * T^(1/2)`.
pub open spec fn spec_d2(o: BSOption) -> FpExpr {
    FpExpr::Sub(Box::new(spec_d1(o)), Box::new(spec_vol_sqrt_t(o)))
}

/// The discounted asset leg of put-call parity:
/// `asset_price * e^(-div_continuous * T)`.
pub open spec fn spec_parity_asset_leg(o: BSOption) -> FpExpr {
    FpExpr::Mul(Box::new(o.asset_price), Box::new(spec_asset_discount(o)))
}

/// The discounted strike leg of put-call parity:
/// `strike * e^(-r_continuous * T)`.
pub open spec fn spec_parity_strike_leg(o: BSOption) -> FpExpr {
    FpExpr::Mul(Box::new(o.strike), Box::new(spec_strike_discount(o)))
}

/// The closed-form call value:
/// `asset_price * e^(-div_continuous * T) * N(d1)
///  - strike * e^(-r_continuous * T) * N(d2)`.
pub open spec fn spec_call_value(o: BSOption) -> FpExpr {
    FpExpr::Sub(
        Box::new(
            FpExpr::Mul(Box::new(spec_parity_asset_leg(o)), Box::new(FpExpr::NormCdf(Box::new(spec_d1(o))))),
        ),
        Box::new(
            FpExpr::Mul(Box::new(spec_parity_strike_leg(o)), Box::new(FpExpr::NormCdf(Box::new(spec_d2(o))))),
        ),
    )
}

/// The put value, derived from the call by put-call parity:
/// `call - asset_price * e^(-div_continuous * T)
///       + strike * e^(-r_continuous * T)`.
pub open spec fn spec_put_value(o: BSOption) -> FpExpr {
    FpExpr::Add(
        Box::new(FpExpr::Sub(Box::new(spec_call_value(o)), Box::new(spec_parity_asset_leg(o)))),
        Box::new(spec_parity_strike_leg(o)),
    )
}

/// The closed-form call delta: `e^(-div_continuous * T) * N(d1)`.
pub open spec fn spec_call_delta(o: BSOption) -> FpExpr {
    FpExpr::Mul(Box::new(spec_asset_discount(o)), Box::new(FpExpr::NormCdf(Box::new(spec_d1(o)))))
}

/// The put delta: `call_delta - e^(-div_continuous * T)`.
pub open spec fn spec_put_delta(o: BSOption) -> FpExpr {
    FpExpr::Sub(Box::new(spec_call_delta(o)), Box::new(spec_asset_discount(o)))
}

/// The record gamma revalues: the asset price bumped by the price step.
pub open spec fn spec_bump_asset(o: BSOption) -> BSOption {
    BSOption {
        asset_price: FpExpr::Add(Box::new(o.asset_price), Box::new(spec_price_step())),
        ..o
    }
}

/// The call gamma: the finite difference of the call delta over the
/// asset-price bump, divided by the step.
pub open spec fn spec_call_gamma(o: BSOption) -> FpExpr {
    FpExpr::Div(
        Box::new(
            FpExpr::Sub(Box::new(spec_call_delta(spec_bump_asset(o))), Box::new(spec_call_delta(o))),
        ),
        Box::new(spec_price_step()),
    )
}

/// The put gamma: the finite difference of the put delta over the same
/// asset-price bump, divided by the same step.
pub open spec fn spec_put_gamma(o: BSOption) -> FpExpr {
    FpExpr::Div(
        Box::new(
            FpExpr::Sub(Box::new(spec_put_delta(spec_bump_asset(o))), Box::new(spec_put_delta(o))),
        ),
        Box::new(spec_price_step()),
    )
}

/// The record vega revalues: the volatility bumped by the volatility step.
pub open spec fn spec_bump_volatility(o: BSOption) -> BSOption {
    BSOption {
        volatility: FpExpr::Add(Box::new(o.volatility), Box::new(spec_volatility_step())),
        ..o
    }
}

/// The call vega: the change of the call value under the volatility bump,
/// divided by one volatility point.
pub open spec fn spec_call_vega(o: BSOption) -> FpExpr {
    FpExpr::Div(
        Box::new(
            FpExpr::Sub(
                Box::new(spec_call_value(spec_bump_volatility(o))),
                Box::new(spec_call_value(o)),
            ),
        ),
        Box::new(spec_vega_unit()),
    )
}

/// The put vega: computed from the same bumped call value as the call
/// vega, since vega is shared between call and put under Black-Scholes.
pub open spec fn spec_put_vega(o: BSOption) -> FpExpr {
    FpExpr::Div(
        Box::new(
            FpExpr::Sub(
                Box::new(spec_call_value(spec_bump_volatility(o))),
                Box::new(spec_call_value(o)),
            ),
        ),
        Box::new(spec_vega_unit()),
    )
}

/// The record theta revalues: the valuation time moved one day forward,
/// with the time to maturity re-derived.
pub open spec fn spec_bump_time(o: BSOption) -> BSOption {
    BSOption {
        time_curr: (o.time_curr + TIMESTAMP_ONE_DAY) as u32,
        time_to_maturity: spec_ttm((o.time_curr + TIMESTAMP_ONE_DAY) as u32, o.time_maturity),
        ..o
    }
}

/// The call theta: the signed change of the call value one day forward
/// (bumped minus original), per day.
pub open spec fn spec_call_theta(o: BSOption) -> FpExpr {
    FpExpr::Sub(Box::new(spec_call_value(spec_bump_time(o))), Box::new(spec_call_value(o)))
}

/// The put theta: the signed change of the put value one day forward
/// (bumped minus original), per day.
pub open spec fn spec_put_theta(o: BSOption) -> FpExpr {
    FpExpr::Sub(Box::new(spec_put_value(spec_bump_time(o))), Box::new(spec_put_value(o)))
}

// ----------------------------------------------------------------------
// The executable engine.
// ----------------------------------------------------------------------

/// `1 / 2`, the exponent that takes a square root.
fn one_half() -> (r: FpExpr)
    ensures
        r == spec_one_half(),
{
    FpExpr::from_u32(1).div(FpExpr::from_u32(2))
}

/// The asset-price bump gamma uses.
fn price_step() -> (r: FpExpr)
    ensures
        r == spec_price_step(),
{
    FpExpr::from_u32(1).div(FpExpr::from_u32(1000))
}

/// The volatility bump vega uses.
fn volatility_step() -> (r: FpExpr)
    ensures
        r == spec_volatility_step(),
{
    FpExpr::from_u32(1).div(FpExpr::from_u32(10000))
}

/// One volatility point, the normalization vega divides by.
fn vega_unit() -> (r: FpExpr)
    ensures
        r == spec_vega_unit(),
{
    FpExpr::from_u32(1).div(FpExpr::from_u32(100))
}

impl BSOption {
    /// The continuously-compounded interest rate.
    fn r_continuous(&self) -> (r: FpExpr)
        ensures
            r == spec_r_continuous(*self),
    {
        self.interest.clone().ln_1p()
    }

    /// The continuously-compounded payout rate.
    fn div_continuous(&self) -> (r: FpExpr)
        ensures
            r == spec_div_continuous(*self),
    {
        self.payout_rate.clone().ln_1p()
    }

    /// The `d1` term of the closed-form formulas.
    fn d1(&self) -> (r: FpExpr)
        ensures
            r == spec_d1(*self),
    {
        let s_k_ratio = self.asset_price.clone().div(self.strike.clone());
        let vol_factor = self.volatility.clone().powi(2).div(FpExpr::from_u32(2));
        let rates = self.r_continuous().sub(self.div_continuous()).add(vol_factor);

        let num = s_k_ratio.ln().add(rates.mul(self.time_to_maturity.clone()));
        let den = self.volatility.clone().mul(self.time_to_maturity.clone().powf(one_half()));

        num.div(den)
    }

    /// The `d2` term: `d1 - volatility * T^(1/2)`.
    fn d2(&self) -> (r: FpExpr)
        ensures
            r == spec_d2(*self),
    {
        self.d1().sub(
            self.volatility.clone().mul(self.time_to_maturity.clone().powf(one_half())),
        )
    }
}

/// The call and put values of the option.
pub fn calculate_option_values(option: &BSOption) -> (r: OptionResults)
    ensures
        r.call == spec_call_value(*option),
        r.put == spec_put_value(*option),
{
    let asset_price_factor = option.div_continuous().neg().mul(
        option.time_to_maturity.clone(),
    ).exp();
    let discounted_asset_price = option.asset_price.clone().mul(asset_price_factor);
    let call_pt1 = discounted_asset_price.mul(option.d1().norm_cdf());

    let strike_factor = option.r_continuous().neg().mul(option.time_to_maturity.clone()).exp();
    let call_pt2 = option.strike.clone().mul(strike_factor).mul(option.d2().norm_cdf());

    let call_value = call_pt1.sub(call_pt2);

    // The put value is derived from the call value by put-call parity.
    let put_pt1 = option.asset_price.clone().mul(
        option.div_continuous().neg().mul(option.time_to_maturity.clone()).exp(),
    );
    let put_pt2 = option.strike.clone().mul(
        option.r_continuous().neg().mul(option.time_to_maturity.clone()).exp(),
    );

    let put_value = call_value.clone().sub(put_pt1).add(put_pt2);

    OptionResults { call: call_value, put: put_value }
}

/// The call and put deltas of the option.
pub fn calculate_deltas(option: &BSOption) -> (r: OptionResults)
    ensures
        r.call == spec_call_delta(*option),
        r.put == spec_put_delta(*option),
{
    let delta_factor = option.div_continuous().neg().mul(option.time_to_maturity.clone());
    let call_delta = delta_factor.clone().exp().mul(option.d1().norm_cdf());
    let put_delta = call_delta.clone().sub(delta_factor.exp());

    OptionResults { call: call_delta, put: put_delta }
}

/// The call and put gammas: finite differences of the deltas over a bump
/// of the asset price by the price step.
pub fn calculate_gammas(option: &BSOption) -> (r: OptionResults)
    ensures
        r.call == spec_call_gamma(*option),
        r.put == spec_put_gamma(*option),
{
    let mut option_prime = option.clone();
    option_prime.asset_price = option.asset_price.clone().add(price_step());

    let deltas_prime = calculate_deltas(&option_prime);
    let deltas = calculate_deltas(option);

    let call_gamma = deltas_prime.call.sub(deltas.call).div(price_step());
    let put_gamma = deltas_prime.put.sub(deltas.put).div(price_step());

    OptionResults { call: call_gamma, put: put_gamma }
}

/// The vega, shared between call and put: the change of the call value
/// under a bump of the volatility, per volatility point.
pub fn calculate_vegas(option: &BSOption) -> (r: OptionResults)
    ensures
        r.call == spec_call_vega(*option),
        r.put == spec_put_vega(*option),
        r.put == r.call,
{
    let mut option_prime = option.clone();
    option_prime.volatility = option.volatility.clone().add(volatility_step());

    let values_prime = calculate_option_values(&option_prime);
    let values = calculate_option_values(option);

    let call_vega = values_prime.call.sub(values.call).div(vega_unit());
    let put_vega = call_vega.clone();

    OptionResults { call: call_vega, put: put_vega }
}

/// The call and put thetas: the signed change of each value with the
/// valuation time moved one day forward (bumped minus original).
pub fn calculate_thetas(option: &BSOption) -> (r: OptionResults)
    requires
        option.time_curr + TIMESTAMP_ONE_DAY <= option.time_maturity,
    ensures
        r.call == spec_call_theta(*option),
        r.put == spec_put_theta(*option),
{
    let mut option_prime = option.clone();
    option_prime.set_time_curr(option.time_curr() + TIMESTAMP_ONE_DAY);

    let values_prime = calculate_option_values(&option_prime);
    let values = calculate_option_values(option);

    let call_theta = values_prime.call.sub(values.call);
    let put_theta = values_prime.put.sub(values.put);

    OptionResults { call: call_theta, put: put_theta }
}

impl BSOption {
    /// The option's call value.
    pub fn call_value(&self) -> (r: FpExpr)
        ensures
            r == spec_call_value(*self),
    {
        calculate_option_values(self).call
    }

    /// The option's call delta.
    pub fn call_delta(&self) -> (r: FpExpr)
        ensures
            r == spec_call_delta(*self),
    {
        calculate_deltas(self).call
    }

    /// The option's call gamma.
    pub fn call_gamma(&self) -> (r: FpExpr)
        ensures
            r == spec_call_gamma(*self),
    {
        calculate_gammas(self).call
    }

    /// The option's call vega.
    pub fn call_vega(&self) -> (r: FpExpr)
        ensures
            r == spec_call_vega(*self),
    {
        calculate_vegas(self).call
    }

    /// The option's call theta.
    pub fn call_theta(&self) -> (r: FpExpr)
        requires
            self.time_curr + TIMESTAMP_ONE_DAY <= self.time_maturity,
        ensures
            r == spec_call_theta(*self),
    {
        calculate_thetas(self).call
    }

    /// The option's put value.
    pub fn put_value(&self) -> (r: FpExpr)
        ensures
            r == spec_put_value(*self),
    {
        calculate_option_values(self).put
    }

    /// The option's put delta.
    pub fn put_delta(&self) -> (r: FpExpr)
        ensures
            r == spec_put_delta(*self),
    {
        calculate_deltas(self).put
    }

    /// The option's put gamma.
    pub fn put_gamma(&self) -> (r: FpExpr)
        ensures
            r == spec_put_gamma(*self),
    {
        calculate_gammas(self).put
    }

    /// The option's put vega.
    pub fn put_vega(&self) -> (r: FpExpr)
        ensures
            r == spec_put_vega(*self),
    {
        calculate_vegas(self).put
    }

    /// The option's put theta.
    pub fn put_theta(&self) -> (r: FpExpr)
        requires
            self.time_curr + TIMESTAMP_ONE_DAY <= self.time_maturity,
        ensures
            r == spec_put_theta(*self),
    {
        calculate_thetas(self).put
    }
}

// ----------------------------------------------------------------------
// The identities the engine guarantees.
// ----------------------------------------------------------------------

/// Put-call parity, as computed: for every record, the put value is
/// exactly the call value minus the discounted asset leg plus the
/// discounted strike leg, node for node.
pub proof fn lemma_put_call_parity(o: BSOption)
    ensures
        spec_put_value(o) == FpExpr::Add(
            Box::new(FpExpr::Sub(Box::new(spec_call_value(o)), Box::new(spec_parity_asset_leg(o)))),
            Box::new(spec_parity_strike_leg(o)),
        ),
{
}

/// Delta symmetry: for every record, the put delta is exactly the call
/// delta minus the payout discount `e^(-div_continuous * T)` — the same
/// computation, not an independently derived one.
pub proof fn lemma_delta_symmetry(o: BSOption)
    ensures
        spec_put_delta(o) == FpExpr::Sub(
            Box::new(spec_call_delta(o)),
            Box::new(spec_asset_discount(o)),
        ),
{
}

/// Vega equality: for every record, the call vega and the put vega are
/// the same computation, since both divide the same bumped-call-value
/// difference by one volatility point.
pub proof fn lemma_vega_equality(o: BSOption)
    ensures
        spec_put_vega(o) == spec_call_vega(o),
{
}

/// The two gammas are the same finite difference up to the payout
/// discount: bumping the asset price leaves the payout discount unchanged,
/// so the put gamma differences the very call deltas the call gamma
/// differences, with the one common discount subtracted from both ends.
/// Any numerical divergence between the two gammas therefore comes from
/// rounding in those subtractions alone.
pub proof fn lemma_gamma_finite_difference(o: BSOption)
    ensures
        spec_call_gamma(o) == FpExpr::Div(
            Box::new(FpExpr::Sub(
                Box::new(spec_call_delta(spec_bump_asset(o))),
                Box::new(spec_call_delta(o)),
            )),
            Box::new(spec_price_step()),
        ),
        spec_put_gamma(o) == FpExpr::Div(
            Box::new(FpExpr::Sub(
                Box::new(FpExpr::Sub(
                    Box::new(spec_call_delta(spec_bump_asset(o))),
                    Box::new(spec_asset_discount(o)),
                )),
                Box::new(FpExpr::Sub(
                    Box::new(spec_call_delta(o)),
                    Box::new(spec_asset_discount(o)),
                )),
            )),
            Box::new(spec_price_step()),
        ),
{
    assert(spec_asset_discount(spec_bump_asset(o)) == spec_asset_discount(o));
}

} // verus!
