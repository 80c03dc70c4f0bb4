//! A step-validating builder for [`BSOption`].
//!
//! The builder accumulates the option's parameters one step at a time and
//! checks completeness once, when the record is created: the six required
//! parameters (valuation time, maturity time, asset price, strike,
//! interest, volatility) must all have been supplied, while the payout
//! rate is optional and defaults to zero. An incomplete builder yields a
//! recoverable error naming the first build step found missing.

use vstd::prelude::*;

use crate::fp::Fp64;
use crate::fp::FpExpr;
use crate::option::BSOption;
use crate::option::OptionTimeDefinition;
use crate::option::spec_ttm;
use vstd::string::StringExecFns;

verus! {

/// The error a builder reports when a required build step was omitted:
/// it names the first build function found not to have been called.
#[derive(Debug, Clone)]
pub struct OptionMissingBuildStepError {
    pub missing_step_name: String,
}

impl OptionMissingBuildStepError {
    /// The full report: "Did not call <step> before creating BSOption."
    pub fn message(&self) -> (r: String)
        ensures
            r@ == "Did not call "@ + self.missing_step_name@
                + " before creating BSOption."@,
    {
        String::from_str("Did not call ").concat(self.missing_step_name.as_str()).concat(
            " before creating BSOption.",
        )
    }
}

/// Builds a [`BSOption`] progressively.
///
/// Each `with_*` step records one parameter and touches nothing else; the
/// two time steps also derive the time to maturity as soon as both times
/// are known. [`Self::finalize`] and [`Self::create`] check completeness
/// and hand out the finished record.
#[derive(Debug)]
pub struct BSOptionBuilder {
    pub time_curr: Option<u32>,
    pub time_maturity: Option<u32>,
    pub time_to_maturity: Option<FpExpr>,
    pub asset_price: Option<Fp64>,
    pub strike: Option<Fp64>,
    pub interest: Option<Fp64>,
    pub volatility: Option<Fp64>,
    pub payout_rate: Fp64,
}

/// All six required build steps have been taken.
pub open spec fn spec_complete(b: BSOptionBuilder) -> bool {
    &&& b.time_curr.is_some()
    &&& b.time_maturity.is_some()
    &&& b.time_to_maturity.is_some()
    &&& b.asset_price.is_some()
    &&& b.strike.is_some()
    &&& b.interest.is_some()
    &&& b.volatility.is_some()
}

/// The record a complete builder yields.
pub open spec fn spec_built_option(b: BSOptionBuilder) -> BSOption {
    BSOption {
        time_curr: b.time_curr.unwrap(),
        time_maturity: b.time_maturity.unwrap(),
        time_to_maturity: b.time_to_maturity.unwrap(),
        asset_price: FpExpr::Lit(b.asset_price.unwrap()),
        strike: FpExpr::Lit(b.strike.unwrap()),
        interest: FpExpr::Lit(b.interest.unwrap()),
        volatility: FpExpr::Lit(b.volatility.unwrap()),
        payout_rate: FpExpr::Lit(b.payout_rate),
    }
}

/// The step name [`BSOptionBuilder::finalize`] reports for an incomplete
/// builder: the first missing step, in the order finalize checks them.
pub open spec fn spec_finalize_missing_step(b: BSOptionBuilder) -> Seq<char> {
    if b.time_curr.is_none() {
        "with_current_time"@
    } else if b.time_maturity.is_none() {
        "with_maturity_time"@
    } else if b.time_to_maturity.is_none() {
        "with_maturity_time | with_current_time"@
    } else if b.asset_price.is_none() {
        "with_asset_price"@
    } else if b.strike.is_none() {
        "with_strike"@
    } else if b.interest.is_none() {
        "with_interest"@
    } else {
        "with_volatility"@
    }
}

/// The step name [`BSOptionBuilder::create`] reports for an incomplete
/// builder: as for finalize, but the three time fields all answer to the
/// one step `with_time`.
pub open spec fn spec_create_missing_step(b: BSOptionBuilder) -> Seq<char> {
    if b.time_curr.is_none() || b.time_maturity.is_none() || b.time_to_maturity.is_none() {
        "with_time"@
    } else if b.asset_price.is_none() {
        "with_asset_price"@
    } else if b.strike.is_none() {
        "with_strike"@
    } else if b.interest.is_none() {
        "with_interest"@
    } else {
        "with_volatility"@
    }
}

impl Default for BSOptionBuilder {
    /// The empty builder, as [`BSOptionBuilder::new`] yields it.
    fn default() -> (r: BSOptionBuilder)
        ensures
            r == (BSOptionBuilder {
                time_curr: None,
                time_maturity: None,
                time_to_maturity: None,
                asset_price: None,
                strike: None,
                interest: None,
                volatility: None,
                payout_rate: Fp64 { bits: 0 },
            }),
    {
        BSOptionBuilder::new()
    }
}

impl BSOptionBuilder {
    /// The derived time to maturity is present exactly when both times
    /// are, and then agrees with them.
    pub open spec fn wf(&self) -> bool {
        &&& self.time_to_maturity.is_some() <==> (self.time_curr.is_some()
            && self.time_maturity.is_some())
        &&& self.time_to_maturity.is_some() ==> {
            &&& self.time_curr.unwrap() <= self.time_maturity.unwrap()
            &&& self.time_to_maturity.unwrap() == spec_ttm(
                self.time_curr.unwrap(),
                self.time_maturity.unwrap(),
            )
        }
    }

    /// An empty builder: no step taken, payout rate zero.
    pub fn new() -> (r: BSOptionBuilder)
        ensures
            r == (BSOptionBuilder {
                time_curr: None,
                time_maturity: None,
                time_to_maturity: None,
                asset_price: None,
                strike: None,
                interest: None,
                volatility: None,
                payout_rate: Fp64 { bits: 0 },
            }),
            r.wf(),
    {
        BSOptionBuilder {
            time_curr: None,
            time_maturity: None,
            time_to_maturity: None,
            asset_price: None,
            strike: None,
            interest: None,
            volatility: None,
            payout_rate: Fp64 { bits: 0 },
        }
    }

    /// Records the asset price; no other field changes.
    pub fn with_asset_price(self, asset_price: Fp64) -> (r: BSOptionBuilder)
        ensures
            r == (BSOptionBuilder { asset_price: Some(asset_price), ..self }),
            self.wf() ==> r.wf(),
    {
        BSOptionBuilder { asset_price: Some(asset_price), ..self }
    }

    /// Records the strike price; no other field changes.
    pub fn with_strike(self, strike: Fp64) -> (r: BSOptionBuilder)
        ensures
            r == (BSOptionBuilder { strike: Some(strike), ..self }),
            self.wf() ==> r.wf(),
    {
        BSOptionBuilder { strike: Some(strike), ..self }
    }

    /// Records both times in one step and derives the time to maturity.
    pub fn with_time(self, opts: OptionTimeDefinition) -> (r: BSOptionBuilder)
        requires
            opts.time_curr <= opts.time_maturity,
        ensures
            r == (BSOptionBuilder {
                time_curr: Some(opts.time_curr),
                time_maturity: Some(opts.time_maturity),
                time_to_maturity: Some(spec_ttm(opts.time_curr, opts.time_maturity)),
                ..self
            }),
            r.wf(),
    {
        BSOptionBuilder {
            time_curr: Some(opts.time_curr),
            time_maturity: Some(opts.time_maturity),
            time_to_maturity: Some(
                BSOption::calc_time_to_maturity(OptionTimeDefinition {
                    time_curr: opts.time_curr,
                    time_maturity: opts.time_maturity,
                }),
            ),
            ..self
        }
    }

    /// Records the valuation time; if the maturity time is already known,
    /// also derives the time to maturity.
    pub fn with_current_time(self, time_curr: u32) -> (r: BSOptionBuilder)
        requires
            self.time_maturity matches Some(tm) ==> time_curr <= tm,
        ensures
            self.time_maturity matches Some(tm) ==> r == (BSOptionBuilder {
                time_curr: Some(time_curr),
                time_to_maturity: Some(spec_ttm(time_curr, tm)),
                ..self
            }),
            self.time_maturity is None ==> r == (BSOptionBuilder {
                time_curr: Some(time_curr),
                ..self
            }),
            self.wf() ==> r.wf(),
    {
        match self.time_maturity {
            Some(time_maturity) => BSOptionBuilder {
                time_curr: Some(time_curr),
                time_to_maturity: Some(
                    BSOption::calc_time_to_maturity(OptionTimeDefinition {
                        time_curr,
                        time_maturity,
                    }),
                ),
                ..self
            },
            None => BSOptionBuilder { time_curr: Some(time_curr), ..self },
        }
    }

    /// Records the maturity time; if the valuation time is already known,
    /// also derives the time to maturity.
    pub fn with_maturity_time(self, time_maturity: u32) -> (r: BSOptionBuilder)
        requires
            self.time_curr matches Some(tc) ==> tc <= time_maturity,
        ensures
            self.time_curr matches Some(tc) ==> r == (BSOptionBuilder {
                time_maturity: Some(time_maturity),
                time_to_maturity: Some(spec_ttm(tc, time_maturity)),
                ..self
            }),
            self.time_curr is None ==> r == (BSOptionBuilder {
                time_maturity: Some(time_maturity),
                ..self
            }),
            self.wf() ==> r.wf(),
    {
        match self.time_curr {
            Some(time_curr) => BSOptionBuilder {
                time_maturity: Some(time_maturity),
                time_to_maturity: Some(
                    BSOption::calc_time_to_maturity(OptionTimeDefinition {
                        time_curr,
                        time_maturity,
                    }),
                ),
                ..self
            },
            None => BSOptionBuilder { time_maturity: Some(time_maturity), ..self },
        }
    }

    /// Records the implied volatility; no other field changes.
    pub fn with_volatility(self, volatility: Fp64) -> (r: BSOptionBuilder)
        ensures
            r == (BSOptionBuilder { volatility: Some(volatility), ..self }),
            self.wf() ==> r.wf(),
    {
        BSOptionBuilder { volatility: Some(volatility), ..self }
    }

    /// Records the interest rate; no other field changes.
    pub fn with_interest(self, interest: Fp64) -> (r: BSOptionBuilder)
        ensures
            r == (BSOptionBuilder { interest: Some(interest), ..self }),
            self.wf() ==> r.wf(),
    {
        BSOptionBuilder { interest: Some(interest), ..self }
    }

    /// Records the payout rate (optional; zero if never called).
    pub fn with_payout_rate(self, payout_rate: Fp64) -> (r: BSOptionBuilder)
        ensures
            r == (BSOptionBuilder { payout_rate, ..self }),
            self.wf() ==> r.wf(),
    {
        BSOptionBuilder { payout_rate, ..self }
    }

    /// Yields the finished record if every required step was taken, and
    /// otherwise the error naming the first missing step.
    pub fn finalize(self) -> (r: Result<BSOption, OptionMissingBuildStepError>)
        ensures
            r is Ok <==> spec_complete(self),
            r matches Ok(o) ==> o == spec_built_option(self),
            self.wf() ==> (r matches Ok(o) ==> o.wf()),
            r matches Err(e) ==> e.missing_step_name@ == spec_finalize_missing_step(self),
    {
        match self {
            BSOptionBuilder { time_curr: None, .. } => Err(OptionMissingBuildStepError {
                missing_step_name: "with_current_time".to_owned(),
            }),
            BSOptionBuilder { time_maturity: None, .. } => Err(OptionMissingBuildStepError {
                missing_step_name: "with_maturity_time".to_owned(),
            }),
            BSOptionBuilder { time_to_maturity: None, .. } => Err(OptionMissingBuildStepError {
                missing_step_name: "with_maturity_time | with_current_time".to_owned(),
            }),
            BSOptionBuilder { asset_price: None, .. } => Err(OptionMissingBuildStepError {
                missing_step_name: "with_asset_price".to_owned(),
            }),
            BSOptionBuilder { strike: None, .. } => Err(OptionMissingBuildStepError {
                missing_step_name: "with_strike".to_owned(),
            }),
            BSOptionBuilder { interest: None, .. } => Err(OptionMissingBuildStepError {
                missing_step_name: "with_interest".to_owned(),
            }),
            BSOptionBuilder { volatility: None, .. } => Err(OptionMissingBuildStepError {
                missing_step_name: "with_volatility".to_owned(),
            }),
            BSOptionBuilder {
                time_curr: Some(time_curr),
                time_maturity: Some(time_maturity),
                time_to_maturity: Some(time_to_maturity),
                asset_price: Some(asset_price),
                strike: Some(strike),
                interest: Some(interest),
                volatility: Some(volatility),
                payout_rate,
            } => Ok(
                BSOption {
                    time_curr,
                    time_maturity,
                    time_to_maturity,
                    asset_price: FpExpr::lit(asset_price),
                    strike: FpExpr::lit(strike),
                    interest: FpExpr::lit(interest),
                    volatility: FpExpr::lit(volatility),
                    payout_rate: FpExpr::lit(payout_rate),
                },
            ),
        }
    }

    /// As [`Self::finalize`], but reports any missing time field as the
    /// one step `with_time`.
    pub fn create(self) -> (r: Result<BSOption, OptionMissingBuildStepError>)
        ensures
            r is Ok <==> spec_complete(self),
            r matches Ok(o) ==> o == spec_built_option(self),
            self.wf() ==> (r matches Ok(o) ==> o.wf()),
            r matches Err(e) ==> e.missing_step_name@ == spec_create_missing_step(self),
    {
        match self {
            BSOptionBuilder { time_curr: None, .. } => Err(OptionMissingBuildStepError {
                missing_step_name: "with_time".to_owned(),
            }),
            BSOptionBuilder { time_maturity: None, .. } => Err(OptionMissingBuildStepError {
                missing_step_name: "with_time".to_owned(),
            }),
            BSOptionBuilder { time_to_maturity: None, .. } => Err(OptionMissingBuildStepError {
                missing_step_name: "with_time".to_owned(),
            }),
            BSOptionBuilder { asset_price: None, .. } => Err(OptionMissingBuildStepError {
                missing_step_name: "with_asset_price".to_owned(),
            }),
            BSOptionBuilder { strike: None, .. } => Err(OptionMissingBuildStepError {
                missing_step_name: "with_strike".to_owned(),
            }),
            BSOptionBuilder { interest: None, .. } => Err(OptionMissingBuildStepError {
                missing_step_name: "with_interest".to_owned(),
            }),
            BSOptionBuilder { volatility: None, .. } => Err(OptionMissingBuildStepError {
                missing_step_name: "with_volatility".to_owned(),
            }),
            BSOptionBuilder {
                time_curr: Some(time_curr),
                time_maturity: Some(time_maturity),
                time_to_maturity: Some(time_to_maturity),
                asset_price: Some(asset_price),
                strike: Some(strike),
                interest: Some(interest),
                volatility: Some(volatility),
                payout_rate,
            } => Ok(
                BSOption {
                    time_curr,
                    time_maturity,
                    time_to_maturity,
                    asset_price: FpExpr::lit(asset_price),
                    strike: FpExpr::lit(strike),
                    interest: FpExpr::lit(interest),
                    volatility: FpExpr::lit(volatility),
                    payout_rate: FpExpr::lit(payout_rate),
                },
            ),
        }
    }
}

} // verus!
