//! The option record: contract and market parameters of one European
//! vanilla option, plus the derived time to maturity.
//!
//! The two time fields are second-based timestamps. Every real-valued
//! parameter is carried as the bit pattern the caller supplied ([`Fp64`]),
//! wrapped as a literal computation; the derived time to maturity is the
//! computation `(time_maturity - time_curr) / 31_536_000`, re-derived
//! whenever either time field changes.

use vstd::prelude::*;

use crate::fp::Fp64;
use crate::fp::FpExpr;

verus! {

/// Seconds in the year the day-count convention uses (365 days).
pub const SECONDS_PER_YEAR: u32 = 31_536_000;

/// The two supported kinds of option.
pub enum OptionType {
    /// A call option.
    Call,
    /// A put option.
    Put,
}

/// The two timestamps an option needs: the valuation time and the
/// maturity time, both in seconds.
#[derive(Clone, Copy, PartialEq, Eq, Structural, Debug)]
pub struct OptionTimeDefinition {
    pub time_curr: u32,
    pub time_maturity: u32,
}

/// The time to maturity derived from the two time fields: the elapsed
/// seconds converted to a double and divided by the seconds of one year.
pub open spec fn spec_ttm(time_curr: u32, time_maturity: u32) -> FpExpr {
    FpExpr::Div(
        Box::new(FpExpr::FromU32((time_maturity - time_curr) as u32)),
        Box::new(FpExpr::FromU32(SECONDS_PER_YEAR)),
    )
}

/// A Black-Scholes option record.
///
/// Holds the contract and market parameters together with the derived
/// `time_to_maturity`, which is kept consistent with the two time fields
/// by every constructor and mutator.
#[derive(Debug)]
pub struct BSOption {
    pub time_curr: u32,
    pub time_maturity: u32,
    pub time_to_maturity: FpExpr,
    pub asset_price: FpExpr,
    pub strike: FpExpr,
    pub interest: FpExpr,
    pub volatility: FpExpr,
    pub payout_rate: FpExpr,
}

impl Clone for BSOption {
    fn clone(&self) -> (r: Self)
        ensures
            r == *self,
    {
        BSOption {
            time_curr: self.time_curr,
            time_maturity: self.time_maturity,
            time_to_maturity: self.time_to_maturity.clone(),
            asset_price: self.asset_price.clone(),
            strike: self.strike.clone(),
            interest: self.interest.clone(),
            volatility: self.volatility.clone(),
            payout_rate: self.payout_rate.clone(),
        }
    }
}

impl BSOption {
    /// The derived field agrees with the two time fields.
    pub open spec fn wf(&self) -> bool {
        &&& self.time_curr <= self.time_maturity
        &&& self.time_to_maturity == spec_ttm(self.time_curr, self.time_maturity)
    }

    /// Creates an option record from its parameters.
    ///
    /// No numeric range is validated: any bit patterns are accepted, and
    /// degenerate parameters (zero strike, zero volatility, zero time to
    /// maturity) flow into the computed quantities unchanged. The one
    /// demand is that the maturity time not precede the valuation time,
    /// which the unsigned time arithmetic forces.
    pub fn new(
        time_curr: u32,
        time_maturity: u32,
        asset_price: Fp64,
        strike: Fp64,
        interest: Fp64,
        volatility: Fp64,
        payout_rate: Fp64,
    ) -> (r: BSOption)
        requires
            time_curr <= time_maturity,
        ensures
            r == (BSOption {
                time_curr,
                time_maturity,
                time_to_maturity: spec_ttm(time_curr, time_maturity),
                asset_price: FpExpr::Lit(asset_price),
                strike: FpExpr::Lit(strike),
                interest: FpExpr::Lit(interest),
                volatility: FpExpr::Lit(volatility),
                payout_rate: FpExpr::Lit(payout_rate),
            }),
            r.wf(),
    {
        BSOption {
            time_curr,
            time_maturity,
            time_to_maturity: Self::calc_time_to_maturity(OptionTimeDefinition {
                time_curr,
                time_maturity,
            }),
            asset_price: FpExpr::lit(asset_price),
            strike: FpExpr::lit(strike),
            interest: FpExpr::lit(interest),
            volatility: FpExpr::lit(volatility),
            payout_rate: FpExpr::lit(payout_rate),
        }
    }

    /// The time to maturity for the given pair of timestamps.
    pub(crate) fn calc_time_to_maturity(time_def: OptionTimeDefinition) -> (r: FpExpr)
        requires
            time_def.time_curr <= time_def.time_maturity,
        ensures
            r == spec_ttm(time_def.time_curr, time_def.time_maturity),
    {
        let elapsed: u32 = time_def.time_maturity - time_def.time_curr;
        FpExpr::from_u32(elapsed).div(FpExpr::from_u32(SECONDS_PER_YEAR))
    }

    /// The valuation time, a timestamp in seconds.
    pub fn time_curr(&self) -> (r: u32)
        ensures
            r == self.time_curr,
    {
        self.time_curr
    }

    /// The maturity time, a timestamp in seconds.
    pub fn time_maturity(&self) -> (r: u32)
        ensures
            r == self.time_maturity,
    {
        self.time_maturity
    }

    /// The derived time to maturity, in years.
    pub fn time_to_maturity(&self) -> (r: FpExpr)
        ensures
            r == self.time_to_maturity,
    {
        self.time_to_maturity.clone()
    }

    /// The underlying's price.
    pub fn asset_price(&self) -> (r: FpExpr)
        ensures
            r == self.asset_price,
    {
        self.asset_price.clone()
    }

    /// The strike price.
    pub fn strike(&self) -> (r: FpExpr)
        ensures
            r == self.strike,
    {
        self.strike.clone()
    }

    /// The annualized risk-free interest rate, as a decimal.
    pub fn interest(&self) -> (r: FpExpr)
        ensures
            r == self.interest,
    {
        self.interest.clone()
    }

    /// The annualized implied volatility, as a decimal.
    pub fn volatility(&self) -> (r: FpExpr)
        ensures
            r == self.volatility,
    {
        self.volatility.clone()
    }

    /// The continuous payout (dividend) rate, as a decimal.
    pub fn payout_rate(&self) -> (r: FpExpr)
        ensures
            r == self.payout_rate,
    {
        self.payout_rate.clone()
    }

    /// Moves the valuation time and re-derives the time to maturity in the
    /// same step; no other field changes.
    pub fn set_time_curr(&mut self, new_time_curr: u32)
        requires
            new_time_curr <= old(self).time_maturity,
        ensures
            *final(self) == (BSOption {
                time_curr: new_time_curr,
                time_to_maturity: spec_ttm(new_time_curr, old(self).time_maturity),
                ..*old(self)
            }),
            final(self).wf(),
    {
        self.time_curr = new_time_curr;
        self.time_to_maturity = Self::calc_time_to_maturity(OptionTimeDefinition {
            time_maturity: self.time_maturity,
            time_curr: self.time_curr,
        });
    }

    /// Moves the maturity time and re-derives the time to maturity in the
    /// same step; no other field changes.
    pub fn set_time_maturity(&mut self, new_time_maturity: u32)
        requires
            old(self).time_curr <= new_time_maturity,
        ensures
            *final(self) == (BSOption {
                time_maturity: new_time_maturity,
                time_to_maturity: spec_ttm(old(self).time_curr, new_time_maturity),
                ..*old(self)
            }),
            final(self).wf(),
    {
        self.time_maturity = new_time_maturity;
        self.time_to_maturity = Self::calc_time_to_maturity(OptionTimeDefinition {
            time_maturity: self.time_maturity,
            time_curr: self.time_curr,
        });
    }

    /// Replaces the underlying's price; no other field changes.
    pub fn set_asset_price(&mut self, new_asset_price: Fp64)
        ensures
            *final(self) == (BSOption {
                asset_price: FpExpr::Lit(new_asset_price),
                ..*old(self)
            }),
            old(self).wf() ==> final(self).wf(),
    {
        self.asset_price = FpExpr::lit(new_asset_price);
    }

    /// Replaces the strike price; no other field changes.
    pub fn set_strike(&mut self, new_strike: Fp64)
        ensures
            *final(self) == (BSOption { strike: FpExpr::Lit(new_strike), ..*old(self) }),
            old(self).wf() ==> final(self).wf(),
    {
        self.strike = FpExpr::lit(new_strike);
    }

    /// Replaces the implied volatility; no other field changes.
    pub fn set_volatility(&mut self, new_volatility: Fp64)
        ensures
            *final(self) == (BSOption { volatility: FpExpr::Lit(new_volatility), ..*old(self) }),
            old(self).wf() ==> final(self).wf(),
    {
        self.volatility = FpExpr::lit(new_volatility);
    }

    /// Replaces the payout rate; no other field changes.
    pub fn set_payout_rate(&mut self, new_payout_rate: Fp64)
        ensures
            *final(self) == (BSOption { payout_rate: FpExpr::Lit(new_payout_rate), ..*old(self) }),
            old(self).wf() ==> final(self).wf(),
    {
        self.payout_rate = FpExpr::lit(new_payout_rate);
    }
}

} // verus!
