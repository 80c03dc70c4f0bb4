//! Double-precision values and computations, represented exactly.
//!
//! Verified code never performs floating-point arithmetic itself. Instead,
//! a supplied double is carried as its IEEE 754 bit pattern ([`Fp64`]), and a
//! computed quantity is an [`FpExpr`]: the exact tree of double-precision
//! operations that yields it. A host evaluates such a tree with one
//! double-precision operation per node, in the order the tree dictates, so
//! two equal trees always evaluate to the same double. Every function that
//! returns an `FpExpr` pins the whole tree in its contract, which lets the
//! crate state and prove identities between the quantities it computes.

use vstd::prelude::*;

verus! {

/// One IEEE 754 double-precision value, held as its bit pattern.
#[derive(Clone, Copy, PartialEq, Eq, Structural, Debug)]
pub struct Fp64 {
    pub bits: u64,
}

/// A double-precision computation: the exact tree of operations a host
/// must perform, one IEEE 754 double-precision operation per node.
///
/// `FromU32` stands for the (exact) conversion of an unsigned integer to a
/// double. `Ln`, `Ln1p`, `Exp`, `PowI` and `PowF` stand for the like-named
/// `f64` methods of the host's standard library, and `NormCdf` for the
/// cumulative distribution function of the standard normal distribution
/// (mean 0, variance 1).
#[derive(PartialEq, Eq, Debug)]
pub enum FpExpr {
    Lit(Fp64),
    FromU32(u32),
    Neg(Box<FpExpr>),
    Add(Box<FpExpr>, Box<FpExpr>),
    Sub(Box<FpExpr>, Box<FpExpr>),
    Mul(Box<FpExpr>, Box<FpExpr>),
    Div(Box<FpExpr>, Box<FpExpr>),
    Ln(Box<FpExpr>),
    Ln1p(Box<FpExpr>),
    Exp(Box<FpExpr>),
    PowI(Box<FpExpr>, i32),
    PowF(Box<FpExpr>, Box<FpExpr>),
    NormCdf(Box<FpExpr>),
}

impl Clone for FpExpr {
    fn clone(&self) -> (r: Self)
        ensures
            r == *self,
        decreases self,
    {
        match self {
            FpExpr::Lit(v) => FpExpr::Lit(*v),
            FpExpr::FromU32(n) => FpExpr::FromU32(*n),
            FpExpr::Neg(e) => FpExpr::Neg(Box::new((**e).clone())),
            FpExpr::Add(a, b) => FpExpr::Add(Box::new((**a).clone()), Box::new((**b).clone())),
            FpExpr::Sub(a, b) => FpExpr::Sub(Box::new((**a).clone()), Box::new((**b).clone())),
            FpExpr::Mul(a, b) => FpExpr::Mul(Box::new((**a).clone()), Box::new((**b).clone())),
            FpExpr::Div(a, b) => FpExpr::Div(Box::new((**a).clone()), Box::new((**b).clone())),
            FpExpr::Ln(e) => FpExpr::Ln(Box::new((**e).clone())),
            FpExpr::Ln1p(e) => FpExpr::Ln1p(Box::new((**e).clone())),
            FpExpr::Exp(e) => FpExpr::Exp(Box::new((**e).clone())),
            FpExpr::PowI(e, n) => FpExpr::PowI(Box::new((**e).clone()), *n),
            FpExpr::PowF(a, b) => FpExpr::PowF(Box::new((**a).clone()), Box::new((**b).clone())),
            FpExpr::NormCdf(e) => FpExpr::NormCdf(Box::new((**e).clone())),
        }
    }
}

impl FpExpr {
    /// The tree for a supplied double.
    pub fn lit(v: Fp64) -> (r: FpExpr)
        ensures
            r == FpExpr::Lit(v),
    {
        FpExpr::Lit(v)
    }

    /// The tree for the exact conversion of `n` to a double.
    pub fn from_u32(n: u32) -> (r: FpExpr)
        ensures
            r == FpExpr::FromU32(n),
    {
        FpExpr::FromU32(n)
    }

    /// The negation of `self`.
    pub fn neg(self) -> (r: FpExpr)
        ensures
            r == FpExpr::Neg(Box::new(self)),
    {
        FpExpr::Neg(Box::new(self))
    }

    /// The sum `self + rhs`.
    pub fn add(self, rhs: FpExpr) -> (r: FpExpr)
        ensures
            r == FpExpr::Add(Box::new(self), Box::new(rhs)),
    {
        FpExpr::Add(Box::new(self), Box::new(rhs))
    }

    /// The difference `self - rhs`.
    pub fn sub(self, rhs: FpExpr) -> (r: FpExpr)
        ensures
            r == FpExpr::Sub(Box::new(self), Box::new(rhs)),
    {
        FpExpr::Sub(Box::new(self), Box::new(rhs))
    }

    /// The product `self * rhs`.
    pub fn mul(self, rhs: FpExpr) -> (r: FpExpr)
        ensures
            r == FpExpr::Mul(Box::new(self), Box::new(rhs)),
    {
        FpExpr::Mul(Box::new(self), Box::new(rhs))
    }

    /// The quotient `self / rhs`.
    pub fn div(self, rhs: FpExpr) -> (r: FpExpr)
        ensures
            r == FpExpr::Div(Box::new(self), Box::new(rhs)),
    {
        FpExpr::Div(Box::new(self), Box::new(rhs))
    }

    /// The natural logarithm of `self`.
    pub fn ln(self) -> (r: FpExpr)
        ensures
            r == FpExpr::Ln(Box::new(self)),
    {
        FpExpr::Ln(Box::new(self))
    }

    /// The natural logarithm of `1 + self`.
    pub fn ln_1p(self) -> (r: FpExpr)
        ensures
            r == FpExpr::Ln1p(Box::new(self)),
    {
        FpExpr::Ln1p(Box::new(self))
    }

    /// The exponential of `self`.
    pub fn exp(self) -> (r: FpExpr)
        ensures
            r == FpExpr::Exp(Box::new(self)),
    {
        FpExpr::Exp(Box::new(self))
    }

    /// `self` raised to the integer power `n`.
    pub fn powi(self, n: i32) -> (r: FpExpr)
        ensures
            r == FpExpr::PowI(Box::new(self), n),
    {
        FpExpr::PowI(Box::new(self), n)
    }

    /// `self` raised to the power `rhs`.
    pub fn powf(self, rhs: FpExpr) -> (r: FpExpr)
        ensures
            r == FpExpr::PowF(Box::new(self), Box::new(rhs)),
    {
        FpExpr::PowF(Box::new(self), Box::new(rhs))
    }

    /// The standard normal cumulative distribution function at `self`.
    pub fn norm_cdf(self) -> (r: FpExpr)
        ensures
            r == FpExpr::NormCdf(Box::new(self)),
    {
        FpExpr::NormCdf(Box::new(self))
    }
}

} // verus!
