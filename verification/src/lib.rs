//! Black-Scholes-Merton pricing of European vanilla options.
//!
//! An option record ([`option::BSOption`]) holds the contract and market
//! parameters; the engine ([`engine`]) computes the option's value and its
//! risk sensitivities (delta, gamma, vega, theta) for calls and puts, from
//! the closed-form formulas plus finite-difference bumps. A validating
//! builder ([`builder::BSOptionBuilder`]) accumulates the parameters step
//! by step and reports the first omitted step.
//!
//! Verified code performs no floating-point arithmetic: a supplied double
//! travels as its bit pattern ([`fp::Fp64`]), and every computed quantity
//! is returned as the exact tree of double-precision operations that
//! yields it ([`fp::FpExpr`]), for a host to evaluate one operation per
//! node. The contracts pin each tree completely, and the engine's lemmas
//! prove the identities between the quantities — put-call parity, delta
//! symmetry, the shared vega, and the common finite-difference shape of
//! the two gammas.

pub mod builder;
pub mod engine;
pub mod fp;
pub mod option;

pub use builder::BSOptionBuilder;
pub use builder::OptionMissingBuildStepError;
pub use engine::OptionResults;
pub use engine::calculate_deltas;
pub use engine::calculate_gammas;
pub use engine::calculate_option_values;
pub use engine::calculate_thetas;
pub use engine::calculate_vegas;
pub use fp::Fp64;
pub use fp::FpExpr;
pub use option::BSOption;
pub use option::OptionTimeDefinition;
pub use option::OptionType;
