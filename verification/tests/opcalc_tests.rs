//! Numeric tests: evaluate the engine's computation trees with one
//! double-precision operation per node and compare against known values.

use opcalc::builder::BSOptionBuilder;
use opcalc::engine::calculate_deltas;
use opcalc::engine::calculate_gammas;
use opcalc::engine::calculate_option_values;
use opcalc::engine::calculate_thetas;
use opcalc::engine::calculate_vegas;
use opcalc::fp::Fp64;
use opcalc::fp::FpExpr;
use opcalc::option::BSOption;
use opcalc::option::OptionTimeDefinition;
use opcalc::option::OptionType;

use statrs::distribution::ContinuousCDF;
use statrs::distribution::Normal;

/// Evaluates a computation tree, one IEEE 754 double-precision operation
/// per node.
fn eval(e: &FpExpr) -> f64 {
    match e {
        FpExpr::Lit(v) => f64::from_bits(v.bits),
        FpExpr::FromU32(n) => *n as f64,
        FpExpr::Neg(a) => -eval(a),
        FpExpr::Add(a, b) => eval(a) + eval(b),
        FpExpr::Sub(a, b) => eval(a) - eval(b),
        FpExpr::Mul(a, b) => eval(a) * eval(b),
        FpExpr::Div(a, b) => eval(a) / eval(b),
        FpExpr::Ln(a) => eval(a).ln(),
        FpExpr::Ln1p(a) => eval(a).ln_1p(),
        FpExpr::Exp(a) => eval(a).exp(),
        FpExpr::PowI(a, n) => eval(a).powi(*n),
        FpExpr::PowF(a, b) => eval(a).powf(eval(b)),
        FpExpr::NormCdf(a) => Normal::new(0.0, 1.0).unwrap().cdf(eval(a)),
    }
}

fn fp(x: f64) -> Fp64 {
    Fp64 { bits: x.to_bits() }
}

fn assert_close(actual: f64, expected: f64) {
    assert!(
        (actual - expected).abs() <= f64::EPSILON,
        "got {}, expected {}",
        actual,
        expected
    );
}

fn create_test_option() -> BSOption {
    let time_curr = 1606780800; // 2020/12/01 00:00:00
    let time_maturity = 1610668800; // 2021/01/15 00:00:00

    let asset_price = 100.0;
    let strike = 105.0;
    let interest = 0.005;
    let volatility = 0.23;
    let payout_rate = 0.0;

    BSOption::new(
        time_curr,
        time_maturity,
        fp(asset_price),
        fp(strike),
        fp(interest),
        fp(volatility),
        fp(payout_rate),
    )
}

#[test]
fn lib_calculates_option_values() {
    let option = create_test_option();

    assert_close(eval(&option.call_value()), 1.402645442104692);
    assert_close(eval(&option.put_value()), 6.338100538847982);
}

#[test]
fn lib_calculates_option_deltas() {
    let option = create_test_option();

    assert_close(eval(&option.call_delta()), 0.2890519431809007);
    assert_close(eval(&option.put_delta()), -0.7109480568190993);
}

#[test]
fn lib_calculates_option_gammas() {
    let option = create_test_option();

    assert_close(eval(&option.call_gamma()), 0.04232231027889721);
    assert_close(eval(&option.put_gamma()), 0.042322310279008235);
}

#[test]
fn lib_calculates_option_vegas() {
    let option = create_test_option();

    assert_close(eval(&option.call_vega()), 0.12001554434952766);
    assert_close(eval(&option.put_vega()), 0.12001554434952766);
}

#[test]
fn lib_calculates_option_thetas() {
    let option = create_test_option();

    assert_close(eval(&option.call_theta()), -0.03115177341956965);
    assert_close(eval(&option.put_theta()), -0.029717873380988635);
}

#[test]
fn opcalc_calculates_option_values() {
    let option_vals = calculate_option_values(&create_test_option());

    assert_close(eval(&option_vals.call), 1.402645442104692);
    assert_close(eval(&option_vals.put), 6.338100538847982);
}

#[test]
fn opcalc_calculates_option_deltas() {
    let deltas = calculate_deltas(&create_test_option());

    assert_close(eval(&deltas.call), 0.2890519431809007);
    assert_close(eval(&deltas.put), -0.7109480568190993);
}

#[test]
fn opcalc_calculates_option_gammas() {
    let gammas = calculate_gammas(&create_test_option());

    assert_close(eval(&gammas.call), 0.04232231027889721);
    assert_close(eval(&gammas.put), 0.042322310279008235);
}

#[test]
fn opcalc_calculates_option_vegas() {
    let vegas = calculate_vegas(&create_test_option());

    assert_close(eval(&vegas.call), 0.12001554434952766);
    assert_close(eval(&vegas.put), 0.12001554434952766);
}

#[test]
fn opcalc_calculates_option_thetas() {
    let thetas = calculate_thetas(&create_test_option());

    assert_close(eval(&thetas.call), -0.03115177341956965);
    assert_close(eval(&thetas.put), -0.029717873380988635);
}

#[test]
fn put_call_parity_holds_numerically() {
    // call - put == asset_price * e^(-q*T) - strike * e^(-r*T), within
    // floating-point round-off, also with a payout rate present.
    let cases: [(f64, f64, f64, f64, f64); 3] = [
        (100.0, 105.0, 0.005, 0.23, 0.0),
        (250.0, 200.0, 0.02, 0.4, 0.01),
        (80.0, 80.0, 0.001, 0.15, 0.03),
    ];
    for (s, k, r, v, q) in cases {
        let option = BSOption::new(1606780800, 1610668800, fp(s), fp(k), fp(r), fp(v), fp(q));
        let t = eval(&option.time_to_maturity());
        let call = eval(&option.call_value());
        let put = eval(&option.put_value());

        let asset_leg = s * (-(q.ln_1p()) * t).exp();
        let strike_leg = k * (-(r.ln_1p()) * t).exp();
        assert!(((call - put) - (asset_leg - strike_leg)).abs() <= 1e-12);
    }
}

#[test]
fn delta_symmetry_is_exact() {
    // put_delta == call_delta - e^(-q*T), as the very same computation.
    let option = BSOption::new(
        1606780800,
        1610668800,
        fp(120.0),
        fp(100.0),
        fp(0.01),
        fp(0.3),
        fp(0.02),
    );
    let t = eval(&option.time_to_maturity());
    let discount = (-(0.02f64.ln_1p()) * t).exp();
    let call_delta = eval(&option.call_delta());
    let put_delta = eval(&option.put_delta());
    assert!(put_delta == call_delta - discount);
}

#[test]
fn gammas_agree_within_finite_difference_error() {
    let gammas = calculate_gammas(&create_test_option());
    let call_gamma = eval(&gammas.call);
    let put_gamma = eval(&gammas.put);
    assert!((call_gamma - put_gamma).abs() <= 1e-9);
}

#[test]
fn vegas_are_the_same_computation() {
    let vegas = calculate_vegas(&create_test_option());
    // The two trees are identical, so the evaluations cannot differ.
    assert_eq!(vegas.call, vegas.put);
    assert!(eval(&vegas.call) == eval(&vegas.put));
}

#[test]
fn setters_keep_time_to_maturity_consistent() {
    let mut option = create_test_option();

    option.set_time_curr(1606780800 + 86400);
    let expected = (1610668800u32 - 1606780800 - 86400) as f64 / 31_536_000.0;
    assert!(eval(&option.time_to_maturity()) == expected);
    assert_eq!(option.time_curr(), 1606780800 + 86400);

    option.set_time_maturity(1610668800 + 86400);
    let expected = (1610668800 + 86400 - (1606780800 + 86400)) as f64 / 31_536_000.0;
    assert!(eval(&option.time_to_maturity()) == expected);
    assert_eq!(option.time_maturity(), 1610668800 + 86400);
}

#[test]
fn setters_replace_only_the_named_field() {
    let mut option = create_test_option();

    option.set_asset_price(fp(101.5));
    assert!(eval(&option.asset_price()) == 101.5);
    option.set_strike(fp(99.0));
    assert!(eval(&option.strike()) == 99.0);
    option.set_volatility(fp(0.5));
    assert!(eval(&option.volatility()) == 0.5);
    option.set_payout_rate(fp(0.02));
    assert!(eval(&option.payout_rate()) == 0.02);

    assert!(eval(&option.interest()) == 0.005);
    assert_eq!(option.time_curr(), 1606780800);
    assert_eq!(option.time_maturity(), 1610668800);
}

#[test]
fn time_to_maturity_is_the_documented_quotient() {
    let option = create_test_option();
    assert_eq!(
        option.time_to_maturity(),
        FpExpr::Div(
            Box::new(FpExpr::FromU32(1610668800 - 1606780800)),
            Box::new(FpExpr::FromU32(31_536_000)),
        )
    );
    let expected = (1610668800u32 - 1606780800) as f64 / 31_536_000.0;
    assert!(eval(&option.time_to_maturity()) == expected);
}

#[test]
fn builder_reports_first_missing_step() {
    let missing_current = BSOptionBuilder::new()
        .with_maturity_time(1610668800)
        .with_asset_price(fp(100.0))
        .with_strike(fp(105.0))
        .with_interest(fp(0.005))
        .with_volatility(fp(0.23))
        .finalize();
    assert!(missing_current.is_err());
    let err = missing_current.err().unwrap();
    assert_eq!(err.missing_step_name, "with_current_time");
    assert_eq!(
        err.message(),
        "Did not call with_current_time before creating BSOption."
    );

    let missing_maturity = BSOptionBuilder::new().with_current_time(1606780800).finalize();
    assert_eq!(
        missing_maturity.err().unwrap().missing_step_name,
        "with_maturity_time"
    );

    let missing_asset_price = BSOptionBuilder::new()
        .with_current_time(1606780800)
        .with_maturity_time(1610668800)
        .finalize();
    assert_eq!(
        missing_asset_price.err().unwrap().missing_step_name,
        "with_asset_price"
    );

    let missing_strike = BSOptionBuilder::new()
        .with_current_time(1606780800)
        .with_maturity_time(1610668800)
        .with_asset_price(fp(100.0))
        .finalize();
    assert_eq!(missing_strike.err().unwrap().missing_step_name, "with_strike");

    let missing_interest = BSOptionBuilder::new()
        .with_current_time(1606780800)
        .with_maturity_time(1610668800)
        .with_asset_price(fp(100.0))
        .with_strike(fp(105.0))
        .finalize();
    assert_eq!(
        missing_interest.err().unwrap().missing_step_name,
        "with_interest"
    );

    let missing_volatility = BSOptionBuilder::new()
        .with_current_time(1606780800)
        .with_maturity_time(1610668800)
        .with_asset_price(fp(100.0))
        .with_strike(fp(105.0))
        .with_interest(fp(0.005))
        .finalize();
    assert_eq!(
        missing_volatility.err().unwrap().missing_step_name,
        "with_volatility"
    );
}

#[test]
fn builder_create_names_with_time() {
    let missing_time = BSOptionBuilder::new()
        .with_asset_price(fp(100.0))
        .with_strike(fp(105.0))
        .with_interest(fp(0.005))
        .with_volatility(fp(0.23))
        .create();
    assert_eq!(missing_time.err().unwrap().missing_step_name, "with_time");

    let complete = BSOptionBuilder::new()
        .with_asset_price(fp(100.0))
        .with_strike(fp(105.0))
        .with_interest(fp(0.005))
        .with_volatility(fp(0.23))
        .with_time(OptionTimeDefinition {
            time_curr: 1606780800,
            time_maturity: 1610668800,
        })
        .create();
    assert!(complete.is_ok());
}

#[test]
fn builder_with_all_steps_echoes_the_inputs() {
    let option = BSOptionBuilder::new()
        .with_asset_price(fp(100.0))
        .with_strike(fp(105.0))
        .with_interest(fp(0.005))
        .with_volatility(fp(0.23))
        .with_current_time(1606780800)
        .with_maturity_time(1610668800)
        .finalize()
        .unwrap();

    assert_eq!(option.time_curr(), 1606780800);
    assert_eq!(option.time_maturity(), 1610668800);
    assert!(eval(&option.asset_price()) == 100.0);
    assert!(eval(&option.strike()) == 105.0);
    assert!(eval(&option.interest()) == 0.005);
    assert!(eval(&option.volatility()) == 0.23);
    // The payout rate was never set: it defaults to zero.
    assert!(eval(&option.payout_rate()) == 0.0);

    // The built record prices like one made by the direct constructor.
    assert_close(eval(&option.call_value()), 1.402645442104692);

    // The payout rate can be supplied too, in any step order.
    let with_payout = BSOptionBuilder::new()
        .with_payout_rate(fp(0.01))
        .with_asset_price(fp(100.0))
        .with_strike(fp(105.0))
        .with_interest(fp(0.005))
        .with_volatility(fp(0.23))
        .with_current_time(1606780800)
        .with_maturity_time(1610668800)
        .finalize()
        .unwrap();
    assert!(eval(&with_payout.payout_rate()) == 0.01);
}

#[test]
fn reference_scenario_reproduces() {
    // Fixed inputs; results within a relative tolerance of 1e-9.
    let option = create_test_option();
    let cases: [(f64, f64); 4] = [
        (eval(&option.call_value()), 1.4026454421),
        (eval(&option.put_value()), 6.3381005388),
        (eval(&option.call_delta()), 0.2890519432),
        (eval(&option.put_delta()), -0.7109480568),
    ];
    for (actual, expected) in cases {
        assert!(
            ((actual - expected) / expected).abs() <= 1e-9,
            "got {}, expected {}",
            actual,
            expected
        );
    }
}

#[test]
fn degenerate_strike_flows_through_unclamped() {
    // A zero strike is not special-cased: d1 and d2 evaluate to positive
    // infinity, the normal CDF there is one, and the call value collapses
    // to the discounted asset price while the put value collapses to zero.
    let option = BSOption::new(
        1606780800,
        1610668800,
        fp(100.0),
        fp(0.0),
        fp(0.005),
        fp(0.23),
        fp(0.0),
    );
    let call = eval(&option.call_value());
    let put = eval(&option.put_value());
    assert!(call == 100.0);
    assert!(put == 0.0);
}

#[test]
fn option_type_has_both_kinds() {
    let call = OptionType::Call;
    let put = OptionType::Put;
    assert!(matches!(call, OptionType::Call));
    assert!(matches!(put, OptionType::Put));
}

#[test]
fn option_at_maturity_prices_intrinsic_value() {
    // Equal timestamps give a zero time to maturity; the degenerate
    // quotients flow through (d1 and d2 evaluate to negative infinity for
    // this record) and the put collapses to its intrinsic value.
    let option = BSOption::new(
        1606780800,
        1606780800,
        fp(100.0),
        fp(105.0),
        fp(0.005),
        fp(0.23),
        fp(0.0),
    );
    assert!(eval(&option.time_to_maturity()) == 0.0);
    assert!(eval(&option.call_value()) == 0.0);
    assert!(eval(&option.put_value()) == 5.0);
}
