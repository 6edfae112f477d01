use black_scholes::distribution::{run_distribution, DistributionData};
use black_scholes::error::{check_sampling, EngineError};
use black_scholes::inputs::{MarketInputs, SweepParameter};
use black_scholes::sweep::{run_sweep, Greeks, OptionPrices, ParameterSweepResult};
use statrs::distribution::{Continuous, ContinuousCDF, Normal};

fn base() -> MarketInputs<f64> {
    MarketInputs { spot: 100.0, strike: 100.0, rate: 0.05, volatility: 0.2, time_to_maturity: 1.0 }
}

fn evaluate(m: MarketInputs<f64>) -> (OptionPrices<f64>, Greeks<f64>) {
    let n = Normal::new(0.0, 1.0).unwrap();
    let sqrt_t = m.time_to_maturity.sqrt();
    let d1 = ((m.spot / m.strike).ln() + (m.rate + 0.5 * m.volatility * m.volatility) * m.time_to_maturity)
        / (m.volatility * sqrt_t);
    let d2 = d1 - m.volatility * sqrt_t;
    let disc = (-m.rate * m.time_to_maturity).exp();
    let prices = OptionPrices {
        call_price: m.spot * n.cdf(d1) - m.strike * disc * n.cdf(d2),
        put_price: m.strike * disc * n.cdf(-d2) - m.spot * n.cdf(-d1),
    };
    let greeks = Greeks {
        delta_call: n.cdf(d1),
        delta_put: -n.cdf(-d1),
        gamma: n.pdf(d1) / (m.spot * m.volatility * sqrt_t),
        theta_call: 0.0,
        theta_put: 0.0,
        vega: m.spot * n.pdf(d1) * sqrt_t / 100.0,
        rho_call: m.strike * m.time_to_maturity * disc * n.cdf(d2) / 100.0,
        rho_put: -m.strike * m.time_to_maturity * disc * n.cdf(-d2) / 100.0,
    };
    (prices, greeks)
}

fn aligned(r: &ParameterSweepResult<f64>, n: usize) -> bool {
    r.x_values.len() == n
        && r.call_prices.len() == n
        && r.put_prices.len() == n
        && r.delta_calls.len() == n
        && r.delta_puts.len() == n
        && r.gammas.len() == n
        && r.theta_calls.len() == n
        && r.theta_puts.len() == n
        && r.vegas.len() == n
        && r.rho_calls.len() == n
        && r.rho_puts.len() == n
}

#[test]
fn selector_names_round_trip() {
    let all = [
        SweepParameter::Spot,
        SweepParameter::Strike,
        SweepParameter::Volatility,
        SweepParameter::Rate,
        SweepParameter::Maturity,
    ];
    for p in all {
        assert_eq!(SweepParameter::from_name(p.name()).ok(), Some(p));
    }
    assert_eq!(SweepParameter::from_name("maturity").ok(), Some(SweepParameter::Maturity));
    assert_eq!(SweepParameter::Volatility.name(), "volatility");
}

#[test]
fn unknown_selector_is_rejected_with_its_name() {
    match SweepParameter::from_name("dividend") {
        Err(EngineError::InvalidParameter(s)) => assert_eq!(s, "dividend"),
        _ => panic!("expected an invalid parameter error"),
    }
    assert!(SweepParameter::from_name("").is_err());
    assert!(SweepParameter::from_name("Spot").is_err());
    assert!(SweepParameter::from_name("spots").is_err());
}

#[test]
fn percent_units_for_rate_and_volatility_only() {
    assert!(SweepParameter::Rate.is_percent());
    assert!(SweepParameter::Volatility.is_percent());
    assert!(!SweepParameter::Spot.is_percent());
    assert!(!SweepParameter::Strike.is_percent());
    assert!(!SweepParameter::Maturity.is_percent());
}

#[test]
fn with_value_replaces_only_the_selected_input() {
    let b = base();
    let m = b.with_value(SweepParameter::Rate, 0.07);
    assert_eq!(m.rate, 0.07);
    assert_eq!(m.spot, 100.0);
    assert_eq!(m.strike, 100.0);
    assert_eq!(m.volatility, 0.2);
    assert_eq!(m.time_to_maturity, 1.0);
    let t = b.with_value(SweepParameter::Maturity, 2.5);
    assert_eq!(t.get(SweepParameter::Maturity), 2.5);
    assert_eq!(t.get(SweepParameter::Spot), 100.0);
    assert_eq!(b.get(SweepParameter::Volatility), 0.2);
}

#[test]
fn sampling_needs_two_points() {
    assert!(check_sampling(2).is_ok());
    assert!(check_sampling(500).is_ok());
    assert!(matches!(check_sampling(1), Err(EngineError::DegenerateSampling(1))));
    assert!(matches!(check_sampling(0), Err(EngineError::DegenerateSampling(0))));
}

#[test]
fn domain_check_names_first_bad_input() {
    let b = base();
    assert!(b.check_domain(|x: f64| x > 0.0).is_ok());
    let negative_rate = b.with_value(SweepParameter::Rate, -0.01);
    assert!(negative_rate.check_domain(|x: f64| x > 0.0).is_ok());
    let bad = b.with_value(SweepParameter::Volatility, 0.0).with_value(SweepParameter::Maturity, -1.0);
    assert!(matches!(
        bad.check_domain(|x: f64| x > 0.0),
        Err(EngineError::InvalidDomain(SweepParameter::Volatility))
    ));
    let bad_spot = b.with_value(SweepParameter::Spot, 0.0);
    assert!(matches!(
        bad_spot.check_domain(|x: f64| x > 0.0),
        Err(EngineError::InvalidDomain(SweepParameter::Spot))
    ));
}

#[test]
fn spot_sweep_scenario() {
    let samples = vec![80.0, 90.0, 100.0, 110.0, 120.0];
    let r = run_sweep(&base(), SweepParameter::Spot, &samples, evaluate, |x: f64| x * 100.0).unwrap();
    assert!(aligned(&r, 5));
    assert_eq!(r.x_values, vec![80.0, 90.0, 100.0, 110.0, 120.0]);
    assert!((r.call_prices[2] - 10.4506).abs() < 1e-3);
    assert!((r.put_prices[2] - 5.5735).abs() < 1e-3);
    for i in 1..5 {
        assert!(r.call_prices[i] >= r.call_prices[i - 1]);
    }
}

#[test]
fn sweep_endpoints_match_direct_evaluation() {
    let samples = vec![0.001, 0.0325, 0.064];
    let r = run_sweep(&base(), SweepParameter::Volatility, &samples, evaluate, |x: f64| x * 100.0).unwrap();
    assert!(aligned(&r, 3));
    let (p0, g0) = evaluate(base().with_value(SweepParameter::Volatility, 0.001));
    let (p2, g2) = evaluate(base().with_value(SweepParameter::Volatility, 0.064));
    assert_eq!(r.call_prices[0], p0.call_price);
    assert_eq!(r.delta_calls[0], g0.delta_call);
    assert_eq!(r.put_prices[2], p2.put_price);
    assert_eq!(r.vegas[2], g2.vega);
    assert!((r.x_values[0] - 0.1).abs() < 1e-12);
    assert!((r.x_values[2] - 6.4).abs() < 1e-12);
}

#[test]
fn sweep_rejects_fewer_than_two_samples() {
    let one = vec![100.0];
    let r = run_sweep(&base(), SweepParameter::Strike, &one, evaluate, |x: f64| x * 100.0);
    assert!(matches!(r, Err(EngineError::DegenerateSampling(1))));
    let none: Vec<f64> = Vec::new();
    let r = run_sweep(&base(), SweepParameter::Strike, &none, evaluate, |x: f64| x * 100.0);
    assert!(matches!(r, Err(EngineError::DegenerateSampling(0))));
}

#[test]
fn distribution_scenario() {
    let m = base();
    let prices = vec![10.0, 77.5, 145.0, 212.5, 280.0];
    let diffusion = m.volatility * m.time_to_maturity.sqrt();
    let drift = (m.rate - 0.5 * m.volatility * m.volatility) * m.time_to_maturity;
    let density = |s: f64| {
        let z = s.ln() - m.spot.ln() - drift;
        (-(z * z) / (2.0 * diffusion * diffusion)).exp() / (s * diffusion * (2.0 * std::f64::consts::PI).sqrt())
    };
    let expected = m.spot * (m.rate * m.time_to_maturity).exp();
    let d: DistributionData<f64> =
        run_distribution(m.strike, expected, &prices, density, |a: f64, b: f64| (a - b).max(0.0)).unwrap();
    assert_eq!(d.stock_prices, prices);
    assert!((d.expected_stock_price - 105.127).abs() < 1e-3);
    assert_eq!(d.strike_price, 100.0);
    assert_eq!(d.call_payoffs, vec![0.0, 0.0, 45.0, 112.5, 180.0]);
    assert_eq!(d.put_payoffs, vec![90.0, 22.5, 0.0, 0.0, 0.0]);
    assert_eq!(d.probabilities.len(), 5);
    assert!(d.probabilities.iter().all(|p| *p >= 0.0));
    assert!(d.probabilities[1] > d.probabilities[3]);
}

#[test]
fn distribution_rejects_single_point() {
    let r = run_distribution(100.0, 105.0, &vec![50.0], |s: f64| s, |a: f64, b: f64| a - b);
    assert!(matches!(r, Err(EngineError::DegenerateSampling(1))));
}
