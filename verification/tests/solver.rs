use std::cell::Cell;
use std::f64::consts::PI;

use black_scholes::binary64::Binary64;
use black_scholes::kind::OptionKind;
use black_scholes::solver::{
    calculate_implied_volatility, Evaluation, Outcome, Reason, SolverState,
    INITIAL_VOLATILITY_BITS, MAX_ITERATIONS, TOLERANCE_BITS,
};

fn wrap(x: f64) -> Binary64 {
    Binary64::from_bits(x.to_bits())
}

fn unwrap(x: Binary64) -> f64 {
    f64::from_bits(x.to_bits())
}

fn evaluation(price_error: f64, vega: f64, newton_estimate: f64) -> Evaluation {
    Evaluation {
        price_error: wrap(price_error),
        vega: wrap(vega),
        newton_estimate: wrap(newton_estimate),
    }
}

fn iterating(volatility: f64, iteration: u32) -> SolverState {
    SolverState::Iterating { volatility: wrap(volatility), iteration }
}

// The closed-form pricing formulas, to have something real to search on.

fn erf(x: f64) -> f64 {
    let a1 = 0.254829592;
    let a2 = -0.284496736;
    let a3 = 1.421413741;
    let a4 = -1.453152027;
    let a5 = 1.061405429;
    let p = 0.3275911;
    let sign = if x < 0.0 { -1.0 } else { 1.0 };
    let x = x.abs();
    let t = 1.0 / (1.0 + p * x);
    let y = 1.0 - (((((a5 * t + a4) * t) + a3) * t + a2) * t + a1) * t * (-x * x).exp();
    sign * y
}

fn normal_cdf(x: f64) -> f64 {
    0.5 * (1.0 + erf(x / 2.0f64.sqrt()))
}

fn normal_pdf(x: f64) -> f64 {
    (-0.5 * x * x).exp() / (2.0 * PI).sqrt()
}

fn d1(spot: f64, strike: f64, time: f64, volatility: f64, rate: f64) -> f64 {
    ((spot / strike).ln() + (rate + 0.5 * volatility * volatility) * time)
        / (volatility * time.sqrt())
}

fn price(spot: f64, strike: f64, time: f64, volatility: f64, rate: f64, kind: OptionKind) -> f64 {
    let d1 = d1(spot, strike, time, volatility, rate);
    let d2 = d1 - volatility * time.sqrt();
    match kind {
        OptionKind::Call => spot * normal_cdf(d1) - strike * (-rate * time).exp() * normal_cdf(d2),
        OptionKind::Put => strike * (-rate * time).exp() * normal_cdf(-d2) - spot * normal_cdf(-d1),
    }
}

fn implied_volatility(
    market_price: f64,
    spot: f64,
    strike: f64,
    time: f64,
    rate: f64,
    kind: OptionKind,
) -> Outcome {
    calculate_implied_volatility(|requested: Binary64| {
        let volatility = unwrap(requested);
        let diff = price(spot, strike, time, volatility, rate, kind) - market_price;
        let vega = spot * time.sqrt() * normal_pdf(d1(spot, strike, time, volatility, rate));
        evaluation(diff, vega, volatility - diff / vega)
    })
}

#[test]
fn constants_denote_the_documented_values() {
    assert_eq!(f64::from_bits(INITIAL_VOLATILITY_BITS), 0.5);
    assert_eq!(f64::from_bits(TOLERANCE_BITS), 1e-5);
    assert_eq!(MAX_ITERATIONS, 100);
}

#[test]
fn start_asks_for_one_half() {
    let state = SolverState::start();
    assert_eq!(state, iterating(0.5, 0));
    assert_eq!(state.pending(), Some(wrap(0.5)));
    assert_eq!(state.outcome(), None);
}

#[test]
fn step_converges_below_the_tolerance() {
    let state = iterating(0.2, 3).step(evaluation(9.9e-6, 37.5, 0.19));
    assert_eq!(state, SolverState::Finished(Outcome::Converged(wrap(0.2))));
    assert_eq!(state.outcome(), Some(Outcome::Converged(wrap(0.2))));
    assert_eq!(state.pending(), None);
}

#[test]
fn step_converges_on_a_negative_error_too() {
    let state = iterating(0.2, 3).step(evaluation(-9.9e-6, 37.5, 0.21));
    assert_eq!(state, SolverState::Finished(Outcome::Converged(wrap(0.2))));
}

#[test]
fn step_converges_on_a_zero_error() {
    for zero in [0.0, -0.0] {
        let state = iterating(0.2, 0).step(evaluation(zero, 37.5, 0.2));
        assert_eq!(state, SolverState::Finished(Outcome::Converged(wrap(0.2))));
    }
}

#[test]
fn step_tolerance_is_exclusive() {
    for diff in [1e-5, -1e-5] {
        let state = iterating(0.2, 3).step(evaluation(diff, 37.5, 0.19));
        assert_eq!(state, iterating(0.19, 4));
    }
    let just_below = f64::from_bits(TOLERANCE_BITS - 1);
    let state = iterating(0.2, 3).step(evaluation(just_below, 37.5, 0.19));
    assert_eq!(state, SolverState::Finished(Outcome::Converged(wrap(0.2))));
}

#[test]
fn step_takes_the_newton_estimate() {
    let state = iterating(0.5, 0).step(evaluation(12.0, 37.5, 0.18));
    assert_eq!(state, iterating(0.18, 1));
    assert_eq!(state.pending(), Some(wrap(0.18)));
    assert_eq!(state.outcome(), None);
}

#[test]
fn step_stops_on_zero_vega() {
    for zero in [0.0, -0.0] {
        let state = iterating(0.5, 7).step(evaluation(-1.0, zero, f64::INFINITY));
        assert_eq!(
            state,
            SolverState::Finished(Outcome::DidNotConverge(wrap(0.5), Reason::VegaZero))
        );
    }
}

#[test]
fn step_looks_at_convergence_before_vega() {
    let state = iterating(0.5, 7).step(evaluation(1e-9, 0.0, f64::NAN));
    assert_eq!(state, SolverState::Finished(Outcome::Converged(wrap(0.5))));
}

#[test]
fn step_goes_on_with_a_tiny_vega() {
    let state = iterating(0.5, 7).step(evaluation(-1.0, 5e-324, 1e300));
    assert_eq!(state, iterating(1e300, 8));
}

#[test]
fn step_gives_up_at_the_limit() {
    let state = iterating(0.3, 98).step(evaluation(1.0, 2.0, 0.25));
    assert_eq!(state, iterating(0.25, 99));
    let state = state.step(evaluation(1.0, 2.0, 0.21));
    assert_eq!(
        state,
        SolverState::Finished(Outcome::DidNotConverge(wrap(0.21), Reason::MaxIterationsReached))
    );
}

#[test]
fn step_never_counts_past_the_limit() {
    for iteration in [99, 100, 101, u32::MAX] {
        let state = iterating(0.3, iteration).step(evaluation(1.0, 2.0, 0.25));
        assert_eq!(
            state,
            SolverState::Finished(Outcome::DidNotConverge(wrap(0.25), Reason::MaxIterationsReached))
        );
    }
}

#[test]
fn step_lets_nan_through() {
    let state = iterating(0.5, 0).step(evaluation(f64::NAN, f64::NAN, f64::NAN));
    match state {
        SolverState::Iterating { volatility, iteration } => {
            assert!(unwrap(volatility).is_nan());
            assert_eq!(iteration, 1);
        }
        SolverState::Finished(outcome) => panic!("finished with {outcome:?}"),
    }
}

#[test]
fn step_does_not_converge_on_an_infinite_error() {
    let state = iterating(0.5, 0).step(evaluation(f64::INFINITY, 1.0, 0.4));
    assert_eq!(state, iterating(0.4, 1));
}

#[test]
fn step_leaves_a_finished_search_alone() {
    let endings = [
        Outcome::Converged(wrap(0.2)),
        Outcome::DidNotConverge(wrap(0.5), Reason::VegaZero),
        Outcome::DidNotConverge(wrap(-3.0), Reason::MaxIterationsReached),
    ];
    for outcome in endings {
        let state = SolverState::Finished(outcome);
        assert_eq!(state.step(evaluation(0.0, 1.0, 0.7)), state);
        assert_eq!(state.step(evaluation(5.0, 0.0, 0.7)), state);
        assert_eq!(state.step(evaluation(5.0, 1.0, 0.7)), state);
        assert_eq!(state.outcome(), Some(outcome));
        assert_eq!(state.pending(), None);
    }
}

#[test]
fn outcome_hands_out_its_volatility() {
    assert_eq!(Outcome::Converged(wrap(0.2)).volatility(), wrap(0.2));
    assert_eq!(Outcome::DidNotConverge(wrap(0.5), Reason::VegaZero).volatility(), wrap(0.5));
    assert_eq!(
        Outcome::DidNotConverge(wrap(-24.5), Reason::MaxIterationsReached).volatility(),
        wrap(-24.5)
    );
}

#[test]
fn formulas_price_the_at_the_money_call() {
    let call = price(100.0, 100.0, 1.0, 0.2, 0.05, OptionKind::Call);
    assert!((call - 10.4506).abs() < 1e-4, "{call}");
}

#[test]
fn formulas_price_the_at_the_money_put() {
    let put = price(100.0, 100.0, 1.0, 0.2, 0.05, OptionKind::Put);
    assert!((put - 5.5735).abs() < 1e-4, "{put}");
}

#[test]
fn search_recovers_the_at_the_money_call_volatility() {
    match implied_volatility(10.4506, 100.0, 100.0, 1.0, 0.05, OptionKind::Call) {
        Outcome::Converged(volatility) => {
            assert!((unwrap(volatility) - 0.2).abs() < 1e-4, "{}", unwrap(volatility));
        }
        other => panic!("{other:?}"),
    }
}

#[test]
fn search_recovers_the_at_the_money_put_volatility() {
    match implied_volatility(5.5735, 100.0, 100.0, 1.0, 0.05, OptionKind::Put) {
        Outcome::Converged(volatility) => {
            assert!((unwrap(volatility) - 0.2).abs() < 1e-4, "{}", unwrap(volatility));
        }
        other => panic!("{other:?}"),
    }
}

#[test]
fn search_inverts_the_price() {
    let cases = [
        (100.0, 100.0, 1.0, 0.05),
        (100.0, 110.0, 0.5, 0.01),
        (100.0, 90.0, 2.0, 0.03),
        (42.0, 40.0, 0.75, 0.0),
        (250.0, 260.0, 1.5, -0.005),
    ];
    for (spot, strike, time, rate) in cases {
        for kind in [OptionKind::Call, OptionKind::Put] {
            for volatility in [0.05, 0.1, 0.2, 0.35, 0.5, 0.8, 1.1, 1.5] {
                let market = price(spot, strike, time, volatility, rate, kind);
                match implied_volatility(market, spot, strike, time, rate, kind) {
                    Outcome::Converged(found) => assert!(
                        (unwrap(found) - volatility).abs() < 1e-4,
                        "{spot} {strike} {time} {rate} {kind:?} {volatility}: {}",
                        unwrap(found)
                    ),
                    other => panic!("{spot} {strike} {time} {rate} {kind:?} {volatility}: {other:?}"),
                }
            }
        }
    }
}

#[test]
fn search_converged_means_the_price_is_met() {
    let (spot, strike, time, rate) = (100.0, 105.0, 0.5, 0.02);
    let market = 7.25;
    match implied_volatility(market, spot, strike, time, rate, OptionKind::Call) {
        Outcome::Converged(found) => {
            let again = price(spot, strike, time, unwrap(found), rate, OptionKind::Call);
            assert!((again - market).abs() < 1e-5, "{again}");
        }
        other => panic!("{other:?}"),
    }
}

#[test]
fn search_returns_the_seed_when_it_already_fits() {
    let market = price(100.0, 100.0, 1.0, 0.5, 0.05, OptionKind::Call);
    assert_eq!(
        implied_volatility(market, 100.0, 100.0, 1.0, 0.05, OptionKind::Call),
        Outcome::Converged(wrap(0.5))
    );
}

#[test]
fn search_stops_where_vega_vanishes() {
    let outcome = implied_volatility(1.0, 100.0, 1.0e9, 0.001, 0.05, OptionKind::Call);
    assert_eq!(outcome, Outcome::DidNotConverge(wrap(0.5), Reason::VegaZero));
}

#[test]
fn search_asks_exactly_the_limit_before_giving_up() {
    let calls = Cell::new(0u32);
    let outcome = calculate_implied_volatility(|requested: Binary64| {
        calls.set(calls.get() + 1);
        let volatility = unwrap(requested);
        evaluation(1.0, 4.0, volatility - 1.0 / 4.0)
    });
    assert_eq!(calls.get(), 100);
    assert_eq!(outcome, Outcome::DidNotConverge(wrap(0.5 - 25.0), Reason::MaxIterationsReached));
}

#[test]
fn search_asks_for_each_estimate_in_turn() {
    let asked = std::cell::RefCell::new(Vec::new());
    let outcome = calculate_implied_volatility(|requested: Binary64| {
        let volatility = unwrap(requested);
        asked.borrow_mut().push(volatility);
        let diff = if volatility < 0.26 { 1e-6 } else { 1.0 };
        evaluation(diff, 8.0, volatility - 1.0 / 8.0)
    });
    assert_eq!(*asked.borrow(), vec![0.5, 0.375, 0.25]);
    assert_eq!(outcome, Outcome::Converged(wrap(0.25)));
}

#[test]
fn search_stops_at_the_first_call_that_converges() {
    let calls = Cell::new(0u32);
    let outcome = calculate_implied_volatility(|_requested: Binary64| {
        calls.set(calls.get() + 1);
        evaluation(0.0, 0.0, f64::NAN)
    });
    assert_eq!(calls.get(), 1);
    assert_eq!(outcome, Outcome::Converged(wrap(0.5)));
}

#[test]
fn search_carries_nan_to_the_end() {
    let outcome = implied_volatility(10.0, 100.0, 100.0, -1.0, 0.05, OptionKind::Call);
    match outcome {
        Outcome::DidNotConverge(estimate, Reason::MaxIterationsReached) => {
            assert!(unwrap(estimate).is_nan());
        }
        other => panic!("{other:?}"),
    }
}

#[test]
fn search_agrees_with_stepping_by_hand() {
    let (market, spot, strike, time, rate) = (12.0, 100.0, 95.0, 0.8, 0.04);
    let evaluate = |requested: Binary64| {
        let volatility = unwrap(requested);
        let diff = price(spot, strike, time, volatility, rate, OptionKind::Put) - market;
        let vega = spot * time.sqrt() * normal_pdf(d1(spot, strike, time, volatility, rate));
        evaluation(diff, vega, volatility - diff / vega)
    };
    let mut state = SolverState::start();
    let mut steps = 0;
    while let Some(requested) = state.pending() {
        state = state.step(evaluate(requested));
        steps += 1;
        assert!(steps <= 100);
    }
    assert_eq!(state.outcome(), Some(calculate_implied_volatility(evaluate)));
}
