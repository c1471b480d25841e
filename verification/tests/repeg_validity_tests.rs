use repeg_engine::error::ErrorCode;
use repeg_engine::market::{Amm, Market};
use repeg_engine::repeg::calculate_repeg_validity;

// Curve chosen so that the mark price is 100_600 and the terminal price
// (after unwinding the 1_609 net long) is 99_000 exactly.
fn example_market() -> Market {
    Market {
        base_asset_amount: 1_609,
        amm: Amm {
            base_asset_reserve: 200_000,
            quote_asset_reserve: 20_120_000_000,
            peg_multiplier: 1,
            total_fee: 0,
            total_fee_minus_distributions: 0,
        },
    }
}

#[test]
fn oracle_above_terminal_price_impact_violation() {
    // oracle 100_000 above terminal 99_000; terminal rose from 98_500 so the
    // direction is valid; band bottom 99_500 >= 99_000 so profitability is
    // valid; mark 100_600 above band top 100_500 so price impact is not.
    let mut market = example_market();
    let out = calculate_repeg_validity(&mut market, 100_000, 500, true, 98_500).unwrap();
    assert_eq!(out, (true, true, true, false, 10));
    assert_eq!(market, example_market());
}

#[test]
fn oracle_above_terminal_profitability_violation() {
    // a wide band reaches below the terminal price: band bottom 98_000 is
    // under 99_000, so profitability fails; mark 100_600 stays under band
    // top 102_000, so price impact is valid.
    let mut market = example_market();
    let out = calculate_repeg_validity(&mut market, 100_000, 2_000, true, 98_500).unwrap();
    assert_eq!(out, (true, true, false, true, 10));
}

#[test]
fn oracle_below_terminal_direction_violation() {
    // oracle 98_000 below terminal 99_000, but the terminal price rose from
    // 98_500: moving away from the oracle, so the direction is invalid.
    let mut market = example_market();
    let out = calculate_repeg_validity(&mut market, 98_000, 500, true, 98_500).unwrap();
    assert_eq!(out, (true, false, true, true, -10));
}

#[test]
fn invalid_oracle_forces_all_flags_false() {
    // an unhealthy oracle blocks everything; the divergence is still reported
    let mut market = example_market();
    let out = calculate_repeg_validity(&mut market, 100_000, 500, false, 98_500).unwrap();
    assert_eq!(out, (false, false, false, false, 10));
}

#[test]
fn invalid_oracle_ignores_price_values() {
    // with an unhealthy oracle even a confidence wider than the price, which
    // would otherwise underflow the band, is never reached
    let mut market = example_market();
    let out = calculate_repeg_validity(&mut market, 100_000, 200_000, false, 98_500).unwrap();
    assert_eq!(out, (false, false, false, false, 10));
}

#[test]
fn evaluation_is_idempotent() {
    // the market is never changed, so evaluating twice gives the same output
    let mut market = example_market();
    let first = calculate_repeg_validity(&mut market, 100_000, 500, true, 98_500).unwrap();
    let second = calculate_repeg_validity(&mut market, 100_000, 500, true, 98_500).unwrap();
    assert_eq!(first, second);
    assert_eq!(market, example_market());
}

#[test]
fn equal_oracle_and_terminal_keeps_all_flags() {
    // oracle exactly at the terminal price: no check fires, divergence is zero
    let mut market = example_market();
    let out = calculate_repeg_validity(&mut market, 99_000, 500, true, 98_500).unwrap();
    assert_eq!(out, (true, true, true, true, 0));
}

#[test]
fn divergence_truncates_toward_zero() {
    // spread -1000 on oracle 98_000: -(1_024_000 / 98_000) is -10.44...,
    // truncated toward zero to -10
    let mut market = example_market();
    let out = calculate_repeg_validity(&mut market, 98_000, 500, false, 98_500).unwrap();
    assert_eq!(out.4, -10);
}

#[test]
fn negative_oracle_price_is_a_casting_error() {
    let mut market = example_market();
    let r = calculate_repeg_validity(&mut market, -1, 500, true, 98_500);
    assert_eq!(r, Err(ErrorCode::CastingError));
}

#[test]
fn zero_oracle_price_is_an_arithmetic_error() {
    let mut market = example_market();
    let r = calculate_repeg_validity(&mut market, 0, 500, true, 98_500);
    assert_eq!(r, Err(ErrorCode::ArithmeticError));
}

#[test]
fn confidence_wider_than_price_is_an_arithmetic_error() {
    // with a healthy oracle the band bottom underflows
    let mut market = example_market();
    let r = calculate_repeg_validity(&mut market, 100_000, 200_000, true, 98_500);
    assert_eq!(r, Err(ErrorCode::ArithmeticError));
}

#[test]
fn empty_curve_is_an_arithmetic_error() {
    // a zero base reserve with no open interest leaves nothing to price
    let mut market = Market {
        base_asset_amount: 0,
        amm: Amm {
            base_asset_reserve: 0,
            quote_asset_reserve: 0,
            peg_multiplier: 1,
            total_fee: 0,
            total_fee_minus_distributions: 0,
        },
    };
    let r = calculate_repeg_validity(&mut market, 100_000, 500, true, 98_500);
    assert_eq!(r, Err(ErrorCode::ArithmeticError));
}

#[test]
fn terminal_price_beyond_i128_is_a_casting_error() {
    // one unit of base reserve against a quote reserve of 2^127: the
    // terminal price is 2^127, which does not fit a signed 128-bit value
    let mut market = Market {
        base_asset_amount: 0,
        amm: Amm {
            base_asset_reserve: 1,
            quote_asset_reserve: 1u128 << 127,
            peg_multiplier: 1,
            total_fee: 0,
            total_fee_minus_distributions: 0,
        },
    };
    let r = calculate_repeg_validity(&mut market, 100_000, 500, true, 98_500);
    assert_eq!(r, Err(ErrorCode::CastingError));
}
