use repeg_engine::amm::{calculate_price, calculate_terminal_price, calculate_unwound_reserves};
use repeg_engine::casting::{cast_to_i128, cast_to_u128};
use repeg_engine::error::ErrorCode;
use repeg_engine::market::{Amm, Market};

fn curve(base: u128, quote: u128, peg: u128) -> Amm {
    Amm {
        base_asset_reserve: base,
        quote_asset_reserve: quote,
        peg_multiplier: peg,
        total_fee: 0,
        total_fee_minus_distributions: 0,
    }
}

#[test]
fn price_is_scaled_reserve_ratio() {
    assert_eq!(calculate_price(1_000, 1_000, 50), Ok(50));
    // truncating: 909 * 50 / 1_100 = 45_450 / 1_100 = 41.31...
    assert_eq!(calculate_price(909, 1_100, 50), Ok(41));
}

#[test]
fn price_with_zero_base_reserve_fails() {
    assert_eq!(calculate_price(1_000, 0, 50), Err(ErrorCode::ArithmeticError));
}

#[test]
fn price_overflow_fails() {
    assert_eq!(calculate_price(u128::MAX, 1, 2), Err(ErrorCode::ArithmeticError));
}

#[test]
fn unwinding_a_long_lowers_the_quote_reserve() {
    let amm = curve(1_000, 1_000, 50);
    assert_eq!(calculate_unwound_reserves(100, &amm), Ok((909, 1_100)));
}

#[test]
fn unwinding_a_short_raises_the_quote_reserve() {
    let amm = curve(1_000, 1_000, 50);
    assert_eq!(calculate_unwound_reserves(-100, &amm), Ok((1_111, 900)));
}

#[test]
fn unwinding_past_the_reserve_fails() {
    let amm = curve(1_000, 1_000, 50);
    assert_eq!(calculate_unwound_reserves(-1_000, &amm), Err(ErrorCode::ArithmeticError));
    assert_eq!(calculate_unwound_reserves(-1_001, &amm), Err(ErrorCode::ArithmeticError));
}

#[test]
fn terminal_price_unwinds_the_open_interest() {
    let mut market = Market { base_asset_amount: 100, amm: curve(1_000, 1_000, 50) };
    // 909 * 50 / 1_100, truncated
    assert_eq!(calculate_terminal_price(&mut market), Ok(41));
    assert_eq!(market.amm, curve(1_000, 1_000, 50));
}

#[test]
fn terminal_price_of_a_flat_market_is_the_mark_price() {
    let mut market = Market { base_asset_amount: 0, amm: curve(1_000, 1_000, 50) };
    assert_eq!(calculate_terminal_price(&mut market), Ok(50));
}

#[test]
fn casts_reject_out_of_range_values() {
    assert_eq!(cast_to_u128(-1), Err(ErrorCode::CastingError));
    assert_eq!(cast_to_u128(0), Ok(0));
    assert_eq!(cast_to_u128(i128::MAX), Ok(i128::MAX as u128));
    assert_eq!(cast_to_i128(u128::MAX), Err(ErrorCode::CastingError));
    assert_eq!(cast_to_i128(1u128 << 127), Err(ErrorCode::CastingError));
    assert_eq!(cast_to_i128((1u128 << 127) - 1), Ok(i128::MAX));
}
