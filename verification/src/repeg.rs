use vstd::prelude::*;

use vstd::arithmetic::div_mod::{lemma_div_nonincreasing, lemma_div_of0, lemma_div_pos_is_pos};
use vstd::arithmetic::mul::lemma_mul_nonnegative;

use crate::amm::{
    calculate_price, calculate_terminal_price, price_of, price_ok, terminal_price_of,
    terminal_price_ok, unwound_base_reserve, unwound_quote_reserve,
};
use crate::casting::{cast_to_i128, cast_to_u128};
use crate::error::{ClearingHouseResult, ErrorCode};
use crate::market::Market;
use crate::position::{
    base_asset_value, calculate_base_asset_value_and_pnl, value_and_pnl_err, value_and_pnl_ok,
};

verus! {

/// Numerator of the protocol-retained share of lifetime fees.
pub const SHARE_OF_FEES_ALLOCATED_TO_CLEARING_HOUSE_NUMERATOR: u128 = 1;

/// Denominator of the protocol-retained share of lifetime fees.
pub const SHARE_OF_FEES_ALLOCATED_TO_CLEARING_HOUSE_DENOMINATOR: u128 = 2;

/// Scale of the divergence fraction: 10 fractional bits.
pub const DIVERGENCE_PRECISION: i128 = 1024;

/// Floor of lifetime fees that must remain undistributed: the retained
/// share of `total_fee`, with truncating division.
pub open spec fn fee_lower_bound_of(market: Market) -> int {
    (market.amm.total_fee * SHARE_OF_FEES_ALLOCATED_TO_CLEARING_HOUSE_NUMERATOR)
        / (SHARE_OF_FEES_ALLOCATED_TO_CLEARING_HOUSE_DENOMINATOR as int)
}

/// Whether the fee lower bound can be computed without overflow.
pub open spec fn fee_lower_bound_ok(market: Market) -> bool {
    market.amm.total_fee * SHARE_OF_FEES_ALLOCATED_TO_CLEARING_HOUSE_NUMERATOR <= u128::MAX
}

/// Whether the spare fee pool exists: the lower bound must not exceed the
/// undistributed fees.
pub open spec fn fee_pool_ok(market: Market) -> bool {
    fee_lower_bound_ok(market) && fee_lower_bound_of(market)
        <= market.amm.total_fee_minus_distributions
}

/// Spare fee revenue available beyond the retained floor.
pub open spec fn fee_pool_of(market: Market) -> int {
    market.amm.total_fee_minus_distributions - fee_lower_bound_of(market)
}

/// Budget for a single re-peg decision: half of the spare fee pool.
pub open spec fn repeg_budget_of(market: Market) -> int {
    fee_pool_of(market) / 2
}

/// Signed divergence of the oracle price from a terminal price, as a
/// fixed-point fraction of the oracle price with 10 fractional bits,
/// truncated toward zero. Meaningful for a positive oracle price.
pub open spec fn divergence_of(oracle_price: int, terminal_price: int) -> int {
    let spread = oracle_price - terminal_price;
    if spread >= 0 {
        (spread * DIVERGENCE_PRECISION) / oracle_price
    } else {
        -(((-spread) * DIVERGENCE_PRECISION) / oracle_price)
    }
}

/// Whether the scaled spread stays within the signed 128-bit width.
pub open spec fn divergence_scale_ok(oracle_price: int, terminal_price: int) -> bool {
    i128::MIN <= (oracle_price - terminal_price) * DIVERGENCE_PRECISION <= i128::MAX
}

/// Direction check: a re-peg may only move the terminal price toward the
/// oracle, so the terminal price must not have moved away from it.
pub open spec fn direction_valid_of(
    oracle_price: int,
    terminal_price_after: int,
    terminal_price_before: int,
) -> bool {
    if oracle_price > terminal_price_after {
        terminal_price_after >= terminal_price_before
    } else if oracle_price < terminal_price_after {
        terminal_price_after <= terminal_price_before
    } else {
        true
    }
}

/// Profitability check: the terminal price must not have overshot past the
/// near edge of the oracle confidence band.
pub open spec fn profitability_valid_of(
    oracle_price: int,
    oracle_conf: int,
    terminal_price_after: int,
) -> bool {
    if oracle_price > terminal_price_after {
        oracle_price - oracle_conf >= terminal_price_after
    } else if oracle_price < terminal_price_after {
        oracle_price + oracle_conf <= terminal_price_after
    } else {
        true
    }
}

/// Price-impact check: the mark price must not be pushed beyond the far
/// edge of the oracle confidence band.
pub open spec fn price_impact_valid_of(
    oracle_price: int,
    oracle_conf: int,
    terminal_price_after: int,
    mark_price_after: int,
) -> bool {
    if oracle_price > terminal_price_after {
        mark_price_after <= oracle_price + oracle_conf
    } else if oracle_price < terminal_price_after {
        mark_price_after >= oracle_price - oracle_conf
    } else {
        true
    }
}

/// Mark price of the market's curve, as an integer.
pub open spec fn mark_price_of(market: Market) -> int {
    price_of(
        market.amm.quote_asset_reserve as int,
        market.amm.base_asset_reserve as int,
        market.amm.peg_multiplier as int,
    )
}

/// Whether the validity evaluation succeeds for the given inputs. The
/// confidence-band and mark-price conditions apply only when the oracle is
/// healthy: an unhealthy oracle skips them.
pub open spec fn repeg_validity_inputs_ok(
    market: Market,
    oracle_price: int,
    oracle_conf: int,
    oracle_is_valid: bool,
) -> bool {
    &&& oracle_price > 0
    &&& terminal_price_ok(market)
    &&& terminal_price_of(market) <= i128::MAX
    &&& divergence_scale_ok(oracle_price, terminal_price_of(market))
    &&& (oracle_is_valid ==> {
        &&& price_ok(
            market.amm.quote_asset_reserve as int,
            market.amm.base_asset_reserve as int,
            market.amm.peg_multiplier as int,
        )
        &&& oracle_price + oracle_conf <= u128::MAX
        &&& oracle_conf <= oracle_price
    })
}

/// Which error the validity evaluation reports when it fails: a negative
/// oracle price or a terminal price beyond `i128` is a casting failure,
/// every other failure is arithmetic.
pub open spec fn repeg_validity_err(market: Market, oracle_price: int) -> ErrorCode {
    if oracle_price < 0 || (terminal_price_ok(market) && terminal_price_of(market) > i128::MAX) {
        ErrorCode::CastingError
    } else {
        ErrorCode::ArithmeticError
    }
}

/// Result of a successful validity evaluation, as
/// `(oracle_is_valid, direction_valid, profitability_valid,
/// price_impact_valid, divergence)`. A pure function of the market and the
/// oracle inputs: evaluating an unchanged market twice with identical
/// inputs gives identical flags and divergence.
pub open spec fn repeg_validity_result(
    market: Market,
    oracle_price: int,
    oracle_conf: int,
    oracle_is_valid: bool,
    terminal_price_before: int,
) -> (bool, bool, bool, bool, int) {
    let terminal_price_after = terminal_price_of(market);
    let divergence = divergence_of(oracle_price, terminal_price_after);
    if oracle_is_valid {
        (
            true,
            direction_valid_of(oracle_price, terminal_price_after, terminal_price_before),
            profitability_valid_of(oracle_price, oracle_conf, terminal_price_after),
            price_impact_valid_of(
                oracle_price,
                oracle_conf,
                terminal_price_after,
                mark_price_of(market),
            ),
            divergence,
        )
    } else {
        (false, false, false, false, divergence)
    }
}

/// Judges whether the current market state represents a direction-,
/// profitability- and price-impact-valid re-peg situation, gated on oracle
/// health, and reports the oracle-terminal divergence. The market is read,
/// never changed. With an unhealthy oracle all three validity flags are
/// forced false and the divergence is still returned.
pub fn calculate_repeg_validity(
    market: &mut Market,
    oracle_price: i128,
    oracle_conf: u128,
    oracle_is_valid: bool,
    terminal_price_before: u128,
) -> (r: ClearingHouseResult<(bool, bool, bool, bool, i128)>)
    ensures
        *final(market) == *old(market),
        r is Ok <==> repeg_validity_inputs_ok(
            *old(market),
            oracle_price as int,
            oracle_conf as int,
            oracle_is_valid,
        ),
        r matches Ok(out) ==> (out.0, out.1, out.2, out.3, out.4 as int) == repeg_validity_result(
            *old(market),
            oracle_price as int,
            oracle_conf as int,
            oracle_is_valid,
            terminal_price_before as int,
        ),
        r matches Err(e) ==> e == repeg_validity_err(*old(market), oracle_price as int),
{
    let oracle_price_u128 = match cast_to_u128(oracle_price) {
        Ok(p) => p,
        Err(e) => {
            return Err(e);
        },
    };

    let terminal_price_after = match calculate_terminal_price(market) {
        Ok(p) => p,
        Err(e) => {
            return Err(e);
        },
    };
    let terminal_price_after_i128 = match cast_to_i128(terminal_price_after) {
        Ok(p) => p,
        Err(e) => {
            return Err(e);
        },
    };

    let oracle_terminal_spread_after = oracle_price - terminal_price_after_i128;
    let scaled_spread = match oracle_terminal_spread_after.checked_mul(DIVERGENCE_PRECISION) {
        Some(s) => s,
        None => {
            return Err(ErrorCode::ArithmeticError);
        },
    };
    proof {
        if oracle_price > 0 {
            if scaled_spread >= 0 {
                lemma_div_pos_is_pos(scaled_spread as int, oracle_price as int);
                lemma_div_nonincreasing(scaled_spread as int, oracle_price as int);
            } else {
                lemma_div_pos_is_pos(-(scaled_spread as int), oracle_price as int);
                lemma_div_nonincreasing(-(scaled_spread as int), oracle_price as int);
            }
        }
    }
    let oracle_terminal_divergence_pct_after = match scaled_spread.checked_div(oracle_price) {
        Some(d) => d,
        None => {
            return Err(ErrorCode::ArithmeticError);
        },
    };

    let mut direction_valid = true;
    let mut price_impact_valid = true;
    let mut profitability_valid = true;

    if oracle_is_valid {
        let mark_price_after = match calculate_price(
            market.amm.quote_asset_reserve,
            market.amm.base_asset_reserve,
            market.amm.peg_multiplier,
        ) {
            Ok(p) => p,
            Err(e) => {
                return Err(e);
            },
        };

        let oracle_conf_band_top = match oracle_price_u128.checked_add(oracle_conf) {
            Some(t) => t,
            None => {
                return Err(ErrorCode::ArithmeticError);
            },
        };
        let oracle_conf_band_bottom = match oracle_price_u128.checked_sub(oracle_conf) {
            Some(b) => b,
            None => {
                return Err(ErrorCode::ArithmeticError);
            },
        };

        if oracle_price_u128 > terminal_price_after {
            // only allow the terminal price up when the oracle is higher
            if terminal_price_after < terminal_price_before {
                direction_valid = false;
            }
            // only push the terminal price up to the bottom of the band
            if oracle_conf_band_bottom < terminal_price_after {
                profitability_valid = false;
            }
            // only push the mark price up to the top of the band
            if mark_price_after > oracle_conf_band_top {
                price_impact_valid = false;
            }
        } else if oracle_price_u128 < terminal_price_after {
            // only allow the terminal price down when the oracle is lower
            if terminal_price_after > terminal_price_before {
                direction_valid = false;
            }
            // only push the terminal price down to the top of the band
            if oracle_conf_band_top > terminal_price_after {
                profitability_valid = false;
            }
            // only push the mark price down to the bottom of the band
            if mark_price_after < oracle_conf_band_bottom {
                price_impact_valid = false;
            }
        }
    } else {
        direction_valid = false;
        price_impact_valid = false;
        profitability_valid = false;
    }

    Ok((
        oracle_is_valid,
        direction_valid,
        profitability_valid,
        price_impact_valid,
        oracle_terminal_divergence_pct_after,
    ))
}

/// Cost of moving the market's peg to a candidate value: the change in the
/// net market value of the open interest, positive when the move costs the
/// protocol.
pub open spec fn peg_adjustment_cost(market: Market, new_peg_candidate: u128) -> int {
    base_asset_value(market.base_asset_amount as int, market.amm.with_peg(new_peg_candidate))
        - base_asset_value(market.base_asset_amount as int, market.amm)
}

/// Simulates the cost of re-pegging to `new_peg_candidate`, mutating the
/// market's peg multiplier unconditionally: this is a real, observable side
/// effect, not a speculative copy. A caller that still needs the prior peg
/// must snapshot and restore it itself. When the first valuation fails the
/// market is left unchanged; when the second fails the peg is already moved.
pub fn adjust_peg_cost(market: &mut Market, new_peg_candidate: u128) -> (r: ClearingHouseResult<
    i128,
>)
    ensures
        r is Ok <==> value_and_pnl_ok(old(market).base_asset_amount as int, old(market).amm, 0)
            && value_and_pnl_ok(
            old(market).base_asset_amount as int,
            old(market).amm.with_peg(new_peg_candidate),
            base_asset_value(old(market).base_asset_amount as int, old(market).amm),
        ),
        r matches Ok(cost) ==> *final(market) == old(market).with_peg(new_peg_candidate) && cost
            == peg_adjustment_cost(*old(market), new_peg_candidate),
        !value_and_pnl_ok(old(market).base_asset_amount as int, old(market).amm, 0) ==> r == Err::<
            i128,
            ErrorCode,
        >(value_and_pnl_err(old(market).base_asset_amount as int, old(market).amm))
            && *final(market) == *old(market),
        value_and_pnl_ok(old(market).base_asset_amount as int, old(market).amm, 0) && r is Err
            ==> r == Err::<i128, ErrorCode>(
            value_and_pnl_err(
                old(market).base_asset_amount as int,
                old(market).amm.with_peg(new_peg_candidate),
            ),
        ) && *final(market) == old(market).with_peg(new_peg_candidate),
{
    // net market value before adjusting the peg, against a zero reference
    let current_net_market_value = match calculate_base_asset_value_and_pnl(
        market.base_asset_amount,
        0,
        &market.amm,
    ) {
        Ok(vp) => vp.0,
        Err(e) => {
            return Err(e);
        },
    };

    market.amm.peg_multiplier = new_peg_candidate;

    // the same valuation under the new peg; its pnl is the adjustment cost
    match calculate_base_asset_value_and_pnl(
        market.base_asset_amount,
        current_net_market_value,
        &market.amm,
    ) {
        Ok(vp) => Ok(vp.1),
        Err(e) => Err(e),
    }
}

/// Candidate peg one unit toward reducing the divergence: up when the
/// oracle is above the terminal price, down when below, unchanged when the
/// divergence is zero.
pub open spec fn optimal_peg_target(current_peg: int, divergence: int) -> int {
    if divergence > 0 {
        current_peg + 1
    } else if divergence < 0 {
        current_peg - 1
    } else {
        current_peg
    }
}

/// Whether the candidate peg stays within the unsigned 128-bit width.
pub open spec fn optimal_peg_target_ok(current_peg: int, divergence: int) -> bool {
    0 <= optimal_peg_target(current_peg, divergence) <= u128::MAX
}

/// Whether a simulated cost is unaffordable: a positive cost larger than
/// the re-peg budget. A gain (non-positive cost) is always affordable.
pub open spec fn cost_unaffordable(cost: int, budget: int) -> bool {
    cost > 0 && cost > budget
}

/// Finds the minimal one-unit peg nudge toward reducing the oracle
/// divergence and its simulated cost, accepting it only if the cost fits
/// the re-peg budget (half of the spare fee pool). An affordable move
/// leaves the market re-pegged to the candidate; an unaffordable one
/// restores the prior peg and reports `(current_peg, 0)`. On an error from
/// the second valuation the peg is already moved to the candidate.
pub fn calculate_optimal_peg_and_cost(
    market: &mut Market,
    oracle_terminal_price_divergence: i128,
) -> (r: ClearingHouseResult<(u128, i128)>)
    ensures
        r is Ok <==> fee_pool_ok(*old(market)) && optimal_peg_target_ok(
            old(market).amm.peg_multiplier as int,
            oracle_terminal_price_divergence as int,
        ) && value_and_pnl_ok(old(market).base_asset_amount as int, old(market).amm, 0)
            && value_and_pnl_ok(
            old(market).base_asset_amount as int,
            old(market).amm.with_peg(
                optimal_peg_target(
                    old(market).amm.peg_multiplier as int,
                    oracle_terminal_price_divergence as int,
                ) as u128,
            ),
            base_asset_value(old(market).base_asset_amount as int, old(market).amm),
        ),
        r matches Ok(out) ==> ({
            let target = optimal_peg_target(
                old(market).amm.peg_multiplier as int,
                oracle_terminal_price_divergence as int,
            ) as u128;
            let cost = peg_adjustment_cost(*old(market), target);
            if cost_unaffordable(cost, repeg_budget_of(*old(market))) {
                out.0 == old(market).amm.peg_multiplier && out.1 == 0
                    && *final(market) == *old(market)
            } else {
                out.0 == target && out.1 == cost && *final(market) == old(market).with_peg(target)
            }
        }),
        r is Err && !(fee_pool_ok(*old(market)) && optimal_peg_target_ok(
            old(market).amm.peg_multiplier as int,
            oracle_terminal_price_divergence as int,
        )) ==> r == Err::<(u128, i128), ErrorCode>(ErrorCode::ArithmeticError) && *final(market)
            == *old(market),
        r is Err && fee_pool_ok(*old(market)) && optimal_peg_target_ok(
            old(market).amm.peg_multiplier as int,
            oracle_terminal_price_divergence as int,
        ) && !value_and_pnl_ok(old(market).base_asset_amount as int, old(market).amm, 0) ==> r
            == Err::<(u128, i128), ErrorCode>(
            value_and_pnl_err(old(market).base_asset_amount as int, old(market).amm),
        ) && *final(market) == *old(market),
        r is Err && fee_pool_ok(*old(market)) && optimal_peg_target_ok(
            old(market).amm.peg_multiplier as int,
            oracle_terminal_price_divergence as int,
        ) && value_and_pnl_ok(old(market).base_asset_amount as int, old(market).amm, 0) ==> ({
            let target = optimal_peg_target(
                old(market).amm.peg_multiplier as int,
                oracle_terminal_price_divergence as int,
            ) as u128;
            r == Err::<(u128, i128), ErrorCode>(
                value_and_pnl_err(
                    old(market).base_asset_amount as int,
                    old(market).amm.with_peg(target),
                ),
            ) && *final(market) == old(market).with_peg(target)
        }),
{
    // the budget is half of the spare fee pool
    let fee_pool = match calculate_fee_pool(market) {
        Ok(p) => p,
        Err(e) => {
            return Err(e);
        },
    };
    let budget = fee_pool / 2;

    let current_peg = market.amm.peg_multiplier;
    let optimal_peg: u128;
    if oracle_terminal_price_divergence > 0 {
        optimal_peg = match current_peg.checked_add(1) {
            Some(p) => p,
            None => {
                return Err(ErrorCode::ArithmeticError);
            },
        };
    } else if oracle_terminal_price_divergence < 0 {
        optimal_peg = match current_peg.checked_sub(1) {
            Some(p) => p,
            None => {
                return Err(ErrorCode::ArithmeticError);
            },
        };
    } else {
        optimal_peg = current_peg;
    }

    let optimal_adjustment_cost = match adjust_peg_cost(market, optimal_peg) {
        Ok(c) => c,
        Err(e) => {
            return Err(e);
        },
    };

    if optimal_adjustment_cost > 0 && (optimal_adjustment_cost as u128) > budget {
        // unaffordable: restore the prior peg so the move is a true no-op
        market.amm.peg_multiplier = current_peg;
        Ok((current_peg, 0))
    } else {
        Ok((optimal_peg, optimal_adjustment_cost))
    }
}

/// Spare fee revenue available beyond the retained floor. Fails with an
/// arithmetic error when the floor exceeds the undistributed fees: a market
/// with no spare budget is a hard error, never clamped to zero.
pub fn calculate_fee_pool(market: &Market) -> (r: ClearingHouseResult<u128>)
    ensures
        r is Ok <==> fee_pool_ok(*market),
        r matches Ok(pool) ==> pool == fee_pool_of(*market),
        r is Err ==> r == Err::<u128, ErrorCode>(ErrorCode::ArithmeticError),
{
    let total_fee_minus_distributions_lower_bound = match total_fee_lower_bound(market) {
        Ok(b) => b,
        Err(e) => {
            return Err(e);
        },
    };
    match market.amm.total_fee_minus_distributions.checked_sub(
        total_fee_minus_distributions_lower_bound,
    ) {
        Some(pool) => Ok(pool),
        None => Err(ErrorCode::ArithmeticError),
    }
}

/// Floor of lifetime fees that must remain undistributed: the retained
/// share of `total_fee`, with truncating division.
pub fn total_fee_lower_bound(market: &Market) -> (r: ClearingHouseResult<u128>)
    ensures
        r is Ok <==> fee_lower_bound_ok(*market),
        r matches Ok(bound) ==> bound == fee_lower_bound_of(*market),
        r is Err ==> r == Err::<u128, ErrorCode>(ErrorCode::ArithmeticError),
{
    let scaled = match market.amm.total_fee.checked_mul(
        SHARE_OF_FEES_ALLOCATED_TO_CLEARING_HOUSE_NUMERATOR,
    ) {
        Some(s) => s,
        None => {
            return Err(ErrorCode::ArithmeticError);
        },
    };
    match scaled.checked_div(SHARE_OF_FEES_ALLOCATED_TO_CLEARING_HOUSE_DENOMINATOR) {
        Some(bound) => Ok(bound),
        None => Err(ErrorCode::ArithmeticError),
    }
}

/// The divergence carries the sign of the oracle-terminal spread, and its
/// magnitude is `|spread| * 1024 / oracle_price`, truncated toward zero.
pub proof fn lemma_divergence_sign_and_magnitude(oracle_price: int, terminal_price: int)
    requires
        oracle_price > 0,
    ensures
        divergence_of(oracle_price, terminal_price) > 0 ==> oracle_price > terminal_price,
        divergence_of(oracle_price, terminal_price) < 0 ==> oracle_price < terminal_price,
        oracle_price >= terminal_price ==> divergence_of(oracle_price, terminal_price) >= 0
            && divergence_of(oracle_price, terminal_price) == ((oracle_price - terminal_price) * (
        DIVERGENCE_PRECISION as int)) / oracle_price,
        oracle_price <= terminal_price ==> divergence_of(oracle_price, terminal_price) <= 0 && -(
        divergence_of(oracle_price, terminal_price)) == ((terminal_price - oracle_price) * (
        DIVERGENCE_PRECISION as int)) / oracle_price,
{
    let spread = oracle_price - terminal_price;
    lemma_div_of0(oracle_price);
    if spread >= 0 {
        lemma_mul_nonnegative(spread, DIVERGENCE_PRECISION as int);
        lemma_div_pos_is_pos(spread * (DIVERGENCE_PRECISION as int), oracle_price);
    } else {
        lemma_mul_nonnegative(-spread, DIVERGENCE_PRECISION as int);
        lemma_div_pos_is_pos((-spread) * (DIVERGENCE_PRECISION as int), oracle_price);
    }
}

/// The prices the engine compares are non-negative whenever they are
/// computable.
pub proof fn lemma_prices_nonnegative(market: Market)
    ensures
        terminal_price_ok(market) ==> terminal_price_of(market) >= 0,
        price_ok(
            market.amm.quote_asset_reserve as int,
            market.amm.base_asset_reserve as int,
            market.amm.peg_multiplier as int,
        ) ==> mark_price_of(market) >= 0,
{
    let base_asset_amount = market.base_asset_amount as int;
    if terminal_price_ok(market) {
        let new_base = unwound_base_reserve(base_asset_amount, market.amm);
        lemma_mul_nonnegative(
            market.amm.base_asset_reserve as int,
            market.amm.quote_asset_reserve as int,
        );
        lemma_div_pos_is_pos(crate::amm::curve_invariant(market.amm), new_base);
        lemma_mul_nonnegative(
            unwound_quote_reserve(base_asset_amount, market.amm),
            market.amm.peg_multiplier as int,
        );
        lemma_div_pos_is_pos(
            unwound_quote_reserve(base_asset_amount, market.amm) * (
            market.amm.peg_multiplier as int),
            new_base,
        );
    }
    if price_ok(
        market.amm.quote_asset_reserve as int,
        market.amm.base_asset_reserve as int,
        market.amm.peg_multiplier as int,
    ) {
        lemma_mul_nonnegative(
            market.amm.quote_asset_reserve as int,
            market.amm.peg_multiplier as int,
        );
        lemma_div_pos_is_pos(
            (market.amm.quote_asset_reserve as int) * (market.amm.peg_multiplier as int),
            market.amm.base_asset_reserve as int,
        );
    }
}

/// The validity evaluation is a pure function of the market and the oracle
/// inputs: any two results of it for the same unchanged market and
/// identical inputs carry identical flags and divergence.
pub proof fn lemma_repeg_validity_idempotent(
    market: Market,
    oracle_price: int,
    oracle_conf: int,
    oracle_is_valid: bool,
    terminal_price_before: int,
    first: (bool, bool, bool, bool, int),
    second: (bool, bool, bool, bool, int),
)
    requires
        first == repeg_validity_result(
            market,
            oracle_price,
            oracle_conf,
            oracle_is_valid,
            terminal_price_before,
        ),
        second == repeg_validity_result(
            market,
            oracle_price,
            oracle_conf,
            oracle_is_valid,
            terminal_price_before,
        ),
    ensures
        first == second,
{
}

/// An unhealthy oracle blocks any re-peg: all three validity flags are
/// forced false regardless of prices and reserves, while the divergence is
/// still reported.
pub proof fn lemma_invalid_oracle_blocks_repeg(
    market: Market,
    oracle_price: int,
    oracle_conf: int,
    terminal_price_before: int,
)
    ensures
        repeg_validity_result(market, oracle_price, oracle_conf, false, terminal_price_before) == (
        (
            false,
            false,
            false,
            false,
            divergence_of(oracle_price, terminal_price_of(market)),
        )),
{
}

/// Round trip: simulating a move of the peg to a candidate and then
/// simulating the move back to the original peg yields exactly the negated
/// cost. The valuation depends only on the reserves, the open interest and
/// the peg, and a re-peg leaves the reserves unchanged.
pub proof fn lemma_peg_adjustment_round_trip(market: Market, new_peg_candidate: u128)
    ensures
        peg_adjustment_cost(market.with_peg(new_peg_candidate), market.amm.peg_multiplier) == -(
        peg_adjustment_cost(market, new_peg_candidate)),
{
    assert(market.with_peg(new_peg_candidate).amm.with_peg(market.amm.peg_multiplier)
        == market.amm);
}

} // verus!
