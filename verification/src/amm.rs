use vstd::prelude::*;

use crate::error::{ClearingHouseResult, ErrorCode};
use crate::market::{Amm, Market};

verus! {

/// Whether the instantaneous price of a curve with the given reserves and
/// peg can be computed without overflow.
pub open spec fn price_ok(quote_reserve: int, base_reserve: int, peg: int) -> bool {
    quote_reserve * peg <= u128::MAX && base_reserve != 0
}

/// Instantaneous price implied by the reserves and the peg: the quote
/// reserve scaled by the peg, per unit of base reserve (truncating).
pub open spec fn price_of(quote_reserve: int, base_reserve: int, peg: int) -> int {
    (quote_reserve * peg) / base_reserve
}

/// Base reserve after the net open interest is unwound into the curve:
/// closing a net long returns base to the reserve, closing a net short
/// removes it.
pub open spec fn unwound_base_reserve(base_asset_amount: int, amm: Amm) -> int {
    amm.base_asset_reserve + base_asset_amount
}

/// Constant-product invariant of the curve.
pub open spec fn curve_invariant(amm: Amm) -> int {
    amm.base_asset_reserve * amm.quote_asset_reserve
}

/// Quote reserve after the net open interest is unwound, holding the
/// constant-product invariant (truncating).
pub open spec fn unwound_quote_reserve(base_asset_amount: int, amm: Amm) -> int {
    curve_invariant(amm) / unwound_base_reserve(base_asset_amount, amm)
}

/// Whether the unwound reserves can be computed: the new base reserve must
/// be a positive `u128` and the invariant must fit in a `u128`.
pub open spec fn unwind_ok(base_asset_amount: int, amm: Amm) -> bool {
    0 < unwound_base_reserve(base_asset_amount, amm) <= u128::MAX
        && curve_invariant(amm) <= u128::MAX
}

/// Whether the terminal price of the market can be computed.
pub open spec fn terminal_price_ok(market: Market) -> bool {
    unwind_ok(market.base_asset_amount as int, market.amm) && price_ok(
        unwound_quote_reserve(market.base_asset_amount as int, market.amm),
        unwound_base_reserve(market.base_asset_amount as int, market.amm),
        market.amm.peg_multiplier as int,
    )
}

/// Terminal price of the market: the price implied if all current net open
/// interest were closed at present reserves and peg.
pub open spec fn terminal_price_of(market: Market) -> int {
    price_of(
        unwound_quote_reserve(market.base_asset_amount as int, market.amm),
        unwound_base_reserve(market.base_asset_amount as int, market.amm),
        market.amm.peg_multiplier as int,
    )
}

/// Instantaneous (mark) price from the reserves and the peg.
pub fn calculate_price(
    quote_asset_reserve: u128,
    base_asset_reserve: u128,
    peg_multiplier: u128,
) -> (r: ClearingHouseResult<u128>)
    ensures
        r is Ok <==> price_ok(
            quote_asset_reserve as int,
            base_asset_reserve as int,
            peg_multiplier as int,
        ),
        r matches Ok(price) ==> price == price_of(
            quote_asset_reserve as int,
            base_asset_reserve as int,
            peg_multiplier as int,
        ),
        r is Err ==> r == Err::<u128, ErrorCode>(ErrorCode::ArithmeticError),
{
    let scaled_quote = match quote_asset_reserve.checked_mul(peg_multiplier) {
        Some(q) => q,
        None => {
            return Err(ErrorCode::ArithmeticError);
        },
    };
    match scaled_quote.checked_div(base_asset_reserve) {
        Some(price) => Ok(price),
        None => Err(ErrorCode::ArithmeticError),
    }
}

/// Reserves of the curve after the net open interest is unwound, as
/// `(quote_reserve, base_reserve)`.
pub fn calculate_unwound_reserves(base_asset_amount: i128, amm: &Amm) -> (r: ClearingHouseResult<
    (u128, u128),
>)
    ensures
        r is Ok <==> unwind_ok(base_asset_amount as int, *amm),
        r matches Ok(reserves) ==> reserves.0 == unwound_quote_reserve(
            base_asset_amount as int,
            *amm,
        ) && reserves.1 == unwound_base_reserve(base_asset_amount as int, *amm),
        r is Err ==> r == Err::<(u128, u128), ErrorCode>(ErrorCode::ArithmeticError),
{
    let new_base_reserve = match amm.base_asset_reserve.checked_add_signed(base_asset_amount) {
        Some(b) => b,
        None => {
            return Err(ErrorCode::ArithmeticError);
        },
    };
    let invariant_k = match amm.base_asset_reserve.checked_mul(amm.quote_asset_reserve) {
        Some(k) => k,
        None => {
            return Err(ErrorCode::ArithmeticError);
        },
    };
    match invariant_k.checked_div(new_base_reserve) {
        Some(new_quote_reserve) => Ok((new_quote_reserve, new_base_reserve)),
        None => Err(ErrorCode::ArithmeticError),
    }
}

/// Terminal price of the market. The market is read, never changed.
pub fn calculate_terminal_price(market: &mut Market) -> (r: ClearingHouseResult<u128>)
    ensures
        *final(market) == *old(market),
        r is Ok <==> terminal_price_ok(*old(market)),
        r matches Ok(price) ==> price == terminal_price_of(*old(market)),
        r is Err ==> r == Err::<u128, ErrorCode>(ErrorCode::ArithmeticError),
{
    let (new_quote_reserve, new_base_reserve) = match calculate_unwound_reserves(
        market.base_asset_amount,
        &market.amm,
    ) {
        Ok(reserves) => reserves,
        Err(e) => {
            return Err(e);
        },
    };
    calculate_price(new_quote_reserve, new_base_reserve, market.amm.peg_multiplier)
}

} // verus!
