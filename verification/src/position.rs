use vstd::prelude::*;

use vstd::arithmetic::div_mod::{lemma_div_is_ordered_by_denominator, lemma_div_multiples_vanish};

use crate::amm::{
    calculate_unwound_reserves, curve_invariant, unwind_ok, unwound_base_reserve,
    unwound_quote_reserve,
};
use crate::casting::cast_to_i128;
use crate::error::{ClearingHouseResult, ErrorCode};
use crate::market::Amm;

verus! {

/// Magnitude of the quote-reserve change when the net open interest is
/// unwound into the curve: the quote the curve pays out for a net long, or
/// takes in for a net short.
pub open spec fn quote_reserve_delta(base_asset_amount: int, amm: Amm) -> int {
    if base_asset_amount >= 0 {
        amm.quote_asset_reserve - unwound_quote_reserve(base_asset_amount, amm)
    } else {
        unwound_quote_reserve(base_asset_amount, amm) - amm.quote_asset_reserve
    }
}

/// Signed net market value of the open interest under the given curve
/// state: the unwound quote delta scaled by the peg, positive for a net
/// long, negative for a net short.
pub open spec fn base_asset_value(base_asset_amount: int, amm: Amm) -> int {
    if base_asset_amount == 0 {
        0
    } else if base_asset_amount > 0 {
        quote_reserve_delta(base_asset_amount, amm) * amm.peg_multiplier
    } else {
        -(quote_reserve_delta(base_asset_amount, amm) * amm.peg_multiplier)
    }
}

/// Whether the value's magnitude can be computed in `u128`.
pub open spec fn value_computable(base_asset_amount: int, amm: Amm) -> bool {
    base_asset_amount == 0 || (unwind_ok(base_asset_amount, amm) && quote_reserve_delta(
        base_asset_amount,
        amm,
    ) * amm.peg_multiplier <= u128::MAX)
}

/// Whether the value's magnitude fits the signed `i128` width.
pub open spec fn value_fits(base_asset_amount: int, amm: Amm) -> bool {
    base_asset_amount == 0 || quote_reserve_delta(base_asset_amount, amm) * amm.peg_multiplier
        <= i128::MAX
}

/// Whether the profit-and-loss against the reference value stays in range.
pub open spec fn pnl_ok(base_asset_amount: int, amm: Amm, reference_value: int) -> bool {
    i128::MIN <= base_asset_value(base_asset_amount, amm) - reference_value <= i128::MAX
}

/// Whether the whole valuation succeeds.
pub open spec fn value_and_pnl_ok(base_asset_amount: int, amm: Amm, reference_value: int) -> bool {
    value_computable(base_asset_amount, amm) && value_fits(base_asset_amount, amm) && pnl_ok(
        base_asset_amount,
        amm,
        reference_value,
    )
}

/// Which error the valuation reports when it fails: a value magnitude
/// beyond `i128` is a casting failure, every other failure is arithmetic.
pub open spec fn value_and_pnl_err(base_asset_amount: int, amm: Amm) -> ErrorCode {
    if value_computable(base_asset_amount, amm) && !value_fits(base_asset_amount, amm) {
        ErrorCode::CastingError
    } else {
        ErrorCode::ArithmeticError
    }
}

/// Unwinding a net long never raises the quote reserve, unwinding a net
/// short never lowers it, so the quote delta is non-negative.
pub proof fn lemma_quote_reserve_delta_nonneg(base_asset_amount: int, amm: Amm)
    requires
        unwind_ok(base_asset_amount, amm),
    ensures
        quote_reserve_delta(base_asset_amount, amm) >= 0,
        base_asset_amount >= 0 ==> unwound_quote_reserve(base_asset_amount, amm)
            <= amm.quote_asset_reserve,
        base_asset_amount < 0 ==> unwound_quote_reserve(base_asset_amount, amm)
            >= amm.quote_asset_reserve,
{
    let base = amm.base_asset_reserve as int;
    let quote = amm.quote_asset_reserve as int;
    let invariant_k = curve_invariant(amm);
    let new_base = unwound_base_reserve(base_asset_amount, amm);
    if base_asset_amount >= 0 {
        if base == 0 {
            // an empty curve has a zero invariant, so the unwound quote is zero
            assert(invariant_k == 0);
            vstd::arithmetic::div_mod::lemma_div_of0(new_base);
            assert(unwound_quote_reserve(base_asset_amount, amm) == 0);
        } else {
            lemma_div_is_ordered_by_denominator(invariant_k, base, new_base);
            lemma_div_multiples_vanish(quote, base);
            assert(invariant_k == base * quote);
            assert((base * quote) / base == quote);
        }
    } else {
        lemma_div_is_ordered_by_denominator(invariant_k, new_base, base);
        lemma_div_multiples_vanish(quote, base);
        assert((base * quote) / base == quote);
    }
}

/// Net market value of the open interest and its profit-and-loss against a
/// reference value, `pnl = value - reference`. The valuation is a pure
/// function of the open interest and the curve state.
pub fn calculate_base_asset_value_and_pnl(
    base_asset_amount: i128,
    base_asset_value_reference: i128,
    amm: &Amm,
) -> (r: ClearingHouseResult<(i128, i128)>)
    ensures
        r is Ok <==> value_and_pnl_ok(
            base_asset_amount as int,
            *amm,
            base_asset_value_reference as int,
        ),
        r matches Ok(vp) ==> vp.0 == base_asset_value(base_asset_amount as int, *amm) && vp.1
            == base_asset_value(base_asset_amount as int, *amm) - base_asset_value_reference,
        r matches Err(e) ==> e == value_and_pnl_err(base_asset_amount as int, *amm),
{
    if base_asset_amount == 0 {
        let zero: i128 = 0;
        let pnl = match zero.checked_sub(base_asset_value_reference) {
            Some(p) => p,
            None => {
                return Err(ErrorCode::ArithmeticError);
            },
        };
        return Ok((zero, pnl));
    }
    let (new_quote_reserve, _new_base_reserve) = match calculate_unwound_reserves(
        base_asset_amount,
        amm,
    ) {
        Ok(reserves) => reserves,
        Err(e) => {
            return Err(e);
        },
    };
    proof {
        lemma_quote_reserve_delta_nonneg(base_asset_amount as int, *amm);
    }
    let quote_delta: u128 = if base_asset_amount > 0 {
        amm.quote_asset_reserve - new_quote_reserve
    } else {
        new_quote_reserve - amm.quote_asset_reserve
    };
    let unsigned_value = match quote_delta.checked_mul(amm.peg_multiplier) {
        Some(v) => v,
        None => {
            return Err(ErrorCode::ArithmeticError);
        },
    };
    let signed_value = match cast_to_i128(unsigned_value) {
        Ok(v) => v,
        Err(e) => {
            return Err(e);
        },
    };
    let value = if base_asset_amount > 0 {
        signed_value
    } else {
        -signed_value
    };
    let pnl = match value.checked_sub(base_asset_value_reference) {
        Some(p) => p,
        None => {
            return Err(ErrorCode::ArithmeticError);
        },
    };
    Ok((value, pnl))
}

} // verus!
