use vstd::prelude::*;

use crate::error::{ClearingHouseResult, ErrorCode};

verus! {

/// Converts a signed value to `u128`, rejecting negative inputs instead of
/// reinterpreting the sign.
pub fn cast_to_u128(value: i128) -> (r: ClearingHouseResult<u128>)
    ensures
        r is Ok <==> value >= 0,
        r matches Ok(v) ==> v == value,
        r is Err ==> r == Err::<u128, ErrorCode>(ErrorCode::CastingError),
{
    if value >= 0 {
        Ok(value as u128)
    } else {
        Err(ErrorCode::CastingError)
    }
}

/// Converts an unsigned value to `i128`, rejecting values beyond `i128::MAX`
/// instead of truncating.
pub fn cast_to_i128(value: u128) -> (r: ClearingHouseResult<i128>)
    ensures
        r is Ok <==> value <= i128::MAX,
        r matches Ok(v) ==> v == value,
        r is Err ==> r == Err::<i128, ErrorCode>(ErrorCode::CastingError),
{
    if value <= i128::MAX as u128 {
        Ok(value as i128)
    } else {
        Err(ErrorCode::CastingError)
    }
}

} // verus!
