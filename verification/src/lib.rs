//! Re-peg decision engine for a virtual AMM backing a synthetic perpetual
//! futures exchange.
//!
//! The AMM prices trades from two reserve quantities and a scaling constant
//! (the peg multiplier). As trades accumulate, the implied price drifts from
//! the external reference (oracle) price; the engine decides whether nudging
//! the peg toward the oracle is directionally correct, bounded in market
//! impact, and affordable out of accumulated trading fees.
//!
//! * [`repeg::calculate_repeg_validity`] judges whether the current state
//!   warrants a re-peg, gated on oracle health.
//! * [`repeg::calculate_optimal_peg_and_cost`] finds the minimal affordable
//!   one-unit peg nudge toward the oracle.
//! * [`repeg::adjust_peg_cost`] simulates the economic cost of a candidate
//!   peg, mutating the live market state.
//! * [`repeg::calculate_fee_pool`] derives the spendable fee budget.
//!
//! Every arithmetic step is checked: overflow, underflow and invalid
//! divisors surface as [`error::ErrorCode::ArithmeticError`], out-of-range
//! numeric conversions as [`error::ErrorCode::CastingError`]; nothing wraps
//! or saturates.

pub mod amm;
pub mod casting;
pub mod error;
pub mod market;
pub mod position;
pub mod repeg;
