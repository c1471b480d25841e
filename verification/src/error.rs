use vstd::prelude::*;

verus! {

/// The engine's whole error taxonomy. Every failure aborts the enclosing
/// protocol action; there is no local recovery.
#[derive(Clone, Copy, Debug, PartialEq, Eq, Structural)]
pub enum ErrorCode {
    /// Overflow, underflow, or a division with an invalid operand.
    ArithmeticError,
    /// A value out of range for the target numeric width.
    CastingError,
}

/// Result of every fallible operation of the engine.
pub type ClearingHouseResult<T> = Result<T, ErrorCode>;

} // verus!
