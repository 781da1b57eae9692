//! The error taxonomy governing rejection of malformed or unauthorized calls.

use vstd::prelude::*;

verus! {

/// Every way an invocation can be rejected. Each error aborts the invocation
/// immediately: no retries, no partial mutation, no fallback values.
#[derive(Clone, Copy, Debug, PartialEq, Eq, Structural)]
pub enum CalcError {
    /// The instruction payload is not exactly 12 bytes long.
    InvalidInstructionSize,
    /// The target account's owner is not the executing program.
    UnauthorizedAccount,
    /// The account's persisted buffer cannot be decoded as the state layout.
    MalformedState,
    /// A subtraction was requested with `operand_a < operand_b`.
    SubtractionUnderflow,
    /// The operation selector is outside the supported set.
    UnsupportedOperation,
    /// The invocation was given no account to operate on.
    MissingAccount,
}

} // verus!
