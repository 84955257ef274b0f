//! Error taxonomy: structural errors raised by account validation and
//! payload parsing, and business-logic errors raised by the curve engine.

use vstd::prelude::*;

verus! {

/// Business-logic errors raised by the curve engine when a computed amount
/// is infeasible, overflows, or violates a caller-supplied slippage bound.
#[derive(Clone, Copy, Debug, PartialEq, Eq, Structural)]
pub enum CustomError {
    InvalidDeposit,
    InvalidSwap,
    InvalidWithdrawal,
}

/// The error a handler returns. Structural variants mirror the host
/// runtime's error codes; `Custom` carries a curve-engine error.
#[derive(Clone, Copy, Debug, PartialEq, Eq, Structural)]
pub enum AmmError {
    /// The account list does not have the required shape.
    NotEnoughAccountKeys,
    /// The acting user account carries no signature.
    MissingRequiredSignature,
    /// The instruction payload is not the fixed-size record the call expects.
    InvalidInstructionData,
    /// An account's recorded contents or address do not match what the
    /// validator requires.
    InvalidAccountData,
    /// The seed material does not derive a valid pool address.
    InvalidSeeds,
    /// A business-logic error from the curve engine.
    Custom(CustomError),
}

impl From<CustomError> for AmmError {
    fn from(e: CustomError) -> (r: Self) {
        AmmError::Custom(e)
    }
}

impl vstd::std_specs::convert::FromSpecImpl<CustomError> for AmmError {
    open spec fn obeys_from_spec() -> bool {
        true
    }

    open spec fn from_spec(e: CustomError) -> Self {
        AmmError::Custom(e)
    }
}

} // verus!
