//! The four pool instructions and the discriminator that selects them.
//! Every call payload starts with one discriminator byte followed by that
//! instruction's fixed-size byte-packed record.

pub mod deposit;
pub mod initialize;
pub mod swap;
pub mod withdraw;

use vstd::prelude::*;

use crate::error::AmmError;

verus! {

/// The instruction a call payload's leading byte selects.
#[derive(Clone, Copy, Debug, PartialEq, Eq, Structural)]
pub enum AMMInstruction {
    Initialize,
    Deposit,
    Swap,
    Withdraw,
}

impl AMMInstruction {
    /// Decodes the discriminator byte; any byte beyond the four
    /// instructions is invalid payload data.
    pub fn try_from(value: &u8) -> (r: Result<AMMInstruction, AmmError>)
        ensures
            *value == 0 ==> r == Ok::<AMMInstruction, AmmError>(AMMInstruction::Initialize),
            *value == 1 ==> r == Ok::<AMMInstruction, AmmError>(AMMInstruction::Deposit),
            *value == 2 ==> r == Ok::<AMMInstruction, AmmError>(AMMInstruction::Swap),
            *value == 3 ==> r == Ok::<AMMInstruction, AmmError>(AMMInstruction::Withdraw),
            *value > 3 ==> r == Err::<AMMInstruction, AmmError>(AmmError::InvalidInstructionData),
    {
        match *value {
            0 => Ok(AMMInstruction::Initialize),
            1 => Ok(AMMInstruction::Deposit),
            2 => Ok(AMMInstruction::Swap),
            3 => Ok(AMMInstruction::Withdraw),
            _ => Err(AmmError::InvalidInstructionData),
        }
    }
}

} // verus!
