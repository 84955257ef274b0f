//! Constant-product automated market maker: a liquidity pool over two token
//! reserves that mints a pool-share token for deposits and prices swaps by
//! the constant-product curve, charging a basis-point fee that stays in the
//! pool.
//!
//! The library is the instruction-processing core: byte-level payload and
//! record codecs, account validation against the pool's derived address,
//! the curve math, and the four instruction handlers. Handlers are pure:
//! they take a snapshot of the accounts as plain values and return the
//! token-ledger operations to perform, so every balance movement is decided
//! by verified code while the host runtime performs the side effects.

pub mod accounts;
pub mod bytes;
pub mod curve;
pub mod effects;
pub mod error;
pub mod instruction;
pub mod pda;
pub mod state;
pub mod validation;

use vstd::prelude::*;

use crate::accounts::AccountView;
use crate::effects::Effects;
use crate::error::AmmError;
use crate::instruction::AMMInstruction;

verus! {

/// Routes one call: the payload's leading byte selects the instruction and
/// the rest of the payload is its record. An empty payload or an unknown
/// discriminator is invalid payload data. `rent_minimum_balance` is the
/// host's required funding for a record account, read from the rent sysvar
/// by the caller; only Initialize uses it.
pub fn process_instruction(
    accounts: &[AccountView],
    instruction_data: &[u8],
    rent_minimum_balance: u64,
) -> (r: Result<Effects, AmmError>)
    ensures
        instruction_data@.len() == 0 ==> r == Err::<Effects, AmmError>(
            AmmError::InvalidInstructionData,
        ),
        instruction_data@.len() > 0 ==> ({
            let disc = instruction_data@[0];
            let rest = instruction_data@.subrange(1, instruction_data@.len() as int);
            &&& disc == 0 ==> {
                &&& (r is Err <==> instruction::initialize::initialize_error(accounts@, rest)
                    is Some)
                &&& r is Err ==> r == Err::<Effects, AmmError>(
                    instruction::initialize::initialize_error(accounts@, rest).unwrap(),
                )
                &&& r is Ok ==> (r.unwrap() matches Effects::Initialize(e)
                    && instruction::initialize::initialize_effects_correct(
                    accounts@,
                    rest,
                    rent_minimum_balance,
                    e,
                ))
            }
            &&& disc == 1 ==> {
                &&& (r is Err <==> instruction::deposit::deposit_error(accounts@, rest) is Some)
                &&& r is Err ==> r == Err::<Effects, AmmError>(
                    instruction::deposit::deposit_error(accounts@, rest).unwrap(),
                )
                &&& r is Ok ==> (r.unwrap() matches Effects::Deposit(e)
                    && instruction::deposit::deposit_effects_correct(accounts@, rest, e))
            }
            &&& disc == 2 ==> {
                &&& (r is Err <==> instruction::swap::swap_error(accounts@, rest) is Some)
                &&& r is Err ==> r == Err::<Effects, AmmError>(
                    instruction::swap::swap_error(accounts@, rest).unwrap(),
                )
                &&& r is Ok ==> (r.unwrap() matches Effects::Swap(e)
                    && instruction::swap::swap_effects_correct(accounts@, rest, e))
            }
            &&& disc == 3 ==> {
                &&& (r is Err <==> instruction::withdraw::withdraw_error(accounts@, rest) is Some)
                &&& r is Err ==> r == Err::<Effects, AmmError>(
                    instruction::withdraw::withdraw_error(accounts@, rest).unwrap(),
                )
                &&& r is Ok ==> (r.unwrap() matches Effects::Withdraw(e)
                    && instruction::withdraw::withdraw_effects_correct(accounts@, rest, e))
            }
            &&& disc > 3 ==> r == Err::<Effects, AmmError>(AmmError::InvalidInstructionData)
        }),
{
    if instruction_data.len() == 0 {
        return Err(AmmError::InvalidInstructionData);
    }
    let disc = instruction_data[0];
    let rest = &instruction_data[1..instruction_data.len()];
    match AMMInstruction::try_from(&disc) {
        Ok(AMMInstruction::Initialize) => {
            match instruction::initialize::process_initialize(accounts, rest, rent_minimum_balance) {
                Ok(e) => Ok(Effects::Initialize(e)),
                Err(e) => Err(e),
            }
        },
        Ok(AMMInstruction::Deposit) => {
            match instruction::deposit::process_deposit(accounts, rest) {
                Ok(e) => Ok(Effects::Deposit(e)),
                Err(e) => Err(e),
            }
        },
        Ok(AMMInstruction::Swap) => {
            match instruction::swap::process_swap(accounts, rest) {
                Ok(e) => Ok(Effects::Swap(e)),
                Err(e) => Err(e),
            }
        },
        Ok(AMMInstruction::Withdraw) => {
            match instruction::withdraw::process_withdraw(accounts, rest) {
                Ok(e) => Ok(Effects::Withdraw(e)),
                Err(e) => Err(e),
            }
        },
        Err(e) => Err(e),
    }
}

} // verus!
