//! Swap: trade one asset against the pool's reserves. The payload selects
//! the sold side, the input amount, and the minimum acceptable output. The
//! curve prices the input net of the pool's fee; the full input is charged.
//! The handler stages the trader's payment into one vault and the payout
//! from the other, the latter signed by the pool's derived authority.

use vstd::prelude::*;

use crate::accounts::{mint_of, raw_of, token_of, AccountView};
use crate::bytes::{le64, read_u64_le};
use crate::curve;
use crate::effects::{SwapEffects, TokenTransfer};
use crate::error::{AmmError, CustomError};
use crate::state::{config_bump_of, config_fee_of, config_seed_of};
use crate::validation::{pool_validation_error, validate_pool_accounts};

verus! {

/// The byte-packed Swap payload: the sold-side selector byte, then the
/// input amount and the minimum acceptable output, little-endian.
#[derive(Clone, Copy, Debug, PartialEq, Eq, Structural)]
pub struct SwapInstructionData {
    pub is_x: u8,
    pub amount: u64,
    pub min: u64,
}

/// The sold-side selector byte of a Swap payload.
pub open spec fn swap_is_x_of(data: Seq<u8>) -> u8
    recommends
        data.len() == SwapInstructionData::LEN,
{
    data[0]
}

/// The input amount in a Swap payload.
pub open spec fn swap_amount_of(data: Seq<u8>) -> int
    recommends
        data.len() == SwapInstructionData::LEN,
{
    le64(data.subrange(1, 9))
}

/// The minimum acceptable output in a Swap payload.
pub open spec fn swap_min_of(data: Seq<u8>) -> int
    recommends
        data.len() == SwapInstructionData::LEN,
{
    le64(data.subrange(9, 17))
}

impl SwapInstructionData {
    /// Size of the payload record.
    pub const LEN: usize = 17;

    /// Parses the payload; exactly `LEN` bytes are accepted. The selector
    /// byte is kept raw — its value is judged after account validation, as
    /// the validator's checks come first.
    pub fn try_from_bytes(data: &[u8]) -> (r: Result<SwapInstructionData, AmmError>)
        ensures
            r is Ok <==> data@.len() == SwapInstructionData::LEN,
            r is Ok ==> ({
                let d = r.unwrap();
                &&& d.is_x == swap_is_x_of(data@)
                &&& d.amount == swap_amount_of(data@)
                &&& d.min == swap_min_of(data@)
            }),
            r is Err ==> r == Err::<SwapInstructionData, AmmError>(AmmError::InvalidInstructionData),
    {
        if data.len() != SwapInstructionData::LEN {
            return Err(AmmError::InvalidInstructionData);
        }
        let is_x = data[0];
        let amount = read_u64_le(data, 1);
        let min = read_u64_le(data, 9);
        Ok(SwapInstructionData { is_x, amount, min })
    }
}

/// The reserve of the sold asset for a selector value.
pub open spec fn swap_reserve_in(accounts: Seq<AccountView>, is_x: u8) -> int
    recommends
        accounts.len() == 12,
{
    if is_x == 1 {
        token_of(accounts[3]).unwrap().amount as int
    } else {
        token_of(accounts[4]).unwrap().amount as int
    }
}

/// The reserve of the bought asset for a selector value.
pub open spec fn swap_reserve_out(accounts: Seq<AccountView>, is_x: u8) -> int
    recommends
        accounts.len() == 12,
{
    if is_x == 1 {
        token_of(accounts[4]).unwrap().amount as int
    } else {
        token_of(accounts[3]).unwrap().amount as int
    }
}

/// The error a Swap call fails with, or nothing when it succeeds: the
/// structural checks in their checking order, then the selector byte, then
/// the curve's feasibility of the trade under the pool's stored fee.
pub open spec fn swap_error(accounts: Seq<AccountView>, data: Seq<u8>) -> Option<AmmError> {
    if accounts.len() != 12 {
        Some(AmmError::NotEnoughAccountKeys)
    } else if !accounts[0].is_signer {
        Some(AmmError::MissingRequiredSignature)
    } else if data.len() != SwapInstructionData::LEN {
        Some(AmmError::InvalidInstructionData)
    } else if pool_validation_error(accounts) is Some {
        pool_validation_error(accounts)
    } else if swap_is_x_of(data) > 1 {
        Some(AmmError::InvalidAccountData)
    } else {
        let record = raw_of(accounts[9]).unwrap();
        let is_x = swap_is_x_of(data);
        if curve::swap_ok(
            swap_reserve_in(accounts, is_x),
            swap_reserve_out(accounts, is_x),
            config_fee_of(record),
            swap_amount_of(data),
            swap_min_of(data),
        ) {
            None
        } else {
            Some(AmmError::Custom(CustomError::InvalidSwap))
        }
    }
}

/// What a successful Swap stages: the full input amount moves from the
/// user's sold-asset account into that asset's vault under the user's
/// signature, and the curve's output moves from the other vault to the
/// user under the pool's derived authority.
pub open spec fn swap_effects_correct(
    accounts: Seq<AccountView>,
    data: Seq<u8>,
    e: SwapEffects,
) -> bool
    recommends
        accounts.len() == 12,
        data.len() == SwapInstructionData::LEN,
{
    let record = raw_of(accounts[9]).unwrap();
    let is_x = swap_is_x_of(data);
    let output = curve::swap_output(
        swap_reserve_in(accounts, is_x),
        swap_reserve_out(accounts, is_x),
        config_fee_of(record),
        swap_amount_of(data),
    );
    let user_in: int = if is_x == 1 {
        5
    } else {
        6
    };
    let vault_in: int = if is_x == 1 {
        3
    } else {
        4
    };
    let mint_in: int = if is_x == 1 {
        1
    } else {
        2
    };
    let user_out: int = if is_x == 1 {
        6
    } else {
        5
    };
    let vault_out: int = if is_x == 1 {
        4
    } else {
        3
    };
    let mint_out: int = if is_x == 1 {
        2
    } else {
        1
    };
    &&& e.deposit.from == accounts[user_in].key
    &&& e.deposit.to == accounts[vault_in].key
    &&& e.deposit.mint == accounts[mint_in].key
    &&& e.deposit.authority == accounts[0].key
    &&& e.deposit.amount == swap_amount_of(data)
    &&& e.deposit.decimals == mint_of(accounts[mint_in]).unwrap().decimals
    &&& !e.deposit.pool_signed
    &&& e.withdraw.from == accounts[vault_out].key
    &&& e.withdraw.to == accounts[user_out].key
    &&& e.withdraw.mint == accounts[mint_out].key
    &&& e.withdraw.authority == accounts[9].key
    &&& e.withdraw.amount == output
    &&& e.withdraw.decimals == mint_of(accounts[mint_out]).unwrap().decimals
    &&& e.withdraw.pool_signed
    &&& e.pool_seed == config_seed_of(record)
    &&& e.pool_bump == config_bump_of(record)
}

/// Law: any swap a call accepts leaves the vaults' reserve product no
/// smaller than before — the sold reserve grows by the full input while the
/// bought reserve keeps at least the constant-product share — and the
/// product strictly grows whenever the fee retains at least one unit.
pub proof fn lemma_swap_call_preserves_product(accounts: Seq<AccountView>, data: Seq<u8>)
    requires
        swap_error(accounts, data) is None,
    ensures
        ({
            let record = raw_of(accounts[9]).unwrap();
            let fee = config_fee_of(record);
            let is_x = swap_is_x_of(data);
            let r_in = swap_reserve_in(accounts, is_x);
            let r_out = swap_reserve_out(accounts, is_x);
            let amount = swap_amount_of(data);
            let out = curve::swap_output(r_in, r_out, fee, amount);
            &&& (r_in + amount) * (r_out - out) >= r_in * r_out
            &&& curve::fee_amount(amount, fee) >= 1 ==> (r_in + amount) * (r_out - out) > r_in
                * r_out
        }),
{
    let record = raw_of(accounts[9]).unwrap();
    let fee = config_fee_of(record);
    let is_x = swap_is_x_of(data);
    let r_in = swap_reserve_in(accounts, is_x);
    let r_out = swap_reserve_out(accounts, is_x);
    let amount = swap_amount_of(data);
    curve::lemma_swap_reserve_product(r_in, r_out, fee, amount);
}

/// Law: a swap call demanding more than the curve's true output fails with
/// the swap error — and a failing call stages no transfer, so every balance
/// is left unchanged.
pub proof fn lemma_swap_call_rejects_slippage(accounts: Seq<AccountView>, data: Seq<u8>)
    requires
        accounts.len() == 12,
        accounts[0].is_signer,
        data.len() == SwapInstructionData::LEN,
        pool_validation_error(accounts) is None,
        swap_is_x_of(data) <= 1,
        swap_min_of(data) > curve::swap_output(
            swap_reserve_in(accounts, swap_is_x_of(data)),
            swap_reserve_out(accounts, swap_is_x_of(data)),
            config_fee_of(raw_of(accounts[9]).unwrap()),
            swap_amount_of(data),
        ),
    ensures
        swap_error(accounts, data) == Some(AmmError::Custom(CustomError::InvalidSwap)),
{
    let is_x = swap_is_x_of(data);
    curve::lemma_swap_slippage_rejected(
        swap_reserve_in(accounts, is_x),
        swap_reserve_out(accounts, is_x),
        config_fee_of(raw_of(accounts[9]).unwrap()),
        swap_amount_of(data),
        swap_min_of(data),
    );
}

/// Processes a Swap call: validates the accounts, prices the trade with
/// the curve engine under the pool's stored fee, and stages the payment
/// and the payout. Failing slippage or overflow stages nothing.
pub fn process_swap(accounts: &[AccountView], data: &[u8]) -> (r: Result<SwapEffects, AmmError>)
    ensures
        r is Err <==> swap_error(accounts@, data@) is Some,
        r is Err ==> r == Err::<SwapEffects, AmmError>(swap_error(accounts@, data@).unwrap()),
        r is Ok ==> swap_effects_correct(accounts@, data@, r.unwrap()),
{
    if accounts.len() != 12 {
        return Err(AmmError::NotEnoughAccountKeys);
    }
    if !accounts[0].is_signer {
        return Err(AmmError::MissingRequiredSignature);
    }
    let ix = match SwapInstructionData::try_from_bytes(data) {
        Ok(ix) => ix,
        Err(e) => {
            return Err(e);
        },
    };
    let v = match validate_pool_accounts(accounts) {
        Ok(v) => v,
        Err(e) => {
            return Err(e);
        },
    };
    let is_x = match ix.is_x {
        0 => false,
        1 => true,
        _ => {
            return Err(AmmError::InvalidAccountData);
        },
    };
    let res = match curve::swap(
        is_x,
        v.vault_x_amount,
        v.vault_y_amount,
        v.config.fee,
        ix.amount,
        ix.min,
    ) {
        Ok(res) => res,
        Err(e) => {
            return Err(AmmError::Custom(e));
        },
    };
    let deposit = if is_x {
        TokenTransfer {
            from: accounts[5].key,
            to: accounts[3].key,
            mint: accounts[1].key,
            authority: accounts[0].key,
            amount: res.deposit,
            decimals: v.decimals_x,
            pool_signed: false,
        }
    } else {
        TokenTransfer {
            from: accounts[6].key,
            to: accounts[4].key,
            mint: accounts[2].key,
            authority: accounts[0].key,
            amount: res.deposit,
            decimals: v.decimals_y,
            pool_signed: false,
        }
    };
    let withdraw = if is_x {
        TokenTransfer {
            from: accounts[4].key,
            to: accounts[6].key,
            mint: accounts[2].key,
            authority: accounts[9].key,
            amount: res.withdraw,
            decimals: v.decimals_y,
            pool_signed: true,
        }
    } else {
        TokenTransfer {
            from: accounts[3].key,
            to: accounts[5].key,
            mint: accounts[1].key,
            authority: accounts[9].key,
            amount: res.withdraw,
            decimals: v.decimals_x,
            pool_signed: true,
        }
    };
    Ok(
        SwapEffects {
            deposit,
            withdraw,
            pool_seed: v.config.seed,
            pool_bump: v.config.config_bump,
        },
    )
}

} // verus!
