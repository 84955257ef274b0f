//! Withdraw: remove liquidity, symmetric to Deposit. The caller burns a
//! pool-share amount; each asset payout is the burned share of the current
//! reserve, rounded down in the pool's favor, and must not exceed the
//! caller's per-asset bound. The handler stages the share burn and both
//! vault payouts, the payouts signed by the pool's derived authority.

use vstd::prelude::*;

use crate::accounts::{mint_of, raw_of, token_of, AccountView};
use crate::bytes::{le64, read_u64_le};
use crate::curve;
use crate::effects::{BurnShares, TokenTransfer, WithdrawEffects};
use crate::error::{AmmError, CustomError};
use crate::state::{config_bump_of, config_seed_of};
use crate::validation::{pool_validation_error, validate_pool_accounts};

verus! {

/// The byte-packed Withdraw payload: the share amount to burn and the
/// caller's per-asset maximum payouts, all little-endian.
#[derive(Clone, Copy, Debug, PartialEq, Eq, Structural)]
pub struct WithdrawInstructionData {
    pub amount: u64,
    pub max_x: u64,
    pub max_y: u64,
}

/// The share amount to burn in a Withdraw payload.
pub open spec fn withdraw_amount_of(data: Seq<u8>) -> int
    recommends
        data.len() == WithdrawInstructionData::LEN,
{
    le64(data.subrange(0, 8))
}

/// The X-asset bound in a Withdraw payload.
pub open spec fn withdraw_max_x_of(data: Seq<u8>) -> int
    recommends
        data.len() == WithdrawInstructionData::LEN,
{
    le64(data.subrange(8, 16))
}

/// The Y-asset bound in a Withdraw payload.
pub open spec fn withdraw_max_y_of(data: Seq<u8>) -> int
    recommends
        data.len() == WithdrawInstructionData::LEN,
{
    le64(data.subrange(16, 24))
}

impl WithdrawInstructionData {
    /// Size of the payload record.
    pub const LEN: usize = 24;

    /// Parses the payload; exactly `LEN` bytes are accepted.
    pub fn try_from_bytes(data: &[u8]) -> (r: Result<WithdrawInstructionData, AmmError>)
        ensures
            r is Ok <==> data@.len() == WithdrawInstructionData::LEN,
            r is Ok ==> ({
                let d = r.unwrap();
                &&& d.amount == withdraw_amount_of(data@)
                &&& d.max_x == withdraw_max_x_of(data@)
                &&& d.max_y == withdraw_max_y_of(data@)
            }),
            r is Err ==> r == Err::<WithdrawInstructionData, AmmError>(
                AmmError::InvalidInstructionData,
            ),
    {
        if data.len() != WithdrawInstructionData::LEN {
            return Err(AmmError::InvalidInstructionData);
        }
        let amount = read_u64_le(data, 0);
        let max_x = read_u64_le(data, 8);
        let max_y = read_u64_le(data, 16);
        Ok(WithdrawInstructionData { amount, max_x, max_y })
    }
}

/// The error a Withdraw call fails with, or nothing when it succeeds: the
/// structural checks in their checking order, then the curve's feasibility
/// of the payouts under the caller's bounds.
pub open spec fn withdraw_error(accounts: Seq<AccountView>, data: Seq<u8>) -> Option<AmmError> {
    if accounts.len() != 12 {
        Some(AmmError::NotEnoughAccountKeys)
    } else if !accounts[0].is_signer {
        Some(AmmError::MissingRequiredSignature)
    } else if data.len() != WithdrawInstructionData::LEN {
        Some(AmmError::InvalidInstructionData)
    } else if pool_validation_error(accounts) is Some {
        pool_validation_error(accounts)
    } else {
        let rx = token_of(accounts[3]).unwrap().amount as int;
        let ry = token_of(accounts[4]).unwrap().amount as int;
        let supply = mint_of(accounts[7]).unwrap().supply as int;
        if curve::withdraw_ok(
            rx,
            ry,
            supply,
            withdraw_amount_of(data),
            withdraw_max_x_of(data),
            withdraw_max_y_of(data),
        ) {
            None
        } else {
            Some(AmmError::Custom(CustomError::InvalidWithdrawal))
        }
    }
}

/// What a successful Withdraw stages: the burned share amount leaves the
/// user's pool-share account under the user's signature, and each asset's
/// rounded-down payout moves from its vault to the user's token account
/// under the pool's derived authority.
pub open spec fn withdraw_effects_correct(
    accounts: Seq<AccountView>,
    data: Seq<u8>,
    e: WithdrawEffects,
) -> bool
    recommends
        accounts.len() == 12,
        data.len() == WithdrawInstructionData::LEN,
{
    let record = raw_of(accounts[9]).unwrap();
    let rx = token_of(accounts[3]).unwrap().amount as int;
    let ry = token_of(accounts[4]).unwrap().amount as int;
    let supply = mint_of(accounts[7]).unwrap().supply as int;
    let burn = withdraw_amount_of(data);
    &&& e.burn.mint == accounts[7].key
    &&& e.burn.from == accounts[8].key
    &&& e.burn.authority == accounts[0].key
    &&& e.burn.amount == burn
    &&& e.transfer_x.from == accounts[3].key
    &&& e.transfer_x.to == accounts[5].key
    &&& e.transfer_x.mint == accounts[1].key
    &&& e.transfer_x.authority == accounts[9].key
    &&& e.transfer_x.amount == curve::proportional_floor(rx, supply, burn)
    &&& e.transfer_x.decimals == mint_of(accounts[1]).unwrap().decimals
    &&& e.transfer_x.pool_signed
    &&& e.transfer_y.from == accounts[4].key
    &&& e.transfer_y.to == accounts[6].key
    &&& e.transfer_y.mint == accounts[2].key
    &&& e.transfer_y.authority == accounts[9].key
    &&& e.transfer_y.amount == curve::proportional_floor(ry, supply, burn)
    &&& e.transfer_y.decimals == mint_of(accounts[2]).unwrap().decimals
    &&& e.transfer_y.pool_signed
    &&& e.pool_seed == config_seed_of(record)
    &&& e.pool_bump == config_bump_of(record)
}

/// Law: a withdrawal call never over-pays. Each amount it stages stays
/// within the burned share of that reserve, `x * supply <= burn * reserve`
/// — the rounding favors the pool, so burning shares can never drain more
/// than they represent.
pub proof fn lemma_withdraw_call_bound(accounts: Seq<AccountView>, data: Seq<u8>)
    requires
        withdraw_error(accounts, data) is None,
    ensures
        ({
            let rx = token_of(accounts[3]).unwrap().amount as int;
            let ry = token_of(accounts[4]).unwrap().amount as int;
            let supply = mint_of(accounts[7]).unwrap().supply as int;
            let burn = withdraw_amount_of(data);
            &&& curve::proportional_floor(rx, supply, burn) * supply <= burn * rx
            &&& curve::proportional_floor(ry, supply, burn) * supply <= burn * ry
        }),
{
    let rx = token_of(accounts[3]).unwrap().amount as int;
    let ry = token_of(accounts[4]).unwrap().amount as int;
    let supply = mint_of(accounts[7]).unwrap().supply as int;
    let burn = withdraw_amount_of(data);
    curve::lemma_proportional_withdraw_bound(rx, supply, burn);
    curve::lemma_proportional_withdraw_bound(ry, supply, burn);
}

/// Processes a Withdraw call: validates the accounts, computes the payouts
/// with the curve engine, and stages the burn and both vault payouts. No
/// effect is staged on any failure.
pub fn process_withdraw(accounts: &[AccountView], data: &[u8]) -> (r: Result<
    WithdrawEffects,
    AmmError,
>)
    ensures
        r is Err <==> withdraw_error(accounts@, data@) is Some,
        r is Err ==> r == Err::<WithdrawEffects, AmmError>(
            withdraw_error(accounts@, data@).unwrap(),
        ),
        r is Ok ==> withdraw_effects_correct(accounts@, data@, r.unwrap()),
{
    if accounts.len() != 12 {
        return Err(AmmError::NotEnoughAccountKeys);
    }
    if !accounts[0].is_signer {
        return Err(AmmError::MissingRequiredSignature);
    }
    let ix = match WithdrawInstructionData::try_from_bytes(data) {
        Ok(ix) => ix,
        Err(e) => {
            return Err(e);
        },
    };
    let v = match validate_pool_accounts(accounts) {
        Ok(v) => v,
        Err(e) => {
            return Err(e);
        },
    };
    let (x, y) = match curve::withdraw_amounts(
        v.vault_x_amount,
        v.vault_y_amount,
        v.lp_supply,
        ix.amount,
        ix.max_x,
        ix.max_y,
    ) {
        Ok(amounts) => amounts,
        Err(e) => {
            return Err(AmmError::Custom(e));
        },
    };
    Ok(
        WithdrawEffects {
            burn: BurnShares {
                mint: accounts[7].key,
                from: accounts[8].key,
                authority: accounts[0].key,
                amount: ix.amount,
            },
            transfer_x: TokenTransfer {
                from: accounts[3].key,
                to: accounts[5].key,
                mint: accounts[1].key,
                authority: accounts[9].key,
                amount: x,
                decimals: v.decimals_x,
                pool_signed: true,
            },
            transfer_y: TokenTransfer {
                from: accounts[4].key,
                to: accounts[6].key,
                mint: accounts[2].key,
                authority: accounts[9].key,
                amount: y,
                decimals: v.decimals_y,
                pool_signed: true,
            },
            pool_seed: v.config.seed,
            pool_bump: v.config.config_bump,
        },
    )
}

} // verus!
