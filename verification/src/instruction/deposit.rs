//! Deposit: add liquidity to the pool. The caller requests a pool-share
//! amount; in the bootstrap state the caller's maximums are deposited
//! verbatim, otherwise each asset amount is the requested share of the
//! current reserves, rounded up. The handler stages both asset transfers
//! into the vaults and the share mint to the caller.

use vstd::prelude::*;

use crate::accounts::{mint_of, raw_of, token_of, AccountView};
use crate::bytes::{le64, read_u64_le};
use crate::curve;
use crate::effects::{DepositEffects, MintShares, TokenTransfer};
use crate::error::{AmmError, CustomError};
use crate::state::{config_bump_of, config_seed_of};
use crate::validation::{pool_validation_error, validate_pool_accounts};

verus! {

/// The byte-packed Deposit payload: requested pool shares and the caller's
/// per-asset maximums for the bootstrap path, all little-endian.
#[derive(Clone, Copy, Debug, PartialEq, Eq, Structural)]
pub struct DepositInstructionData {
    pub amount: u64,
    pub max_x: u64,
    pub max_y: u64,
}

/// The requested share amount in a Deposit payload.
pub open spec fn deposit_amount_of(data: Seq<u8>) -> int
    recommends
        data.len() == DepositInstructionData::LEN,
{
    le64(data.subrange(0, 8))
}

/// The X-asset maximum in a Deposit payload.
pub open spec fn deposit_max_x_of(data: Seq<u8>) -> int
    recommends
        data.len() == DepositInstructionData::LEN,
{
    le64(data.subrange(8, 16))
}

/// The Y-asset maximum in a Deposit payload.
pub open spec fn deposit_max_y_of(data: Seq<u8>) -> int
    recommends
        data.len() == DepositInstructionData::LEN,
{
    le64(data.subrange(16, 24))
}

impl DepositInstructionData {
    /// Size of the payload record.
    pub const LEN: usize = 24;

    /// Parses the payload; exactly `LEN` bytes are accepted.
    pub fn try_from_bytes(data: &[u8]) -> (r: Result<DepositInstructionData, AmmError>)
        ensures
            r is Ok <==> data@.len() == DepositInstructionData::LEN,
            r is Ok ==> ({
                let d = r.unwrap();
                &&& d.amount == deposit_amount_of(data@)
                &&& d.max_x == deposit_max_x_of(data@)
                &&& d.max_y == deposit_max_y_of(data@)
            }),
            r is Err ==> r == Err::<DepositInstructionData, AmmError>(
                AmmError::InvalidInstructionData,
            ),
    {
        if data.len() != DepositInstructionData::LEN {
            return Err(AmmError::InvalidInstructionData);
        }
        let amount = read_u64_le(data, 0);
        let max_x = read_u64_le(data, 8);
        let max_y = read_u64_le(data, 16);
        Ok(DepositInstructionData { amount, max_x, max_y })
    }
}

/// The error a Deposit call fails with, or nothing when it succeeds: the
/// structural checks in their checking order, then the curve's feasibility
/// of the requested amounts.
pub open spec fn deposit_error(accounts: Seq<AccountView>, data: Seq<u8>) -> Option<AmmError> {
    if accounts.len() != 12 {
        Some(AmmError::NotEnoughAccountKeys)
    } else if !accounts[0].is_signer {
        Some(AmmError::MissingRequiredSignature)
    } else if data.len() != DepositInstructionData::LEN {
        Some(AmmError::InvalidInstructionData)
    } else if pool_validation_error(accounts) is Some {
        pool_validation_error(accounts)
    } else {
        let rx = token_of(accounts[3]).unwrap().amount as int;
        let ry = token_of(accounts[4]).unwrap().amount as int;
        let supply = mint_of(accounts[7]).unwrap().supply as int;
        if curve::bootstrap(rx, ry, supply) {
            None
        } else if curve::deposit_ok(rx, ry, supply, deposit_amount_of(data)) {
            None
        } else {
            Some(AmmError::Custom(CustomError::InvalidDeposit))
        }
    }
}

/// What a successful Deposit stages: the two asset amounts — the caller's
/// maximums in the bootstrap state, the requested share of each reserve
/// rounded up otherwise — move from the user's token accounts into the
/// vaults under the user's signature, and the requested share amount is
/// minted to the user under the pool's derived authority.
pub open spec fn deposit_effects_correct(
    accounts: Seq<AccountView>,
    data: Seq<u8>,
    e: DepositEffects,
) -> bool
    recommends
        accounts.len() == 12,
        data.len() == DepositInstructionData::LEN,
{
    let record = raw_of(accounts[9]).unwrap();
    let rx = token_of(accounts[3]).unwrap().amount as int;
    let ry = token_of(accounts[4]).unwrap().amount as int;
    let supply = mint_of(accounts[7]).unwrap().supply as int;
    let amount = deposit_amount_of(data);
    let x: int = if curve::bootstrap(rx, ry, supply) {
        deposit_max_x_of(data)
    } else {
        curve::proportional_ceil(rx, supply, amount)
    };
    let y: int = if curve::bootstrap(rx, ry, supply) {
        deposit_max_y_of(data)
    } else {
        curve::proportional_ceil(ry, supply, amount)
    };
    &&& e.transfer_x.from == accounts[5].key
    &&& e.transfer_x.to == accounts[3].key
    &&& e.transfer_x.mint == accounts[1].key
    &&& e.transfer_x.authority == accounts[0].key
    &&& e.transfer_x.amount == x
    &&& e.transfer_x.decimals == mint_of(accounts[1]).unwrap().decimals
    &&& !e.transfer_x.pool_signed
    &&& e.transfer_y.from == accounts[6].key
    &&& e.transfer_y.to == accounts[4].key
    &&& e.transfer_y.mint == accounts[2].key
    &&& e.transfer_y.authority == accounts[0].key
    &&& e.transfer_y.amount == y
    &&& e.transfer_y.decimals == mint_of(accounts[2]).unwrap().decimals
    &&& !e.transfer_y.pool_signed
    &&& e.mint_shares.mint == accounts[7].key
    &&& e.mint_shares.to == accounts[8].key
    &&& e.mint_shares.mint_authority == accounts[9].key
    &&& e.mint_shares.amount == deposit_amount_of(data)
    &&& e.pool_seed == config_seed_of(record)
    &&& e.pool_bump == config_bump_of(record)
}

/// Law: a proportional deposit call never leaves the pool
/// under-collateralized. Each amount it stages covers the minted share of
/// that reserve, `x * supply >= requested * reserve`, and exceeds it by
/// less than one part in the supply — post-deposit the charged ratio
/// matches the share ratio up to rounding in the pool's favor.
pub proof fn lemma_deposit_call_collateral(accounts: Seq<AccountView>, data: Seq<u8>)
    requires
        deposit_error(accounts, data) is None,
        !curve::bootstrap(
            token_of(accounts[3]).unwrap().amount as int,
            token_of(accounts[4]).unwrap().amount as int,
            mint_of(accounts[7]).unwrap().supply as int,
        ),
    ensures
        ({
            let rx = token_of(accounts[3]).unwrap().amount as int;
            let ry = token_of(accounts[4]).unwrap().amount as int;
            let supply = mint_of(accounts[7]).unwrap().supply as int;
            let amount = deposit_amount_of(data);
            let x = curve::proportional_ceil(rx, supply, amount);
            let y = curve::proportional_ceil(ry, supply, amount);
            &&& x * supply >= amount * rx
            &&& x * supply < amount * rx + supply
            &&& y * supply >= amount * ry
            &&& y * supply < amount * ry + supply
        }),
{
    let rx = token_of(accounts[3]).unwrap().amount as int;
    let ry = token_of(accounts[4]).unwrap().amount as int;
    let supply = mint_of(accounts[7]).unwrap().supply as int;
    let amount = deposit_amount_of(data);
    curve::lemma_proportional_deposit_collateral(rx, supply, amount);
    curve::lemma_proportional_deposit_collateral(ry, supply, amount);
}

/// Law: a deposit accepted while no pool shares are outstanding is a
/// bootstrap deposit — both reserves are zero. A pool whose reserves back
/// no shares never accepts a proportional deposit, so shares are minted
/// against collateral from the first deposit on.
pub proof fn lemma_deposit_zero_supply_is_bootstrap(accounts: Seq<AccountView>, data: Seq<u8>)
    requires
        deposit_error(accounts, data) is None,
        mint_of(accounts[7]).unwrap().supply == 0,
    ensures
        token_of(accounts[3]).unwrap().amount == 0,
        token_of(accounts[4]).unwrap().amount == 0,
{
}

/// Processes a Deposit call: validates the accounts, computes the asset
/// amounts with the curve engine, and stages the two vault transfers and
/// the share mint. No effect is staged on any failure.
pub fn process_deposit(accounts: &[AccountView], data: &[u8]) -> (r: Result<
    DepositEffects,
    AmmError,
>)
    ensures
        r is Err <==> deposit_error(accounts@, data@) is Some,
        r is Err ==> r == Err::<DepositEffects, AmmError>(deposit_error(accounts@, data@).unwrap()),
        r is Ok ==> deposit_effects_correct(accounts@, data@, r.unwrap()),
{
    if accounts.len() != 12 {
        return Err(AmmError::NotEnoughAccountKeys);
    }
    if !accounts[0].is_signer {
        return Err(AmmError::MissingRequiredSignature);
    }
    let ix = match DepositInstructionData::try_from_bytes(data) {
        Ok(ix) => ix,
        Err(e) => {
            return Err(e);
        },
    };
    let v = match validate_pool_accounts(accounts) {
        Ok(v) => v,
        Err(e) => {
            return Err(e);
        },
    };
    let (x, y) = match curve::deposit_amounts(
        v.vault_x_amount,
        v.vault_y_amount,
        v.lp_supply,
        ix.amount,
        ix.max_x,
        ix.max_y,
    ) {
        Ok(amounts) => amounts,
        Err(e) => {
            return Err(AmmError::Custom(e));
        },
    };
    Ok(
        DepositEffects {
            transfer_x: TokenTransfer {
                from: accounts[5].key,
                to: accounts[3].key,
                mint: accounts[1].key,
                authority: accounts[0].key,
                amount: x,
                decimals: v.decimals_x,
                pool_signed: false,
            },
            transfer_y: TokenTransfer {
                from: accounts[6].key,
                to: accounts[4].key,
                mint: accounts[2].key,
                authority: accounts[0].key,
                amount: y,
                decimals: v.decimals_y,
                pool_signed: false,
            },
            mint_shares: MintShares {
                mint: accounts[7].key,
                to: accounts[8].key,
                mint_authority: accounts[9].key,
                amount: ix.amount,
            },
            pool_seed: v.config.seed,
            pool_bump: v.config.config_bump,
        },
    )
}

} // verus!
