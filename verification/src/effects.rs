//! The staged side effects a handler decides on. A handler never moves a
//! balance itself: it returns these operation records, and the host adapter
//! submits them to the account allocator and the token-ledger collaborator
//! in order, inside the call's atomic unit of work. Pool-signed operations
//! are authorized by the pool's derived signature, which the host
//! reconstructs from the fixed prefix, `pool_seed` and `pool_bump`.

use vstd::prelude::*;

use crate::accounts::Pubkey;
use crate::state::Config;

verus! {

/// A checked transfer on the token ledger: move `amount` units of the
/// asset `mint` (with `decimals`) from `from` to `to`. `authority` signs:
/// the user personally, or the pool's derived address when `pool_signed`.
#[derive(Clone, Copy, Debug, PartialEq, Eq)]
pub struct TokenTransfer {
    pub from: Pubkey,
    pub to: Pubkey,
    pub mint: Pubkey,
    pub authority: Pubkey,
    pub amount: u64,
    pub decimals: u8,
    pub pool_signed: bool,
}

/// Mint `amount` pool shares of `mint` to `to`; the pool's derived address
/// is the mint authority and signs.
#[derive(Clone, Copy, Debug, PartialEq, Eq)]
pub struct MintShares {
    pub mint: Pubkey,
    pub to: Pubkey,
    pub mint_authority: Pubkey,
    pub amount: u64,
}

/// Burn `amount` pool shares of `mint` held in `from`; the holder signs.
#[derive(Clone, Copy, Debug, PartialEq, Eq)]
pub struct BurnShares {
    pub mint: Pubkey,
    pub from: Pubkey,
    pub authority: Pubkey,
    pub amount: u64,
}

/// Create the pool's record account at `to` with `space` bytes of storage,
/// funded with `lamports` from `from` and owned by the program.
#[derive(Clone, Copy, Debug, PartialEq, Eq)]
pub struct CreateAccount {
    pub from: Pubkey,
    pub to: Pubkey,
    pub space: u64,
    pub lamports: u64,
}

/// What Initialize stages: allocate the record account, then write the
/// configuration record into it.
#[derive(Clone, Copy, Debug, PartialEq, Eq)]
pub struct InitializeEffects {
    pub create: CreateAccount,
    pub config: Config,
}

/// What Deposit stages: both asset transfers into the vaults, then the
/// share mint. All three are requested; the host commits them atomically.
#[derive(Clone, Copy, Debug, PartialEq, Eq)]
pub struct DepositEffects {
    pub transfer_x: TokenTransfer,
    pub transfer_y: TokenTransfer,
    pub mint_shares: MintShares,
    pub pool_seed: u64,
    pub pool_bump: u8,
}

/// What Swap stages: the trader's payment into one vault, then the payout
/// from the other, pool-signed.
#[derive(Clone, Copy, Debug, PartialEq, Eq)]
pub struct SwapEffects {
    pub deposit: TokenTransfer,
    pub withdraw: TokenTransfer,
    pub pool_seed: u64,
    pub pool_bump: u8,
}

/// What Withdraw stages: the share burn, then both asset payouts from the
/// vaults, pool-signed.
#[derive(Clone, Copy, Debug, PartialEq, Eq)]
pub struct WithdrawEffects {
    pub burn: BurnShares,
    pub transfer_x: TokenTransfer,
    pub transfer_y: TokenTransfer,
    pub pool_seed: u64,
    pub pool_bump: u8,
}

/// The staged effects of one routed call.
#[derive(Clone, Copy, Debug, PartialEq, Eq)]
pub enum Effects {
    Initialize(InitializeEffects),
    Deposit(DepositEffects),
    Swap(SwapEffects),
    Withdraw(WithdrawEffects),
}

} // verus!
