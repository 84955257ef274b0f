//! End-to-end handler scenarios over the repository's test fixture: a pool
//! with a 500 basis-point fee, square reserves of 100_000_000 and the same
//! pool-share supply, driven through the real address derivation.

use pinocchio_amm::accounts::{AccountContent, AccountView, MintView, TokenAccountView};
use pinocchio_amm::bytes::{push_u16_le, push_u64_le};
use pinocchio_amm::effects::Effects;
use pinocchio_amm::error::{AmmError, CustomError};
use pinocchio_amm::instruction::deposit::process_deposit;
use pinocchio_amm::instruction::initialize::process_initialize;
use pinocchio_amm::instruction::swap::process_swap;
use pinocchio_amm::instruction::withdraw::process_withdraw;
use pinocchio_amm::pda::pool_key;
use pinocchio_amm::process_instruction;
use pinocchio_amm::state::Config;

fn key(b: u8) -> [u8; 32] {
    [b; 32]
}

/// The derivation the pool's creator performs off-chain: the first bump,
/// from 255 downward, whose derivation is valid.
fn find_pool(seed: u64) -> ([u8; 32], u8) {
    let mut bump = 255u8;
    loop {
        if let Some(k) = pool_key(seed, bump) {
            return (k, bump);
        }
        bump -= 1;
    }
}

fn wallet(k: [u8; 32], signer: bool) -> AccountView {
    AccountView { key: k, is_signer: signer, content: AccountContent::Raw(vec![]) }
}

fn mint(k: [u8; 32], authority: Option<[u8; 32]>, supply: u64) -> AccountView {
    AccountView {
        key: k,
        is_signer: false,
        content: AccountContent::Mint(MintView { mint_authority: authority, supply, decimals: 6 }),
    }
}

fn token(k: [u8; 32], asset: [u8; 32], owner: [u8; 32], amount: u64) -> AccountView {
    AccountView {
        key: k,
        is_signer: false,
        content: AccountContent::Token(TokenAccountView { mint: asset, owner, amount }),
    }
}

/// The twelve-account list of a Deposit/Swap/Withdraw call against the
/// standard fixture pool.
fn pool_accounts(seed: u64, fee: u16, rx: u64, ry: u64, supply: u64) -> Vec<AccountView> {
    let (config_key, bump) = find_pool(seed);
    let config = Config {
        seed,
        authority: key(0),
        mint_x: key(2),
        mint_y: key(3),
        fee,
        config_bump: bump,
    };
    vec![
        wallet(key(1), true),
        mint(key(2), None, 100_000_000),
        mint(key(3), None, 100_000_000),
        token(key(4), key(2), config_key, rx),
        token(key(5), key(3), config_key, ry),
        token(key(6), key(2), key(1), 100_000_000),
        token(key(7), key(3), key(1), 100_000_000),
        mint(key(8), Some(config_key), supply),
        token(key(9), key(8), key(1), 100_000_000),
        AccountView {
            key: config_key,
            is_signer: true,
            content: AccountContent::Raw(config.to_bytes()),
        },
        wallet(key(10), false),
        wallet(key(11), false),
    ]
}

fn deposit_data(amount: u64, max_x: u64, max_y: u64) -> Vec<u8> {
    let mut d: Vec<u8> = Vec::new();
    push_u64_le(&mut d, amount);
    push_u64_le(&mut d, max_x);
    push_u64_le(&mut d, max_y);
    d
}

fn swap_data(is_x: u8, amount: u64, min: u64) -> Vec<u8> {
    let mut d: Vec<u8> = vec![is_x];
    push_u64_le(&mut d, amount);
    push_u64_le(&mut d, min);
    d
}

fn initialize_data(seed: u64, fee: u16, bump: u8) -> Vec<u8> {
    let mut d: Vec<u8> = Vec::new();
    push_u64_le(&mut d, seed);
    push_u16_le(&mut d, fee);
    d.push(bump);
    d
}

/// The nine-account list of an Initialize call.
fn initialize_accounts(config_key: [u8; 32]) -> Vec<AccountView> {
    vec![
        wallet(key(1), true),
        mint(key(2), None, 100_000_000),
        mint(key(3), None, 100_000_000),
        token(key(4), key(2), config_key, 100_000_000),
        token(key(5), key(3), config_key, 100_000_000),
        mint(key(6), Some(config_key), 100_000_000),
        wallet(config_key, true),
        wallet(key(10), false),
        wallet(key(11), false),
    ]
}

#[test]
fn test_initialize() {
    let seed: u64 = 1;
    let (config_key, bump) = find_pool(seed);
    let accounts = initialize_accounts(config_key);
    let data = initialize_data(seed, 500, bump);
    let e = process_initialize(&accounts, &data, 1_234_567).unwrap();
    assert_eq!(e.create.from, key(1));
    assert_eq!(e.create.to, config_key);
    assert_eq!(e.create.space, Config::LEN as u64);
    assert_eq!(e.create.lamports, 1_234_567);
    assert_eq!(e.config.seed, seed);
    assert_eq!(e.config.authority, key(1));
    assert_eq!(e.config.mint_x, key(2));
    assert_eq!(e.config.mint_y, key(3));
    assert_eq!(e.config.fee, 500);
    assert_eq!(e.config.config_bump, bump);
}

#[test]
fn test_initialize_rejects_wrong_address() {
    // A supplied record account that is not the derived address fails with
    // the structural invalid-account-data error.
    let seed: u64 = 1;
    let (_, bump) = find_pool(seed);
    let accounts = initialize_accounts(key(42));
    let data = initialize_data(seed, 500, bump);
    assert_eq!(
        process_initialize(&accounts, &data, 0),
        Err(AmmError::InvalidAccountData)
    );
}

#[test]
fn test_initialize_determinism() {
    // Two Initialize calls with the same seed material derive the same
    // pool address, whatever their fee; different seeds derive different
    // addresses.
    let (k1, b1) = find_pool(1);
    let accounts = initialize_accounts(k1);
    let e1 = process_initialize(&accounts, &initialize_data(1, 500, b1), 0).unwrap();
    let e2 = process_initialize(&accounts, &initialize_data(1, 0, b1), 0).unwrap();
    assert_eq!(e1.create.to, e2.create.to);
    let (k2, _) = find_pool(2);
    assert_ne!(k1, k2);
}

#[test]
fn test_pool_key_known_answer() {
    // The derivation pinned to its reference value: seed 1 derives at bump
    // 255, and the next bump down has no valid derivation.
    let expected: [u8; 32] = [
        202, 60, 168, 181, 235, 140, 239, 64, 40, 167, 34, 218, 112, 106, 143, 33, 24, 244, 176,
        3, 150, 193, 218, 133, 245, 21, 1, 86, 171, 182, 174, 239,
    ];
    assert_eq!(pool_key(1, 255), Some(expected));
    assert_eq!(pool_key(1, 254), None);
    assert_eq!(pool_key(1, 255), pool_key(1, 255));
}

#[test]
fn test_deposit() {
    let accounts = pool_accounts(1, 500, 100_000_000, 100_000_000, 100_000_000);
    let e = process_deposit(&accounts, &deposit_data(100, 50, 50)).unwrap();
    // 100 shares of a 100_000_000-share pool over equal reserves: 100 of
    // each asset, the maximums being bootstrap-only.
    assert_eq!(e.transfer_x.amount, 100);
    assert_eq!(e.transfer_y.amount, 100);
    assert_eq!(e.mint_shares.amount, 100);
    assert_eq!(e.transfer_x.from, key(6));
    assert_eq!(e.transfer_x.to, key(4));
    assert_eq!(e.transfer_x.authority, key(1));
    assert!(!e.transfer_x.pool_signed);
    assert_eq!(e.transfer_y.from, key(7));
    assert_eq!(e.transfer_y.to, key(5));
    assert_eq!(e.mint_shares.mint, key(8));
    assert_eq!(e.mint_shares.to, key(9));
    assert_eq!(e.mint_shares.mint_authority, accounts[9].key);
    assert_eq!(e.pool_seed, 1);
    assert_eq!(e.pool_bump, accounts_bump(&accounts));
}

fn accounts_bump(accounts: &[AccountView]) -> u8 {
    match &accounts[9].content {
        AccountContent::Raw(d) => Config::load(d).unwrap().config_bump,
        _ => unreachable!(),
    }
}

#[test]
fn test_deposit_bootstrap() {
    // An empty pool takes the caller's maximums verbatim.
    let accounts = pool_accounts(1, 500, 0, 0, 0);
    let e = process_deposit(&accounts, &deposit_data(100, 50, 60)).unwrap();
    assert_eq!(e.transfer_x.amount, 50);
    assert_eq!(e.transfer_y.amount, 60);
    assert_eq!(e.mint_shares.amount, 100);
}

#[test]
fn test_deposit_rejects_infeasible() {
    // Shares outstanding but empty reserves: the curve reports an invalid
    // deposit.
    let accounts = pool_accounts(1, 500, 0, 0, 100);
    assert_eq!(
        process_deposit(&accounts, &deposit_data(100, 50, 60)),
        Err(AmmError::Custom(CustomError::InvalidDeposit))
    );
}

#[test]
fn test_swap() {
    let accounts = pool_accounts(1, 500, 100_000_000, 100_000_000, 100_000_000);
    let e = process_swap(&accounts, &swap_data(1, 100, 90)).unwrap();
    assert_eq!(e.deposit.amount, 100);
    assert_eq!(e.withdraw.amount, 94);
    assert!(e.withdraw.amount >= 90 && e.withdraw.amount < 100);
    // Selling X: payment goes from the user's X account into vault X,
    // payout from vault Y to the user's Y account under the pool's
    // signature.
    assert_eq!(e.deposit.from, key(6));
    assert_eq!(e.deposit.to, key(4));
    assert_eq!(e.deposit.authority, key(1));
    assert!(!e.deposit.pool_signed);
    assert_eq!(e.withdraw.from, key(5));
    assert_eq!(e.withdraw.to, key(7));
    assert_eq!(e.withdraw.authority, accounts[9].key);
    assert!(e.withdraw.pool_signed);
}

#[test]
fn test_swap_min_too_high_fails() {
    // The second fixture scenario: min = 100 exceeds the true output 94.
    let accounts = pool_accounts(1, 500, 100_000_000, 100_000_000, 100_000_000);
    assert_eq!(
        process_swap(&accounts, &swap_data(1, 100, 100)),
        Err(AmmError::Custom(CustomError::InvalidSwap))
    );
}

#[test]
fn test_swap_rejects_bad_selector() {
    let accounts = pool_accounts(1, 500, 100_000_000, 100_000_000, 100_000_000);
    assert_eq!(
        process_swap(&accounts, &swap_data(2, 100, 90)),
        Err(AmmError::InvalidAccountData)
    );
}

#[test]
fn test_withdraw() {
    let accounts = pool_accounts(1, 500, 100_000_000, 100_000_000, 100_000_000);
    let e = process_withdraw(&accounts, &deposit_data(100, 100, 100)).unwrap();
    assert_eq!(e.burn.amount, 100);
    assert_eq!(e.burn.mint, key(8));
    assert_eq!(e.burn.from, key(9));
    assert_eq!(e.burn.authority, key(1));
    assert_eq!(e.transfer_x.amount, 100);
    assert_eq!(e.transfer_y.amount, 100);
    assert_eq!(e.transfer_x.from, key(4));
    assert_eq!(e.transfer_x.to, key(6));
    assert!(e.transfer_x.pool_signed);
    assert_eq!(e.transfer_y.from, key(5));
    assert_eq!(e.transfer_y.to, key(7));
    assert!(e.transfer_y.pool_signed);
}

#[test]
fn test_withdraw_exceeds_bound_fails() {
    // The payout of 100 per asset exceeds a caller bound of 50.
    let accounts = pool_accounts(1, 500, 100_000_000, 100_000_000, 100_000_000);
    assert_eq!(
        process_withdraw(&accounts, &deposit_data(100, 50, 50)),
        Err(AmmError::Custom(CustomError::InvalidWithdrawal))
    );
}

#[test]
fn test_structural_errors() {
    let accounts = pool_accounts(1, 500, 100_000_000, 100_000_000, 100_000_000);
    // Wrong account count.
    assert_eq!(
        process_deposit(&accounts[..11], &deposit_data(100, 50, 50)),
        Err(AmmError::NotEnoughAccountKeys)
    );
    // Missing signature.
    let mut unsigned = accounts.clone();
    unsigned[0].is_signer = false;
    assert_eq!(
        process_deposit(&unsigned, &deposit_data(100, 50, 50)),
        Err(AmmError::MissingRequiredSignature)
    );
    // Wrong payload size.
    assert_eq!(
        process_deposit(&accounts, &[0u8; 23]),
        Err(AmmError::InvalidInstructionData)
    );
    // A record account at the wrong address.
    let mut moved = accounts.clone();
    moved[9].key = key(42);
    assert_eq!(
        process_deposit(&moved, &deposit_data(100, 50, 50)),
        Err(AmmError::InvalidAccountData)
    );
    // A vault owned by someone other than the pool.
    let mut stolen = accounts.clone();
    stolen[3] = token(key(4), key(2), key(1), 100_000_000);
    assert_eq!(
        process_swap(&stolen, &swap_data(1, 100, 90)),
        Err(AmmError::InvalidAccountData)
    );
    // A share mint whose authority is not the pool.
    let mut wrong_mint = accounts.clone();
    wrong_mint[7] = mint(key(8), Some(key(1)), 100_000_000);
    assert_eq!(
        process_withdraw(&wrong_mint, &deposit_data(100, 100, 100)),
        Err(AmmError::InvalidAccountData)
    );
}

#[test]
fn test_invalid_seeds() {
    // A stored bump with no valid derivation fails before any address
    // comparison. For seed 1 the bump below the canonical one derives no
    // address.
    let seed: u64 = 1;
    let (config_key, bump) = find_pool(seed);
    assert_eq!(bump, 255);
    let mut accounts = pool_accounts(seed, 500, 100_000_000, 100_000_000, 100_000_000);
    let config = Config {
        seed,
        authority: key(0),
        mint_x: key(2),
        mint_y: key(3),
        fee: 500,
        config_bump: 254,
    };
    accounts[9] = AccountView {
        key: config_key,
        is_signer: true,
        content: AccountContent::Raw(config.to_bytes()),
    };
    assert_eq!(
        process_deposit(&accounts, &deposit_data(100, 50, 50)),
        Err(AmmError::InvalidSeeds)
    );
}

#[test]
fn test_router_dispatch() {
    let accounts = pool_accounts(1, 500, 100_000_000, 100_000_000, 100_000_000);
    let mut payload: Vec<u8> = vec![2];
    payload.extend_from_slice(&swap_data(1, 100, 90));
    match process_instruction(&accounts, &payload, 0).unwrap() {
        Effects::Swap(e) => {
            assert_eq!(e.deposit.amount, 100);
            assert_eq!(e.withdraw.amount, 94);
        },
        other => panic!("routed to the wrong handler: {:?}", other),
    }
    let mut deposit_payload: Vec<u8> = vec![1];
    deposit_payload.extend_from_slice(&deposit_data(100, 50, 50));
    assert!(matches!(
        process_instruction(&accounts, &deposit_payload, 0),
        Ok(Effects::Deposit(_))
    ));
    let mut withdraw_payload: Vec<u8> = vec![3];
    withdraw_payload.extend_from_slice(&deposit_data(100, 100, 100));
    assert!(matches!(
        process_instruction(&accounts, &withdraw_payload, 0),
        Ok(Effects::Withdraw(_))
    ));
}

#[test]
fn test_router_rejects_bad_payloads() {
    let accounts = pool_accounts(1, 500, 100_000_000, 100_000_000, 100_000_000);
    assert_eq!(
        process_instruction(&accounts, &[], 0),
        Err(AmmError::InvalidInstructionData)
    );
    assert_eq!(
        process_instruction(&accounts, &[9, 0, 0], 0),
        Err(AmmError::InvalidInstructionData)
    );
}
