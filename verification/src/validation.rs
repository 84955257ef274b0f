//! The account validator shared by Deposit, Swap and Withdraw. Those calls
//! pass the same ordered list of twelve accounts:
//!
//! 0. the acting user (must sign)       6. the user's Y token account
//! 1. the X asset mint                  7. the pool-share mint
//! 2. the Y asset mint                  8. the user's pool-share account
//! 3. vault X                           9. the pool's record account
//! 4. vault Y                          10. the account allocator (unread)
//! 5. the user's X token account       11. the token ledger (unread)
//!
//! The validator parses the record, re-derives the pool's address from the
//! stored seed and bump and compares it to the record account's address,
//! and checks every recorded owner and the share mint's authority.

use vstd::prelude::*;

use crate::accounts::{mint_of, raw_of, token_of, AccountView};
use crate::bytes::{keys_equal, le64_bytes};
use crate::error::AmmError;
use crate::pda::{pool_address, pool_key};
use crate::state::{config_bump_of, config_seed_of, Config};

verus! {

/// The first validation error for a twelve-account pool call, or nothing
/// when every check passes: the record account must hold a record of the
/// right size, its address must equal the re-derived pool address, both
/// vaults must be token accounts owned by the pool, the pool-share mint's
/// authority must be the pool, the user's three token accounts must be
/// owned by the user, and both asset mints must be mints.
pub open spec fn pool_validation_error(accounts: Seq<AccountView>) -> Option<AmmError>
    recommends
        accounts.len() == 12,
{
    let user = accounts[0];
    let cfg_acc = accounts[9];
    if raw_of(cfg_acc) is None || raw_of(cfg_acc).unwrap().len() != Config::LEN {
        Some(AmmError::InvalidAccountData)
    } else {
        let record = raw_of(cfg_acc).unwrap();
        let derived = pool_address(le64_bytes(config_seed_of(record)), config_bump_of(record));
        if derived is None {
            Some(AmmError::InvalidSeeds)
        } else if cfg_acc.key@ != derived.unwrap() {
            Some(AmmError::InvalidAccountData)
        } else if token_of(accounts[3]) is None || token_of(accounts[3]).unwrap().owner@
            != cfg_acc.key@ {
            Some(AmmError::InvalidAccountData)
        } else if token_of(accounts[4]) is None || token_of(accounts[4]).unwrap().owner@
            != cfg_acc.key@ {
            Some(AmmError::InvalidAccountData)
        } else if mint_of(accounts[7]) is None || mint_of(accounts[7]).unwrap().mint_authority
            is None || mint_of(accounts[7]).unwrap().mint_authority.unwrap()@ != cfg_acc.key@ {
            Some(AmmError::InvalidAccountData)
        } else if token_of(accounts[5]) is None || token_of(accounts[5]).unwrap().owner@
            != user.key@ {
            Some(AmmError::InvalidAccountData)
        } else if token_of(accounts[6]) is None || token_of(accounts[6]).unwrap().owner@
            != user.key@ {
            Some(AmmError::InvalidAccountData)
        } else if token_of(accounts[8]) is None || token_of(accounts[8]).unwrap().owner@
            != user.key@ {
            Some(AmmError::InvalidAccountData)
        } else if mint_of(accounts[1]) is None {
            Some(AmmError::InvalidAccountData)
        } else if mint_of(accounts[2]) is None {
            Some(AmmError::InvalidAccountData)
        } else {
            None
        }
    }
}

/// What a validated pool call works with: the parsed record and the
/// balances and precisions read from the validated accounts.
#[derive(Clone, Copy, Debug)]
pub struct ValidatedPool {
    pub config: Config,
    pub vault_x_amount: u64,
    pub vault_y_amount: u64,
    pub lp_supply: u64,
    pub decimals_x: u8,
    pub decimals_y: u8,
}

/// Runs the shared validator over a twelve-account pool call and reads out
/// the record, balances and precisions the handler computes with.
pub fn validate_pool_accounts(accounts: &[AccountView]) -> (r: Result<ValidatedPool, AmmError>)
    requires
        accounts@.len() == 12,
    ensures
        r is Ok <==> pool_validation_error(accounts@) is None,
        r is Err ==> r == Err::<ValidatedPool, AmmError>(pool_validation_error(accounts@).unwrap()),
        r is Ok ==> ({
            let v = r.unwrap();
            let record = raw_of(accounts@[9]).unwrap();
            &&& v.config.seed == config_seed_of(record)
            &&& v.config.fee == crate::state::config_fee_of(record)
            &&& v.config.config_bump == config_bump_of(record)
            &&& v.vault_x_amount == token_of(accounts@[3]).unwrap().amount
            &&& v.vault_y_amount == token_of(accounts@[4]).unwrap().amount
            &&& v.lp_supply == mint_of(accounts@[7]).unwrap().supply
            &&& v.decimals_x == mint_of(accounts@[1]).unwrap().decimals
            &&& v.decimals_y == mint_of(accounts@[2]).unwrap().decimals
        }),
{
    let config_account = &accounts[9];
    let config = match &config_account.content {
        crate::accounts::AccountContent::Raw(data) => match Config::load(data.as_slice()) {
            Ok(c) => c,
            Err(e) => {
                return Err(e);
            },
        },
        _ => {
            return Err(AmmError::InvalidAccountData);
        },
    };
    let derived = match pool_key(config.seed, config.config_bump) {
        Some(k) => k,
        None => {
            return Err(AmmError::InvalidSeeds);
        },
    };
    if !keys_equal(&config_account.key, &derived) {
        return Err(AmmError::InvalidAccountData);
    }
    let vault_x = match &accounts[3].content {
        crate::accounts::AccountContent::Token(t) => *t,
        _ => {
            return Err(AmmError::InvalidAccountData);
        },
    };
    if !keys_equal(&vault_x.owner, &config_account.key) {
        return Err(AmmError::InvalidAccountData);
    }
    let vault_y = match &accounts[4].content {
        crate::accounts::AccountContent::Token(t) => *t,
        _ => {
            return Err(AmmError::InvalidAccountData);
        },
    };
    if !keys_equal(&vault_y.owner, &config_account.key) {
        return Err(AmmError::InvalidAccountData);
    }
    let mint_lp = match &accounts[7].content {
        crate::accounts::AccountContent::Mint(m) => *m,
        _ => {
            return Err(AmmError::InvalidAccountData);
        },
    };
    match &mint_lp.mint_authority {
        Some(auth) => {
            if !keys_equal(auth, &config_account.key) {
                return Err(AmmError::InvalidAccountData);
            }
        },
        None => {
            return Err(AmmError::InvalidAccountData);
        },
    }
    let user_x = match &accounts[5].content {
        crate::accounts::AccountContent::Token(t) => *t,
        _ => {
            return Err(AmmError::InvalidAccountData);
        },
    };
    if !keys_equal(&user_x.owner, &accounts[0].key) {
        return Err(AmmError::InvalidAccountData);
    }
    let user_y = match &accounts[6].content {
        crate::accounts::AccountContent::Token(t) => *t,
        _ => {
            return Err(AmmError::InvalidAccountData);
        },
    };
    if !keys_equal(&user_y.owner, &accounts[0].key) {
        return Err(AmmError::InvalidAccountData);
    }
    let user_lp = match &accounts[8].content {
        crate::accounts::AccountContent::Token(t) => *t,
        _ => {
            return Err(AmmError::InvalidAccountData);
        },
    };
    if !keys_equal(&user_lp.owner, &accounts[0].key) {
        return Err(AmmError::InvalidAccountData);
    }
    let mint_x = match &accounts[1].content {
        crate::accounts::AccountContent::Mint(m) => *m,
        _ => {
            return Err(AmmError::InvalidAccountData);
        },
    };
    let mint_y = match &accounts[2].content {
        crate::accounts::AccountContent::Mint(m) => *m,
        _ => {
            return Err(AmmError::InvalidAccountData);
        },
    };
    Ok(
        ValidatedPool {
            config,
            vault_x_amount: vault_x.amount,
            vault_y_amount: vault_y.amount,
            lp_supply: mint_lp.supply,
            decimals_x: mint_x.decimals,
            decimals_y: mint_y.decimals,
        },
    )
}

} // verus!
