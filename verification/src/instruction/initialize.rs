//! Initialize: create a pool. The payload carries the seed, the lifetime
//! fee rate, and the bump nonce; the supplied record account must sit at
//! the address those derive, the two vaults must already be owned by that
//! address, and the pool-share mint's authority must already point at it.
//! The handler stages the record account's creation and the record itself.
//! No asset moves.
//!
//! Account order: 0 the creator (must sign), 1 the X asset mint, 2 the Y
//! asset mint, 3 vault X, 4 vault Y, 5 the pool-share mint, 6 the pool's
//! record account, 7 the account allocator (unread), 8 the token ledger
//! (unread).

use vstd::prelude::*;

use crate::accounts::{mint_of, token_of, AccountView};
use crate::bytes::{le16, le64, read_u16_le, read_u64_le};
use crate::effects::{CreateAccount, InitializeEffects};
use crate::error::AmmError;
use crate::pda::{pool_address, pool_key};
use crate::state::Config;

verus! {

/// The byte-packed Initialize payload: the pool seed, the fee in basis
/// points, and the bump nonce, numeric fields little-endian.
#[derive(Clone, Copy, Debug, PartialEq, Eq, Structural)]
pub struct InitializeInstructionData {
    pub seed: u64,
    pub fee: u16,
    pub config_bump: u8,
}

/// The seed bytes of an Initialize payload.
pub open spec fn initialize_seed_bytes_of(data: Seq<u8>) -> Seq<u8>
    recommends
        data.len() == InitializeInstructionData::LEN,
{
    data.subrange(0, 8)
}

/// The fee field of an Initialize payload.
pub open spec fn initialize_fee_of(data: Seq<u8>) -> int
    recommends
        data.len() == InitializeInstructionData::LEN,
{
    le16(data.subrange(8, 10))
}

/// The bump field of an Initialize payload.
pub open spec fn initialize_bump_of(data: Seq<u8>) -> u8
    recommends
        data.len() == InitializeInstructionData::LEN,
{
    data[10]
}

impl InitializeInstructionData {
    /// Size of the payload record.
    pub const LEN: usize = 11;

    /// Parses the payload; exactly `LEN` bytes are accepted.
    pub fn try_from_bytes(data: &[u8]) -> (r: Result<InitializeInstructionData, AmmError>)
        ensures
            r is Ok <==> data@.len() == InitializeInstructionData::LEN,
            r is Ok ==> ({
                let d = r.unwrap();
                &&& d.seed == le64(initialize_seed_bytes_of(data@))
                &&& d.fee == initialize_fee_of(data@)
                &&& d.config_bump == initialize_bump_of(data@)
            }),
            r is Err ==> r == Err::<InitializeInstructionData, AmmError>(
                AmmError::InvalidInstructionData,
            ),
    {
        if data.len() != InitializeInstructionData::LEN {
            return Err(AmmError::InvalidInstructionData);
        }
        let seed = read_u64_le(data, 0);
        let fee = read_u16_le(data, 8);
        let config_bump = data[10];
        Ok(InitializeInstructionData { seed, fee, config_bump })
    }
}

/// The error an Initialize call fails with, or nothing when it succeeds:
/// the account list's shape and the creator's signature, the payload's
/// size, the derivation of the pool address from the payload's seed
/// material, the supplied record account's address against it, both
/// vaults' recorded owners, and the pool-share mint's authority.
pub open spec fn initialize_error(accounts: Seq<AccountView>, data: Seq<u8>) -> Option<AmmError> {
    if accounts.len() != 9 {
        Some(AmmError::NotEnoughAccountKeys)
    } else if !accounts[0].is_signer {
        Some(AmmError::MissingRequiredSignature)
    } else if data.len() != InitializeInstructionData::LEN {
        Some(AmmError::InvalidInstructionData)
    } else {
        let derived = pool_address(initialize_seed_bytes_of(data), initialize_bump_of(data));
        if derived is None {
            Some(AmmError::InvalidSeeds)
        } else if accounts[6].key@ != derived.unwrap() {
            Some(AmmError::InvalidAccountData)
        } else if token_of(accounts[3]) is None || token_of(accounts[3]).unwrap().owner@
            != accounts[6].key@ {
            Some(AmmError::InvalidAccountData)
        } else if token_of(accounts[4]) is None || token_of(accounts[4]).unwrap().owner@
            != accounts[6].key@ {
            Some(AmmError::InvalidAccountData)
        } else if mint_of(accounts[5]) is None || mint_of(accounts[5]).unwrap().mint_authority
            is None || mint_of(accounts[5]).unwrap().mint_authority.unwrap()@ != accounts[6].key@ {
            Some(AmmError::InvalidAccountData)
        } else {
            None
        }
    }
}

/// What a successful Initialize stages: the record account is allocated at
/// the derived address with the record's size, funded with the required
/// minimum balance by the creator, and the record holds exactly the
/// payload's seed, fee and bump together with the creator and the two
/// asset identifiers.
pub open spec fn initialize_effects_correct(
    accounts: Seq<AccountView>,
    data: Seq<u8>,
    rent_minimum_balance: u64,
    e: InitializeEffects,
) -> bool
    recommends
        accounts.len() == 9,
        data.len() == InitializeInstructionData::LEN,
{
    &&& e.create.from == accounts[0].key
    &&& e.create.to == accounts[6].key
    &&& e.create.space == Config::LEN
    &&& e.create.lamports == rent_minimum_balance
    &&& e.config.seed == le64(initialize_seed_bytes_of(data))
    &&& e.config.authority == accounts[0].key
    &&& e.config.mint_x == accounts[1].key
    &&& e.config.mint_y == accounts[2].key
    &&& e.config.fee == initialize_fee_of(data)
    &&& e.config.config_bump == initialize_bump_of(data)
}

/// Processes an Initialize call: validates the creator's signature, the
/// derived address and the pre-created vault and mint authorities, then
/// stages the record account's creation and contents.
/// `rent_minimum_balance` is the host's required funding for a record of
/// `Config::LEN` bytes, read from the rent sysvar by the caller.
pub fn process_initialize(accounts: &[AccountView], data: &[u8], rent_minimum_balance: u64) -> (r:
    Result<InitializeEffects, AmmError>)
    ensures
        r is Err <==> initialize_error(accounts@, data@) is Some,
        r is Err ==> r == Err::<InitializeEffects, AmmError>(
            initialize_error(accounts@, data@).unwrap(),
        ),
        r is Ok ==> initialize_effects_correct(accounts@, data@, rent_minimum_balance, r.unwrap()),
{
    if accounts.len() != 9 {
        return Err(AmmError::NotEnoughAccountKeys);
    }
    if !accounts[0].is_signer {
        return Err(AmmError::MissingRequiredSignature);
    }
    let ix = match InitializeInstructionData::try_from_bytes(data) {
        Ok(ix) => ix,
        Err(e) => {
            return Err(e);
        },
    };
    proof {
        crate::bytes::lemma_le64_bytes_inverse(initialize_seed_bytes_of(data@));
    }
    let derived = match pool_key(ix.seed, ix.config_bump) {
        Some(k) => k,
        None => {
            return Err(AmmError::InvalidSeeds);
        },
    };
    if !crate::bytes::keys_equal(&accounts[6].key, &derived) {
        return Err(AmmError::InvalidAccountData);
    }
    let vault_x = match &accounts[3].content {
        crate::accounts::AccountContent::Token(t) => *t,
        _ => {
            return Err(AmmError::InvalidAccountData);
        },
    };
    if !crate::bytes::keys_equal(&vault_x.owner, &accounts[6].key) {
        return Err(AmmError::InvalidAccountData);
    }
    let vault_y = match &accounts[4].content {
        crate::accounts::AccountContent::Token(t) => *t,
        _ => {
            return Err(AmmError::InvalidAccountData);
        },
    };
    if !crate::bytes::keys_equal(&vault_y.owner, &accounts[6].key) {
        return Err(AmmError::InvalidAccountData);
    }
    let mint_lp = match &accounts[5].content {
        crate::accounts::AccountContent::Mint(m) => *m,
        _ => {
            return Err(AmmError::InvalidAccountData);
        },
    };
    match &mint_lp.mint_authority {
        Some(auth) => {
            if !crate::bytes::keys_equal(auth, &accounts[6].key) {
                return Err(AmmError::InvalidAccountData);
            }
        },
        None => {
            return Err(AmmError::InvalidAccountData);
        },
    }
    Ok(
        InitializeEffects {
            create: CreateAccount {
                from: accounts[0].key,
                to: accounts[6].key,
                space: Config::LEN as u64,
                lamports: rent_minimum_balance,
            },
            config: Config {
                seed: ix.seed,
                authority: accounts[0].key,
                mint_x: accounts[1].key,
                mint_y: accounts[2].key,
                fee: ix.fee,
                config_bump: ix.config_bump,
            },
        },
    )
}

/// Law: Initialize is deterministic in the seed material. Two calls that
/// both succeed with the same seed and bump fields in their payloads used
/// the same derived pool address, whatever else differs between them.
pub proof fn lemma_initialize_deterministic(
    a1: Seq<AccountView>,
    d1: Seq<u8>,
    a2: Seq<AccountView>,
    d2: Seq<u8>,
)
    requires
        initialize_error(a1, d1) is None,
        initialize_error(a2, d2) is None,
        d1.len() == InitializeInstructionData::LEN,
        d2.len() == InitializeInstructionData::LEN,
        initialize_seed_bytes_of(d1) == initialize_seed_bytes_of(d2),
        initialize_bump_of(d1) == initialize_bump_of(d2),
    ensures
        a1[6].key@ == a2[6].key@,
{
}

/// Law: a supplied record account whose address is not the derived pool
/// address fails with the structural invalid-account-data error.
pub proof fn lemma_initialize_rejects_mismatch(accounts: Seq<AccountView>, data: Seq<u8>)
    requires
        accounts.len() == 9,
        accounts[0].is_signer,
        data.len() == InitializeInstructionData::LEN,
        pool_address(initialize_seed_bytes_of(data), initialize_bump_of(data)) is Some,
        accounts[6].key@ != pool_address(
            initialize_seed_bytes_of(data),
            initialize_bump_of(data),
        ).unwrap(),
    ensures
        initialize_error(accounts, data) == Some(AmmError::InvalidAccountData),
{
}

} // verus!
