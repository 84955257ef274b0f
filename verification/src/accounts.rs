//! The handler's view of the accounts a call passes in: plain-value
//! snapshots of what the pool's logic reads — addresses, signer flags, and
//! the token-ledger fields of vaults and mints. The host adapter fills
//! these from the runtime's account structures before a handler runs.

use vstd::prelude::*;

verus! {

/// A 32-byte ledger address.
pub type Pubkey = [u8; 32];

/// What the pool's logic reads from a fungible-token account: its asset,
/// its recorded owner, and its balance.
#[derive(Clone, Copy, Debug, PartialEq, Eq)]
pub struct TokenAccountView {
    pub mint: Pubkey,
    pub owner: Pubkey,
    pub amount: u64,
}

/// What the pool's logic reads from a mint: its mint authority, its total
/// supply, and its decimal precision.
#[derive(Clone, Copy, Debug, PartialEq, Eq)]
pub struct MintView {
    pub mint_authority: Option<Pubkey>,
    pub supply: u64,
    pub decimals: u8,
}

/// The contents of one account, as far as a handler reads them.
#[derive(Clone, Debug, PartialEq, Eq)]
pub enum AccountContent {
    /// A fungible-token account of the token-ledger collaborator.
    Token(TokenAccountView),
    /// A mint of the token-ledger collaborator.
    Mint(MintView),
    /// Raw account storage: the pool's own record, or an account whose
    /// contents the call never reads.
    Raw(Vec<u8>),
}

/// One account in a call's ordered account list.
#[derive(Clone, Debug, PartialEq, Eq)]
pub struct AccountView {
    /// The account's address.
    pub key: Pubkey,
    /// Whether the account carries the transaction's signature.
    pub is_signer: bool,
    /// Snapshot of the account's contents.
    pub content: AccountContent,
}

/// The token-account fields of an account, when it is one.
pub open spec fn token_of(a: AccountView) -> Option<TokenAccountView> {
    match a.content {
        AccountContent::Token(t) => Some(t),
        _ => None,
    }
}

/// The mint fields of an account, when it is one.
pub open spec fn mint_of(a: AccountView) -> Option<MintView> {
    match a.content {
        AccountContent::Mint(m) => Some(m),
        _ => None,
    }
}

/// The raw storage bytes of an account, when it holds raw storage.
pub open spec fn raw_of(a: AccountView) -> Option<Seq<u8>> {
    match a.content {
        AccountContent::Raw(d) => Some(d@),
        _ => None,
    }
}

} // verus!
