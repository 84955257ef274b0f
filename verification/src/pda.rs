//! Deterministic derivation of the pool's own address from its seed
//! material. The derivation stands in for a capability: every handler
//! re-derives the address from the stored seed and bump and refuses to
//! trust a supplied account that does not match, and only the program can
//! sign as the derived address.

use vstd::prelude::*;

use crate::bytes::{le64_bytes, u64_le_array};

verus! {

/// The program's own fixed identifier, under which every pool address is
/// derived.
pub const PROGRAM_ID: [u8; 32] = [
    84, 77, 53, 111, 239, 36, 116, 49, 101, 141, 82, 205, 5, 212, 207, 185, 57, 99, 205, 241, 219,
    39, 97, 206, 79, 183, 223, 102, 85, 200, 230, 128,
];

/// What the deterministic address derivation returns for a pool's seed
/// material: the address derived from the fixed seed prefix, the eight
/// seed bytes and the bump nonce under the program's identifier, or
/// nothing when that nonce yields no valid derived address.
pub uninterp spec fn pool_address(seed: Seq<u8>, bump: u8) -> Option<Seq<u8>>;

/// Relies on solana_pubkey::Pubkey::create_program_address: for in-range
/// seed slices it hashes the seeds with the program id, fails exactly when
/// the hash lands on the signing curve, and depends on the seeds and
/// program id alone.
#[verifier::external_body]
fn derive_pool_address(seed: &[u8; 8], bump: u8) -> (r: Option<[u8; 32]>)
    ensures
        r is Some <==> pool_address(seed@, bump) is Some,
        r is Some ==> r.unwrap()@ == pool_address(seed@, bump).unwrap(),
{
    let program_id = solana_pubkey::Pubkey::new_from_array(PROGRAM_ID);
    match solana_pubkey::Pubkey::create_program_address(&[b"config", seed, &[bump]], &program_id) {
        Ok(key) => Some(key.to_bytes()),
        Err(_) => None,
    }
}

/// The pool address for a seed value and bump nonce, or nothing when that
/// nonce yields no valid derived address.
pub fn pool_key(seed: u64, bump: u8) -> (r: Option<[u8; 32]>)
    ensures
        r is Some <==> pool_address(le64_bytes(seed as int), bump) is Some,
        r is Some ==> r.unwrap()@ == pool_address(le64_bytes(seed as int), bump).unwrap(),
{
    let seed_bytes = u64_le_array(seed);
    derive_pool_address(&seed_bytes, bump)
}

} // verus!
