//! The pool's persistent record: seed, creator, the two reserve-asset
//! identifiers, fee rate, and the bump nonce that re-derives the pool's own
//! address. The record is persisted as a fixed-size byte-packed layout with
//! little-endian numeric fields; parsing rejects any other size.

use vstd::prelude::*;

use crate::bytes::{
    le16, le16_bytes, le64, le64_bytes, lemma_le16_roundtrip, lemma_le64_roundtrip, push_key,
    push_u16_le, push_u64_le, read_key, read_u16_le, read_u64_le,
};
use crate::error::AmmError;

verus! {

/// One pool's configuration record.
#[derive(Clone, Copy, Debug, PartialEq, Eq)]
pub struct Config {
    /// Pool-creation value that distinguishes pools; part of the address
    /// derivation.
    pub seed: u64,
    /// The account that created the pool; informational.
    pub authority: [u8; 32],
    /// Identifier of the first reserve asset.
    pub mint_x: [u8; 32],
    /// Identifier of the second reserve asset.
    pub mint_y: [u8; 32],
    /// Swap fee in basis points, fixed at creation.
    pub fee: u16,
    /// Nonce that, with the seed, re-derives the pool's own address.
    pub config_bump: u8,
}

/// The serialized form of a configuration record: seed, authority, the two
/// asset identifiers, fee, bump — numeric fields little-endian, no padding.
pub open spec fn config_bytes(c: Config) -> Seq<u8> {
    le64_bytes(c.seed as int) + c.authority@ + c.mint_x@ + c.mint_y@ + le16_bytes(c.fee as int)
        + seq![c.config_bump]
}

/// The seed field of a serialized configuration record.
pub open spec fn config_seed_of(s: Seq<u8>) -> int
    recommends
        s.len() == Config::LEN,
{
    le64(s.subrange(0, 8))
}

/// The fee field of a serialized configuration record.
pub open spec fn config_fee_of(s: Seq<u8>) -> int
    recommends
        s.len() == Config::LEN,
{
    le16(s.subrange(104, 106))
}

/// The bump field of a serialized configuration record.
pub open spec fn config_bump_of(s: Seq<u8>) -> u8
    recommends
        s.len() == Config::LEN,
{
    s[106]
}

impl Config {
    /// Size of the serialized record: 8 seed bytes, three 32-byte
    /// addresses, 2 fee bytes, 1 bump byte.
    pub const LEN: usize = 107;

    /// Parses a record from account storage. Exactly `LEN` bytes are
    /// accepted; anything else is invalid account data.
    pub fn load(data: &[u8]) -> (r: Result<Config, AmmError>)
        ensures
            r is Ok <==> data@.len() == Config::LEN,
            r is Ok ==> ({
                let c = r.unwrap();
                &&& c.seed == config_seed_of(data@)
                &&& c.authority@ == data@.subrange(8, 40)
                &&& c.mint_x@ == data@.subrange(40, 72)
                &&& c.mint_y@ == data@.subrange(72, 104)
                &&& c.fee == config_fee_of(data@)
                &&& c.config_bump == config_bump_of(data@)
            }),
            r is Err ==> r == Err::<Config, AmmError>(AmmError::InvalidAccountData),
    {
        if data.len() != Config::LEN {
            return Err(AmmError::InvalidAccountData);
        }
        let seed = read_u64_le(data, 0);
        let authority = read_key(data, 8);
        let mint_x = read_key(data, 40);
        let mint_y = read_key(data, 72);
        let fee = read_u16_le(data, 104);
        let config_bump = data[106];
        Ok(Config { seed, authority, mint_x, mint_y, fee, config_bump })
    }

    /// Serializes the record into the persisted layout.
    pub fn to_bytes(&self) -> (r: Vec<u8>)
        ensures
            r@ == config_bytes(*self),
            r@.len() == Config::LEN,
    {
        let mut out: Vec<u8> = Vec::new();
        push_u64_le(&mut out, self.seed);
        push_key(&mut out, &self.authority);
        push_key(&mut out, &self.mint_x);
        push_key(&mut out, &self.mint_y);
        push_u16_le(&mut out, self.fee);
        out.push(self.config_bump);
        assert(out@ =~= config_bytes(*self));
        out
    }
}

/// Law: parsing inverts serialization — a stored record loads back field
/// for field.
pub proof fn lemma_config_roundtrip(c: Config)
    ensures
        config_bytes(c).len() == Config::LEN,
        config_seed_of(config_bytes(c)) == c.seed,
        config_fee_of(config_bytes(c)) == c.fee,
        config_bump_of(config_bytes(c)) == c.config_bump,
        config_bytes(c).subrange(8, 40) == c.authority@,
        config_bytes(c).subrange(40, 72) == c.mint_x@,
        config_bytes(c).subrange(72, 104) == c.mint_y@,
{
    let s = config_bytes(c);
    assert(s.subrange(0, 8) =~= le64_bytes(c.seed as int));
    lemma_le64_roundtrip(c.seed as int);
    assert(s.subrange(104, 106) =~= le16_bytes(c.fee as int));
    lemma_le16_roundtrip(c.fee as int);
    assert(s.subrange(8, 40) =~= c.authority@);
    assert(s.subrange(40, 72) =~= c.mint_x@);
    assert(s.subrange(72, 104) =~= c.mint_y@);
}

} // verus!
