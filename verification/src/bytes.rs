//! Little-endian codecs for the fixed-size numeric fields of the persisted
//! pool record and the instruction payloads.

use vstd::prelude::*;
use vstd::arithmetic::div_mod::{
    lemma_div_denominator, lemma_div_multiples_vanish_fancy, lemma_fundamental_div_mod,
};

verus! {

/// The integer a two-byte little-endian field denotes.
pub open spec fn le16(s: Seq<u8>) -> int
    recommends
        s.len() == 2,
{
    s[0] + 0x100 * s[1]
}

/// The integer an eight-byte little-endian field denotes.
pub open spec fn le64(s: Seq<u8>) -> int
    recommends
        s.len() == 8,
{
    s[0] + 0x100 * s[1] + 0x1_0000 * s[2] + 0x100_0000 * s[3] + 0x1_0000_0000 * s[4]
        + 0x100_0000_0000 * s[5] + 0x1_0000_0000_0000 * s[6] + 0x100_0000_0000_0000 * s[7]
}

/// The two-byte little-endian encoding of an integer.
pub open spec fn le16_bytes(v: int) -> Seq<u8>
    recommends
        0 <= v < 0x1_0000,
{
    seq![(v % 0x100) as u8, ((v / 0x100) % 0x100) as u8]
}

/// The eight-byte little-endian encoding of an integer.
pub open spec fn le64_bytes(v: int) -> Seq<u8>
    recommends
        0 <= v < 0x1_0000_0000_0000_0000,
{
    seq![
        (v % 0x100) as u8,
        ((v / 0x100) % 0x100) as u8,
        ((v / 0x1_0000) % 0x100) as u8,
        ((v / 0x100_0000) % 0x100) as u8,
        ((v / 0x1_0000_0000) % 0x100) as u8,
        ((v / 0x100_0000_0000) % 0x100) as u8,
        ((v / 0x1_0000_0000_0000) % 0x100) as u8,
        ((v / 0x100_0000_0000_0000) % 0x100) as u8,
    ]
}

/// Decoding inverts the two-byte encoding.
pub proof fn lemma_le16_roundtrip(v: int)
    requires
        0 <= v < 0x1_0000,
    ensures
        le16(le16_bytes(v)) == v,
{
    lemma_fundamental_div_mod(v, 0x100);
}

/// Decoding inverts the eight-byte encoding.
pub proof fn lemma_le64_roundtrip(v: int)
    requires
        0 <= v < 0x1_0000_0000_0000_0000,
    ensures
        le64(le64_bytes(v)) == v,
{
    let q1 = v / 0x100;
    let q2 = v / 0x1_0000;
    let q3 = v / 0x100_0000;
    let q4 = v / 0x1_0000_0000;
    let q5 = v / 0x100_0000_0000;
    let q6 = v / 0x1_0000_0000_0000;
    let q7 = v / 0x100_0000_0000_0000;
    lemma_div_denominator(v, 0x100, 0x100);
    lemma_div_denominator(v, 0x1_0000, 0x100);
    lemma_div_denominator(v, 0x100_0000, 0x100);
    lemma_div_denominator(v, 0x1_0000_0000, 0x100);
    lemma_div_denominator(v, 0x100_0000_0000, 0x100);
    lemma_div_denominator(v, 0x1_0000_0000_0000, 0x100);
    lemma_fundamental_div_mod(v, 0x100);
    lemma_fundamental_div_mod(q1, 0x100);
    lemma_fundamental_div_mod(q2, 0x100);
    lemma_fundamental_div_mod(q3, 0x100);
    lemma_fundamental_div_mod(q4, 0x100);
    lemma_fundamental_div_mod(q5, 0x100);
    lemma_fundamental_div_mod(q6, 0x100);
    assert(q7 % 0x100 == q7) by {
        vstd::arithmetic::div_mod::lemma_small_mod(q7 as nat, 0x100);
    }
}

/// Encoding inverts decoding: the eight bytes of a decoded value are the
/// bytes decoded.
pub proof fn lemma_le64_bytes_inverse(s: Seq<u8>)
    requires
        s.len() == 8,
    ensures
        le64_bytes(le64(s)) == s,
{
    let v = le64(s);
    let t1: int = s[1] + 0x100 * s[2] + 0x1_0000 * s[3] + 0x100_0000 * s[4] + 0x1_0000_0000 * s[5]
        + 0x100_0000_0000 * s[6] + 0x1_0000_0000_0000 * s[7];
    let t2: int = s[2] + 0x100 * s[3] + 0x1_0000 * s[4] + 0x100_0000 * s[5] + 0x1_0000_0000 * s[6]
        + 0x100_0000_0000 * s[7];
    let t3: int = s[3] + 0x100 * s[4] + 0x1_0000 * s[5] + 0x100_0000 * s[6] + 0x1_0000_0000 * s[7];
    let t4: int = s[4] + 0x100 * s[5] + 0x1_0000 * s[6] + 0x100_0000 * s[7];
    let t5: int = s[5] + 0x100 * s[6] + 0x1_0000 * s[7];
    let t6: int = s[6] + 0x100 * s[7];
    let t7: int = s[7] as int;
    assert(v / 0x100 == t1 && v % 0x100 == s[0]) by {
        lemma_div_multiples_vanish_fancy(t1, s[0] as int, 0x100);
        lemma_fundamental_div_mod(v, 0x100);
    }
    assert(t1 / 0x100 == t2 && t1 % 0x100 == s[1]) by {
        lemma_div_multiples_vanish_fancy(t2, s[1] as int, 0x100);
        lemma_fundamental_div_mod(t1, 0x100);
    }
    assert(t2 / 0x100 == t3 && t2 % 0x100 == s[2]) by {
        lemma_div_multiples_vanish_fancy(t3, s[2] as int, 0x100);
        lemma_fundamental_div_mod(t2, 0x100);
    }
    assert(t3 / 0x100 == t4 && t3 % 0x100 == s[3]) by {
        lemma_div_multiples_vanish_fancy(t4, s[3] as int, 0x100);
        lemma_fundamental_div_mod(t3, 0x100);
    }
    assert(t4 / 0x100 == t5 && t4 % 0x100 == s[4]) by {
        lemma_div_multiples_vanish_fancy(t5, s[4] as int, 0x100);
        lemma_fundamental_div_mod(t4, 0x100);
    }
    assert(t5 / 0x100 == t6 && t5 % 0x100 == s[5]) by {
        lemma_div_multiples_vanish_fancy(t6, s[5] as int, 0x100);
        lemma_fundamental_div_mod(t5, 0x100);
    }
    assert(t6 / 0x100 == t7 && t6 % 0x100 == s[6]) by {
        lemma_div_multiples_vanish_fancy(t7, s[6] as int, 0x100);
        lemma_fundamental_div_mod(t6, 0x100);
    }
    assert(t7 % 0x100 == s[7]) by {
        vstd::arithmetic::div_mod::lemma_small_mod(t7 as nat, 0x100);
    }
    assert(v / 0x1_0000 == t2) by {
        lemma_div_denominator(v, 0x100, 0x100);
    }
    assert(v / 0x100_0000 == t3) by {
        lemma_div_denominator(v, 0x1_0000, 0x100);
    }
    assert(v / 0x1_0000_0000 == t4) by {
        lemma_div_denominator(v, 0x100_0000, 0x100);
    }
    assert(v / 0x100_0000_0000 == t5) by {
        lemma_div_denominator(v, 0x1_0000_0000, 0x100);
    }
    assert(v / 0x1_0000_0000_0000 == t6) by {
        lemma_div_denominator(v, 0x100_0000_0000, 0x100);
    }
    assert(v / 0x100_0000_0000_0000 == t7) by {
        lemma_div_denominator(v, 0x1_0000_0000_0000, 0x100);
    }
    assert(le64_bytes(v) =~= s);
}

/// Reads the eight-byte little-endian field at `off`.
pub fn read_u64_le(data: &[u8], off: usize) -> (r: u64)
    requires
        off + 8 <= data@.len(),
    ensures
        r == le64(data@.subrange(off as int, off as int + 8)),
{
    let b0 = data[off] as u64;
    let b1 = data[off + 1] as u64;
    let b2 = data[off + 2] as u64;
    let b3 = data[off + 3] as u64;
    let b4 = data[off + 4] as u64;
    let b5 = data[off + 5] as u64;
    let b6 = data[off + 6] as u64;
    let b7 = data[off + 7] as u64;
    b0 + 0x100 * b1 + 0x1_0000 * b2 + 0x100_0000 * b3 + 0x1_0000_0000 * b4
        + 0x100_0000_0000 * b5 + 0x1_0000_0000_0000 * b6 + 0x100_0000_0000_0000 * b7
}

/// Reads the two-byte little-endian field at `off`.
pub fn read_u16_le(data: &[u8], off: usize) -> (r: u16)
    requires
        off + 2 <= data@.len(),
    ensures
        r == le16(data@.subrange(off as int, off as int + 2)),
{
    let b0 = data[off] as u16;
    let b1 = data[off + 1] as u16;
    b0 + 0x100 * b1
}

/// Appends the eight-byte little-endian encoding of `v` to `out`.
pub fn push_u64_le(out: &mut Vec<u8>, v: u64)
    ensures
        final(out)@ == old(out)@ + le64_bytes(v as int),
{
    out.push((v % 0x100) as u8);
    out.push(((v / 0x100) % 0x100) as u8);
    out.push(((v / 0x1_0000) % 0x100) as u8);
    out.push(((v / 0x100_0000) % 0x100) as u8);
    out.push(((v / 0x1_0000_0000) % 0x100) as u8);
    out.push(((v / 0x100_0000_0000) % 0x100) as u8);
    out.push(((v / 0x1_0000_0000_0000) % 0x100) as u8);
    out.push(((v / 0x100_0000_0000_0000) % 0x100) as u8);
    assert(out@ =~= old(out)@ + le64_bytes(v as int));
}

/// Appends the two-byte little-endian encoding of `v` to `out`.
pub fn push_u16_le(out: &mut Vec<u8>, v: u16)
    ensures
        final(out)@ == old(out)@ + le16_bytes(v as int),
{
    out.push((v % 0x100) as u8);
    out.push(((v / 0x100) % 0x100) as u8);
    assert(out@ =~= old(out)@ + le16_bytes(v as int));
}

/// The eight-byte little-endian encoding of `v`, as a fixed-size seed field.
pub fn u64_le_array(v: u64) -> (r: [u8; 8])
    ensures
        r@ == le64_bytes(v as int),
{
    let r: [u8; 8] = [
        (v % 0x100) as u8,
        ((v / 0x100) % 0x100) as u8,
        ((v / 0x1_0000) % 0x100) as u8,
        ((v / 0x100_0000) % 0x100) as u8,
        ((v / 0x1_0000_0000) % 0x100) as u8,
        ((v / 0x100_0000_0000) % 0x100) as u8,
        ((v / 0x1_0000_0000_0000) % 0x100) as u8,
        ((v / 0x100_0000_0000_0000) % 0x100) as u8,
    ];
    assert(r@ =~= le64_bytes(v as int));
    r
}

/// Reads the 32-byte address field at `off`.
pub fn read_key(data: &[u8], off: usize) -> (r: [u8; 32])
    requires
        off + 32 <= data@.len(),
    ensures
        r@ == data@.subrange(off as int, off as int + 32),
{
    let n: usize = data.len();
    let mut r: [u8; 32] = [0u8; 32];
    let mut i: usize = 0;
    while i < 32
        invariant
            off + 32 <= n,
            n == data@.len(),
            i <= 32,
            forall|j: int| 0 <= j < i ==> r@[j] == data@[off + j],
        decreases 32 - i,
    {
        r[i] = data[off + i];
        i = i + 1;
    }
    assert(r@ =~= data@.subrange(off as int, off as int + 32));
    r
}

/// Appends a 32-byte address field to `out`.
pub fn push_key(out: &mut Vec<u8>, key: &[u8; 32])
    ensures
        final(out)@ == old(out)@ + key@,
{
    let mut i: usize = 0;
    while i < 32
        invariant
            i <= 32,
            out@ == old(out)@ + key@.subrange(0, i as int),
        decreases 32 - i,
    {
        out.push(key[i]);
        assert(out@ =~= old(out)@ + key@.subrange(0, i as int + 1));
        i = i + 1;
    }
    assert(out@ =~= old(out)@ + key@);
}

/// Whether two 32-byte addresses are the same.
pub fn keys_equal(a: &[u8; 32], b: &[u8; 32]) -> (r: bool)
    ensures
        r == (a@ == b@),
{
    let mut i: usize = 0;
    while i < 32
        invariant
            i <= 32,
            forall|j: int| 0 <= j < i ==> a@[j] == b@[j],
        decreases 32 - i,
    {
        if a[i] != b[i] {
            assert(a@ != b@);
            return false;
        }
        i = i + 1;
    }
    assert(a@ =~= b@);
    true
}

} // verus!
