//! Transaction identifiers and the digest they are computed with.
//!
//! A transaction's canonical identifier is a 32-byte value derived
//! deterministically from every field of the transaction by a
//! Fowler-Noll-Vo-style mixing chain.  The digest is a pure function of the
//! transaction's content: equal transactions always receive equal
//! identifiers.

use vstd::prelude::*;

verus! {

broadcast use vstd::array::group_array_axioms;

/// The multiplier of the 64-bit mixing step.
pub const DIGEST_PRIME: u64 = 0x100_0000_01b3;

/// The initial state of the 64-bit mixing chain.
pub const DIGEST_BASIS: u64 = 0xcbf2_9ce4_8422_2325;

/// A transaction's 32-byte identifying digest.
#[derive(Clone, Copy, Debug, PartialEq, Eq, Hash)]
pub struct Hash(pub [u8; 32]);

/// The identifier of a transaction outside a block: legacy identifiers cover
/// the formats up to the fourth, witnessed identifiers the fifth.
#[derive(Clone, Copy, Debug, PartialEq, Eq, Hash)]
pub enum UnminedTxId {
    Legacy(Hash),
    Witnessed(Hash),
}

impl UnminedTxId {
    /// The digest carried by this identifier, whichever kind it is.
    pub open spec fn spec_digest(self) -> Hash {
        match self {
            UnminedTxId::Legacy(h) => h,
            UnminedTxId::Witnessed(h) => h,
        }
    }

    /// The digest carried by this identifier, whichever kind it is.
    pub fn digest(&self) -> (h: Hash)
        ensures
            h == self.spec_digest(),
    {
        match self {
            UnminedTxId::Legacy(h) => *h,
            UnminedTxId::Witnessed(h) => *h,
        }
    }
}

/// One step of the mixing chain: fold `b` into the state `h`.
pub open spec fn spec_mix(h: u64, b: u64) -> u64 {
    vstd::wrapping::u64_specs::wrapping_mul(h ^ b, DIGEST_PRIME)
}

/// One step of the mixing chain: fold `b` into the state `h`.
pub fn mix(h: u64, b: u64) -> (r: u64)
    ensures
        r == spec_mix(h, b),
{
    (h ^ b).wrapping_mul(DIGEST_PRIME)
}

/// Folds every byte of `s` into the state `h`, in order.
pub open spec fn spec_mix_bytes(h: u64, s: Seq<u8>) -> u64
    decreases s.len(),
{
    if s.len() == 0 {
        h
    } else {
        spec_mix(spec_mix_bytes(h, s.drop_last()), s.last() as u64)
    }
}

/// Folds every byte of `s` into the state `h`, in order.
pub fn mix_bytes(h: u64, s: &[u8]) -> (r: u64)
    ensures
        r == spec_mix_bytes(h, s@),
{
    let n = s.len();
    let mut acc = h;
    let mut i: usize = 0;
    while i < n
        invariant
            n == s@.len(),
            i <= n,
            acc == spec_mix_bytes(h, s@.take(i as int)),
        decreases n - i,
    {
        acc = mix(acc, s[i] as u64);
        proof {
            assert(s@.take(i + 1 as int).drop_last() =~= s@.take(i as int));
            assert(s@.take(i + 1 as int).last() == s@[i as int]);
        }
        i = i + 1;
    }
    proof {
        assert(s@.take(n as int) =~= s@);
    }
    acc
}

/// Folds a signed 64-bit value into the state `h`: a sign tag, then the
/// distance from the sign's end of the range.
pub open spec fn spec_mix_i64(h: u64, v: i64) -> u64 {
    if v >= 0 {
        spec_mix(spec_mix(h, 0), v as u64)
    } else {
        spec_mix(spec_mix(h, 1), (-(v + 1)) as u64)
    }
}

/// Folds a signed 64-bit value into the state `h`.
pub fn mix_i64(h: u64, v: i64) -> (r: u64)
    ensures
        r == spec_mix_i64(h, v),
{
    if v >= 0 {
        mix(mix(h, 0), v as u64)
    } else {
        let m: i64 = -(v + 1);
        mix(mix(h, 1), m as u64)
    }
}

/// Folds a boolean into the state `h`.
pub open spec fn spec_mix_bool(h: u64, b: bool) -> u64 {
    spec_mix(h, if b { 1 } else { 0 })
}

/// Folds a boolean into the state `h`.
pub fn mix_bool(h: u64, b: bool) -> (r: u64)
    ensures
        r == spec_mix_bool(h, b),
{
    mix(h, if b { 1 } else { 0 })
}

/// `256 ^ j`, the divisor that brings byte `j` of a 64-bit word into the
/// lowest position.
pub open spec fn spec_byte_pow(j: int) -> u64 {
    if j == 0 {
        1
    } else if j == 1 {
        0x100
    } else if j == 2 {
        0x1_0000
    } else if j == 3 {
        0x100_0000
    } else if j == 4 {
        0x1_0000_0000
    } else if j == 5 {
        0x100_0000_0000
    } else if j == 6 {
        0x1_0000_0000_0000
    } else {
        0x100_0000_0000_0000
    }
}

/// `256 ^ j` for `j < 8`.
pub fn byte_pow(j: usize) -> (r: u64)
    requires
        j < 8,
    ensures
        r == spec_byte_pow(j as int),
{
    if j == 0 {
        1
    } else if j == 1 {
        0x100
    } else if j == 2 {
        0x1_0000
    } else if j == 3 {
        0x100_0000
    } else if j == 4 {
        0x1_0000_0000
    } else if j == 5 {
        0x100_0000_0000
    } else if j == 6 {
        0x1_0000_0000_0000
    } else {
        0x100_0000_0000_0000
    }
}

/// The byte at offset `i` of the digest expansion of `d`: four chain states
/// laid out in little-endian order.
pub open spec fn spec_expand_byte(d: u64, i: int) -> u8 {
    let w = if i < 8 {
        d
    } else if i < 16 {
        spec_mix(d, 1)
    } else if i < 24 {
        spec_mix(spec_mix(d, 1), 2)
    } else {
        spec_mix(spec_mix(spec_mix(d, 1), 2), 3)
    };
    ((w / spec_byte_pow(i % 8)) % 256) as u8
}

/// Whether `a` is the digest expansion of `d`.
pub open spec fn expanded(d: u64, a: [u8; 32]) -> bool {
    forall|i: int| 0 <= i < 32 ==> a@[i] == spec_expand_byte(d, i)
}

/// Expands a 64-bit chain state into a 32-byte [`Hash`].
pub open spec fn spec_expand_digest(d: u64) -> Hash {
    Hash(choose|a: [u8; 32]| expanded(d, a))
}

/// Expands a 64-bit chain state into a 32-byte [`Hash`].
pub fn expand_digest(d: u64) -> (h: Hash)
    ensures
        h == spec_expand_digest(d),
        expanded(d, h.0),
{
    let mut bytes: [u8; 32] = [0u8; 32];
    let w0 = d;
    let w1 = mix(d, 1);
    let w2 = mix(w1, 2);
    let w3 = mix(w2, 3);
    let mut i: usize = 0;
    while i < 32
        invariant
            i <= 32,
            w0 == d,
            w1 == spec_mix(d, 1),
            w2 == spec_mix(spec_mix(d, 1), 2),
            w3 == spec_mix(spec_mix(spec_mix(d, 1), 2), 3),
            bytes@.len() == 32,
            forall|k: int| 0 <= k < i ==> bytes@[k] == spec_expand_byte(d, k),
        decreases 32 - i,
    {
        let w: u64 = if i < 8 {
            w0
        } else if i < 16 {
            w1
        } else if i < 24 {
            w2
        } else {
            w3
        };
        let pow = byte_pow(i % 8);
        bytes[i] = ((w / pow) % 256) as u8;
        i = i + 1;
    }
    proof {
        assert(expanded(d, bytes));
        let c = choose|a: [u8; 32]| expanded(d, a);
        assert(expanded(d, c));
        assert forall|i: int| 0 <= i < 32 implies bytes@[i] == c@[i] by {
            assert(bytes@[i] == spec_expand_byte(d, i));
            assert(c@[i] == spec_expand_byte(d, i));
        }
        assert(bytes =~= c);
    }
    Hash(bytes)
}

} // verus!
