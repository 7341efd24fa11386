//! Content digests.
//!
//! Proposals are identified by a fixed-width digest of their payload bytes.
//! The digest is a deterministic accumulator over a prime field; it is
//! bit-stable across machines, which is all the protocol logic relies on.
//! No cryptographic hardness is claimed.

use vstd::prelude::*;

verus! {

/// Modulus of the prime field used by digests and signatures
/// (the largest 32-bit prime).
pub const FIELD_MOD: u64 = 4294967291;

/// A 256-bit content digest, stored as four 64-bit limbs.
///
/// Two digests are equal exactly when all four limbs are equal.  The derived
/// ordering is lexicographic over the limbs in declaration order.
#[derive(Debug, Clone, Copy, PartialEq, Eq, Structural, PartialOrd, Ord, Hash)]
pub struct CryptoHash(pub u64, pub u64, pub u64, pub u64);

/// The all-zero digest, used by the sentinel opinion that stands for
/// "nothing received yet".
pub fn empty_cryptohash() -> (r: CryptoHash)
    ensures
        r == CryptoHash(0u64, 0u64, 0u64, 0u64),
{
    CryptoHash(0, 0, 0, 0)
}

/// Lexicographic strict order on digests, limb by limb.
pub open spec fn hash_lt(a: CryptoHash, b: CryptoHash) -> bool {
    ||| a.0 < b.0
    ||| (a.0 == b.0 && a.1 < b.1)
    ||| (a.0 == b.0 && a.1 == b.1 && a.2 < b.2)
    ||| (a.0 == b.0 && a.1 == b.1 && a.2 == b.2 && a.3 < b.3)
}

/// Decide the lexicographic strict order on digests.
pub fn hash_less(a: &CryptoHash, b: &CryptoHash) -> (r: bool)
    ensures
        r == hash_lt(*a, *b),
{
    if a.0 != b.0 {
        a.0 < b.0
    } else if a.1 != b.1 {
        a.1 < b.1
    } else if a.2 != b.2 {
        a.2 < b.2
    } else {
        a.3 < b.3
    }
}

/// One accumulator step: absorb byte `b` into state `h`.
pub open spec fn digest_step(h: int, b: int) -> int {
    (h * 31 + b + 1) % (FIELD_MOD as int)
}

/// Digest of a byte sequence starting from accumulator state `init`,
/// absorbing the bytes from left to right.
pub open spec fn spec_digest(s: Seq<u8>, init: int) -> int
    decreases s.len(),
{
    if s.len() == 0 {
        init % (FIELD_MOD as int)
    } else {
        digest_step(spec_digest(s.drop_last(), init), s.last() as int)
    }
}

/// Digest of `data` seeded with `seed`; always a field element.
pub fn digest_with(seed: u64, data: &[u8]) -> (r: u64)
    ensures
        r == spec_digest(data@, seed as int),
        r < FIELD_MOD,
{
    let mut h: u64 = seed % FIELD_MOD;
    let mut i: usize = 0;
    while i < data.len()
        invariant
            i <= data.len(),
            h < FIELD_MOD,
            h == spec_digest(data@.subrange(0, i as int), seed as int),
        decreases data.len() - i,
    {
        proof {
            assert(data@.subrange(0, i + 1).drop_last() =~= data@.subrange(0, i as int));
            assert(data@.subrange(0, i + 1).last() == data@[i as int]);
        }
        h = (h * 31 + data[i] as u64 + 1) % FIELD_MOD;
        i = i + 1;
    }
    proof {
        assert(data@.subrange(0, data@.len() as int) =~= data@);
    }
    h
}

/// The four seeds feeding the four limbs of a content digest.
pub open spec fn limb_seed(k: int) -> int {
    k + 1
}

/// Content digest of a payload, as the protocol computes it: four field
/// elements, each an independently seeded accumulator over the same bytes.
pub open spec fn spec_hash_of(s: Seq<u8>) -> CryptoHash {
    CryptoHash(
        spec_digest(s, limb_seed(0)) as u64,
        spec_digest(s, limb_seed(1)) as u64,
        spec_digest(s, limb_seed(2)) as u64,
        spec_digest(s, limb_seed(3)) as u64,
    )
}

/// Digest a payload into a [`CryptoHash`].
pub fn hash_bytes(data: &[u8]) -> (r: CryptoHash)
    ensures
        r == spec_hash_of(data@),
{
    let l0: u64 = digest_with(1, data);
    let l1: u64 = digest_with(2, data);
    let l2: u64 = digest_with(3, data);
    let l3: u64 = digest_with(4, data);
    CryptoHash(l0, l1, l2, l3)
}

} // verus!
