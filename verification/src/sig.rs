//! Share and aggregate signatures.
//!
//! The protocol needs two things from its signature scheme: individual
//! shares over the canonical bytes of an opinion, and aggregation — shares
//! combine into one aggregate signature that verifies against the combined
//! public key of the signers.  This module supplies a deterministic scheme
//! with exactly that algebra over the prime field from [`crate::digest`]:
//!
//! * `pk = sk * SIG_GEN  (mod FIELD_MOD)`
//! * `sig = sk * d(msg)  (mod FIELD_MOD)` where `d` is the message digest
//! * verification checks `sig * SIG_GEN == pk * d(msg)  (mod FIELD_MOD)`
//!
//! Shares add to form aggregate signatures and public keys add to form
//! aggregate keys, so an aggregate verifies exactly like a share.  The scheme
//! is reproducible across machines; no cryptographic hardness is claimed.

use vstd::prelude::*;
use vstd::arithmetic::div_mod::lemma_mul_mod_noop_left;

use crate::digest::FIELD_MOD;
use crate::digest::digest_with;
use crate::digest::spec_digest;

verus! {

/// Fixed public generator of the scheme.
pub const SIG_GEN: u64 = 3;

/// A secret signing key.
#[derive(Debug, Clone, Copy, PartialEq, Eq, Structural)]
pub struct SecretKey(pub u64);

/// A public verification key.
#[derive(Debug, Clone, Copy, PartialEq, Eq, Structural)]
pub struct PublicKey(pub u64);

/// A signature: either an individual share or an aggregate of shares.
#[derive(Debug, Clone, Copy, PartialEq, Eq, Structural)]
pub struct Signature(pub u64);

impl View for Signature {
    type V = int;

    open spec fn view(&self) -> int {
        self.0 as int
    }
}

/// Reduce a stored 64-bit word into the field.
pub open spec fn fe(x: int) -> int {
    x % (FIELD_MOD as int)
}

/// The public key derived from secret key word `sk`.
pub open spec fn spec_public_key(sk: int) -> int {
    (fe(sk) * (SIG_GEN as int)) % (FIELD_MOD as int)
}

/// The signature share of the holder of `sk` over a message with digest `d`.
pub open spec fn spec_sign(sk: int, d: int) -> int {
    (fe(sk) * d) % (FIELD_MOD as int)
}

/// Whether `sig` is a valid signature over digest `d` under public key `pk`.
#[verifier::opaque]
pub open spec fn spec_verify(pk: int, d: int, sig: int) -> bool {
    (fe(sig) * (SIG_GEN as int)) % (FIELD_MOD as int) == (fe(pk) * d) % (FIELD_MOD as int)
}

/// Digest of a message as signatures cover it.
pub open spec fn msg_digest(s: Seq<u8>) -> int {
    spec_digest(s, 0)
}

/// Soundness of the scheme: a share signed with a secret key verifies
/// under the matching public key, over any non-negative digest.
pub proof fn lemma_sign_verifies(sk: int, d: int)
    requires
        0 <= d,
    ensures
        spec_verify(spec_public_key(sk), d, spec_sign(sk, d)),
{
    reveal(spec_verify);
    let p: int = FIELD_MOD as int;
    let k: int = fe(sk);
    assert(fe(spec_sign(sk, d)) == (k * d) % p);
    assert(fe(spec_public_key(sk)) == (k * (SIG_GEN as int)) % p);
    lemma_mul_mod_noop_left(k * d, SIG_GEN as int, p);
    lemma_mul_mod_noop_left(k * (SIG_GEN as int), d, p);
    assert(k * d * (SIG_GEN as int) == k * (SIG_GEN as int) * d) by (nonlinear_arith);
}

impl SecretKey {
    /// The public key matching this secret key.
    pub fn get_public_key(&self) -> (r: PublicKey)
        ensures
            r.0 as int == spec_public_key(self.0 as int),
    {
        PublicKey(self.0 % FIELD_MOD * SIG_GEN % FIELD_MOD)
    }

    /// Sign a message with this key.
    pub fn sign(&self, data: &[u8]) -> (r: Signature)
        ensures
            r@ == spec_sign(self.0 as int, msg_digest(data@)),
    {
        let d: u64 = digest_with(0, data);
        let k: u64 = self.0 % FIELD_MOD;
        proof {
            assert(k * d <= (FIELD_MOD - 1) * (FIELD_MOD - 1)) by (nonlinear_arith)
                requires
                    k <= FIELD_MOD - 1,
                    d <= FIELD_MOD - 1,
            ;
        }
        Signature(k * d % FIELD_MOD)
    }
}

impl PublicKey {
    /// Check a signature (share or aggregate) over a message.
    pub fn verify(&self, data: &[u8], signature: &Signature) -> (r: bool)
        ensures
            r == spec_verify(self.0 as int, msg_digest(data@), signature@),
    {
        let d: u64 = digest_with(0, data);
        let p: u64 = self.0 % FIELD_MOD;
        proof {
            reveal(spec_verify);
            assert(p * d <= (FIELD_MOD - 1) * (FIELD_MOD - 1)) by (nonlinear_arith)
                requires
                    p <= FIELD_MOD - 1,
                    d <= FIELD_MOD - 1,
            ;
        }
        signature.0 % FIELD_MOD * SIG_GEN % FIELD_MOD == p * d % FIELD_MOD
    }
}

/// Field sum of two stored words, as aggregation computes it.
pub open spec fn agg_add(acc: int, x: int) -> int {
    (fe(acc) + fe(x)) % (FIELD_MOD as int)
}

/// Running aggregate of signature shares.
#[derive(Debug, Clone, Copy, PartialEq, Eq, Structural)]
pub struct AggregateSignature(pub u64);

impl AggregateSignature {
    /// Empty aggregate.
    pub fn new() -> (r: Self)
        ensures
            r.0 == 0,
    {
        AggregateSignature(0)
    }

    /// Fold one more share into the aggregate.
    pub fn aggregate(&mut self, signature: &Signature)
        ensures
            final(self).0 as int == agg_add(old(self).0 as int, signature@),
    {
        self.0 = (self.0 % FIELD_MOD + signature.0 % FIELD_MOD) % FIELD_MOD;
    }

    /// The aggregate as a signature.
    pub fn get_signature(&self) -> (r: Signature)
        ensures
            r.0 == self.0,
    {
        Signature(self.0)
    }
}

/// Running aggregate of public keys.
#[derive(Debug, Clone, Copy, PartialEq, Eq, Structural)]
pub struct AggregatePublicKey(pub u64);

impl AggregatePublicKey {
    /// Empty aggregate.
    pub fn new() -> (r: Self)
        ensures
            r.0 == 0,
    {
        AggregatePublicKey(0)
    }

    /// Fold one more public key into the aggregate.
    pub fn aggregate(&mut self, pk: &PublicKey)
        ensures
            final(self).0 as int == agg_add(old(self).0 as int, pk.0 as int),
    {
        self.0 = (self.0 % FIELD_MOD + pk.0 % FIELD_MOD) % FIELD_MOD;
    }

    /// The aggregate as a public key.
    pub fn get_key(&self) -> (r: PublicKey)
        ensures
            r.0 == self.0,
    {
        PublicKey(self.0)
    }
}

/// Deterministic key pair derived from a seed.
pub fn key_pair_from_seed(seed: u64) -> (r: (PublicKey, SecretKey))
    ensures
        r.1.0 == seed % FIELD_MOD,
        r.0.0 as int == spec_public_key(seed as int),
{
    let sk = SecretKey(seed % FIELD_MOD);
    let pk = sk.get_public_key();
    proof {
        assert(fe(seed as int % FIELD_MOD as int) == fe(seed as int));
    }
    (pk, sk)
}

} // verus!
