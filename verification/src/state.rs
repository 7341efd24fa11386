//! Opinions and their evidence.
//!
//! A [`BareState`] is the triplet an authority gossips about: the endorsed
//! proposal together with a primary and a secondary confidence.  A [`State`]
//! wraps a triplet with the aggregate-signature [`Proof`]s that justify the
//! confidences and with the sender's own signature share.  This module also
//! defines the total order on triplets, the canonical byte encoding that all
//! signatures cover, the [`merge`] operation and equivocation detection.

use vstd::prelude::*;

use crate::AuthorityId;
use crate::digest::CryptoHash;
use crate::digest::empty_cryptohash;
use crate::digest::hash_bytes;
use crate::digest::hash_less;
use crate::digest::hash_lt;
use crate::digest::spec_hash_of;
use crate::sig::PublicKey;
use crate::sig::SecretKey;
use crate::sig::Signature;
use crate::sig::AggregatePublicKey;
use crate::sig::agg_add;
use crate::sig::msg_digest;
use crate::sig::spec_sign;
use crate::sig::spec_verify;
use crate::wire::dec_u64;
use crate::wire::enc_u64;
use crate::wire::i64_image;
use crate::wire::i64_to_word;
use crate::wire::lemma_word_codec;
use crate::wire::spec_dec_u64;
use crate::wire::spec_enc_word;
use crate::wire::word_to_i64;

verus! {

/// An authority commits once its primary confidence exceeds its secondary
/// confidence by this margin.
pub const COMMIT_THRESHOLD: i64 = 3;

/// A proposal's identity: who proposed it and the digest of its payload.
///
/// Two headers are equal exactly when both fields are equal.  The derived
/// ordering is lexicographic over `(author, hash)` and serves as the
/// engine's tie-break rule.
#[derive(Debug, Clone, Copy, PartialEq, Eq, Structural, PartialOrd, Ord)]
pub struct BlockHeader {
    /// Authority proposing the block.
    pub author: AuthorityId,
    /// Digest of the payload contained in the block.
    pub hash: CryptoHash,
}

/// Lexicographic strict order on headers.
pub open spec fn header_lt(a: BlockHeader, b: BlockHeader) -> bool {
    ||| a.author < b.author
    ||| (a.author == b.author && hash_lt(a.hash, b.hash))
}

/// Decide the strict order on headers.
pub fn header_less(a: &BlockHeader, b: &BlockHeader) -> (r: bool)
    ensures
        r == header_lt(*a, *b),
{
    if a.author != b.author {
        a.author < b.author
    } else {
        hash_less(&a.hash, &b.hash)
    }
}

/// An authority's proposal: a header over an opaque payload.
///
/// The consensus itself only ever reads the header; the payload travels
/// alongside so peers can check that the header's digest matches it.
#[derive(Debug, Clone)]
pub struct Block {
    pub header: BlockHeader,
    pub payload: Vec<u8>,
}

/// Mathematical image of a [`Block`].
pub struct BlockV {
    pub header: BlockHeader,
    pub payload: Seq<u8>,
}

impl View for Block {
    type V = BlockV;

    open spec fn view(&self) -> BlockV {
        BlockV { header: self.header, payload: self.payload@ }
    }
}

impl Block {
    /// Wrap a payload into a proposal by `author`.
    pub fn new(author: AuthorityId, payload: Vec<u8>) -> (r: Self)
        ensures
            r@.header.author == author,
            r@.header.hash == spec_hash_of(payload@),
            r@.payload == payload@,
    {
        let hash = hash_bytes(payload.as_slice());
        Self { header: BlockHeader { author, hash }, payload }
    }

    /// Authority proposing the block.
    pub fn author(&self) -> (r: AuthorityId)
        ensures
            r == self@.header.author,
    {
        self.header.author
    }

    /// Digest of the payload contained in the block.
    pub fn hash(&self) -> (r: CryptoHash)
        ensures
            r == self@.header.hash,
    {
        self.header.hash
    }
}

/// The triplet describing an authority's opinion: how confident it is in the
/// proposal it endorses, and the runner-up confidence.
///
/// The field order matters: the total order on triplets is lexicographic over
/// the fields in declaration order, and the derived `PartialOrd`/`Ord` agree
/// with [`bs_lt`].
#[derive(Debug, Clone, Copy, PartialEq, Eq, Structural, PartialOrd, Ord)]
pub struct BareState {
    /// How much confidence the authority has in `endorses`.
    pub primary_confidence: i64,
    /// The proposal with the highest confidence (higher headers win ties).
    pub endorses: BlockHeader,
    /// Confidence of the proposal with the second-highest confidence.
    pub secondary_confidence: i64,
}

/// Lexicographic strict order on triplets.
pub open spec fn bs_lt(a: BareState, b: BareState) -> bool {
    ||| a.primary_confidence < b.primary_confidence
    ||| (a.primary_confidence == b.primary_confidence && header_lt(a.endorses, b.endorses))
    ||| (a.primary_confidence == b.primary_confidence && a.endorses == b.endorses
        && a.secondary_confidence < b.secondary_confidence)
}

/// Reflexive closure of [`bs_lt`].
pub open spec fn bs_le(a: BareState, b: BareState) -> bool {
    bs_lt(a, b) || a == b
}

/// Decide the strict order on triplets.
pub fn bare_less(a: &BareState, b: &BareState) -> (r: bool)
    ensures
        r == bs_lt(*a, *b),
{
    if a.primary_confidence != b.primary_confidence {
        a.primary_confidence < b.primary_confidence
    } else if a.endorses != b.endorses {
        header_less(&a.endorses, &b.endorses)
    } else {
        a.secondary_confidence < b.secondary_confidence
    }
}

/// The triplet order is total: any two triplets are related in exactly one
/// of the three ways.
pub proof fn lemma_order_trichotomy(a: BareState, b: BareState)
    ensures
        bs_lt(a, b) || a == b || bs_lt(b, a),
        bs_lt(a, b) ==> !(a == b) && !bs_lt(b, a),
        a == b ==> !bs_lt(a, b) && !bs_lt(b, a),
{
}

/// The triplet order is transitive.
pub proof fn lemma_order_transitive(a: BareState, b: BareState, c: BareState)
    ensures
        bs_lt(a, b) && bs_lt(b, c) ==> bs_lt(a, c),
        bs_le(a, b) && bs_le(b, c) ==> bs_le(a, c),
{
}

/// The sentinel triplet standing for "no opinion received yet".
pub open spec fn spec_empty_bare() -> BareState {
    BareState {
        primary_confidence: -1i64,
        endorses: BlockHeader { author: 0, hash: CryptoHash(0u64, 0u64, 0u64, 0u64) },
        secondary_confidence: -1i64,
    }
}

/// A triplet passes its self-consistency check when both confidences are
/// ordered and non-negative.
pub open spec fn bare_valid(bs: BareState) -> bool {
    bs.primary_confidence >= bs.secondary_confidence >= 0
}

/// A stored triplet is either valid or the sentinel.
pub open spec fn bare_wf(bs: BareState) -> bool {
    bare_valid(bs) || bs == spec_empty_bare()
}

/// The sentinel is strictly below every valid triplet.
pub proof fn lemma_empty_is_least(bs: BareState)
    ensures
        bare_valid(bs) ==> bs_lt(spec_empty_bare(), bs),
{
}

/// Canonical bytes of a triplet: the three fields in declaration order,
/// each as fixed-width little-endian words — the signed confidences as
/// their two's-complement image, the header as an 8-byte author followed
/// by the 32-byte digest.
#[verifier::opaque]
pub open spec fn spec_enc_bare(bs: BareState) -> Seq<u8> {
    spec_enc_word(i64_image(bs.primary_confidence)) + spec_enc_word(bs.endorses.author as int)
        + spec_enc_word(bs.endorses.hash.0 as int) + spec_enc_word(bs.endorses.hash.1 as int)
        + spec_enc_word(bs.endorses.hash.2 as int) + spec_enc_word(bs.endorses.hash.3 as int)
        + spec_enc_word(i64_image(bs.secondary_confidence))
}

/// Triplet read back from 56 canonical bytes, if they parse.
pub open spec fn spec_dec_bare(s: Seq<u8>) -> Option<BareState> {
    if s.len() != 56 {
        None
    } else {
        let author = spec_dec_u64(s.subrange(8, 16));
        if author > usize::MAX {
            None
        } else {
            Some(
                BareState {
                    primary_confidence: spec_word_as_i64(spec_dec_u64(s.subrange(0, 8))),
                    endorses: BlockHeader {
                        author: author as usize,
                        hash: CryptoHash(
                            spec_dec_u64(s.subrange(16, 24)) as u64,
                            spec_dec_u64(s.subrange(24, 32)) as u64,
                            spec_dec_u64(s.subrange(32, 40)) as u64,
                            spec_dec_u64(s.subrange(40, 48)) as u64,
                        ),
                    },
                    secondary_confidence: spec_word_as_i64(spec_dec_u64(s.subrange(48, 56))),
                },
            )
        }
    }
}

/// The signed value whose two's-complement image is `w`.
pub open spec fn spec_word_as_i64(w: int) -> i64
    recommends
        0 <= w < 0x1_0000_0000_0000_0000,
{
    if w <= i64::MAX {
        w as i64
    } else {
        (w - 0x1_0000_0000_0000_0000) as i64
    }
}

impl BareState {
    /// Starting opinion about a peer nothing has been received from.
    /// Strictly below every valid triplet.
    pub fn empty() -> (r: Self)
        ensures
            r == spec_empty_bare(),
    {
        Self {
            primary_confidence: -1,
            endorses: BlockHeader { author: 0, hash: empty_cryptohash() },
            secondary_confidence: -1,
        }
    }

    /// First own opinion: endorse one's own proposal with zero confidence.
    pub fn new(author: AuthorityId, hash: CryptoHash) -> (r: Self)
        ensures
            r == (BareState {
                primary_confidence: 0i64,
                endorses: BlockHeader { author, hash },
                secondary_confidence: 0i64,
            }),
    {
        Self {
            primary_confidence: 0,
            endorses: BlockHeader { author, hash },
            secondary_confidence: 0,
        }
    }

    /// Canonical byte encoding; this is what every signature covers.
    pub fn bs_encode(&self) -> (r: Vec<u8>)
        ensures
            r@ == spec_enc_bare(*self),
    {
        let mut out: Vec<u8> = Vec::new();
        enc_u64(&mut out, i64_to_word(self.primary_confidence));
        enc_u64(&mut out, self.endorses.author as u64);
        enc_u64(&mut out, self.endorses.hash.0);
        enc_u64(&mut out, self.endorses.hash.1);
        enc_u64(&mut out, self.endorses.hash.2);
        enc_u64(&mut out, self.endorses.hash.3);
        enc_u64(&mut out, i64_to_word(self.secondary_confidence));
        proof {
            reveal(spec_enc_bare);
            assert(out@ =~= spec_enc_bare(*self));
        }
        out
    }

    /// Parse a triplet back from its canonical bytes.
    pub fn bs_decode(bytes: &[u8]) -> (r: Option<BareState>)
        ensures
            r == spec_dec_bare(bytes@),
    {
        if bytes.len() != 56 {
            return None;
        }
        let author_word: u64 = dec_u64(bytes, 8);
        if author_word > usize::MAX as u64 {
            return None;
        }
        let r = BareState {
            primary_confidence: word_to_i64(dec_u64(bytes, 0)),
            endorses: BlockHeader {
                author: author_word as usize,
                hash: CryptoHash(
                    dec_u64(bytes, 16),
                    dec_u64(bytes, 24),
                    dec_u64(bytes, 32),
                    dec_u64(bytes, 40),
                ),
            },
            secondary_confidence: word_to_i64(dec_u64(bytes, 48)),
        };
        Some(r)
    }

    /// Sign the canonical bytes of this triplet: the signer's share.
    pub fn sign(&self, secret_key: &SecretKey) -> (r: Signature)
        ensures
            r@ == spec_sign(secret_key.0 as int, msg_digest(spec_enc_bare(*self))),
    {
        let encoded = self.bs_encode();
        secret_key.sign(encoded.as_slice())
    }

    /// Self-consistency check of the triplet alone.
    pub fn verify(&self) -> (r: bool)
        ensures
            r == bare_valid(*self),
    {
        self.primary_confidence >= self.secondary_confidence && self.secondary_confidence >= 0
    }
}

/// Aggregate-signature evidence that a supermajority signed a triplet.
///
/// Confidence `C > 0` on an outcome is justified by signatures from more
/// than `2N/3` authorities over a triplet of confidence `C - 1` on the same
/// outcome.
#[derive(Debug, Clone)]
pub struct Proof {
    /// The triplet the masked authorities signed.
    pub bare_state: BareState,
    /// Which authorities' shares went into the aggregate, by index.
    pub mask: Vec<bool>,
    /// Aggregate of the masked authorities' shares.
    pub signature: Signature,
}

/// Mathematical image of a [`Proof`].
pub struct ProofV {
    pub bare_state: BareState,
    pub mask: Seq<bool>,
    pub signature: int,
}

impl View for Proof {
    type V = ProofV;

    open spec fn view(&self) -> ProofV {
        ProofV { bare_state: self.bare_state, mask: self.mask@, signature: self.signature@ }
    }
}

/// Number of set bits in a mask.
pub open spec fn count_true(mask: Seq<bool>) -> int
    decreases mask.len(),
{
    if mask.len() == 0 {
        0
    } else {
        count_true(mask.drop_last()) + if mask.last() {
            1int
        } else {
            0int
        }
    }
}

/// Aggregated public key of the authorities marked in `mask`, folded in
/// index order.
pub open spec fn spec_agg_pk(mask: Seq<bool>, pks: Seq<PublicKey>) -> int
    recommends
        mask.len() == pks.len(),
    decreases mask.len(),
{
    if mask.len() == 0 {
        0
    } else {
        let rest = spec_agg_pk(mask.drop_last(), pks);
        if mask.last() {
            agg_add(rest, pks[mask.len() - 1].0 as int)
        } else {
            rest
        }
    }
}

/// A proof is valid when its mask covers the whole authority set with a
/// strict supermajority of bits set, and the aggregate signature verifies
/// over the canonical bytes of its triplet against the aggregated public
/// key of the masked authorities.
pub open spec fn spec_proof_valid(p: ProofV, pks: Seq<PublicKey>) -> bool {
    &&& p.mask.len() == pks.len()
    &&& count_true(p.mask) > pks.len() * 2 / 3
    &&& spec_verify(spec_agg_pk(p.mask, pks), msg_digest(spec_enc_bare(p.bare_state)), p.signature)
}

impl Proof {
    /// Package a triplet with the mask and aggregate that evidence it.
    pub fn new(bare_state: BareState, mask: Vec<bool>, signature: Signature) -> (r: Self)
        ensures
            r@ == (ProofV { bare_state, mask: mask@, signature: signature@ }),
    {
        Self { bare_state, mask, signature }
    }

    /// Check this proof against the authority set's public keys.
    pub fn verify(&self, public_keys: &Vec<PublicKey>) -> (r: bool)
        requires
            public_keys@.len() * 2 <= usize::MAX,
        ensures
            r == spec_proof_valid(self@, public_keys@),
    {
        if self.mask.len() != public_keys.len() {
            return false;
        }
        let mut aggregated_pk = AggregatePublicKey::new();
        let mut count: usize = 0;
        let mut i: usize = 0;
        while i < self.mask.len()
            invariant
                i <= self.mask@.len() == public_keys@.len(),
                count <= i,
                count == count_true(self.mask@.subrange(0, i as int)),
                aggregated_pk.0 as int == spec_agg_pk(
                    self.mask@.subrange(0, i as int),
                    public_keys@,
                ),
            decreases self.mask@.len() - i,
        {
            proof {
                assert(self.mask@.subrange(0, i + 1).drop_last() =~= self.mask@.subrange(
                    0,
                    i as int,
                ));
            }
            if self.mask[i] {
                aggregated_pk.aggregate(&public_keys[i]);
                count = count + 1;
            }
            i = i + 1;
        }
        proof {
            assert(self.mask@.subrange(0, self.mask@.len() as int) =~= self.mask@);
        }
        if count <= public_keys.len() * 2 / 3 {
            return false;
        }
        let pk = aggregated_pk.get_key();
        let encoded = self.bare_state.bs_encode();
        pk.verify(encoded.as_slice(), &self.signature)
    }
}

/// Copy a proof mask.
fn clone_mask(mask: &Vec<bool>) -> (r: Vec<bool>)
    ensures
        r@ == mask@,
{
    let mut out: Vec<bool> = Vec::new();
    let mut i: usize = 0;
    while i < mask.len()
        invariant
            i <= mask@.len(),
            out@ == mask@.subrange(0, i as int),
        decreases mask@.len() - i,
    {
        out.push(mask[i]);
        proof {
            assert(out@ =~= mask@.subrange(0, i + 1));
        }
        i = i + 1;
    }
    proof {
        assert(mask@.subrange(0, mask@.len() as int) =~= mask@);
    }
    out
}

/// Copy a proof.
pub fn clone_proof(p: &Proof) -> (r: Proof)
    ensures
        r@ == p@,
{
    Proof { bare_state: p.bare_state, mask: clone_mask(&p.mask), signature: p.signature }
}

/// Image of an optional proof.
pub open spec fn opt_proof_view(p: Option<Proof>) -> Option<ProofV> {
    match p {
        Option::Some(q) => Option::Some(q@),
        Option::None => Option::None,
    }
}

/// Copy an optional proof.
pub fn clone_opt_proof(p: &Option<Proof>) -> (r: Option<Proof>)
    ensures
        opt_proof_view(r) == opt_proof_view(*p),
{
    match p {
        Option::Some(q) => Option::Some(clone_proof(q)),
        Option::None => Option::None,
    }
}

/// An opinion as gossiped: the triplet, the proofs justifying its
/// confidences, and the sender's own signature share over the triplet.
#[derive(Debug, Clone)]
pub struct State {
    /// The triplet describing the opinion.
    pub bare_state: BareState,
    /// Evidence for `primary_confidence`; present iff it is positive.
    pub primary_proof: Option<Proof>,
    /// Evidence for `secondary_confidence`; present iff it is positive.
    pub secondary_proof: Option<Proof>,
    /// The emitting authority's share over the canonical triplet bytes.
    pub signature: Signature,
}

/// Mathematical image of a [`State`].
pub struct StateV {
    pub bare_state: BareState,
    pub primary_proof: Option<ProofV>,
    pub secondary_proof: Option<ProofV>,
    pub signature: int,
}

impl View for State {
    type V = StateV;

    open spec fn view(&self) -> StateV {
        StateV {
            bare_state: self.bare_state,
            primary_proof: opt_proof_view(self.primary_proof),
            secondary_proof: opt_proof_view(self.secondary_proof),
            signature: self.signature@,
        }
    }
}

/// Copy a state.
pub fn clone_state(s: &State) -> (r: State)
    ensures
        r@ == s@,
{
    State {
        bare_state: s.bare_state,
        primary_proof: clone_opt_proof(&s.primary_proof),
        secondary_proof: clone_opt_proof(&s.secondary_proof),
        signature: s.signature,
    }
}

/// The canonical bytes of a triplet decode field by field.
#[verifier::rlimit(100)]
proof fn lemma_enc_bare_fields(bs: BareState)
    ensures
        spec_enc_bare(bs).len() == 56,
        spec_dec_u64(spec_enc_bare(bs).subrange(0, 8)) == i64_image(bs.primary_confidence),
        spec_dec_u64(spec_enc_bare(bs).subrange(8, 16)) == bs.endorses.author,
        spec_dec_u64(spec_enc_bare(bs).subrange(16, 24)) == bs.endorses.hash.0,
        spec_dec_u64(spec_enc_bare(bs).subrange(24, 32)) == bs.endorses.hash.1,
        spec_dec_u64(spec_enc_bare(bs).subrange(32, 40)) == bs.endorses.hash.2,
        spec_dec_u64(spec_enc_bare(bs).subrange(40, 48)) == bs.endorses.hash.3,
        spec_dec_u64(spec_enc_bare(bs).subrange(48, 56)) == i64_image(bs.secondary_confidence),
{
    let s = spec_enc_bare(bs);
    assert(s.len() == 56) by {
        reveal(spec_enc_bare);
    }
    assert(spec_dec_u64(s.subrange(0, 8)) == i64_image(bs.primary_confidence)) by {
        reveal(spec_enc_bare);
        assert(s.subrange(0, 8) =~= spec_enc_word(i64_image(bs.primary_confidence)));
        lemma_word_codec(i64_image(bs.primary_confidence));
    }
    assert(spec_dec_u64(s.subrange(8, 16)) == bs.endorses.author) by {
        reveal(spec_enc_bare);
        assert(s.subrange(8, 16) =~= spec_enc_word(bs.endorses.author as int));
        lemma_word_codec(bs.endorses.author as int);
    }
    assert(spec_dec_u64(s.subrange(16, 24)) == bs.endorses.hash.0) by {
        reveal(spec_enc_bare);
        assert(s.subrange(16, 24) =~= spec_enc_word(bs.endorses.hash.0 as int));
        lemma_word_codec(bs.endorses.hash.0 as int);
    }
    assert(spec_dec_u64(s.subrange(24, 32)) == bs.endorses.hash.1) by {
        reveal(spec_enc_bare);
        assert(s.subrange(24, 32) =~= spec_enc_word(bs.endorses.hash.1 as int));
        lemma_word_codec(bs.endorses.hash.1 as int);
    }
    assert(spec_dec_u64(s.subrange(32, 40)) == bs.endorses.hash.2) by {
        reveal(spec_enc_bare);
        assert(s.subrange(32, 40) =~= spec_enc_word(bs.endorses.hash.2 as int));
        lemma_word_codec(bs.endorses.hash.2 as int);
    }
    assert(spec_dec_u64(s.subrange(40, 48)) == bs.endorses.hash.3) by {
        reveal(spec_enc_bare);
        assert(s.subrange(40, 48) =~= spec_enc_word(bs.endorses.hash.3 as int));
        lemma_word_codec(bs.endorses.hash.3 as int);
    }
    assert(spec_dec_u64(s.subrange(48, 56)) == i64_image(bs.secondary_confidence)) by {
        reveal(spec_enc_bare);
        assert(s.subrange(48, 56) =~= spec_enc_word(i64_image(bs.secondary_confidence)));
        lemma_word_codec(i64_image(bs.secondary_confidence));
    }
}

/// Encoding then decoding a triplet restores it exactly, so the canonical
/// bytes of a triplet are a faithful, bit-stable image of it.
pub proof fn lemma_bare_codec_roundtrip(bs: BareState)
    ensures
        spec_dec_bare(spec_enc_bare(bs)) == Some(bs),
{
    lemma_enc_bare_fields(bs);
    assert(spec_word_as_i64(i64_image(bs.primary_confidence)) == bs.primary_confidence);
    assert(spec_word_as_i64(i64_image(bs.secondary_confidence)) == bs.secondary_confidence);
    assert(spec_dec_bare(spec_enc_bare(bs)) == Some(bs));
}

/// An authority having this triplet may commit to its outcome: the primary
/// confidence exceeds the secondary by at least [`COMMIT_THRESHOLD`].
pub open spec fn spec_can_commit(bs: BareState) -> bool {
    bs.primary_confidence >= bs.secondary_confidence + COMMIT_THRESHOLD
}

/// Full validity of a state claimed to come from `authority`, against the
/// authority set's public keys: the triplet is self-consistent, the share
/// signature is the claimed sender's, each positive confidence is backed by
/// a valid proof whose triplet lines up with the state's, and at zero
/// primary confidence both proofs are absent.
pub open spec fn spec_state_valid(s: StateV, authority: int, pks: Seq<PublicKey>) -> bool {
    &&& bare_valid(s.bare_state)
    &&& 0 <= authority < pks.len()
    &&& spec_verify(
        pks[authority].0 as int,
        msg_digest(spec_enc_bare(s.bare_state)),
        s.signature,
    )
    &&& if s.bare_state.primary_confidence > 0 {
        match s.primary_proof {
            Option::None => false,
            Option::Some(pp) => {
                &&& spec_proof_valid(pp, pks)
                &&& if s.bare_state.secondary_confidence > 0 {
                    match s.secondary_proof {
                        Option::None => false,
                        Option::Some(sp) => {
                            &&& spec_proof_valid(sp, pks)
                            &&& s.bare_state.endorses == pp.bare_state.endorses
                            &&& pp.bare_state.endorses != sp.bare_state.endorses
                            &&& s.bare_state.primary_confidence == pp.bare_state.primary_confidence
                                + 1
                            &&& s.bare_state.secondary_confidence
                                == sp.bare_state.primary_confidence + 1
                            &&& sp.bare_state.primary_confidence + 1
                                >= pp.bare_state.secondary_confidence
                        },
                    }
                } else {
                    &&& s.secondary_proof is None
                    &&& pp.bare_state.secondary_confidence == 0
                    &&& s.bare_state.endorses == pp.bare_state.endorses
                    &&& s.bare_state.primary_confidence == pp.bare_state.primary_confidence + 1
                    &&& s.bare_state.secondary_confidence == pp.bare_state.secondary_confidence
                }
            },
        }
    } else {
        s.primary_proof is None && s.secondary_proof is None
    }
}

/// The state [`State::increase_confidence`] builds: primary confidence one
/// higher, the fresh proof installed, and a new share by the owner.
pub open spec fn spec_increase_confidence(s: StateV, proof: ProofV, sk: int) -> StateV
    recommends
        s.bare_state.primary_confidence < i64::MAX,
{
    let bare_state = BareState {
        primary_confidence: (s.bare_state.primary_confidence + 1) as i64,
        endorses: s.bare_state.endorses,
        secondary_confidence: s.bare_state.secondary_confidence,
    };
    StateV {
        bare_state,
        primary_proof: Option::Some(proof),
        secondary_proof: s.secondary_proof,
        signature: spec_sign(sk, msg_digest(spec_enc_bare(bare_state))),
    }
}

impl State {
    /// First own opinion of `author` for its proposal `hash`, signed.
    pub fn new(author: AuthorityId, hash: CryptoHash, secret_key: &SecretKey) -> (r: Self)
        ensures
            r@.bare_state == (BareState {
                primary_confidence: 0i64,
                endorses: BlockHeader { author, hash },
                secondary_confidence: 0i64,
            }),
            r@.primary_proof is None,
            r@.secondary_proof is None,
            r@.signature == spec_sign(
                secret_key.0 as int,
                msg_digest(spec_enc_bare(r@.bare_state)),
            ),
    {
        let bare_state = BareState::new(author, hash);
        let signature = bare_state.sign(secret_key);
        Self { bare_state, primary_proof: None, secondary_proof: None, signature }
    }

    /// State with the sentinel triplet, used as the starting belief about
    /// every peer.  Its signature is the owner's share over the sentinel and
    /// is never gossiped as a current state.
    pub fn empty(secret_key: &SecretKey) -> (r: Self)
        ensures
            r@.bare_state == spec_empty_bare(),
            r@.primary_proof is None,
            r@.secondary_proof is None,
            r@.signature == spec_sign(
                secret_key.0 as int,
                msg_digest(spec_enc_bare(spec_empty_bare())),
            ),
    {
        let bare_state = BareState::empty();
        let signature = bare_state.sign(secret_key);
        Self { bare_state, primary_proof: None, secondary_proof: None, signature }
    }

    /// Successor opinion with confidence increased by one, justified by
    /// `proof` and re-signed by the owner.
    pub fn increase_confidence(&self, proof: Proof, secret_key: &SecretKey) -> (r: Self)
        requires
            self@.bare_state.primary_confidence < i64::MAX,
        ensures
            r@ == spec_increase_confidence(self@, proof@, secret_key.0 as int),
    {
        let bare_state = BareState {
            primary_confidence: self.bare_state.primary_confidence + 1,
            endorses: self.bare_state.endorses,
            secondary_confidence: self.bare_state.secondary_confidence,
        };
        let signature = bare_state.sign(secret_key);
        Self {
            bare_state,
            primary_proof: Some(proof),
            secondary_proof: clone_opt_proof(&self.secondary_proof),
            signature,
        }
    }

    /// Whether an authority holding this opinion should commit to it.
    pub fn can_commit(&self) -> (r: bool)
        ensures
            r == spec_can_commit(self@.bare_state),
    {
        self.bare_state.primary_confidence as i128 >= self.bare_state.secondary_confidence as i128
            + COMMIT_THRESHOLD as i128
    }

    /// Check this state as evidence from `authority`: triplet consistency,
    /// the sender's share signature, and both proofs with their linkage to
    /// the triplet.
    pub fn verify(&self, authority: AuthorityId, public_keys: &Vec<PublicKey>) -> (r: bool)
        requires
            public_keys@.len() * 2 <= usize::MAX,
        ensures
            r == spec_state_valid(self@, authority as int, public_keys@),
    {
        if !self.bare_state.verify() {
            return false;
        }
        if authority >= public_keys.len() {
            return false;
        }
        let encoded = self.bare_state.bs_encode();
        if !public_keys[authority].verify(encoded.as_slice(), &self.signature) {
            return false;
        }
        if self.bare_state.primary_confidence > 0 {
            if let Some(primary_proof) = &self.primary_proof {
                if !primary_proof.verify(public_keys) {
                    return false;
                }
                if self.bare_state.secondary_confidence > 0 {
                    if let Some(secondary_proof) = &self.secondary_proof {
                        if !secondary_proof.verify(public_keys) {
                            return false;
                        }
                        let cur_bs = &self.bare_state;
                        let primary_bs = &primary_proof.bare_state;
                        let secondary_bs = &secondary_proof.bare_state;
                        // Current triplet and first proof must endorse the same outcome.
                        if cur_bs.endorses != primary_bs.endorses {
                            return false;
                        }
                        // The two proof triplets cannot endorse the same outcome.
                        if primary_bs.endorses == secondary_bs.endorses {
                            return false;
                        }
                        // Primary confidence is one above the first proof's.
                        if cur_bs.primary_confidence - 1 != primary_bs.primary_confidence {
                            return false;
                        }
                        // Secondary confidence is one above the second proof's primary.
                        if cur_bs.secondary_confidence - 1 != secondary_bs.primary_confidence {
                            return false;
                        }
                        // The second proof must be consistent with the first proof's
                        // view of the runner-up.
                        if cur_bs.secondary_confidence < primary_bs.secondary_confidence {
                            return false;
                        }
                        true
                    } else {
                        false
                    }
                } else {
                    if self.secondary_proof.is_some() {
                        return false;
                    }
                    let primary_bs = &primary_proof.bare_state;
                    // With zero secondary confidence the proof's triplet must
                    // carry zero secondary confidence as well ...
                    if primary_bs.secondary_confidence != 0 {
                        return false;
                    }
                    // ... and the current triplet must be exactly the proof's
                    // triplet with primary confidence one higher.
                    if self.bare_state.endorses != primary_bs.endorses {
                        return false;
                    }
                    if self.bare_state.primary_confidence - 1 != primary_bs.primary_confidence {
                        return false;
                    }
                    if self.bare_state.secondary_confidence != primary_bs.secondary_confidence {
                        return false;
                    }
                    true
                }
            } else {
                false
            }
        } else {
            // With zero primary confidence both proofs must be absent.
            self.primary_proof.is_none() && self.secondary_proof.is_none()
        }
    }

    /// The proposal this opinion endorses.
    pub fn endorses(&self) -> (r: BlockHeader)
        ensures
            r == self@.bare_state.endorses,
    {
        self.bare_state.endorses
    }

    /// Digest of the proposal this opinion endorses.
    pub fn block_hash(&self) -> (r: CryptoHash)
        ensures
            r == self@.bare_state.endorses.hash,
    {
        self.bare_state.endorses.hash
    }
}

/// The higher of two states by triplet order; the second wins ties.
pub open spec fn spec_max(a: StateV, b: StateV) -> StateV {
    if bs_le(a.bare_state, b.bare_state) {
        b
    } else {
        a
    }
}

/// The lower of two states by triplet order; the first loses ties.
pub open spec fn spec_min(a: StateV, b: StateV) -> StateV {
    if bs_le(a.bare_state, b.bare_state) {
        a
    } else {
        b
    }
}

/// Merge of two opinions: take the higher one, then raise its secondary
/// confidence if the lower opinion knows a better runner-up — the lower
/// opinion's primary when they endorse different outcomes, its secondary
/// when they endorse the same one — carrying the matching proof along.
pub open spec fn spec_merge(a: StateV, b: StateV) -> StateV {
    let hi = spec_max(a, b);
    let lo = spec_min(a, b);
    if hi.bare_state.endorses != lo.bare_state.endorses {
        if lo.bare_state.primary_confidence > hi.bare_state.secondary_confidence {
            StateV {
                bare_state: BareState {
                    primary_confidence: hi.bare_state.primary_confidence,
                    endorses: hi.bare_state.endorses,
                    secondary_confidence: lo.bare_state.primary_confidence,
                },
                primary_proof: hi.primary_proof,
                secondary_proof: lo.primary_proof,
                signature: hi.signature,
            }
        } else {
            hi
        }
    } else {
        if lo.bare_state.secondary_confidence > hi.bare_state.secondary_confidence {
            StateV {
                bare_state: BareState {
                    primary_confidence: hi.bare_state.primary_confidence,
                    endorses: hi.bare_state.endorses,
                    secondary_confidence: lo.bare_state.secondary_confidence,
                },
                primary_proof: hi.primary_proof,
                secondary_proof: lo.secondary_proof,
                signature: hi.signature,
            }
        } else {
            hi
        }
    }
}

/// Merge two opinions.  See [`spec_merge`] for the exact result.
pub fn merge(state0: &State, state1: &State) -> (r: State)
    ensures
        r@ == spec_merge(state0@, state1@),
{
    let use1: bool = !bare_less(&state1.bare_state, &state0.bare_state);
    let (hi, lo) = if use1 {
        (state1, state0)
    } else {
        (state0, state1)
    };
    let mut max_state = clone_state(hi);
    if hi.bare_state.endorses != lo.bare_state.endorses {
        if lo.bare_state.primary_confidence > hi.bare_state.secondary_confidence {
            max_state.bare_state.secondary_confidence = lo.bare_state.primary_confidence;
            max_state.secondary_proof = clone_opt_proof(&lo.primary_proof);
        }
    } else {
        if lo.bare_state.secondary_confidence > hi.bare_state.secondary_confidence {
            max_state.bare_state.secondary_confidence = lo.bare_state.secondary_confidence;
            max_state.secondary_proof = clone_opt_proof(&lo.secondary_proof);
        }
    }
    max_state
}

/// Two states purportedly from one peer are incompatible when their merge
/// is not the higher of the two — the lower state carries information the
/// higher one cannot explain.  Incompatibility is evidence of equivocation.
pub open spec fn spec_incompatible(a: StateV, b: StateV) -> bool {
    spec_merge(a, b).bare_state != spec_max(a, b).bare_state
}

/// Detect equivocation between two states from the same peer.
pub fn incompatible_states(state0: &State, state1: &State) -> (r: bool)
    ensures
        r == spec_incompatible(state0@, state1@),
{
    let merged = merge(state0, state1);
    let use1: bool = !bare_less(&state1.bare_state, &state0.bare_state);
    let max_bs = if use1 {
        &state1.bare_state
    } else {
        &state0.bare_state
    };
    merged.bare_state != *max_bs
}

/// Merging a state with itself returns it unchanged, proofs included.
pub proof fn lemma_merge_idempotent(s: StateV)
    ensures
        spec_merge(s, s) == s,
{
}

/// Merging a valid state with a sentinel-triplet state, in either order,
/// returns the valid state unchanged.
pub proof fn lemma_merge_sentinel(s: StateV, e: StateV)
    requires
        bare_valid(s.bare_state),
        e.bare_state == spec_empty_bare(),
    ensures
        spec_merge(s, e) == s,
        spec_merge(e, s) == s,
{
}

/// Merge is commutative whenever the two triplets differ.
pub proof fn lemma_merge_commutative(a: StateV, b: StateV)
    requires
        a.bare_state != b.bare_state,
    ensures
        spec_merge(a, b) == spec_merge(b, a),
{
}

/// States with equal triplets are never incompatible; in particular a state
/// is compatible with itself.
pub proof fn lemma_incompatible_needs_difference(a: StateV, b: StateV)
    ensures
        a.bare_state == b.bare_state ==> !spec_incompatible(a, b),
        !spec_incompatible(a, a),
{
}

/// The merge result is at least as high as both inputs.
pub proof fn lemma_merge_monotone(a: StateV, b: StateV)
    ensures
        bs_le(a.bare_state, spec_merge(a, b).bare_state),
        bs_le(b.bare_state, spec_merge(a, b).bare_state),
{
}

/// Merging well-formed triplets yields a well-formed triplet, and a valid
/// one as soon as either input is valid.
pub proof fn lemma_merge_wf(a: StateV, b: StateV)
    requires
        bare_wf(a.bare_state),
        bare_wf(b.bare_state),
    ensures
        bare_wf(spec_merge(a, b).bare_state),
        bare_valid(a.bare_state) || bare_valid(b.bare_state) ==> bare_valid(
            spec_merge(a, b).bare_state,
        ),
{
}

} // verus!
