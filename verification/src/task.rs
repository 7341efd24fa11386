//! The gossip state machine around an engine.
//!
//! A [`NightshadeTask`] drives one [`Nightshade`] engine: it signs and
//! broadcasts the own opinion, checks and dispatches inbound envelopes,
//! requests and serves the proposals referenced by opinions, and surfaces
//! the commit decision exactly once.  The task is a pure state machine:
//! instead of performing I/O it appends outbound envelopes to an outbox
//! which the embedding runtime drains, and the runtime feeds inbound
//! envelopes and control commands to it one at a time.

use vstd::prelude::*;

use crate::AuthorityId;
use crate::digest::CryptoHash;
use crate::digest::hash_bytes;
use crate::digest::spec_hash_of;
use crate::engine::NSResult;
use crate::engine::NSResultV;
use crate::engine::Nightshade;
use crate::engine::NightshadeV;
use crate::engine::engine_inv;
use crate::engine::spec_update;
use crate::sig::PublicKey;
use crate::sig::SecretKey;
use crate::sig::Signature;
use crate::sig::key_pair_from_seed;
use crate::sig::msg_digest;
use crate::sig::spec_sign;
use crate::sig::spec_verify;
use crate::state::Block;
use crate::state::BareState;
use crate::state::BlockHeader;
use crate::state::BlockV;
use crate::state::Proof;
use crate::state::ProofV;
use crate::state::State;
use crate::state::StateV;
use crate::state::clone_state;
use crate::state::spec_enc_bare;
use crate::wire::enc_u64;

verus! {

/// Identifier of a participant as the embedding node addresses it.
pub type UID = u64;

/// The fixed participant set of one consensus session, with the keys the
/// owner needs: transport keys sign gossip envelopes and proposals, the
/// aggregable keys sign opinions.  The two key sets are independent.
pub struct ConsensusPariticipants {
    pub owner_uid: UID,
    pub witness_uids: Vec<UID>,
    /// Transport public keys, used to check envelopes and proposals.
    pub public_keys: Vec<PublicKey>,
    pub owner_secret_key: SecretKey,
    /// Aggregable public keys, used to check opinions and proofs.
    pub bls_public_keys: Vec<PublicKey>,
    pub bls_owner_secret_key: SecretKey,
}

/// Mathematical image of a [`ConsensusPariticipants`].
pub struct ConsensusPariticipantsV {
    pub owner_uid: int,
    pub witness_uids: Seq<UID>,
    pub public_keys: Seq<PublicKey>,
    pub owner_secret_key: SecretKey,
    pub bls_public_keys: Seq<PublicKey>,
    pub bls_owner_secret_key: SecretKey,
}

impl View for ConsensusPariticipants {
    type V = ConsensusPariticipantsV;

    open spec fn view(&self) -> ConsensusPariticipantsV {
        ConsensusPariticipantsV {
            owner_uid: self.owner_uid as int,
            witness_uids: self.witness_uids@,
            public_keys: self.public_keys@,
            owner_secret_key: self.owner_secret_key,
            bls_public_keys: self.bls_public_keys@,
            bls_owner_secret_key: self.bls_owner_secret_key,
        }
    }
}

/// A well-formed participant set: identifiers are the canonical numbering
/// `0..N`, the owner is one of them, and every key table covers the set.
pub open spec fn participants_wf(p: ConsensusPariticipantsV) -> bool {
    &&& p.witness_uids.len() >= 1
    &&& p.witness_uids.len() * 2 <= usize::MAX
    &&& forall|i: int| 0 <= i < p.witness_uids.len() ==> #[trigger] p.witness_uids[i] == i
    &&& 0 <= p.owner_uid < p.witness_uids.len()
    &&& p.public_keys.len() == p.witness_uids.len()
    &&& p.bls_public_keys.len() == p.witness_uids.len()
}

impl ConsensusPariticipants {
    /// Package a participant set.  Identifiers must be the canonical
    /// numbering `0..N` and the owner must be one of them.
    pub fn new(
        owner_uid: UID,
        witness_uids: Vec<UID>,
        public_keys: Vec<PublicKey>,
        owner_secret_key: SecretKey,
        bls_public_keys: Vec<PublicKey>,
        bls_owner_secret_key: SecretKey,
    ) -> (r: Self)
        requires
            witness_uids@.len() >= 1,
            witness_uids@.len() * 2 <= usize::MAX,
            forall|i: int| 0 <= i < witness_uids@.len() ==> #[trigger] witness_uids@[i] == i,
            owner_uid < witness_uids@.len(),
            public_keys@.len() == witness_uids@.len(),
            bls_public_keys@.len() == witness_uids@.len(),
        ensures
            participants_wf(r@),
            r@ == (ConsensusPariticipantsV {
                owner_uid: owner_uid as int,
                witness_uids: witness_uids@,
                public_keys: public_keys@,
                owner_secret_key,
                bls_public_keys: bls_public_keys@,
                bls_owner_secret_key,
            }),
    {
        Self {
            owner_uid,
            witness_uids,
            public_keys,
            owner_secret_key,
            bls_public_keys,
            bls_owner_secret_key,
        }
    }

    /// Index of the session owner in the canonical numbering.
    pub fn owner_id(&self) -> (r: usize)
        requires
            self@.owner_uid <= usize::MAX,
        ensures
            r == self@.owner_uid,
    {
        self.owner_uid as usize
    }

    /// Size of the participant set.
    pub fn num_authorities(&self) -> (r: usize)
        ensures
            r == self@.witness_uids.len(),
    {
        self.witness_uids.len()
    }
}

/// Control commands for a task: start (or restart) a session, or stop it.
pub enum Control {
    Reset((ConsensusPariticipants, Vec<u8>)),
    Stop,
}

/// An opinion in transit from one authority to another.
pub struct Message {
    pub sender_id: AuthorityId,
    pub receiver_id: AuthorityId,
    pub state: State,
}

/// Mathematical image of a [`Message`].
pub struct MessageV {
    pub sender_id: int,
    pub receiver_id: int,
    pub state: StateV,
}

impl View for Message {
    type V = MessageV;

    open spec fn view(&self) -> MessageV {
        MessageV {
            sender_id: self.sender_id as int,
            receiver_id: self.receiver_id as int,
            state: self.state@,
        }
    }
}

/// A proposal signed by its author over the digest of its payload.
pub struct SignedBlock {
    pub block: Block,
    pub signature: Signature,
}

/// Mathematical image of a [`SignedBlock`].
pub struct SignedBlockV {
    pub block: BlockV,
    pub signature: int,
}

impl View for SignedBlock {
    type V = SignedBlockV;

    open spec fn view(&self) -> SignedBlockV {
        SignedBlockV { block: self.block@, signature: self.signature@ }
    }
}

/// The 32 canonical bytes of a digest: its four limbs as little-endian
/// words.
#[verifier::opaque]
pub open spec fn spec_enc_hash(h: CryptoHash) -> Seq<u8> {
    crate::wire::spec_enc_word(h.0 as int) + crate::wire::spec_enc_word(h.1 as int)
        + crate::wire::spec_enc_word(h.2 as int) + crate::wire::spec_enc_word(h.3 as int)
}

/// Append the canonical bytes of a digest.
pub fn enc_hash(out: &mut Vec<u8>, h: &CryptoHash)
    ensures
        final(out)@ == old(out)@ + spec_enc_hash(*h),
{
    enc_u64(out, h.0);
    enc_u64(out, h.1);
    enc_u64(out, h.2);
    enc_u64(out, h.3);
    proof {
        reveal(spec_enc_hash);
        assert(out@ =~= old(out)@ + spec_enc_hash(*h));
    }
}

impl SignedBlock {
    /// Wrap `payload` into a proposal by `author`, signed with the
    /// author's transport key over the digest of the payload.
    pub fn new(author: AuthorityId, payload: Vec<u8>, secret_key: &SecretKey) -> (r: Self)
        ensures
            r@.block.header.author == author,
            r@.block.header.hash == spec_hash_of(payload@),
            r@.block.payload == payload@,
            r@.signature == spec_sign(
                secret_key.0 as int,
                msg_digest(spec_enc_hash(r@.block.header.hash)),
            ),
    {
        let block = Block::new(author, payload);
        let mut hash_bytes_buf: Vec<u8> = Vec::new();
        enc_hash(&mut hash_bytes_buf, &block.header.hash);
        let signature = secret_key.sign(hash_bytes_buf.as_slice());
        Self { block, signature }
    }

    /// Check the author's signature over the proposal's digest.
    pub fn verify(&self, public_key: &PublicKey) -> (r: bool)
        ensures
            r == spec_verify(
                public_key.0 as int,
                msg_digest(spec_enc_hash(self@.block.header.hash)),
                self@.signature,
            ),
    {
        let mut hash_bytes_buf: Vec<u8> = Vec::new();
        enc_hash(&mut hash_bytes_buf, &self.block.header.hash);
        public_key.verify(hash_bytes_buf.as_slice(), &self.signature)
    }
}

/// What an envelope carries: an opinion update, a request for proposals
/// by author, or a reply with proposals.
pub enum GossipBody {
    /// Boxed because of the large size difference between the variants.
    NightshadeStateUpdate(Box<Message>),
    PayloadRequest(Vec<AuthorityId>),
    PayloadReply(Vec<SignedBlock>),
}

/// Mathematical image of a [`GossipBody`].
pub enum GossipBodyV {
    NightshadeStateUpdate(MessageV),
    PayloadRequest(Seq<int>),
    PayloadReply(Seq<SignedBlockV>),
}

impl View for GossipBody {
    type V = GossipBodyV;

    open spec fn view(&self) -> GossipBodyV {
        match self {
            GossipBody::NightshadeStateUpdate(m) => GossipBodyV::NightshadeStateUpdate((**m)@),
            GossipBody::PayloadRequest(ids) => GossipBodyV::PayloadRequest(
                ids@.map_values(|i: AuthorityId| i as int),
            ),
            GossipBody::PayloadReply(blocks) => GossipBodyV::PayloadReply(
                blocks@.map_values(|b: SignedBlock| b@),
            ),
        }
    }
}

/// Canonical bytes of a proof mask, one byte per bit.
pub open spec fn spec_enc_mask(mask: Seq<bool>) -> Seq<u8>
    decreases mask.len(),
{
    if mask.len() == 0 {
        Seq::empty()
    } else {
        spec_enc_mask(mask.drop_last()).push(
            if mask.last() {
                1u8
            } else {
                0u8
            },
        )
    }
}

/// Canonical bytes of a proof: its triplet, the mask behind its length,
/// and the aggregate signature.
pub open spec fn spec_enc_proof(p: ProofV) -> Seq<u8> {
    spec_enc_bare(p.bare_state) + crate::wire::spec_enc_word(p.mask.len() as int)
        + spec_enc_mask(p.mask) + crate::wire::spec_enc_word(p.signature)
}

/// Canonical bytes of an optional proof: a presence byte, then the proof.
pub open spec fn spec_enc_opt_proof(p: Option<ProofV>) -> Seq<u8> {
    match p {
        Option::None => seq![0u8],
        Option::Some(q) => seq![1u8] + spec_enc_proof(q),
    }
}

/// Canonical bytes of a full opinion: triplet, both optional proofs, and
/// the sender's share.
pub open spec fn spec_enc_state(s: StateV) -> Seq<u8> {
    spec_enc_bare(s.bare_state) + spec_enc_opt_proof(s.primary_proof) + spec_enc_opt_proof(
        s.secondary_proof,
    ) + crate::wire::spec_enc_word(s.signature)
}

/// Canonical bytes of an opinion in transit.
pub open spec fn spec_enc_message(m: MessageV) -> Seq<u8> {
    crate::wire::spec_enc_word(m.sender_id) + crate::wire::spec_enc_word(m.receiver_id)
        + spec_enc_state(m.state)
}

/// Canonical bytes of a signed proposal: author, digest, then the payload
/// behind its length, then the author's signature.
pub open spec fn spec_enc_signed_block(b: SignedBlockV) -> Seq<u8> {
    crate::wire::spec_enc_word(b.block.header.author as int) + spec_enc_hash(b.block.header.hash)
        + crate::wire::spec_enc_word(b.block.payload.len() as int) + b.block.payload
        + crate::wire::spec_enc_word(b.signature)
}

/// Canonical bytes of a list of authority identifiers.
pub open spec fn spec_enc_ids(ids: Seq<int>) -> Seq<u8>
    decreases ids.len(),
{
    if ids.len() == 0 {
        Seq::empty()
    } else {
        spec_enc_ids(ids.drop_last()) + crate::wire::spec_enc_word(ids.last())
    }
}

/// Canonical bytes of a list of signed proposals.
pub open spec fn spec_enc_blocks(blocks: Seq<SignedBlockV>) -> Seq<u8>
    decreases blocks.len(),
{
    if blocks.len() == 0 {
        Seq::empty()
    } else {
        spec_enc_blocks(blocks.drop_last()) + spec_enc_signed_block(blocks.last())
    }
}

/// Canonical bytes of an envelope body: a tag byte, then the variant's
/// fields, lists behind their length.
pub open spec fn spec_enc_body(b: GossipBodyV) -> Seq<u8> {
    match b {
        GossipBodyV::NightshadeStateUpdate(m) => seq![0u8] + spec_enc_message(m),
        GossipBodyV::PayloadRequest(ids) => seq![1u8] + crate::wire::spec_enc_word(
            ids.len() as int,
        ) + spec_enc_ids(ids),
        GossipBodyV::PayloadReply(blocks) => seq![2u8] + crate::wire::spec_enc_word(
            blocks.len() as int,
        ) + spec_enc_blocks(blocks),
    }
}

/// The envelope hash: the digest of sender, receiver and the body's
/// canonical bytes.  This is what transport signatures cover.
pub open spec fn spec_gossip_hash(sender_id: int, receiver_id: int, body: GossipBodyV) -> CryptoHash {
    spec_hash_of(
        crate::wire::spec_enc_word(sender_id) + crate::wire::spec_enc_word(receiver_id)
            + spec_enc_body(body),
    )
}

/// Append the canonical bytes of a proof.
fn enc_proof(out: &mut Vec<u8>, p: &Proof)
    ensures
        final(out)@ == old(out)@ + spec_enc_proof(p@),
{
    let mut encoded = p.bare_state.bs_encode();
    out.append(&mut encoded);
    enc_u64(out, p.mask.len() as u64);
    let mut i: usize = 0;
    let ghost mid = out@;
    while i < p.mask.len()
        invariant
            i <= p.mask@.len(),
            out@ == mid + spec_enc_mask(p.mask@.subrange(0, i as int)),
        decreases p.mask@.len() - i,
    {
        proof {
            assert(p.mask@.subrange(0, i + 1).drop_last() =~= p.mask@.subrange(0, i as int));
        }
        if p.mask[i] {
            out.push(1);
        } else {
            out.push(0);
        }
        i = i + 1;
    }
    proof {
        assert(p.mask@.subrange(0, p.mask@.len() as int) =~= p.mask@);
    }
    enc_u64(out, p.signature.0);
    proof {
        assert(out@ =~= old(out)@ + spec_enc_proof(p@));
    }
}

/// Append the canonical bytes of an optional proof.
fn enc_opt_proof(out: &mut Vec<u8>, p: &Option<Proof>)
    ensures
        final(out)@ == old(out)@ + spec_enc_opt_proof(crate::state::opt_proof_view(*p)),
{
    match p {
        Option::None => {
            out.push(0);
            proof {
                assert(out@ =~= old(out)@ + spec_enc_opt_proof(
                    crate::state::opt_proof_view(*p),
                ));
            }
        },
        Option::Some(q) => {
            out.push(1);
            enc_proof(out, q);
            proof {
                assert(out@ =~= old(out)@ + spec_enc_opt_proof(
                    crate::state::opt_proof_view(*p),
                ));
            }
        },
    }
}

/// Append the canonical bytes of an opinion.
fn enc_state(out: &mut Vec<u8>, s: &State)
    ensures
        final(out)@ == old(out)@ + spec_enc_state(s@),
{
    let mut encoded = s.bare_state.bs_encode();
    out.append(&mut encoded);
    enc_opt_proof(out, &s.primary_proof);
    enc_opt_proof(out, &s.secondary_proof);
    enc_u64(out, s.signature.0);
    proof {
        assert(out@ =~= old(out)@ + spec_enc_state(s@));
    }
}

/// Append the canonical bytes of an opinion in transit.
fn enc_message(out: &mut Vec<u8>, m: &Message)
    ensures
        final(out)@ == old(out)@ + spec_enc_message(m@),
{
    enc_u64(out, m.sender_id as u64);
    enc_u64(out, m.receiver_id as u64);
    enc_state(out, &m.state);
    proof {
        assert(out@ =~= old(out)@ + spec_enc_message(m@));
    }
}

/// Append the canonical bytes of a signed proposal.
fn enc_signed_block(out: &mut Vec<u8>, b: &SignedBlock)
    ensures
        final(out)@ == old(out)@ + spec_enc_signed_block(b@),
{
    enc_u64(out, b.block.header.author as u64);
    enc_hash(out, &b.block.header.hash);
    enc_u64(out, b.block.payload.len() as u64);
    let mut i: usize = 0;
    let ghost mid = out@;
    while i < b.block.payload.len()
        invariant
            i <= b.block.payload@.len(),
            out@ == mid + b.block.payload@.subrange(0, i as int),
        decreases b.block.payload@.len() - i,
    {
        out.push(b.block.payload[i]);
        proof {
            assert(out@ =~= mid + b.block.payload@.subrange(0, i + 1));
        }
        i = i + 1;
    }
    proof {
        assert(b.block.payload@.subrange(0, b.block.payload@.len() as int) =~= b.block.payload@);
    }
    enc_u64(out, b.signature.0);
    proof {
        assert(out@ =~= old(out)@ + spec_enc_signed_block(b@));
    }
}

/// Append the canonical bytes of an envelope body.
fn enc_body(out: &mut Vec<u8>, body: &GossipBody)
    ensures
        final(out)@ == old(out)@ + spec_enc_body(body@),
{
    match body {
        GossipBody::NightshadeStateUpdate(m) => {
            out.push(0);
            enc_message(out, m);
            proof {
                assert(out@ =~= old(out)@ + spec_enc_body(body@));
            }
        },
        GossipBody::PayloadRequest(ids) => {
            out.push(1);
            enc_u64(out, ids.len() as u64);
            let ghost idsv = ids@.map_values(|i: AuthorityId| i as int);
            let mut i: usize = 0;
            let ghost mid = out@;
            while i < ids.len()
                invariant
                    i <= ids@.len(),
                    idsv == ids@.map_values(|x: AuthorityId| x as int),
                    out@ == mid + spec_enc_ids(idsv.subrange(0, i as int)),
                decreases ids@.len() - i,
            {
                proof {
                    assert(idsv.subrange(0, i + 1).drop_last() =~= idsv.subrange(0, i as int));
                }
                enc_u64(out, ids[i] as u64);
                i = i + 1;
            }
            proof {
                assert(idsv.subrange(0, idsv.len() as int) =~= idsv);
                assert(out@ =~= old(out)@ + spec_enc_body(body@));
            }
        },
        GossipBody::PayloadReply(blocks) => {
            out.push(2);
            enc_u64(out, blocks.len() as u64);
            let ghost blocksv = blocks@.map_values(|b: SignedBlock| b@);
            let mut i: usize = 0;
            let ghost mid = out@;
            while i < blocks.len()
                invariant
                    i <= blocks@.len(),
                    blocksv == blocks@.map_values(|b: SignedBlock| b@),
                    out@ == mid + spec_enc_blocks(blocksv.subrange(0, i as int)),
                decreases blocks@.len() - i,
            {
                proof {
                    assert(blocksv.subrange(0, i + 1).drop_last() =~= blocksv.subrange(
                        0,
                        i as int,
                    ));
                }
                enc_signed_block(out, &blocks[i]);
                i = i + 1;
            }
            proof {
                assert(blocksv.subrange(0, blocksv.len() as int) =~= blocksv);
                assert(out@ =~= old(out)@ + spec_enc_body(body@));
            }
        },
    }
}

/// One gossip envelope, authenticated by the sender's transport signature
/// over the envelope hash.
pub struct Gossip {
    pub sender_id: AuthorityId,
    pub receiver_uid: AuthorityId,
    pub body: GossipBody,
    pub signature: Signature,
}

/// Mathematical image of a [`Gossip`].
pub struct GossipV {
    pub sender_id: int,
    pub receiver_uid: int,
    pub body: GossipBodyV,
    pub signature: int,
}

impl View for Gossip {
    type V = GossipV;

    open spec fn view(&self) -> GossipV {
        GossipV {
            sender_id: self.sender_id as int,
            receiver_uid: self.receiver_uid as int,
            body: self.body@,
            signature: self.signature@,
        }
    }
}

impl Gossip {
    /// Build an envelope and sign its hash with the sender's transport key.
    pub fn new(
        sender_id: AuthorityId,
        receiver_id: AuthorityId,
        body: GossipBody,
        sk: &SecretKey,
    ) -> (r: Self)
        ensures
            r@ == (GossipV {
                sender_id: sender_id as int,
                receiver_uid: receiver_id as int,
                body: body@,
                signature: spec_sign(
                    sk.0 as int,
                    msg_digest(
                        spec_enc_hash(
                            spec_gossip_hash(sender_id as int, receiver_id as int, body@),
                        ),
                    ),
                ),
            }),
    {
        let mut buf: Vec<u8> = Vec::new();
        enc_u64(&mut buf, sender_id as u64);
        enc_u64(&mut buf, receiver_id as u64);
        enc_body(&mut buf, &body);
        let hash = hash_bytes(buf.as_slice());
        let mut hash_buf: Vec<u8> = Vec::new();
        enc_hash(&mut hash_buf, &hash);
        let signature = sk.sign(hash_buf.as_slice());
        Self { sender_id, receiver_uid: receiver_id, body, signature }
    }

    /// The envelope hash transport signatures cover.
    pub fn get_hash(&self) -> (r: CryptoHash)
        ensures
            r == spec_gossip_hash(self@.sender_id, self@.receiver_uid, self@.body),
    {
        let mut buf: Vec<u8> = Vec::new();
        enc_u64(&mut buf, self.sender_id as u64);
        enc_u64(&mut buf, self.receiver_uid as u64);
        enc_body(&mut buf, &self.body);
        hash_bytes(buf.as_slice())
    }

    /// Check the envelope's transport signature against `pk`.
    pub fn verify(&self, pk: &PublicKey) -> (r: bool)
        ensures
            r == spec_verify(
                pk.0 as int,
                msg_digest(
                    spec_enc_hash(
                        spec_gossip_hash(self@.sender_id, self@.receiver_uid, self@.body),
                    ),
                ),
                self@.signature,
            ),
    {
        let hash = self.get_hash();
        let mut hash_buf: Vec<u8> = Vec::new();
        enc_hash(&mut hash_buf, &hash);
        pk.verify(hash_buf.as_slice(), &self.signature)
    }
}

/// Copy a byte vector.
fn clone_bytes(v: &Vec<u8>) -> (r: Vec<u8>)
    ensures
        r@ == v@,
{
    let mut out: Vec<u8> = Vec::new();
    let mut i: usize = 0;
    while i < v.len()
        invariant
            i <= v@.len(),
            out@ == v@.subrange(0, i as int),
        decreases v@.len() - i,
    {
        out.push(v[i]);
        proof {
            assert(out@ =~= v@.subrange(0, i + 1));
        }
        i = i + 1;
    }
    proof {
        assert(v@.subrange(0, v@.len() as int) =~= v@);
    }
    out
}

/// Copy a signed proposal.
fn clone_signed_block(b: &SignedBlock) -> (r: SignedBlock)
    ensures
        r@ == b@,
{
    SignedBlock {
        block: Block { header: b.block.header, payload: clone_bytes(&b.block.payload) },
        signature: b.signature,
    }
}

/// Image of an optional participant set.
pub open spec fn opt_cp_view(p: Option<ConsensusPariticipants>) -> Option<
    ConsensusPariticipantsV,
> {
    match p {
        Option::Some(q) => Option::Some(q@),
        Option::None => Option::None,
    }
}

/// Image of an optional signed proposal.
pub open spec fn opt_sb_view(p: Option<SignedBlock>) -> Option<SignedBlockV> {
    match p {
        Option::Some(q) => Option::Some(q@),
        Option::None => Option::None,
    }
}

/// Image of an optional engine.
pub open spec fn opt_ns_view(p: Option<Nightshade>) -> Option<NightshadeV> {
    match p {
        Option::Some(q) => Option::Some(q@),
        Option::None => Option::None,
    }
}

/// Mathematical image of a [`NightshadeTask`].
pub struct NightshadeTaskV {
    pub owner_id: int,
    pub num_authorities: int,
    pub participants: Option<ConsensusPariticipantsV>,
    pub authority_blocks: Seq<Option<SignedBlockV>>,
    pub nightshade: Option<NightshadeV>,
    pub consensus_reached: Option<BlockHeader>,
    pub missing_payloads: int,
    pub outbox: Seq<GossipV>,
}

/// A task in a consistent shape: sizes line up, a stored participant set
/// is well-formed and matches the session size, and a running engine
/// satisfies its own invariant for the same owner and session size.
pub open spec fn task_wf(t: NightshadeTaskV) -> bool {
    &&& 0 <= t.owner_id < t.num_authorities
    &&& t.num_authorities * 2 <= usize::MAX
    &&& t.authority_blocks.len() == t.num_authorities
    &&& 0 <= t.missing_payloads <= t.num_authorities
    &&& match t.participants {
        Option::Some(p) => participants_wf(p) && p.witness_uids.len() == t.num_authorities
            && p.owner_uid == t.owner_id,
        Option::None => true,
    }
    &&& match t.nightshade {
        Option::Some(ns) => engine_inv(ns) && ns.owner_id == t.owner_id && ns.num_authorities
            == t.num_authorities && t.participants is Some,
        Option::None => true,
    }
}

/// A task that is running: a session was started and the engine exists.
pub open spec fn task_running(t: NightshadeTaskV) -> bool {
    t.nightshade is Some && t.participants is Some
}

/// The gossip state machine around one engine.  I/O free: outbound
/// envelopes accumulate in `outbox` and the embedding runtime feeds
/// inbound envelopes in one at a time.
pub struct NightshadeTask {
    owner_id: AuthorityId,
    num_authorities: usize,
    participants: Option<ConsensusPariticipants>,
    /// Proposals of the participants, as far as they are known.  An
    /// authority must hold a proposal before it can endorse it.
    authority_blocks: Vec<Option<SignedBlock>>,
    nightshade: Option<Nightshade>,
    /// Set once, when the engine first commits; never changes afterwards.
    consensus_reached: Option<BlockHeader>,
    /// Number of peer proposals not received yet.
    missing_payloads: usize,
    /// Outbound envelopes awaiting transmission by the embedding runtime.
    outbox: Vec<Gossip>,
}

impl View for NightshadeTask {
    type V = NightshadeTaskV;

    closed spec fn view(&self) -> NightshadeTaskV {
        NightshadeTaskV {
            owner_id: self.owner_id as int,
            num_authorities: self.num_authorities as int,
            participants: match self.participants {
                Option::Some(ref p) => Option::Some(p@),
                Option::None => Option::None,
            },
            authority_blocks: self.authority_blocks@.map_values(
                |b: Option<SignedBlock>| opt_sb_view(b),
            ),
            nightshade: match self.nightshade {
                Option::Some(ref ns) => Option::Some(ns@),
                Option::None => Option::None,
            },
            consensus_reached: self.consensus_reached,
            missing_payloads: self.missing_payloads as int,
            outbox: self.outbox@.map_values(|g: Gossip| g@),
        }
    }
}

/// The envelope carrying opinion `m` from the sending task, signed with `sk`.
#[verifier::opaque]
pub open spec fn spec_opinion_envelope(owner: int, m: MessageV, sk: SecretKey) -> GossipV {
    GossipV {
        sender_id: owner,
        receiver_uid: m.receiver_id,
        body: GossipBodyV::NightshadeStateUpdate(m),
        signature: spec_sign(
            sk.0 as int,
            msg_digest(
                spec_enc_hash(
                    spec_gossip_hash(
                        owner,
                        m.receiver_id,
                        GossipBodyV::NightshadeStateUpdate(m),
                    ),
                ),
            ),
        ),
    }
}

/// The envelope requesting the proposals of `ids` from `receiver`.
#[verifier::opaque]
pub open spec fn spec_request_envelope(
    owner: int,
    receiver: int,
    ids: Seq<int>,
    sk: SecretKey,
) -> GossipV {
    GossipV {
        sender_id: owner,
        receiver_uid: receiver,
        body: GossipBodyV::PayloadRequest(ids),
        signature: spec_sign(
            sk.0 as int,
            msg_digest(
                spec_enc_hash(
                    spec_gossip_hash(owner, receiver, GossipBodyV::PayloadRequest(ids)),
                ),
            ),
        ),
    }
}

/// The envelope serving `blocks` to `receiver`.
#[verifier::opaque]
pub open spec fn spec_reply_envelope(
    owner: int,
    receiver: int,
    blocks: Seq<SignedBlockV>,
    sk: SecretKey,
) -> GossipV {
    GossipV {
        sender_id: owner,
        receiver_uid: receiver,
        body: GossipBodyV::PayloadReply(blocks),
        signature: spec_sign(
            sk.0 as int,
            msg_digest(
                spec_enc_hash(
                    spec_gossip_hash(owner, receiver, GossipBodyV::PayloadReply(blocks)),
                ),
            ),
        ),
    }
}

/// The broadcast round: one opinion envelope to each of the first `n`
/// authorities but the owner, in index order.
pub open spec fn spec_broadcast(own: StateV, owner: int, sk: SecretKey, n: int) -> Seq<GossipV>
    decreases n,
{
    if n <= 0 {
        Seq::empty()
    } else {
        spec_broadcast(own, owner, sk, n - 1) + if n - 1 == owner {
            Seq::empty()
        } else {
            seq![
                spec_opinion_envelope(
                    owner,
                    MessageV { sender_id: owner, receiver_id: n - 1, state: own },
                    sk,
                ),
            ]
        }
    }
}

/// The requests for the proposals still missing among the first `n`
/// authorities, in index order.
pub open spec fn spec_missing_requests(
    blocks: Seq<Option<SignedBlockV>>,
    owner: int,
    sk: SecretKey,
    n: int,
) -> Seq<GossipV>
    decreases n,
{
    if n <= 0 {
        Seq::empty()
    } else {
        spec_missing_requests(blocks, owner, sk, n - 1) + if blocks[n - 1] is None {
            seq![spec_request_envelope(owner, n - 1, seq![n - 1], sk)]
        } else {
            Seq::empty()
        }
    }
}

/// The locally known subset of the proposals `ids` ask for, in the order
/// asked.  Identifiers out of range are treated as unknown.
pub open spec fn spec_known_blocks(blocks: Seq<Option<SignedBlockV>>, ids: Seq<int>) -> Seq<
    SignedBlockV,
>
    decreases ids.len(),
{
    if ids.len() == 0 {
        Seq::empty()
    } else {
        spec_known_blocks(blocks, ids.drop_last()) + if 0 <= ids.last() < blocks.len() {
            match blocks[ids.last()] {
                Option::Some(b) => seq![b],
                Option::None => Seq::empty(),
            }
        } else {
            Seq::empty()
        }
    }
}

/// Flag `authority` as adversarial in the running engine.
pub open spec fn spec_flag(t: NightshadeTaskV, authority: int) -> NightshadeTaskV {
    match t.nightshade {
        Option::Some(ns) => NightshadeTaskV {
            nightshade: Option::Some(
                NightshadeV { is_adversary: ns.is_adversary.update(authority, true), ..ns },
            ),
            ..t
        },
        Option::None => t,
    }
}

/// Handling one signed proposal from `sender`: a proposal whose author is
/// unknown or whose signature fails flags the sender; a second, different
/// proposal by a known author flags that author and clears the slot; a
/// first proposal is stored and counts against the missing ones.
pub open spec fn spec_receive_one(
    t: NightshadeTaskV,
    sender: int,
    sb: SignedBlockV,
) -> NightshadeTaskV {
    let author = sb.block.header.author as int;
    let pk_ok = match t.participants {
        Option::Some(p) => 0 <= author < t.num_authorities && spec_verify(
            p.public_keys[author].0 as int,
            msg_digest(spec_enc_hash(sb.block.header.hash)),
            sb.signature,
        ),
        Option::None => false,
    };
    if !pk_ok {
        spec_flag(t, sender)
    } else {
        match t.authority_blocks[author] {
            Option::Some(stored) => if stored.block.header.hash != sb.block.header.hash {
                NightshadeTaskV {
                    authority_blocks: t.authority_blocks.update(author, Option::None),
                    ..spec_flag(t, author)
                }
            } else {
                t
            },
            Option::None => NightshadeTaskV {
                authority_blocks: t.authority_blocks.update(author, Option::Some(sb)),
                missing_payloads: if t.missing_payloads > 0 {
                    t.missing_payloads - 1
                } else {
                    0
                },
                ..t
            },
        }
    }
}

/// Handling a batch of signed proposals, in order.
pub open spec fn spec_receive(
    t: NightshadeTaskV,
    sender: int,
    sbs: Seq<SignedBlockV>,
) -> NightshadeTaskV
    decreases sbs.len(),
{
    if sbs.len() == 0 {
        t
    } else {
        spec_receive_one(spec_receive(t, sender, sbs.drop_last()), sender, sbs.last())
    }
}

/// Handling one opinion update: with the referenced proposal known and
/// matching, the opinion goes to the engine (self-addressed or unknown
/// senders are dropped); with a mismatching proposal the referenced author
/// is flagged; with the proposal unknown, it is requested from its author
/// and the opinion is dropped.
pub open spec fn spec_process_message(t: NightshadeTaskV, m: MessageV) -> NightshadeTaskV {
    let author = m.state.bare_state.endorses.author as int;
    if !(0 <= author < t.num_authorities) {
        t
    } else {
        match t.authority_blocks[author] {
            Option::Some(sb) => if sb.block.header.hash == m.state.bare_state.endorses.hash {
                if 0 <= m.sender_id < t.num_authorities && m.sender_id != t.owner_id {
                    match t.nightshade {
                        Option::Some(ns) => NightshadeTaskV {
                            nightshade: Option::Some(
                                spec_update(ns, m.sender_id, m.state).0,
                            ),
                            ..t
                        },
                        Option::None => t,
                    }
                } else {
                    t
                }
            } else {
                spec_flag(t, author)
            },
            Option::None => match t.participants {
                Option::Some(p) => NightshadeTaskV {
                    outbox: t.outbox.push(
                        spec_request_envelope(
                            t.owner_id,
                            author,
                            seq![author],
                            p.owner_secret_key,
                        ),
                    ),
                    ..t
                },
                Option::None => t,
            },
        }
    }
}

/// Handling one inbound envelope: an unknown sender or a bad transport
/// signature drops it silently; otherwise the body is dispatched.
pub open spec fn spec_process_gossip(t: NightshadeTaskV, g: GossipV) -> NightshadeTaskV {
    if !(0 <= g.sender_id < t.num_authorities) {
        t
    } else {
        let sig_ok = match t.participants {
            Option::Some(p) => spec_verify(
                p.public_keys[g.sender_id].0 as int,
                msg_digest(
                    spec_enc_hash(spec_gossip_hash(g.sender_id, g.receiver_uid, g.body)),
                ),
                g.signature,
            ),
            Option::None => false,
        };
        if !sig_ok {
            t
        } else {
            match g.body {
                GossipBodyV::NightshadeStateUpdate(m) => spec_process_message(t, m),
                GossipBodyV::PayloadRequest(ids) => match t.participants {
                    Option::Some(p) => NightshadeTaskV {
                        outbox: t.outbox.push(
                            spec_reply_envelope(
                                t.owner_id,
                                g.sender_id,
                                spec_known_blocks(t.authority_blocks, ids),
                                p.owner_secret_key,
                            ),
                        ),
                        ..t
                    },
                    Option::None => t,
                },
                GossipBodyV::PayloadReply(blocks) => spec_receive(t, g.sender_id, blocks),
            }
        }
    }
}

/// Whether handling opinion `m` reaches the engine and the engine refuses
/// it: the referenced proposal is known and matches, the sender is an
/// in-range peer, and [`spec_update`] ends in an error.
pub open spec fn spec_opinion_refused(t: NightshadeTaskV, m: MessageV) -> bool {
    let author = m.state.bare_state.endorses.author as int;
    &&& 0 <= author < t.num_authorities
    &&& match t.authority_blocks[author] {
        Option::Some(sb) => sb.block.header.hash == m.state.bare_state.endorses.hash,
        Option::None => false,
    }
    &&& 0 <= m.sender_id < t.num_authorities
    &&& m.sender_id != t.owner_id
    &&& match t.nightshade {
        Option::Some(ns) => spec_update(ns, m.sender_id, m.state).1 is Error,
        Option::None => false,
    }
}

/// Whether handling envelope `g` reaches the engine and the engine refuses
/// the carried opinion.
pub open spec fn spec_gossip_refused(t: NightshadeTaskV, g: GossipV) -> bool {
    &&& 0 <= g.sender_id < t.num_authorities
    &&& match t.participants {
        Option::Some(p) => spec_verify(
            p.public_keys[g.sender_id].0 as int,
            msg_digest(spec_enc_hash(spec_gossip_hash(g.sender_id, g.receiver_uid, g.body))),
            g.signature,
        ),
        Option::None => false,
    }
    &&& match g.body {
        GossipBodyV::NightshadeStateUpdate(m) => spec_opinion_refused(t, m),
        GossipBodyV::PayloadRequest(_) => false,
        GossipBodyV::PayloadReply(_) => false,
    }
}

/// The engine's outcome for opinion `m`, when handling it reaches the
/// engine.
pub open spec fn spec_opinion_outcome(t: NightshadeTaskV, m: MessageV) -> NSResultV {
    match t.nightshade {
        Option::Some(ns) => spec_update(ns, m.sender_id, m.state).1,
        Option::None => NSResultV::Updated(Option::None),
    }
}

/// The engine's outcome for the opinion carried by envelope `g`, when
/// handling it reaches the engine.
pub open spec fn spec_gossip_outcome(t: NightshadeTaskV, g: GossipV) -> NSResultV {
    match g.body {
        GossipBodyV::NightshadeStateUpdate(m) => spec_opinion_outcome(t, m),
        GossipBodyV::PayloadRequest(_) => NSResultV::Updated(Option::None),
        GossipBodyV::PayloadReply(_) => NSResultV::Updated(Option::None),
    }
}

/// Surfacing the commit decision: the first time the engine has committed,
/// the outcome is recorded and reported; afterwards nothing happens.
pub open spec fn spec_poll_commit(t: NightshadeTaskV) -> (NightshadeTaskV, Option<BlockHeader>) {
    match t.nightshade {
        Option::Some(ns) => if t.consensus_reached is None && ns.committed is Some {
            (NightshadeTaskV { consensus_reached: ns.committed, ..t }, ns.committed)
        } else {
            (t, Option::None)
        },
        Option::None => (t, Option::None),
    }
}

/// Copy a public key table.
fn clone_keys(v: &Vec<PublicKey>) -> (r: Vec<PublicKey>)
    ensures
        r@ == v@,
{
    let mut out: Vec<PublicKey> = Vec::new();
    let mut i: usize = 0;
    while i < v.len()
        invariant
            i <= v@.len(),
            out@ == v@.subrange(0, i as int),
        decreases v@.len() - i,
    {
        out.push(v[i]);
        proof {
            assert(out@ =~= v@.subrange(0, i + 1));
        }
        i = i + 1;
    }
    proof {
        assert(v@.subrange(0, v@.len() as int) =~= v@);
    }
    out
}

impl NightshadeTask {
    /// A parked task: a one-participant idle session with nothing running,
    /// waiting for a reset.
    pub fn new() -> (r: Self)
        ensures
            task_wf(r@),
            r@.owner_id == 0,
            r@.num_authorities == 1,
            r@.participants is None,
            r@.authority_blocks =~= seq![Option::<SignedBlockV>::None],
            r@.nightshade is None,
            r@.consensus_reached is None,
            r@.missing_payloads == 0,
            r@.outbox =~= Seq::<GossipV>::empty(),
    {
        let mut authority_blocks: Vec<Option<SignedBlock>> = Vec::new();
        authority_blocks.push(None);
        Self {
            owner_id: 0,
            num_authorities: 1,
            participants: None,
            authority_blocks,
            nightshade: None,
            consensus_reached: None,
            missing_payloads: 0,
            outbox: Vec::new(),
        }
    }

    /// Start (or restart) a session: adopt the participant set, sign and
    /// store the own proposal, and forget any engine so the session can be
    /// initialised afresh.  An already reported commit stays reported.
    pub fn reset(&mut self, participants: ConsensusPariticipants, payload: Vec<u8>)
        requires
            participants_wf(participants@),
        ensures
            task_wf(final(self)@),
            final(self)@.owner_id == participants@.owner_uid,
            final(self)@.num_authorities == participants@.witness_uids.len(),
            final(self)@.participants == Option::Some(participants@),
            final(self)@.nightshade is None,
            final(self)@.authority_blocks.len() == participants@.witness_uids.len(),
            forall|i: int|
                0 <= i < participants@.witness_uids.len() && i != participants@.owner_uid
                    ==> (#[trigger] final(self)@.authority_blocks[i]) is None,
            final(self)@.authority_blocks[participants@.owner_uid] matches Option::Some(sb)
                && sb.block.header.author == participants@.owner_uid && sb.block.header.hash
                == spec_hash_of(payload@) && sb.block.payload == payload@ && sb.signature
                == spec_sign(
                participants@.owner_secret_key.0 as int,
                msg_digest(spec_enc_hash(spec_hash_of(payload@))),
            ),
            final(self)@.missing_payloads == participants@.witness_uids.len() - 1,
            final(self)@.consensus_reached == old(self)@.consensus_reached,
            final(self)@.outbox == old(self)@.outbox,
    {
        let n = participants.num_authorities();
        let owner = participants.owner_uid as usize;
        let sk = participants.owner_secret_key;
        self.owner_id = owner;
        self.num_authorities = n;
        self.participants = Some(participants);
        let mut blocks: Vec<Option<SignedBlock>> = Vec::new();
        let mut i: usize = 0;
        while i < n
            invariant
                i <= n,
                blocks@.len() == i,
                forall|j: int| 0 <= j < i ==> (#[trigger] blocks@[j]) is None,
            decreases n - i,
        {
            blocks.push(None);
            i = i + 1;
        }
        let own_block = SignedBlock::new(owner, payload, &sk);
        blocks.set(owner, Some(own_block));
        self.authority_blocks = blocks;
        self.missing_payloads = n - 1;
        self.nightshade = None;
    }

    /// Build a fresh engine for the session from the own proposal.
    pub fn init_nightshade(&mut self)
        requires
            task_wf(old(self)@),
            old(self)@.participants is Some,
            old(self)@.authority_blocks[old(self)@.owner_id] matches Option::Some(sb)
                && sb.block.header.author == old(self)@.owner_id,
        ensures
            task_wf(final(self)@),
            task_running(final(self)@),
            final(self)@.nightshade matches Option::Some(ns) && engine_inv(ns) && ns.owner_id
                == old(self)@.owner_id && ns.num_authorities == old(self)@.num_authorities
                && ns.committed is None && (old(self)@.authority_blocks[old(self)@.owner_id]
                matches Option::Some(sb) && ns.states[ns.owner_id].bare_state == (BareState {
                primary_confidence: 0i64,
                endorses: sb.block.header,
                secondary_confidence: 0i64,
            })),
            final(self)@ == (NightshadeTaskV { nightshade: final(self)@.nightshade, ..old(self)@ }),
    {
        let header: BlockHeader = match &self.authority_blocks[self.owner_id] {
            Some(sb) => sb.block.header,
            None => BlockHeader { author: 0, hash: CryptoHash(0, 0, 0, 0) },
        };
        let (bls_public_keys, bls_owner_secret_key) = match &self.participants {
            Some(p) => (clone_keys(&p.bls_public_keys), p.bls_owner_secret_key),
            None => (Vec::new(), SecretKey(0)),
        };
        self.nightshade = Some(
            Nightshade::new(
                self.owner_id,
                self.num_authorities,
                header,
                bls_public_keys,
                bls_owner_secret_key,
            ),
        );
    }

    /// Tear the session down; a later reset may start a new one.
    pub fn stop(&mut self)
        ensures
            final(self)@ == (NightshadeTaskV { nightshade: Option::None, ..old(self)@ }),
            task_wf(old(self)@) ==> task_wf(final(self)@),
    {
        self.nightshade = None;
    }

    /// Whether the engine has committed to an outcome.
    pub fn is_final(&self) -> (r: bool)
        ensures
            r == match self@.nightshade {
                Option::Some(ns) => ns.committed is Some,
                Option::None => false,
            },
    {
        match &self.nightshade {
            Some(ns) => ns.is_final(),
            None => false,
        }
    }

    /// Hand the accumulated outbound envelopes to the embedding runtime.
    pub fn take_outgoing(&mut self) -> (r: Vec<Gossip>)
        ensures
            r@.map_values(|g: Gossip| g@) == old(self)@.outbox,
            final(self)@ == (NightshadeTaskV { outbox: Seq::empty(), ..old(self)@ }),
    {
        let mut r: Vec<Gossip> = Vec::new();
        r.append(&mut self.outbox);
        proof {
            assert(r@.map_values(|g: Gossip| g@) =~= old(self)@.outbox);
            assert(self@.outbox =~= Seq::<GossipV>::empty());
            assert(self@ =~~= (NightshadeTaskV { outbox: Seq::<GossipV>::empty(), ..old(self)@ }));
        }
        r
    }

    /// Report the committed outcome the first time it exists.
    pub fn poll_commit(&mut self) -> (r: Option<BlockHeader>)
        ensures
            final(self)@ == spec_poll_commit(old(self)@).0,
            r == spec_poll_commit(old(self)@).1,
            task_wf(old(self)@) ==> task_wf(final(self)@),
    {
        if self.consensus_reached.is_some() {
            return None;
        }
        let committed: Option<BlockHeader> = match &self.nightshade {
            Some(ns) => ns.committed_outcome(),
            None => None,
        };
        match committed {
            Some(h) => {
                self.consensus_reached = Some(h);
                proof {
                    assert(self@ =~~= spec_poll_commit(old(self)@).0);
                }
                Some(h)
            },
            None => None,
        }
    }

    /// Queue one envelope for transmission.
    fn send_gossip(&mut self, message: Gossip)
        ensures
            final(self)@ == (NightshadeTaskV {
                outbox: old(self)@.outbox.push(message@),
                ..old(self)@
            }),
    {
        let ghost pre = self@;
        self.outbox.push(message);
        proof {
            assert(self@.outbox =~= pre.outbox.push(message@));
            assert(self@ =~~= (NightshadeTaskV { outbox: pre.outbox.push(message@), ..pre }));
        }
    }

    /// Sign an opinion update and queue it.
    fn send_state(&mut self, message: Message)
        requires
            old(self)@.participants is Some,
        ensures
            final(self)@ == (NightshadeTaskV {
                outbox: old(self)@.outbox.push(
                    spec_opinion_envelope(
                        old(self)@.owner_id,
                        message@,
                        old(self)@.participants->Some_0.owner_secret_key,
                    ),
                ),
                ..old(self)@
            }),
    {
        let sk: SecretKey = match &self.participants {
            Some(p) => p.owner_secret_key,
            None => SecretKey(0),
        };
        let receiver = message.receiver_id;
        let envelope = Gossip::new(
            self.owner_id,
            receiver,
            GossipBody::NightshadeStateUpdate(Box::new(message)),
            &sk,
        );
        proof {
            reveal(spec_opinion_envelope);
        }
        self.send_gossip(envelope);
    }

    /// Broadcast the current own opinion to every other authority.
    pub fn gossip_state(&mut self)
        requires
            task_wf(old(self)@),
            task_running(old(self)@),
        ensures
            task_wf(final(self)@),
            task_running(final(self)@),
            final(self)@ == (NightshadeTaskV {
                outbox: old(self)@.outbox + spec_broadcast(
                    old(self)@.nightshade->Some_0.states[old(self)@.owner_id],
                    old(self)@.owner_id,
                    old(self)@.participants->Some_0.owner_secret_key,
                    old(self)@.num_authorities,
                ),
                ..old(self)@
            }),
    {
        let ghost t0 = self@;
        let ghost own_v = t0.nightshade->Some_0.states[t0.owner_id];
        let ghost sk_v = t0.participants->Some_0.owner_secret_key;
        let own_state: Option<State> = match &self.nightshade {
            Some(ns) => Some(ns.state()),
            None => None,
        };
        if let Some(own) = own_state {
            let mut i: usize = 0;
            while i < self.num_authorities
                invariant
                    i <= self.num_authorities,
                    own@ == own_v,
                    self@.owner_id == t0.owner_id,
                    self@.num_authorities == t0.num_authorities,
                    self.num_authorities == t0.num_authorities,
                    self.owner_id == t0.owner_id,
                    self@.participants == t0.participants,
                    t0.participants is Some,
                    sk_v == t0.participants->Some_0.owner_secret_key,
                    self@ == (NightshadeTaskV {
                        outbox: t0.outbox + spec_broadcast(own_v, t0.owner_id, sk_v, i as int),
                        ..t0
                    }),
                decreases self.num_authorities - i,
            {
                let ghost before = self@;
                if i != self.owner_id {
                    let message = Message {
                        sender_id: self.owner_id,
                        receiver_id: i,
                        state: clone_state(&own),
                    };
                    let ghost mv = message@;
                    self.send_state(message);
                    proof {
                        assert(mv == (MessageV {
                            sender_id: t0.owner_id,
                            receiver_id: i as int,
                            state: own_v,
                        }));
                        assert(self@.outbox == before.outbox.push(
                            spec_opinion_envelope(
                                before.owner_id,
                                mv,
                                before.participants->Some_0.owner_secret_key,
                            ),
                        ));
                        assert(before.owner_id == t0.owner_id);
                        assert(before.participants->Some_0.owner_secret_key == sk_v);
                        assert(self@.outbox == before.outbox.push(
                            spec_opinion_envelope(t0.owner_id, mv, sk_v),
                        ));
                    }
                }
                proof {
                    assert(self@.outbox =~= t0.outbox + spec_broadcast(
                        own_v,
                        t0.owner_id,
                        sk_v,
                        i + 1,
                    ));
                    assert(self@ =~~= (NightshadeTaskV {
                        outbox: t0.outbox + spec_broadcast(own_v, t0.owner_id, sk_v, i + 1),
                        ..t0
                    }));
                }
                i = i + 1;
            }
        }
    }

    /// Ask each authority whose proposal is still unknown for it.
    pub fn collect_missing_payloads(&mut self)
        requires
            task_wf(old(self)@),
            task_running(old(self)@),
        ensures
            task_wf(final(self)@),
            task_running(final(self)@),
            final(self)@ == (NightshadeTaskV {
                outbox: old(self)@.outbox + spec_missing_requests(
                    old(self)@.authority_blocks,
                    old(self)@.owner_id,
                    old(self)@.participants->Some_0.owner_secret_key,
                    old(self)@.num_authorities,
                ),
                ..old(self)@
            }),
    {
        let ghost t0 = self@;
        let ghost sk_v = t0.participants->Some_0.owner_secret_key;
        let sk: SecretKey = match &self.participants {
            Some(p) => p.owner_secret_key,
            None => SecretKey(0),
        };
        let mut authority: usize = 0;
        while authority < self.num_authorities
            invariant
                authority <= self.num_authorities,
                self.num_authorities == t0.num_authorities,
                self.owner_id == t0.owner_id,
                task_wf(t0),
                sk == sk_v,
                sk_v == t0.participants->Some_0.owner_secret_key,
                t0.participants is Some,
                self@ == (NightshadeTaskV {
                    outbox: t0.outbox + spec_missing_requests(
                        t0.authority_blocks,
                        t0.owner_id,
                        sk_v,
                        authority as int,
                    ),
                    ..t0
                }),
            decreases self.num_authorities - authority,
        {
            let absent = self.authority_blocks[authority].is_none();
            if absent {
                let mut ids: Vec<AuthorityId> = Vec::new();
                ids.push(authority);
                let envelope = Gossip::new(
                    self.owner_id,
                    authority,
                    GossipBody::PayloadRequest(ids),
                    &sk,
                );
                proof {
                    reveal(spec_request_envelope);
                    assert(envelope@.body->PayloadRequest_0 =~= seq![authority as int]);
                    assert(envelope@.body == GossipBodyV::PayloadRequest(
                        seq![authority as int],
                    ));
                    assert(envelope@ == spec_request_envelope(
                        t0.owner_id,
                        authority as int,
                        seq![authority as int],
                        sk_v,
                    ));
                }
                self.send_gossip(envelope);
            }
            proof {
                assert(self@.outbox =~= t0.outbox + spec_missing_requests(
                    t0.authority_blocks,
                    t0.owner_id,
                    sk_v,
                    authority + 1,
                ));
                assert(self@ =~~= (NightshadeTaskV {
                    outbox: t0.outbox + spec_missing_requests(
                        t0.authority_blocks,
                        t0.owner_id,
                        sk_v,
                        authority + 1,
                    ),
                    ..t0
                }));
            }
            authority = authority + 1;
        }
    }

    /// Serve the locally known subset of the requested proposals as one
    /// reply envelope.
    fn send_payloads(&mut self, receiver_id: AuthorityId, authorities: Vec<AuthorityId>)
        requires
            task_wf(old(self)@),
            old(self)@.participants is Some,
        ensures
            task_wf(final(self)@),
            final(self)@ == (NightshadeTaskV {
                outbox: old(self)@.outbox.push(
                    spec_reply_envelope(
                        old(self)@.owner_id,
                        receiver_id as int,
                        spec_known_blocks(
                            old(self)@.authority_blocks,
                            authorities@.map_values(|a: AuthorityId| a as int),
                        ),
                        old(self)@.participants->Some_0.owner_secret_key,
                    ),
                ),
                ..old(self)@
            }),
    {
        let ghost t0 = self@;
        let ghost idsv = authorities@.map_values(|a: AuthorityId| a as int);
        let mut payloads: Vec<SignedBlock> = Vec::new();
        let mut i: usize = 0;
        while i < authorities.len()
            invariant
                i <= authorities@.len(),
                task_wf(t0),
                self@ == t0,
                self.num_authorities == t0.num_authorities,
                idsv == authorities@.map_values(|a: AuthorityId| a as int),
                payloads@.map_values(|b: SignedBlock| b@) == spec_known_blocks(
                    t0.authority_blocks,
                    idsv.subrange(0, i as int),
                ),
            decreases authorities@.len() - i,
        {
            proof {
                assert(idsv.subrange(0, i + 1).drop_last() =~= idsv.subrange(0, i as int));
            }
            let a = authorities[i];
            if a < self.num_authorities {
                match &self.authority_blocks[a] {
                    Some(p) => {
                        payloads.push(clone_signed_block(p));
                    },
                    None => {},
                }
            }
            proof {
                assert(payloads@.map_values(|b: SignedBlock| b@) =~= spec_known_blocks(
                    t0.authority_blocks,
                    idsv.subrange(0, i + 1),
                ));
            }
            i = i + 1;
        }
        proof {
            assert(idsv.subrange(0, idsv.len() as int) =~= idsv);
        }
        let sk: SecretKey = match &self.participants {
            Some(p) => p.owner_secret_key,
            None => SecretKey(0),
        };
        let envelope = Gossip::new(
            self.owner_id,
            receiver_id,
            GossipBody::PayloadReply(payloads),
            &sk,
        );
        proof {
            reveal(spec_reply_envelope);
            assert(envelope@.body == GossipBodyV::PayloadReply(
                spec_known_blocks(t0.authority_blocks, idsv),
            ));
            assert(envelope@ == spec_reply_envelope(
                t0.owner_id,
                receiver_id as int,
                spec_known_blocks(t0.authority_blocks, idsv),
                t0.participants->Some_0.owner_secret_key,
            ));
        }
        self.send_gossip(envelope);
    }

    /// Take in one proposal served by `sender_id`.
    #[verifier::rlimit(100)]
    fn receive_one_payload(&mut self, sender_id: AuthorityId, payload: &SignedBlock)
        requires
            task_wf(old(self)@),
            task_running(old(self)@),
            sender_id < old(self)@.num_authorities,
        ensures
            task_wf(final(self)@),
            task_running(final(self)@),
            final(self)@.num_authorities == old(self)@.num_authorities,
            final(self)@ == spec_receive_one(old(self)@, sender_id as int, payload@),
    {
        let ghost before = self@;
        let author: usize = payload.block.header.author;
        let pk_ok: bool = if author < self.num_authorities {
            match &self.participants {
                Some(p) => payload.verify(&p.public_keys[author]),
                None => false,
            }
        } else {
            false
        };
        proof {
            assert(pk_ok == (match before.participants {
                Option::Some(p) => 0 <= payload@.block.header.author < before.num_authorities
                    && spec_verify(
                    p.public_keys[payload@.block.header.author as int].0 as int,
                    msg_digest(spec_enc_hash(payload@.block.header.hash)),
                    payload@.signature,
                ),
                Option::None => false,
            }));
        }
        if !pk_ok {
            if let Some(ns) = &mut self.nightshade {
                ns.set_adversary(sender_id);
            }
            proof {
                let target = spec_flag(before, sender_id as int);
                assert(spec_receive_one(before, sender_id as int, payload@) == target);
                assert(self@.owner_id == target.owner_id);
                assert(self@.num_authorities == target.num_authorities);
                assert(self@.participants == target.participants);
                assert(self@.authority_blocks =~~= target.authority_blocks);
                assert(self@.nightshade =~~= target.nightshade);
                assert(self@.consensus_reached == target.consensus_reached);
                assert(self@.missing_payloads == target.missing_payloads);
                assert(self@.outbox =~~= target.outbox);
                assert(self@ =~~= target);
            }
        } else {
            let known_hash: Option<CryptoHash> = match &self.authority_blocks[author] {
                Some(p) => Some(p.block.header.hash),
                None => None,
            };
            match known_hash {
                Some(h) => {
                    if h != payload.block.header.hash {
                        if let Some(ns) = &mut self.nightshade {
                            ns.set_adversary(author);
                        }
                        self.authority_blocks.set(author, None);
                        proof {
                            let target = spec_receive_one(before, sender_id as int, payload@);
                            assert(self@.owner_id == target.owner_id);
                            assert(self@.num_authorities == target.num_authorities);
                            assert(self@.participants == target.participants);
                            assert(self@.authority_blocks =~~= target.authority_blocks);
                            assert(self@.nightshade =~~= target.nightshade);
                            assert(self@.consensus_reached == target.consensus_reached);
                            assert(self@.missing_payloads == target.missing_payloads);
                            assert(self@.outbox =~~= target.outbox);
                            assert(self@ =~~= target);
                        }
                    } else {
                        proof {
                            assert(self@ =~~= spec_receive_one(
                                before,
                                sender_id as int,
                                payload@,
                            ));
                        }
                    }
                },
                None => {
                    self.authority_blocks.set(author, Some(clone_signed_block(payload)));
                    if self.missing_payloads > 0 {
                        self.missing_payloads = self.missing_payloads - 1;
                    }
                    proof {
                        let target = spec_receive_one(before, sender_id as int, payload@);
                        assert(self@.owner_id == target.owner_id);
                        assert(self@.num_authorities == target.num_authorities);
                        assert(self@.participants == target.participants);
                        assert(self@.authority_blocks =~~= target.authority_blocks);
                        assert(self@.nightshade =~~= target.nightshade);
                        assert(self@.consensus_reached == target.consensus_reached);
                        assert(self@.missing_payloads == target.missing_payloads);
                        assert(self@.outbox =~~= target.outbox);
                        assert(self@ =~~= target);
                    }
                },
            }
        }
    }

    /// Take in a batch of proposals served by `sender_id`, checking each
    /// one's author signature and flagging equivocating authors.
    fn receive_payloads(&mut self, sender_id: AuthorityId, payloads: Vec<SignedBlock>)
        requires
            task_wf(old(self)@),
            task_running(old(self)@),
            sender_id < old(self)@.num_authorities,
        ensures
            task_wf(final(self)@),
            task_running(final(self)@),
            final(self)@ == spec_receive(
                old(self)@,
                sender_id as int,
                payloads@.map_values(|b: SignedBlock| b@),
            ),
    {
        let ghost t0 = self@;
        let ghost pv = payloads@.map_values(|b: SignedBlock| b@);
        let mut i: usize = 0;
        while i < payloads.len()
            invariant
                i <= payloads@.len(),
                pv == payloads@.map_values(|b: SignedBlock| b@),
                sender_id < t0.num_authorities,
                task_wf(self@),
                task_running(self@),
                self@.num_authorities == t0.num_authorities,
                self@ == spec_receive(t0, sender_id as int, pv.subrange(0, i as int)),
            decreases payloads@.len() - i,
        {
            proof {
                assert(pv.subrange(0, i + 1).drop_last() =~= pv.subrange(0, i as int));
            }
            self.receive_one_payload(sender_id, &payloads[i]);
            i = i + 1;
        }
        proof {
            assert(pv.subrange(0, pv.len() as int) =~= pv);
        }
    }

    /// Route one opinion update: check that the referenced proposal is
    /// known and matches, then hand the opinion to the engine; request the
    /// proposal otherwise (the opinion is dropped, not queued — the sender
    /// re-broadcasts periodically).  An engine refusal is returned so the
    /// embedding runtime can act on it — in particular a refusal over a
    /// contradicted commitment must abort the session.
    fn process_message(&mut self, message: Message) -> (r: Option<String>)
        requires
            task_wf(old(self)@),
            task_running(old(self)@),
        ensures
            task_wf(final(self)@),
            task_running(final(self)@),
            final(self)@ == spec_process_message(old(self)@, message@),
            r is Some <==> spec_opinion_refused(old(self)@, message@),
            r matches Some(e) ==> NSResultV::Error(e@) == spec_opinion_outcome(
                old(self)@,
                message@,
            ),
    {
        let ghost t0 = self@;
        let ghost mv = message@;
        let author: usize = message.state.bare_state.endorses.author;
        if author >= self.num_authorities {
            return None;
        }
        let known: Option<CryptoHash> = match &self.authority_blocks[author] {
            Some(sb) => Some(sb.block.header.hash),
            None => None,
        };
        match known {
            Some(h) => {
                if h == message.state.bare_state.endorses.hash {
                    let sender = message.sender_id;
                    let mut refusal: Option<String> = None;
                    if sender < self.num_authorities && sender != self.owner_id {
                        if let Some(ns) = &mut self.nightshade {
                            match ns.update_state(sender, message.state) {
                                NSResult::Error(e) => {
                                    refusal = Some(e);
                                },
                                NSResult::Updated(_) => {},
                            }
                        }
                        proof {
                            crate::engine::lemma_update_shape(
                                t0.nightshade->Some_0,
                                sender as int,
                                mv.state,
                            );
                            assert(self@ =~~= spec_process_message(t0, mv));
                        }
                    }
                    return refusal;
                } else {
                    if let Some(ns) = &mut self.nightshade {
                        ns.set_adversary(author);
                    }
                    proof {
                        assert(self@ =~~= spec_process_message(t0, mv));
                    }
                }
            },
            None => {
                let sk: SecretKey = match &self.participants {
                    Some(p) => p.owner_secret_key,
                    None => SecretKey(0),
                };
                let mut ids: Vec<AuthorityId> = Vec::new();
                ids.push(author);
                let envelope = Gossip::new(
                    self.owner_id,
                    author,
                    GossipBody::PayloadRequest(ids),
                    &sk,
                );
                proof {
                    reveal(spec_request_envelope);
                    assert(envelope@.body->PayloadRequest_0 =~= seq![author as int]);
                    assert(envelope@.body == GossipBodyV::PayloadRequest(seq![author as int]));
                    assert(envelope@ == spec_request_envelope(
                        t0.owner_id,
                        author as int,
                        seq![author as int],
                        t0.participants->Some_0.owner_secret_key,
                    ));
                }
                self.send_gossip(envelope);
                proof {
                    assert(self@ =~~= spec_process_message(t0, mv));
                }
            },
        }
        None
    }

    /// Take in one envelope: check the sender's transport signature, then
    /// dispatch the body.  Envelopes from unknown senders or with a bad
    /// signature are dropped silently.
    ///
    /// The returned refusal, if any, is the engine's reason for rejecting
    /// a carried opinion, exactly as [`spec_gossip_outcome`] gives it.
    /// Most refusals are local (a malformed opinion, an equivocating
    /// peer); one whose text is [`crate::engine::commit_contradiction_text`]
    /// — test with [`crate::engine::is_commit_contradiction_message`] — is
    /// fatal and the embedding runtime must abort the session.
    pub fn process_gossip(&mut self, gossip: Gossip) -> (r: Option<String>)
        requires
            task_wf(old(self)@),
            task_running(old(self)@),
        ensures
            task_wf(final(self)@),
            task_running(final(self)@),
            final(self)@ == spec_process_gossip(old(self)@, gossip@),
            r is Some <==> spec_gossip_refused(old(self)@, gossip@),
            r matches Some(e) ==> NSResultV::Error(e@) == spec_gossip_outcome(
                old(self)@,
                gossip@,
            ),
    {
        let ghost t0 = self@;
        let ghost gv = gossip@;
        let sender: usize = gossip.sender_id;
        if sender >= self.num_authorities {
            return None;
        }
        let ok: bool = match &self.participants {
            Some(p) => gossip.verify(&p.public_keys[sender]),
            None => false,
        };
        if !ok {
            return None;
        }
        match gossip.body {
            GossipBody::NightshadeStateUpdate(m) => {
                proof {
                    assert(gv.body == GossipBodyV::NightshadeStateUpdate((*m)@));
                }
                self.process_message(*m)
            },
            GossipBody::PayloadRequest(ids) => {
                proof {
                    assert(gv.body == GossipBodyV::PayloadRequest(
                        ids@.map_values(|a: AuthorityId| a as int),
                    ));
                }
                self.send_payloads(sender, ids);
                None
            },
            GossipBody::PayloadReply(blocks) => {
                proof {
                    assert(gv.body == GossipBodyV::PayloadReply(
                        blocks@.map_values(|b: SignedBlock| b@),
                    ));
                }
                self.receive_payloads(sender, blocks);
                None
            },
        }
    }
}

/// Build the control command for one session from the owner's identity
/// and the session size, with deterministic per-seat key pairs — the
/// transport pair of seat `i` from seed `i`, the aggregable pair from
/// seed `n + i` — and an empty payload.  Without an owner the session is
/// stopped instead.
pub fn get_control(owner_uid: Option<UID>, num_authorities: usize) -> (r: Control)
    requires
        1 <= num_authorities,
        num_authorities * 2 <= usize::MAX,
        owner_uid matches Some(u) ==> u < num_authorities,
    ensures
        owner_uid is None ==> r is Stop,
        owner_uid matches Some(u) ==> r matches Control::Reset(pair) && participants_wf(pair.0@)
            && pair.0@.owner_uid == u && pair.0@.witness_uids.len() == num_authorities && (
        forall|i: int|
            0 <= i < num_authorities ==> (#[trigger] pair.0@.public_keys[i]).0 as int
                == crate::sig::spec_public_key(i)) && (forall|i: int|
            0 <= i < num_authorities ==> (#[trigger] pair.0@.bls_public_keys[i]).0 as int
                == crate::sig::spec_public_key(num_authorities + i))
            && pair.0@.owner_secret_key.0 == u % crate::digest::FIELD_MOD
            && pair.0@.bls_owner_secret_key.0 as int == (num_authorities + u)
            % (crate::digest::FIELD_MOD as int) && pair.1@ == Seq::<u8>::empty(),
{
    match owner_uid {
        None => Control::Stop,
        Some(u) => {
            let mut witness_uids: Vec<UID> = Vec::new();
            let mut public_keys: Vec<PublicKey> = Vec::new();
            let mut bls_public_keys: Vec<PublicKey> = Vec::new();
            let mut i: usize = 0;
            while i < num_authorities
                invariant
                    i <= num_authorities,
                    num_authorities * 2 <= usize::MAX,
                    witness_uids@.len() == i,
                    public_keys@.len() == i,
                    bls_public_keys@.len() == i,
                    forall|j: int| 0 <= j < i ==> #[trigger] witness_uids@[j] == j,
                    forall|j: int|
                        0 <= j < i ==> (#[trigger] public_keys@[j]).0 as int
                            == crate::sig::spec_public_key(j),
                    forall|j: int|
                        0 <= j < i ==> (#[trigger] bls_public_keys@[j]).0 as int
                            == crate::sig::spec_public_key(num_authorities + j),
                decreases num_authorities - i,
            {
                witness_uids.push(i as u64);
                let (pk, _transport_sk) = key_pair_from_seed(i as u64);
                public_keys.push(pk);
                let (bls_pk, _bls_sk) = key_pair_from_seed((num_authorities + i) as u64);
                bls_public_keys.push(bls_pk);
                i = i + 1;
            }
            let (_owner_pk, owner_secret_key) = key_pair_from_seed(u);
            let (_bls_owner_pk, bls_owner_secret_key) = key_pair_from_seed(
                num_authorities as u64 + u,
            );
            let participants = ConsensusPariticipants::new(
                u,
                witness_uids,
                public_keys,
                owner_secret_key,
                bls_public_keys,
                bls_owner_secret_key,
            );
            Control::Reset((participants, Vec::new()))
        },
    }
}

} // verus!
