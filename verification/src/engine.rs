//! The per-authority decision engine.
//!
//! A [`Nightshade`] value holds one authority's view of the session: the
//! latest opinion received from every peer (its own included), the sticky
//! adversary flags, the set of triplets it has fully validated, and the
//! commit decision once taken.  The engine is mutated only through
//! [`Nightshade::update_state`], whose exact behaviour is given by
//! [`spec_update`].
//!
//! The engine maintains [`engine_inv`] across every operation: stored
//! triplets are well-formed, the own opinion dominates every stored opinion
//! under the triplet order, and `best_state_counter` equals the number of
//! stored opinions whose triplet matches the own one.
//!
//! A triplet validated once is cached; a later opinion carrying the same
//! triplet is admitted without re-checking the proof objects it carries.
//! Stored proofs are therefore known-good only for opinions accepted on
//! first sight of their triplet ([`lemma_first_sight_validated`]); a
//! poisoned proof smuggled in through the cache surfaces later as a
//! refusal when the engine re-validates its own generated state.

use vstd::prelude::*;
use vstd::string::StringExecFns;

use crate::AuthorityId;
use crate::sig::AggregateSignature;
use crate::sig::PublicKey;
use crate::sig::SecretKey;
use crate::sig::agg_add;
use crate::sig::msg_digest;
use crate::sig::spec_sign;
use crate::state::BareState;
use crate::state::BlockHeader;
use crate::state::Proof;
use crate::state::ProofV;
use crate::state::State;
use crate::state::StateV;
use crate::state::bare_less;
use crate::state::bare_valid;
use crate::state::bare_wf;
use crate::state::bs_le;
use crate::state::bs_lt;
use crate::state::clone_state;
use crate::state::incompatible_states;
use crate::state::merge;
use crate::state::spec_can_commit;
use crate::state::spec_enc_bare;
use crate::state::spec_incompatible;
use crate::state::spec_increase_confidence;
use crate::state::spec_merge;
use crate::state::spec_state_valid;

verus! {

/// Outcome of feeding one peer opinion to the engine.
pub enum NSResult {
    /// The opinion was accepted: the engine's own (possibly unchanged)
    /// opinion, or nothing when the delivery was stale.
    /// Boxed because of the large size difference between the variants.
    Updated(Box<Option<State>>),
    /// The opinion was refused; the message says why.
    Error(String),
}

/// Mathematical image of an [`NSResult`].  The refusal text is carried,
/// so the kinds of refusal stay distinguishable in contracts.
pub enum NSResultV {
    Updated(Option<StateV>),
    Error(Seq<char>),
}

/// The refusal text [`Nightshade::update_state`] returns when a prior
/// commitment would be contradicted.  This is the one refusal the
/// protocol treats as fatal: the embedding must end the session rather
/// than continue past it.
pub open spec fn commit_contradiction_text() -> Seq<char> {
    "Commit safety violation"@
}

/// Image of an optional state.
pub open spec fn opt_state_view(o: Option<State>) -> Option<StateV> {
    match o {
        Option::Some(s) => Option::Some(s@),
        Option::None => Option::None,
    }
}

impl View for NSResult {
    type V = NSResultV;

    open spec fn view(&self) -> NSResultV {
        match self {
            NSResult::Updated(b) => NSResultV::Updated(opt_state_view(**b)),
            NSResult::Error(e) => NSResultV::Error(e@),
        }
    }
}

/// Whether refusal text `e` reports a contradicted commitment.
pub fn is_commit_contradiction_message(e: &String) -> (r: bool)
    ensures
        r == (e@ == commit_contradiction_text()),
{
    let expected = String::from_str("Commit safety violation");
    *e == expected
}

impl NSResult {
    /// Whether this outcome refuses the update over a contradicted
    /// commitment — the fatal refusal of [`commit_contradiction_text`].
    pub fn is_commit_contradiction(&self) -> (r: bool)
        ensures
            r == (self@ == NSResultV::Error(commit_contradiction_text())),
    {
        match self {
            NSResult::Error(e) => is_commit_contradiction_message(e),
            NSResult::Updated(_) => false,
        }
    }
}

/// Number of stored opinions whose triplet equals `bs`.
pub open spec fn count_matching(states: Seq<StateV>, bs: BareState) -> int
    decreases states.len(),
{
    if states.len() == 0 {
        0
    } else {
        count_matching(states.drop_last(), bs) + if states.last().bare_state == bs {
            1int
        } else {
            0int
        }
    }
}

/// Mask marking the stored opinions whose triplet equals `bs`, by index.
pub open spec fn spec_stored_mask(states: Seq<StateV>, bs: BareState) -> Seq<bool>
    decreases states.len(),
{
    if states.len() == 0 {
        Seq::empty()
    } else {
        spec_stored_mask(states.drop_last(), bs).push(states.last().bare_state == bs)
    }
}

/// Aggregate of the shares of the stored opinions whose triplet equals
/// `bs`, folded in index order.
pub open spec fn spec_collect_agg(states: Seq<StateV>, bs: BareState) -> int
    decreases states.len(),
{
    if states.len() == 0 {
        0
    } else {
        let rest = spec_collect_agg(states.drop_last(), bs);
        if states.last().bare_state == bs {
            agg_add(rest, states.last().signature)
        } else {
            rest
        }
    }
}

/// Replacing one stored opinion changes the matching count by the obvious
/// difference.
pub proof fn lemma_count_update(states: Seq<StateV>, i: int, s: StateV, bs: BareState)
    requires
        0 <= i < states.len(),
    ensures
        count_matching(states.update(i, s), bs) == count_matching(states, bs) - (
        if states[i].bare_state == bs {
            1int
        } else {
            0int
        }) + (
        if s.bare_state == bs {
            1int
        } else {
            0int
        }),
    decreases states.len(),
{
    let updated = states.update(i, s);
    if i == states.len() - 1 {
        assert(updated.drop_last() =~= states.drop_last());
    } else {
        assert(updated.drop_last() =~= states.drop_last().update(i, s));
        lemma_count_update(states.drop_last(), i, s, bs);
    }
}

/// When no stored opinion matches `bs` the count is zero.
pub proof fn lemma_count_zero(states: Seq<StateV>, bs: BareState)
    requires
        forall|a: int| 0 <= a < states.len() ==> (#[trigger] states[a]).bare_state != bs,
    ensures
        count_matching(states, bs) == 0,
    decreases states.len(),
{
    if states.len() > 0 {
        lemma_count_zero(states.drop_last(), bs);
    }
}

/// Mathematical image of a [`Nightshade`] engine.
pub struct NightshadeV {
    pub owner_id: int,
    pub num_authorities: int,
    pub states: Seq<StateV>,
    pub is_adversary: Seq<bool>,
    pub best_state_counter: int,
    pub seen_bare_states: Seq<BareState>,
    pub committed: Option<BlockHeader>,
    pub bls_public_keys: Seq<PublicKey>,
    pub bls_owner_secret_key: SecretKey,
}

/// The engine's invariant, preserved by every operation:
/// * the sizes line up and the owner index is in range,
/// * every stored triplet is well-formed and the own one is valid,
/// * the own opinion dominates every stored opinion in triplet order,
/// * `best_state_counter` counts the opinions matching the own triplet,
/// * every triplet recorded as seen passed its validity check.
pub open spec fn engine_inv(v: NightshadeV) -> bool {
    &&& 0 <= v.owner_id < v.num_authorities
    &&& v.states.len() == v.num_authorities
    &&& v.is_adversary.len() == v.num_authorities
    &&& v.bls_public_keys.len() == v.num_authorities
    &&& v.num_authorities * 2 <= usize::MAX
    &&& forall|a: int|
        0 <= a < v.num_authorities ==> bare_wf((#[trigger] v.states[a]).bare_state)
    &&& bare_valid(v.states[v.owner_id].bare_state)
    &&& forall|a: int|
        0 <= a < v.num_authorities ==> bs_le(
            (#[trigger] v.states[a]).bare_state,
            v.states[v.owner_id].bare_state,
        )
    &&& v.best_state_counter == count_matching(v.states, v.states[v.owner_id].bare_state)
    &&& forall|bs: BareState| v.seen_bare_states.contains(bs) ==> bare_valid(bs)
}

/// Recording a triplet as seen: no duplicates are kept.
pub open spec fn spec_note_seen(seen: Seq<BareState>, bs: BareState) -> Seq<BareState> {
    if seen.contains(bs) {
        seen
    } else {
        seen.push(bs)
    }
}

/// The engine refuses an update outright when the peer is already flagged
/// or the new opinion is incompatible with the peer's stored one.
pub open spec fn spec_refuses(v: NightshadeV, authority_id: int, s: StateV) -> bool {
    v.is_adversary[authority_id] || spec_incompatible(v.states[authority_id], s)
}

/// The opinion's triplet has not been validated before and the opinion
/// fails validation now.
pub open spec fn spec_update_invalid(v: NightshadeV, authority_id: int, s: StateV) -> bool {
    &&& !v.seen_bare_states.contains(s.bare_state)
    &&& !spec_state_valid(s, authority_id, v.bls_public_keys)
}

/// Commit step: once the own opinion clears the commit threshold, record
/// its endorsement — or refuse the whole update if a different endorsement
/// was already committed (the caller must treat that as fatal).
pub open spec fn spec_commit_step(v: NightshadeV) -> (NightshadeV, NSResultV) {
    let own = v.states[v.owner_id];
    if spec_can_commit(own.bare_state) {
        match v.committed {
            Option::Some(h) => if h == own.bare_state.endorses {
                (v, NSResultV::Updated(Option::Some(own)))
            } else {
                (v, NSResultV::Error(commit_contradiction_text()))
            },
            Option::None => (
                NightshadeV { committed: Option::Some(own.bare_state.endorses), ..v },
                NSResultV::Updated(Option::Some(own)),
            ),
        }
    } else {
        (v, NSResultV::Updated(Option::Some(own)))
    }
}

/// Step 4 of an update: store the peer's opinion, merge it into the own
/// one — re-signing the own opinion when the merge changed it — and keep
/// the matching counter current.
pub open spec fn spec_advance(v: NightshadeV, a: int, s: StateV) -> NightshadeV {
    let st1 = v.states.update(a, s);
    let merged = spec_merge(st1[v.owner_id], s);
    let own_changed = merged.bare_state != st1[v.owner_id].bare_state;
    let own1 = if own_changed {
        StateV {
            signature: spec_sign(
                v.bls_owner_secret_key.0 as int,
                msg_digest(spec_enc_bare(merged.bare_state)),
            ),
            ..merged
        }
    } else {
        st1[v.owner_id]
    };
    let cnt1: int = if own_changed {
        1
    } else {
        v.best_state_counter
    };
    let cnt2: int = if s.bare_state == own1.bare_state {
        cnt1 + 1
    } else {
        cnt1
    };
    NightshadeV { states: st1.update(v.owner_id, own1), best_state_counter: cnt2, ..v }
}

/// The proof the engine builds when raising its confidence: the mask of
/// the opinions matching its own triplet and the aggregate of their shares.
pub open spec fn spec_build_proof(v: NightshadeV) -> ProofV {
    let bs = v.states[v.owner_id].bare_state;
    ProofV {
        bare_state: bs,
        mask: spec_stored_mask(v.states, bs),
        signature: spec_collect_agg(v.states, bs),
    }
}

/// Step 5 of an update: install the own opinion with confidence raised by
/// one, record its triplet as seen and reset the matching counter.
pub open spec fn spec_raised(v: NightshadeV) -> NightshadeV {
    let own2 = spec_increase_confidence(
        v.states[v.owner_id],
        spec_build_proof(v),
        v.bls_owner_secret_key.0 as int,
    );
    NightshadeV {
        states: v.states.update(v.owner_id, own2),
        best_state_counter: 1,
        seen_bare_states: spec_note_seen(v.seen_bare_states, own2.bare_state),
        ..v
    }
}

/// Exact transition of [`Nightshade::update_state`], step by step:
/// 1. refuse flagged or equivocating peers, flagging the peer;
/// 2. validate opinions whose triplet has not been seen, recording it;
/// 3. ignore stale opinions;
/// 4. store the opinion, merge it into the own one (re-signing on change)
///    and keep the matching counter current;
/// 5. on a supermajority of matching opinions, aggregate their shares into
///    a proof and raise the own confidence — refusing instead if the
///    confidence counter is exhausted or the generated state fails its own
///    validation;
/// 6. record the commit once the threshold is cleared.
pub open spec fn spec_update(v: NightshadeV, a: int, s: StateV) -> (NightshadeV, NSResultV) {
    if spec_refuses(v, a, s) {
        (
            NightshadeV { is_adversary: v.is_adversary.update(a, true), ..v },
            NSResultV::Error("Not processing adversaries updates"@),
        )
    } else if spec_update_invalid(v, a, s) {
        (v, NSResultV::Error("Not a valid state"@))
    } else {
        let v1 = NightshadeV {
            seen_bare_states: spec_note_seen(v.seen_bare_states, s.bare_state),
            ..v
        };
        if !bs_lt(v1.states[a].bare_state, s.bare_state) {
            (v1, NSResultV::Updated(Option::None))
        } else {
            let v2 = spec_advance(v1, a, s);
            if v2.best_state_counter > v2.num_authorities * 2 / 3 {
                if v2.states[v2.owner_id].bare_state.primary_confidence == i64::MAX {
                    (v2, NSResultV::Error("Confidence counter exhausted"@))
                } else {
                    let own2 = spec_increase_confidence(
                        v2.states[v2.owner_id],
                        spec_build_proof(v2),
                        v2.bls_owner_secret_key.0 as int,
                    );
                    if !spec_state_valid(own2, v2.owner_id, v2.bls_public_keys) {
                        (v2, NSResultV::Error("Generated state failed validation"@))
                    } else {
                        spec_commit_step(spec_raised(v2))
                    }
                }
            } else {
                spec_commit_step(v2)
            }
        }
    }
}

/// The matching count never exceeds the number of stored opinions.
pub proof fn lemma_count_le_len(states: Seq<StateV>, bs: BareState)
    ensures
        0 <= count_matching(states, bs) <= states.len(),
    decreases states.len(),
{
    if states.len() > 0 {
        lemma_count_le_len(states.drop_last(), bs);
    }
}

/// Step 4 preserves the engine invariant; the peer slot takes the new
/// opinion and the own opinion never decreases.
#[verifier::rlimit(100)]
pub proof fn lemma_advance_inv(v: NightshadeV, a: int, s: StateV)
    requires
        engine_inv(v),
        0 <= a < v.num_authorities,
        a != v.owner_id,
        bare_valid(s.bare_state),
        bs_lt(v.states[a].bare_state, s.bare_state),
    ensures
        engine_inv(spec_advance(v, a, s)),
        spec_advance(v, a, s).states[a] == s,
        bs_le(
            v.states[v.owner_id].bare_state,
            spec_advance(v, a, s).states[v.owner_id].bare_state,
        ),
{
    let st1 = v.states.update(a, s);
    let own_old = v.states[v.owner_id];
    assert(st1[v.owner_id] == own_old);
    let merged = spec_merge(own_old, s);
    crate::state::lemma_merge_monotone(own_old, s);
    crate::state::lemma_merge_wf(own_old, s);
    let own_changed = merged.bare_state != own_old.bare_state;
    let adv = spec_advance(v, a, s);
    let own1 = adv.states[v.owner_id];
    let st2 = st1.update(v.owner_id, own1);
    assert(adv.states == st2);
    assert(own1.bare_state == merged.bare_state);
    // Well-formedness and domination of every slot.
    assert forall|b: int| 0 <= b < v.num_authorities implies bare_wf(
        (#[trigger] st2[b]).bare_state,
    ) && bs_le(st2[b].bare_state, own1.bare_state) by {
        if b == v.owner_id {
        } else if b == a {
        } else {
            crate::state::lemma_order_transitive(
                st2[b].bare_state,
                own_old.bare_state,
                own1.bare_state,
            );
        }
    }
    // The matching counter stays exact.
    if own_changed {
        assert(bs_lt(own_old.bare_state, own1.bare_state));
        // Count over st2 from scratch: no old slot matches the new triplet.
        assert forall|b: int| 0 <= b < v.states.len() implies (#[trigger] v.states[b]).bare_state
            != own1.bare_state by {
            crate::state::lemma_order_trichotomy(v.states[b].bare_state, own_old.bare_state);
            crate::state::lemma_order_transitive(
                v.states[b].bare_state,
                own_old.bare_state,
                own1.bare_state,
            );
        }
        lemma_count_zero(v.states, own1.bare_state);
        lemma_count_update(v.states, a, s, own1.bare_state);
        lemma_count_update(st1, v.owner_id, own1, own1.bare_state);
        assert(v.states[a].bare_state != own1.bare_state);
    } else {
        // The own opinion kept its triplet; only the peer slot changed.
        assert(own1 == own_old);
        assert(bs_le(s.bare_state, own_old.bare_state));
        assert(v.states[a].bare_state != own_old.bare_state) by {
            crate::state::lemma_order_trichotomy(v.states[a].bare_state, own_old.bare_state);
            crate::state::lemma_order_transitive(
                own_old.bare_state,
                v.states[a].bare_state,
                s.bare_state,
            );
        }
        lemma_count_update(v.states, a, s, own_old.bare_state);
        lemma_count_update(st1, v.owner_id, own1, own_old.bare_state);
    }
}

/// Step 5 preserves the engine invariant and strictly raises the own
/// opinion.
pub proof fn lemma_raise_inv(v: NightshadeV)
    requires
        engine_inv(v),
        v.states[v.owner_id].bare_state.primary_confidence < i64::MAX,
    ensures
        engine_inv(spec_raised(v)),
        bs_lt(v.states[v.owner_id].bare_state, spec_raised(v).states[v.owner_id].bare_state),
{
    let own = v.states[v.owner_id];
    let raised = spec_raised(v);
    let own2 = raised.states[v.owner_id];
    assert(own2.bare_state.primary_confidence == own.bare_state.primary_confidence + 1);
    assert(bare_valid(own2.bare_state));
    assert(bs_lt(own.bare_state, own2.bare_state));
    assert forall|b: int| 0 <= b < v.num_authorities implies bare_wf(
        (#[trigger] raised.states[b]).bare_state,
    ) && bs_le(raised.states[b].bare_state, own2.bare_state) by {
        if b != v.owner_id {
            crate::state::lemma_order_transitive(
                raised.states[b].bare_state,
                own.bare_state,
                own2.bare_state,
            );
        }
    }
    assert forall|b: int| 0 <= b < v.states.len() implies (#[trigger] v.states[b]).bare_state
        != own2.bare_state by {
        crate::state::lemma_order_trichotomy(v.states[b].bare_state, own.bare_state);
        crate::state::lemma_order_transitive(
            v.states[b].bare_state,
            own.bare_state,
            own2.bare_state,
        );
    }
    lemma_count_zero(v.states, own2.bare_state);
    lemma_count_update(v.states, v.owner_id, own2, own2.bare_state);
    assert forall|bs: BareState| raised.seen_bare_states.contains(bs) implies bare_valid(
        bs,
    ) by {
        if bs != own2.bare_state {
            assert(v.seen_bare_states.contains(bs)) by {
                if !v.seen_bare_states.contains(own2.bare_state) {
                    let i = choose|i: int|
                        0 <= i < raised.seen_bare_states.len() && raised.seen_bare_states[i]
                            == bs;
                    assert(v.seen_bare_states[i] == bs);
                }
            }
        }
    }
}

/// One authority's engine: its opinion of every participant, the sticky
/// adversary flags, the validated-triplet cache and the commit decision.
pub struct Nightshade {
    owner_id: AuthorityId,
    num_authorities: usize,
    states: Vec<State>,
    is_adversary: Vec<bool>,
    best_state_counter: usize,
    seen_bare_states: Vec<BareState>,
    /// The committed outcome, once the commit threshold is reached.
    pub committed: Option<BlockHeader>,
    bls_public_keys: Vec<PublicKey>,
    bls_owner_secret_key: SecretKey,
}

impl View for Nightshade {
    type V = NightshadeV;

    closed spec fn view(&self) -> NightshadeV {
        NightshadeV {
            owner_id: self.owner_id as int,
            num_authorities: self.num_authorities as int,
            states: self.states@.map_values(|s: State| s@),
            is_adversary: self.is_adversary@,
            best_state_counter: self.best_state_counter as int,
            seen_bare_states: self.seen_bare_states@,
            committed: self.committed,
            bls_public_keys: self.bls_public_keys@,
            bls_owner_secret_key: self.bls_owner_secret_key,
        }
    }
}

impl Nightshade {
    /// Set up an engine for `owner_id` proposing `block_header`: the own
    /// opinion endorses the proposal with zero confidence and every peer
    /// starts at the sentinel.
    #[verifier::rlimit(100)]
    pub fn new(
        owner_id: AuthorityId,
        num_authorities: usize,
        block_header: BlockHeader,
        bls_public_keys: Vec<PublicKey>,
        bls_owner_secret_key: SecretKey,
    ) -> (r: Self)
        requires
            owner_id == block_header.author,
            owner_id < num_authorities,
            bls_public_keys@.len() == num_authorities,
            num_authorities * 2 <= usize::MAX,
        ensures
            engine_inv(r@),
            r@.owner_id == owner_id,
            r@.num_authorities == num_authorities,
            r@.states[owner_id as int].bare_state == (BareState {
                primary_confidence: 0i64,
                endorses: block_header,
                secondary_confidence: 0i64,
            }),
            r@.states[owner_id as int].signature == spec_sign(
                bls_owner_secret_key.0 as int,
                msg_digest(spec_enc_bare(r@.states[owner_id as int].bare_state)),
            ),
            forall|a: int|
                0 <= a < num_authorities ==> (#[trigger] r@.states[a]).primary_proof is None
                    && r@.states[a].secondary_proof is None,
            forall|a: int|
                0 <= a < num_authorities && a != owner_id ==> (#[trigger] r@.states[a]).bare_state
                    == crate::state::spec_empty_bare(),
            r@.is_adversary =~= Seq::new(num_authorities as nat, |a: int| false),
            r@.best_state_counter == 1,
            r@.seen_bare_states =~= Seq::<BareState>::empty(),
            r@.committed is None,
            r@.bls_public_keys == bls_public_keys@,
            r@.bls_owner_secret_key == bls_owner_secret_key,
    {
        let mut states: Vec<State> = Vec::new();
        let mut is_adversary: Vec<bool> = Vec::new();
        let mut a: usize = 0;
        while a < num_authorities
        invariant
            a <= num_authorities,
            owner_id == block_header.author,
            states@.len() == a,
            is_adversary@.len() == a,
            owner_id < num_authorities,
            forall|i: int|
                0 <= i < a && i != owner_id ==> (#[trigger] states@[i])@.bare_state
                    == crate::state::spec_empty_bare(),
            forall|i: int|
                0 <= i < a && i != owner_id ==> bare_wf((#[trigger] states@[i])@.bare_state),
            a > owner_id ==> states@[owner_id as int]@.bare_state == (BareState {
                primary_confidence: 0i64,
                endorses: block_header,
                secondary_confidence: 0i64,
            }),
            a > owner_id ==> states@[owner_id as int]@.signature == spec_sign(
                bls_owner_secret_key.0 as int,
                msg_digest(spec_enc_bare(states@[owner_id as int]@.bare_state)),
            ),
            forall|i: int|
                0 <= i < a ==> (#[trigger] states@[i])@.primary_proof is None
                    && states@[i]@.secondary_proof is None,
            forall|i: int| 0 <= i < a ==> !(#[trigger] is_adversary@[i]),
        decreases num_authorities - a,
        {
            if a == owner_id {
                states.push(initial_own_state(a, block_header, &bls_owner_secret_key));
            } else {
                states.push(initial_peer_state(&bls_owner_secret_key));
            }
            is_adversary.push(false);
            a = a + 1;
        }
        let r = Self {
            owner_id,
            num_authorities,
            states,
            is_adversary,
            best_state_counter: 1,
            seen_bare_states: Vec::new(),
            committed: None,
            bls_public_keys,
            bls_owner_secret_key,
        };
        proof {
            let v = r@;
            let own_bs = v.states[v.owner_id].bare_state;
            assert forall|i: int| 0 <= i < v.num_authorities implies bs_le(
                (#[trigger] v.states[i]).bare_state,
                own_bs,
            ) by {
                crate::state::lemma_empty_is_least(own_bs);
            }
            assert forall|i: int|
                0 <= i < v.num_authorities && i != v.owner_id implies (
            #[trigger] v.states[i]).bare_state != own_bs by {}
            assert(count_matching(v.states, own_bs) == 1) by {
                lemma_count_single(v.states, v.owner_id, own_bs);
            }
            assert(v.is_adversary =~= Seq::new(num_authorities as nat, |x: int| false));
            assert(v.seen_bare_states =~= Seq::<BareState>::empty());
        }
        r
    }

    /// The authority's current own opinion.
    pub fn state(&self) -> (r: State)
        requires
            engine_inv(self@),
        ensures
            r@ == self@.states[self@.owner_id],
    {
        clone_state(&self.states[self.owner_id])
    }

    /// Flag a participant as adversarial; the flag is never cleared.
    pub fn set_adversary(&mut self, authority_id: AuthorityId)
        requires
            authority_id < old(self)@.num_authorities,
            engine_inv(old(self)@),
        ensures
            engine_inv(final(self)@),
            final(self)@ == (NightshadeV {
                is_adversary: old(self)@.is_adversary.update(authority_id as int, true),
                ..old(self)@
            }),
    {
        self.is_adversary.set(authority_id, true);
    }

    /// The committed outcome, if any.
    pub fn committed_outcome(&self) -> (r: Option<BlockHeader>)
        ensures
            r == self@.committed,
    {
        self.committed
    }

    /// Whether this authority has committed to an outcome.  The own opinion
    /// may still change afterwards, but the committed outcome never does.
    pub fn is_final(&self) -> (r: bool)
        ensures
            r == (self@.committed is Some),
    {
        self.committed.is_some()
    }

    /// Whether the own confidence may be raised: strictly more than two
    /// thirds of the authorities endorsed the own triplet.
    fn can_increase_confidence(&self) -> (r: bool)
        requires
            self@.num_authorities * 2 <= usize::MAX,
        ensures
            r == (self@.best_state_counter > self@.num_authorities * 2 / 3),
    {
        self.best_state_counter > self.num_authorities * 2 / 3
    }

    /// Whether `bs` has already been validated as part of some state.
    fn seen_contains(&self, bs: &BareState) -> (r: bool)
        ensures
            r == self@.seen_bare_states.contains(*bs),
    {
        let mut i: usize = 0;
        while i < self.seen_bare_states.len()
            invariant
                i <= self.seen_bare_states@.len(),
                forall|j: int| 0 <= j < i ==> self.seen_bare_states@[j] != *bs,
            decreases self.seen_bare_states@.len() - i,
        {
            if self.seen_bare_states[i] == *bs {
                return true;
            }
            i = i + 1;
        }
        false
    }

    /// Ingest an opinion received from `authority_id`.
    ///
    /// The exact behaviour is [`spec_update`]; on top of it the contract
    /// states the protocol's standing guarantees: the invariant is
    /// preserved, the peer's stored opinion and the own opinion never
    /// decrease, a committed outcome never changes, and the adversary
    /// flags are sticky — a flagged peer only ever gets errors and causes
    /// no state change.
    ///
    /// The engine refuses — it does not panic — when a prior commitment
    /// would be contradicted; the caller must treat that refusal as fatal.
    /// That refusal carries [`commit_contradiction_text`] and is recognised
    /// by [`NSResult::is_commit_contradiction`].
    #[verifier::rlimit(100)]
    pub fn update_state(&mut self, authority_id: AuthorityId, state: State) -> (r: NSResult)
        requires
            engine_inv(old(self)@),
            authority_id < old(self)@.num_authorities,
            authority_id != old(self)@.owner_id,
        ensures
            engine_inv(final(self)@),
            final(self)@ == spec_update(old(self)@, authority_id as int, state@).0,
            r@ == spec_update(old(self)@, authority_id as int, state@).1,
            bs_le(
                old(self)@.states[authority_id as int].bare_state,
                final(self)@.states[authority_id as int].bare_state,
            ),
            bs_le(
                old(self)@.states[old(self)@.owner_id].bare_state,
                final(self)@.states[old(self)@.owner_id].bare_state,
            ),
            old(self)@.committed is Some ==> final(self)@.committed == old(self)@.committed,
            forall|b: int|
                0 <= b < old(self)@.num_authorities && old(self)@.is_adversary[b]
                    ==> final(self)@.is_adversary[b],
            old(self)@.is_adversary[authority_id as int] ==> r@ is Error && final(self)@.states
                == old(self)@.states && final(self)@.committed == old(self)@.committed,
    {
        let ghost pre = self@;
        let ghost ai = authority_id as int;
        let ghost sv = state@;

        // Step 1: flagged or equivocating peers are refused, stickily.
        if self.is_adversary[authority_id] || incompatible_states(
            &self.states[authority_id],
            &state,
        ) {
            self.is_adversary.set(authority_id, true);
            proof {
                assert(self@ =~~= spec_update(pre, ai, sv).0);
                if pre.is_adversary[ai] {
                    assert(self@.is_adversary =~= pre.is_adversary);
                }
            }
            return NSResult::Error(String::from_str("Not processing adversaries updates"));
        }
        // Step 2: validate an opinion whose triplet is new, caching the
        // triplet on success.  For a triplet validated before, the carried
        // proofs are re-used but not re-validated.
        let is_seen = self.seen_contains(&state.bare_state);
        if !is_seen {
            if state.verify(authority_id, &self.bls_public_keys) {
                self.seen_bare_states.push(state.bare_state);
            } else {
                proof {
                    assert(self@ =~~= spec_update(pre, ai, sv).0);
                }
                return NSResult::Error(String::from_str("Not a valid state"));
            }
        }
        proof {
            if is_seen {
                assert(pre.seen_bare_states.contains(sv.bare_state));
            }
            assert(bare_valid(sv.bare_state));
            assert(self@ =~~= (NightshadeV {
                seen_bare_states: spec_note_seen(pre.seen_bare_states, sv.bare_state),
                ..pre
            }));
        }
        let ghost v1 = self@;
        proof {
            lemma_note_seen_valid(pre.seen_bare_states, sv.bare_state);
            assert(engine_inv(v1));
        }
        // Step 3: stale or duplicate deliveries change nothing.
        if !bare_less(&self.states[authority_id].bare_state, &state.bare_state) {
            proof {
                assert(self@ =~~= spec_update(pre, ai, sv).0);
            }
            return NSResult::Updated(Box::new(None));
        }
        // Step 4: store the opinion and merge it into the own one.
        self.states.set(authority_id, clone_state(&state));
        proof {
            assert(self@.states =~= v1.states.update(ai, sv));
        }
        let mut new_state = merge(&self.states[self.owner_id], &state);
        let own_changed = new_state.bare_state != self.states[self.owner_id].bare_state;
        if own_changed {
            new_state.signature = new_state.bare_state.sign(&self.bls_owner_secret_key);
            self.states.set(self.owner_id, new_state);
            self.best_state_counter = 1;
        }
        if state.bare_state == self.states[self.owner_id].bare_state {
            proof {
                lemma_count_le_len(v1.states, v1.states[v1.owner_id].bare_state);
            }
            self.best_state_counter = self.best_state_counter + 1;
        }
        proof {
            let adv = spec_advance(v1, ai, sv);
            assert(self@.states =~~= adv.states);
            assert(self@.is_adversary =~= adv.is_adversary);
            assert(self@.seen_bare_states =~= adv.seen_bare_states);
            assert(self@.bls_public_keys =~= adv.bls_public_keys);
            assert(self@ =~~= adv);
            lemma_advance_inv(v1, ai, sv);
        }
        let ghost v2 = self@;
        // Step 5: with a supermajority of matching opinions, build the
        // proof and raise the own confidence.  The mask and aggregate
        // cover exactly the opinions matching the own triplet, which by
        // the engine invariant are best_state_counter many.
        if self.can_increase_confidence() {
            if self.states[self.owner_id].bare_state.primary_confidence == i64::MAX {
                proof {
                    assert(self@ =~~= spec_update(pre, ai, sv).0);
                }
                return NSResult::Error(String::from_str("Confidence counter exhausted"));
            }
            let my_bs: BareState = self.states[self.owner_id].bare_state;
            let mut aggregated_signature = AggregateSignature::new();
            let mut mask: Vec<bool> = Vec::new();
            let mut i: usize = 0;
            while i < self.num_authorities
                invariant
                    self@ == v2,
                    engine_inv(v2),
                    i <= self.num_authorities,
                    self.num_authorities == v2.num_authorities,
                    my_bs == v2.states[v2.owner_id].bare_state,
                    mask@.len() == i,
                    mask@ == spec_stored_mask(v2.states.subrange(0, i as int), my_bs),
                    aggregated_signature.0 as int == spec_collect_agg(
                        v2.states.subrange(0, i as int),
                        my_bs,
                    ),
                decreases self.num_authorities - i,
            {
                proof {
                    assert(v2.states.subrange(0, i + 1).drop_last() =~= v2.states.subrange(
                        0,
                        i as int,
                    ));
                }
                let bit = self.states[i].bare_state == my_bs;
                mask.push(bit);
                if bit {
                    aggregated_signature.aggregate(&self.states[i].signature);
                }
                i = i + 1;
            }
            proof {
                assert(v2.states.subrange(0, v2.states.len() as int) =~= v2.states);
            }
            let proof_obj = Proof::new(my_bs, mask, aggregated_signature.get_signature());
            proof {
                assert(proof_obj@ =~~= spec_build_proof(v2));
            }
            let new_own = self.states[self.owner_id].increase_confidence(
                proof_obj,
                &self.bls_owner_secret_key,
            );
            if !new_own.verify(self.owner_id, &self.bls_public_keys) {
                proof {
                    assert(self@ =~~= spec_update(pre, ai, sv).0);
                }
                return NSResult::Error(String::from_str("Generated state failed validation"));
            }
            if !self.seen_contains(&new_own.bare_state) {
                self.seen_bare_states.push(new_own.bare_state);
            }
            self.states.set(self.owner_id, clone_state(&new_own));
            self.best_state_counter = 1;
            proof {
                let raised = spec_raised(v2);
                assert(self@.states =~~= raised.states);
                assert(self@.is_adversary =~= raised.is_adversary);
                assert(self@.seen_bare_states =~= raised.seen_bare_states);
                assert(self@.bls_public_keys =~= raised.bls_public_keys);
                assert(self@ =~~= raised);
                lemma_raise_inv(v2);
            }
        }
        let ghost v3 = self@;
        // Step 6: commit once the threshold is cleared; a contradiction
        // with an earlier commitment is refused as fatal.
        if self.states[self.owner_id].can_commit() {
            let endorses_now = self.states[self.owner_id].endorses();
            match self.committed {
                Some(endorse) => {
                    if endorse != endorses_now {
                        proof {
                            assert(self@ =~~= spec_update(pre, ai, sv).0);
                        }
                        return NSResult::Error(String::from_str("Commit safety violation"));
                    }
                },
                None => {
                    self.committed = Some(endorses_now);
                },
            }
        }
        proof {
            assert(self@ =~~= spec_update(pre, ai, sv).0);
        }
        NSResult::Updated(Box::new(Some(clone_state(&self.states[self.owner_id]))))
    }
}

/// Every opinion an engine stores is well-formed: both confidences are
/// ordered and non-negative, or the slot still holds the sentinel.
pub proof fn lemma_stored_opinions_wf(v: NightshadeV)
    requires
        engine_inv(v),
    ensures
        forall|a: int| 0 <= a < v.states.len() ==> bare_wf((#[trigger] v.states[a]).bare_state),
{
}

/// An opinion accepted on first sight of its triplet passed full
/// validation: its triplet is self-consistent, its share signature is the
/// claimed sender's, each positive confidence is backed by a valid proof,
/// and the proofs' endorsements line up with the opinion's.  (An opinion
/// whose triplet was validated before is admitted without re-checking the
/// proofs it carries.)
pub proof fn lemma_first_sight_validated(v: NightshadeV, a: int, s: StateV)
    requires
        !v.seen_bare_states.contains(s.bare_state),
        !(spec_update(v, a, s).1 is Error),
    ensures
        spec_state_valid(s, a, v.bls_public_keys),
{
}

/// An accepted update never speaks against a prior commitment: whenever
/// an engine that has committed to `h` accepts an update and the returned
/// own opinion is strong enough to commit, that opinion endorses `h`.
/// (An update that would contradict the commitment is refused instead.)
pub proof fn lemma_commit_consistent(v: NightshadeV, a: int, s: StateV, h: BlockHeader)
    requires
        v.committed == Option::Some(h),
        spec_update(v, a, s).1 matches NSResultV::Updated(Option::Some(own)) && spec_can_commit(
            own.bare_state,
        ),
    ensures
        spec_update(v, a, s).1 matches NSResultV::Updated(Option::Some(own))
            ==> own.bare_state.endorses == h,
        spec_update(v, a, s).0.committed == Option::Some(h),
{
}

/// An update never changes the session's shape: owner, size and keys
/// stay as they were.
pub proof fn lemma_update_shape(v: NightshadeV, a: int, s: StateV)
    ensures
        spec_update(v, a, s).0.owner_id == v.owner_id,
        spec_update(v, a, s).0.num_authorities == v.num_authorities,
        spec_update(v, a, s).0.bls_public_keys == v.bls_public_keys,
        spec_update(v, a, s).0.bls_owner_secret_key == v.bls_owner_secret_key,
{
}

/// Recording a valid triplet as seen keeps every seen triplet valid.
proof fn lemma_note_seen_valid(seen: Seq<BareState>, bs: BareState)
    requires
        forall|b: BareState| seen.contains(b) ==> bare_valid(b),
        bare_valid(bs),
    ensures
        forall|b: BareState| spec_note_seen(seen, bs).contains(b) ==> bare_valid(b),
{
    let ns = spec_note_seen(seen, bs);
    assert forall|b: BareState| ns.contains(b) implies bare_valid(b) by {
        if b != bs {
            let i = choose|i: int| 0 <= i < ns.len() && ns[i] == b;
            assert(seen[i] == b);
            assert(seen.contains(b));
        }
    }
}

/// Starting own opinion: endorse the own proposal with zero confidence.
fn initial_own_state(author: AuthorityId, block_header: BlockHeader, sk: &SecretKey) -> (r: State)
    requires
        author == block_header.author,
    ensures
        r@.bare_state == (BareState {
            primary_confidence: 0i64,
            endorses: block_header,
            secondary_confidence: 0i64,
        }),
        r@.primary_proof is None,
        r@.secondary_proof is None,
        r@.signature == spec_sign(sk.0 as int, msg_digest(spec_enc_bare(r@.bare_state))),
{
    State::new(author, block_header.hash, sk)
}

/// Starting belief about a peer: the sentinel opinion.
fn initial_peer_state(sk: &SecretKey) -> (r: State)
    ensures
        r@.bare_state == crate::state::spec_empty_bare(),
        r@.primary_proof is None,
        r@.secondary_proof is None,
{
    State::empty(sk)
}

/// A sequence whose entries all differ from `bs` except index `i` has a
/// matching count of one.
proof fn lemma_count_single(states: Seq<StateV>, i: int, bs: BareState)
    requires
        0 <= i < states.len(),
        states[i].bare_state == bs,
        forall|a: int|
            0 <= a < states.len() && a != i ==> (#[trigger] states[a]).bare_state != bs,
    ensures
        count_matching(states, bs) == 1,
    decreases states.len(),
{
    if i == states.len() - 1 {
        lemma_count_zero(states.drop_last(), bs);
    } else {
        lemma_count_single(states.drop_last(), i, bs);
    }
}

} // verus!
