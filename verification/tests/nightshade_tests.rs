//! Engine-level tests: the original consensus scenarios plus checks of the
//! triplet order, merging and equivocation detection.

use nightshade::AuthorityId;
use nightshade::digest::hash_bytes;
use nightshade::engine::NSResult;
use nightshade::engine::Nightshade;
use nightshade::sig::AggregatePublicKey;
use nightshade::sig::AggregateSignature;
use nightshade::sig::PublicKey;
use nightshade::sig::SecretKey;
use nightshade::sig::key_pair_from_seed;
use nightshade::state::BareState;
use nightshade::state::BlockHeader;
use nightshade::state::State;
use nightshade::state::incompatible_states;

fn generate_bls_key_pairs(total: usize) -> (Vec<PublicKey>, Vec<SecretKey>) {
    // Deterministic seeds keep the tests reproducible.
    (0..total).map(|i| key_pair_from_seed(1000 + i as u64)).unzip()
}

fn check_state_proofs(state: &State) {
    assert_eq!(state.bare_state.primary_confidence == 0, state.primary_proof.is_none());
    assert_eq!(state.bare_state.secondary_confidence == 0, state.secondary_proof.is_none());
}

fn header(author: AuthorityId) -> BlockHeader {
    let payload: Vec<u8> = (author as u64).to_le_bytes().to_vec();
    BlockHeader { author, hash: hash_bytes(&payload) }
}

#[test]
fn bls_on_bare_states() {
    let (pks, sks) = generate_bls_key_pairs(2);
    let triplet = BareState {
        primary_confidence: 0,
        endorses: header(1),
        secondary_confidence: 0,
    };
    // Aggregate signature
    let mut aggregated_signature = AggregateSignature::new();
    for sk in sks {
        let s = triplet.sign(&sk);
        aggregated_signature.aggregate(&s);
    }
    let signature = aggregated_signature.get_signature();

    // Aggregate public keys
    let mut aggregated_pk = AggregatePublicKey::new();
    for pk in pks {
        aggregated_pk.aggregate(&pk);
    }
    let a_pk = aggregated_pk.get_key();

    assert_eq!(a_pk.verify(&triplet.bs_encode(), &signature), true);
}

fn create_nightshades(num_authorities: usize) -> Vec<Nightshade> {
    let (public_keys, secret_keys) = generate_bls_key_pairs(num_authorities);

    (0..num_authorities)
        .map(|i| {
            Nightshade::new(i, num_authorities, header(i), public_keys.clone(), secret_keys[i])
        })
        .collect()
}

fn nightshade_all_sync(num_authorities: usize, num_rounds: usize) {
    let mut ns = create_nightshades(num_authorities);

    for _ in 0..num_rounds {
        let mut states = vec![];

        for i in 0..num_authorities {
            let state = ns[i].state();
            check_state_proofs(&state);
            states.push(state);
        }

        for i in 0..num_authorities {
            for j in 0..num_authorities {
                if i != j {
                    ns[i].update_state(j, states[j].clone());
                }
            }
        }
    }

    for i in 0..num_authorities {
        let s = ns[i].state();
        check_state_proofs(&s);
        assert_eq!(s.can_commit(), true);
    }
}

#[test]
fn test_nightshade_two_authority() {
    nightshade_all_sync(2, 5);
}

#[test]
fn test_nightshade_three_authorities() {
    nightshade_all_sync(3, 5);
}

#[test]
fn test_nightshade_ten_authorities() {
    nightshade_all_sync(10, 5);
}

fn bare_state(
    primary_confidence: i64,
    endorses: AuthorityId,
    secondary_confidence: i64,
) -> BareState {
    BareState { primary_confidence, endorses: header(endorses), secondary_confidence }
}

fn state(primary_confidence: i64, endorses: AuthorityId, secondary_confidence: i64) -> State {
    let (_, secret_key) = key_pair_from_seed(7);
    let mut state = State::empty(&secret_key);
    state.bare_state = bare_state(primary_confidence, endorses, secondary_confidence);
    state
}

#[test]
fn test_incompatible() {
    assert_eq!(incompatible_states(&state(4, 1, 2), &state(3, 1, 3)), true);
    assert_eq!(incompatible_states(&state(4, 1, 3), &state(3, 1, 3)), false);
    assert_eq!(incompatible_states(&state(4, 2, 2), &state(3, 1, 3)), true);
    assert_eq!(incompatible_states(&state(4, 2, 2), &state(3, 1, 2)), true);
}

#[test]
fn test_order() {
    // Antisymmetry
    assert_eq!(bare_state(3, 3, 1) > bare_state(2, 3, 2), true);
    assert_eq!(bare_state(2, 3, 2) > bare_state(3, 3, 1), false);
    // No reflexive
    assert_eq!(bare_state(3, 3, 1) > bare_state(3, 3, 1), false);
    // Lexicographically correct
    assert_eq!(bare_state(3, 4, 1) > bare_state(3, 3, 2), true);
    assert_eq!(bare_state(3, 3, 3) > bare_state(3, 3, 2), true);
}

#[test]
fn test_nightshade_basics() {
    let mut ns = create_nightshades(2);

    let state0 = ns[0].state();
    assert_eq!(state0.endorses().author, 0);
    let state1 = ns[1].state();
    ns[0].update_state(1, state1.clone());
    let state0 = ns[0].state();
    assert_eq!(state0.endorses().author, 1);
}

#[test]
fn test_nightshade_basics_confidence() {
    let num_authorities = 4;
    let mut ns = create_nightshades(num_authorities);

    for i in 0..2 {
        let state2 = ns[2].state();
        ns[i].update_state(2, state2);
        let state_i = ns[i].state();
        assert_eq!(state_i.endorses().author, 2);

        ns[2].update_state(i, state_i);
        let state2 = ns[2].state();

        // After the update from authority 0 the expected confidence is 0,
        // since only authorities 0 and 2 endorse outcome 2.  After the
        // update from authority 1 there are 3 authorities endorsing 2 with
        // triplet (0, 2, 0), so confidence must be 1.
        assert_eq!(state2.endorses().author, 2);
        assert_eq!(state2.bare_state.primary_confidence, i as i64);
    }
}

#[test]
fn test_adversary_flag_is_sticky() {
    let mut ns = create_nightshades(3);
    let s1 = ns[1].state();
    ns[0].set_adversary(1);
    match ns[0].update_state(1, s1.clone()) {
        NSResult::Error(_) => {}
        NSResult::Updated(_) => panic!("update from a flagged peer must be refused"),
    }
    // Still refused on a second try, and the own opinion never moved.
    match ns[0].update_state(1, s1) {
        NSResult::Error(_) => {}
        NSResult::Updated(_) => panic!("the adversary flag must be sticky"),
    }
    assert_eq!(ns[0].state().endorses().author, 0);
}

#[test]
fn test_equivocation_is_flagged() {
    let mut ns = create_nightshades(2);
    // Store peer 1's genuine opinion first.
    let genuine = ns[1].state();
    match ns[0].update_state(1, genuine.clone()) {
        NSResult::Updated(_) => {}
        NSResult::Error(e) => panic!("genuine opinion refused: {}", e),
    }
    // A second opinion that the stored one cannot explain: it claims
    // positive confidence while knowing nothing of the stored endorsement.
    let second = state(1, 0, -1);
    assert!(incompatible_states(&genuine, &second));
    match ns[0].update_state(1, second) {
        NSResult::Error(_) => {}
        NSResult::Updated(_) => panic!("equivocation must be refused"),
    }
    // The flag is sticky: even the genuine opinion is refused afterwards.
    match ns[0].update_state(1, genuine) {
        NSResult::Error(_) => {}
        NSResult::Updated(_) => panic!("the adversary flag must be sticky"),
    }
}

#[test]
fn test_invalid_state_is_rejected() {
    let mut ns = create_nightshades(2);
    // An opinion with positive confidence but no proof cannot validate,
    // and the refusal is an ordinary one, not a commit contradiction.
    let bogus = state(1, 1, 0);
    let outcome = ns[0].update_state(1, bogus.clone());
    assert!(!outcome.is_commit_contradiction());
    match ns[0].update_state(1, bogus) {
        NSResult::Error(_) => {}
        NSResult::Updated(_) => panic!("an unproven confidence must be refused"),
    }
}

#[test]
fn test_zero_confidence_with_secondary_proof_is_rejected() {
    let mut ns = create_nightshades(2);
    // A genuine zero-confidence opinion with a smuggled secondary proof:
    // the share signature still covers the triplet, but validation must
    // refuse it, since at zero primary confidence both proofs have to be
    // absent.
    let mut tampered = ns[1].state();
    tampered.secondary_proof = Some(nightshade::state::Proof {
        bare_state: tampered.bare_state,
        mask: vec![true, true],
        signature: nightshade::sig::Signature(1),
    });
    match ns[0].update_state(1, tampered) {
        NSResult::Error(_) => {}
        NSResult::Updated(_) => panic!("a zero-confidence opinion must carry no proofs"),
    }
}

#[test]
fn test_stale_update_is_no_change() {
    let mut ns = create_nightshades(2);
    let s1 = ns[1].state();
    ns[0].update_state(1, s1.clone());
    // Delivering the same opinion again is reported as no change.
    match ns[0].update_state(1, s1) {
        NSResult::Updated(b) => assert!(b.is_none()),
        NSResult::Error(_) => panic!("a stale delivery is not an error"),
    }
}

#[test]
fn test_cached_triplet_with_bogus_share_blocks_confidence() {
    // A triplet validated once is admitted later without re-checking the
    // carried signatures.  A bogus share smuggled in that way poisons the
    // aggregate, and the engine refuses to raise its confidence rather
    // than emit an invalid proof.
    let mut ns = create_nightshades(3);
    let genuine2 = ns[2].state();
    match ns[0].update_state(2, genuine2.clone()) {
        NSResult::Updated(_) => {}
        NSResult::Error(e) => panic!("genuine opinion refused: {}", e),
    }
    // Same (now cached) triplet, claimed from peer 1, with a junk share.
    let mut forged = genuine2.clone();
    forged.signature = nightshade::sig::Signature(123456789);
    match ns[0].update_state(1, forged) {
        NSResult::Error(_) => {}
        NSResult::Updated(_) => {
            panic!("a supermajority with a bogus share must not raise confidence")
        }
    }
    // The own confidence stayed at zero.
    assert_eq!(ns[0].state().bare_state.primary_confidence, 0);
}

#[test]
fn test_commit_contradiction_is_refused() {
    // Drive two authorities to a commit, then hand authority 0 an opinion
    // that would commit to a different proposal.  Its proofs are built
    // with both secret keys, standing for a fully colluding authority
    // set; the engine must refuse rather than overwrite its commitment.
    let n = 2;
    let (public_keys, secret_keys) = generate_bls_key_pairs(n);
    let mut ns: Vec<Nightshade> = (0..n)
        .map(|i| Nightshade::new(i, n, header(i), public_keys.clone(), secret_keys[i]))
        .collect();
    for _ in 0..6 {
        let states: Vec<State> = (0..n).map(|i| ns[i].state()).collect();
        for i in 0..n {
            for j in 0..n {
                if i != j {
                    ns[i].update_state(j, states[j].clone());
                }
            }
        }
    }
    assert!(ns[0].is_final());
    let committed = ns[0].committed.unwrap();
    assert_eq!(committed.author, 1);

    // Everyone's shares over a triplet, aggregated.
    let collective_proof = |bs: &BareState| {
        let mut agg = AggregateSignature::new();
        for sk in secret_keys.iter() {
            agg.aggregate(&bs.sign(sk));
        }
        nightshade::state::Proof {
            bare_state: *bs,
            mask: vec![true, true],
            signature: agg.get_signature(),
        }
    };
    // Keep the conflicting opinion compatible with peer 1's stored one:
    // its secondary confidence explains everything seen so far, so only
    // the commit check can refuse it.
    let p = ns[0].state().bare_state.primary_confidence;
    assert!(p >= 3);
    let primary_bs = BareState {
        primary_confidence: p + 2,
        endorses: header(0),
        secondary_confidence: 0,
    };
    let secondary_bs = BareState {
        primary_confidence: p - 1,
        endorses: header(1),
        secondary_confidence: 0,
    };
    let conflicting_bs = BareState {
        primary_confidence: p + 3,
        endorses: header(0),
        secondary_confidence: p,
    };
    let conflicting = State {
        bare_state: conflicting_bs,
        primary_proof: Some(collective_proof(&primary_bs)),
        secondary_proof: Some(collective_proof(&secondary_bs)),
        signature: conflicting_bs.sign(&secret_keys[1]),
    };
    assert!(!incompatible_states(&ns[0].state(), &conflicting));
    let outcome = ns[0].update_state(1, conflicting);
    assert!(outcome.is_commit_contradiction(), "the refusal must name the contradiction");
    match outcome {
        NSResult::Error(_) => {}
        NSResult::Updated(_) => panic!("a commit contradiction must be refused"),
    }
    // The commitment never changes.
    assert_eq!(ns[0].committed, Some(committed));
}

#[test]
fn test_commit_is_stable_across_rounds() {
    // Once committed, further rounds never change the committed header.
    let n = 3;
    let mut ns = create_nightshades(n);
    let mut committed: Vec<Option<BlockHeader>> = vec![None; n];
    for _ in 0..8 {
        let states: Vec<State> = (0..n).map(|i| ns[i].state()).collect();
        for i in 0..n {
            for j in 0..n {
                if i != j {
                    ns[i].update_state(j, states[j].clone());
                }
            }
            if let Some(h) = committed[i] {
                assert!(ns[i].is_final());
                assert_eq!(ns[i].committed, Some(h));
            } else {
                committed[i] = ns[i].committed;
            }
        }
    }
    for i in 0..n {
        assert!(ns[i].is_final());
        assert_eq!(ns[i].committed, committed[0]);
    }
}
