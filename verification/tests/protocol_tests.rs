//! Wire, signature, merge-law and gossip-task tests.

use nightshade::AuthorityId;
use nightshade::digest::CryptoHash;
use nightshade::digest::empty_cryptohash;
use nightshade::digest::hash_bytes;
use nightshade::sig::key_pair_from_seed;
use nightshade::state::BareState;
use nightshade::state::BlockHeader;
use nightshade::state::State;
use nightshade::state::bare_less;
use nightshade::state::incompatible_states;
use nightshade::state::merge;
use nightshade::task::ConsensusPariticipants;
use nightshade::task::Control;
use nightshade::task::Gossip;
use nightshade::task::GossipBody;
use nightshade::task::Message;
use nightshade::task::NightshadeTask;
use nightshade::task::get_control;

fn sample_header(author: AuthorityId) -> BlockHeader {
    let payload: Vec<u8> = (author as u64).to_le_bytes().to_vec();
    BlockHeader { author, hash: hash_bytes(&payload) }
}

fn sample_state(pc: i64, endorses: AuthorityId, sc: i64) -> State {
    let (_, sk) = key_pair_from_seed(42);
    let mut s = State::empty(&sk);
    s.bare_state = BareState {
        primary_confidence: pc,
        endorses: sample_header(endorses),
        secondary_confidence: sc,
    };
    s
}

#[test]
fn test_bare_state_codec_roundtrip() {
    let samples = [
        BareState {
            primary_confidence: -1,
            endorses: BlockHeader { author: 0, hash: empty_cryptohash() },
            secondary_confidence: -1,
        },
        BareState {
            primary_confidence: 0,
            endorses: sample_header(3),
            secondary_confidence: 0,
        },
        BareState {
            primary_confidence: 7,
            endorses: sample_header(1),
            secondary_confidence: 2,
        },
    ];
    for bs in samples.iter() {
        let bytes = bs.bs_encode();
        assert_eq!(bytes.len(), 56);
        let back = BareState::bs_decode(&bytes).expect("canonical bytes must parse");
        assert_eq!(back, *bs);
        // Identical bytes after the round trip.
        assert_eq!(back.bs_encode(), bytes);
    }
}

#[test]
fn test_bare_state_exact_bytes() {
    let bs = BareState {
        primary_confidence: 1,
        endorses: BlockHeader { author: 2, hash: CryptoHash(3, 4, 5, 6) },
        secondary_confidence: 0,
    };
    let mut expected: Vec<u8> = Vec::new();
    for word in [1u64, 2, 3, 4, 5, 6, 0] {
        expected.extend_from_slice(&word.to_le_bytes());
    }
    assert_eq!(bs.bs_encode(), expected);

    // The sentinel's confidences are the all-ones two's-complement image.
    let sentinel = BareState::empty();
    let bytes = sentinel.bs_encode();
    assert_eq!(&bytes[0..8], &[0xFF; 8]);
    assert_eq!(&bytes[48..56], &[0xFF; 8]);
    assert_eq!(&bytes[8..48], &[0u8; 40]);
}

#[test]
fn test_bad_bytes_do_not_parse() {
    assert!(BareState::bs_decode(&[0u8; 55]).is_none());
    assert!(BareState::bs_decode(&[]).is_none());
}

#[test]
fn test_digest_exact_values() {
    // The accumulator starts at the limb's seed and absorbs each byte as
    // `h * 31 + b + 1` in the field, so an empty payload digests to the
    // four seeds and a single zero byte to `seed * 31 + 1`.
    assert_eq!(hash_bytes(&[]), CryptoHash(1, 2, 3, 4));
    assert_eq!(hash_bytes(&[0]), CryptoHash(32, 63, 94, 125));
}

#[test]
fn test_signature_exact_values() {
    // With secret key 2 the public key is 2 * 3 = 6; the share over a
    // message digesting to 2 is 2 * 2 = 4, and verification compares
    // 4 * 3 with 6 * 2.
    let (pk, sk) = key_pair_from_seed(2);
    assert_eq!(sk.0, 2);
    assert_eq!(pk.0, 6);
    let message: Vec<u8> = vec![1];
    let share = sk.sign(&message);
    assert_eq!(share.0, 4);
    assert!(pk.verify(&message, &share));
}

#[test]
fn test_digest_is_deterministic() {
    let a = hash_bytes(&[1, 2, 3]);
    let b = hash_bytes(&[1, 2, 3]);
    let c = hash_bytes(&[1, 2, 4]);
    assert_eq!(a, b);
    assert_ne!(a, c);
}

#[test]
fn test_share_signature_verifies() {
    let (pk, sk) = key_pair_from_seed(5);
    let (other_pk, _) = key_pair_from_seed(6);
    let bs = BareState::new(0, empty_cryptohash());
    let share = bs.sign(&sk);
    assert!(pk.verify(&bs.bs_encode(), &share));
    assert!(!other_pk.verify(&bs.bs_encode(), &share));
}

#[test]
fn test_merge_with_itself_and_sentinel() {
    let s = sample_state(2, 1, 1);
    let merged = merge(&s, &s);
    assert_eq!(merged.bare_state, s.bare_state);
    assert!(merged.primary_proof.is_none());
    assert!(merged.secondary_proof.is_none());

    let (_, sk) = key_pair_from_seed(9);
    let sentinel = State::empty(&sk);
    assert_eq!(merge(&s, &sentinel).bare_state, s.bare_state);
    assert_eq!(merge(&sentinel, &s).bare_state, s.bare_state);
}

#[test]
fn test_merge_is_commutative_on_distinct_states() {
    let a = sample_state(2, 1, 0);
    let b = sample_state(1, 0, 1);
    let ab = merge(&a, &b);
    let ba = merge(&b, &a);
    assert_eq!(ab.bare_state, ba.bare_state);
    // The lower state's knowledge of the runner-up is carried over.
    assert_eq!(ab.bare_state.primary_confidence, 2);
    assert_eq!(ab.bare_state.endorses.author, 1);
    assert_eq!(ab.bare_state.secondary_confidence, 1);
}

#[test]
fn test_compatible_with_itself() {
    let s = sample_state(3, 1, 2);
    assert!(!incompatible_states(&s, &s));
}

#[test]
fn test_sentinel_is_least() {
    let sentinel = BareState::empty();
    for (pc, author, sc) in [(0i64, 0usize, 0i64), (0, 3, 0), (5, 1, 2)] {
        let bs = BareState {
            primary_confidence: pc,
            endorses: sample_header(author),
            secondary_confidence: sc,
        };
        assert!(bare_less(&sentinel, &bs));
        assert!(!bare_less(&bs, &sentinel));
    }
}

#[test]
fn test_can_commit_threshold() {
    assert!(sample_state(3, 1, 0).can_commit());
    assert!(sample_state(5, 1, 2).can_commit());
    assert!(!sample_state(2, 1, 0).can_commit());
    assert!(!sample_state(4, 1, 2).can_commit());
}

#[test]
fn test_gossip_envelope_signature() {
    let (pk, sk) = key_pair_from_seed(11);
    let (other_pk, _) = key_pair_from_seed(12);
    let envelope = Gossip::new(0, 1, GossipBody::PayloadRequest(vec![1]), &sk);
    assert!(envelope.verify(&pk));
    assert!(!envelope.verify(&other_pk));

    // Tampering with the addressing changes the envelope hash.
    let mut tampered = Gossip::new(0, 1, GossipBody::PayloadRequest(vec![1]), &sk);
    tampered.sender_id = 1;
    assert!(!tampered.verify(&pk));
}

fn make_participants(owner: usize, n: usize) -> ConsensusPariticipants {
    let witness_uids: Vec<u64> = (0..n as u64).collect();
    let (tpks, tsks): (Vec<_>, Vec<_>) = (0..n).map(|i| key_pair_from_seed(i as u64)).unzip();
    let (bpks, bsks): (Vec<_>, Vec<_>) =
        (0..n).map(|i| key_pair_from_seed((n + i) as u64)).unzip();
    ConsensusPariticipants::new(owner as u64, witness_uids, tpks, tsks[owner], bpks, bsks[owner])
}

#[test]
fn test_get_control_builds_a_session() {
    match get_control(Some(1), 3) {
        Control::Reset((participants, payload)) => {
            assert_eq!(participants.owner_uid, 1);
            assert_eq!(participants.owner_id(), 1);
            assert_eq!(participants.num_authorities(), 3);
            assert_eq!(participants.witness_uids, vec![0, 1, 2]);
            assert!(payload.is_empty());
        }
        Control::Stop => panic!("an owner must start a session"),
    }
    match get_control(None, 3) {
        Control::Stop => {}
        Control::Reset(_) => panic!("without an owner the session must stop"),
    }
}

#[test]
fn test_tasks_reach_consensus_over_gossip() {
    let n: usize = 3;
    let mut tasks: Vec<NightshadeTask> = (0..n).map(|_| NightshadeTask::new()).collect();
    for i in 0..n {
        tasks[i].reset(make_participants(i, n), vec![i as u8, 7]);
        tasks[i].init_nightshade();
    }
    let mut commits: Vec<Option<BlockHeader>> = vec![None; n];
    for _round in 0..20 {
        for i in 0..n {
            tasks[i].gossip_state();
            tasks[i].collect_missing_payloads();
        }
        let mut deliveries: Vec<(usize, Gossip)> = Vec::new();
        for i in 0..n {
            for envelope in tasks[i].take_outgoing() {
                deliveries.push((envelope.receiver_uid, envelope));
            }
        }
        for (receiver, envelope) in deliveries {
            if receiver < n {
                let refusal = tasks[receiver].process_gossip(envelope);
                assert!(refusal.is_none(), "honest gossip must not be refused");
                if let Some(h) = tasks[receiver].poll_commit() {
                    // The commit is reported exactly once.
                    assert!(commits[receiver].is_none());
                    commits[receiver] = Some(h);
                }
            }
        }
    }
    for i in 0..n {
        assert!(tasks[i].is_final());
        assert!(commits[i].is_some());
        assert_eq!(commits[i], commits[0]);
    }
}

#[test]
fn test_task_requests_missing_payloads() {
    let n: usize = 2;
    let mut task = NightshadeTask::new();
    task.reset(make_participants(0, n), vec![9]);
    task.init_nightshade();
    task.collect_missing_payloads();
    let out = task.take_outgoing();
    // Exactly one proposal is missing: peer 1's.
    assert_eq!(out.len(), 1);
    assert_eq!(out[0].receiver_uid, 1);
    match &out[0].body {
        GossipBody::PayloadRequest(ids) => assert_eq!(ids, &vec![1]),
        _ => panic!("a payload request was expected"),
    }
}

#[test]
fn test_engine_refusal_is_surfaced() {
    let n: usize = 2;
    let mut task = NightshadeTask::new();
    task.reset(make_participants(0, n), vec![5]);
    task.init_nightshade();
    // An opinion endorsing task 0's own (known) proposal, claiming
    // confidence 1 without any proof: the engine refuses it and the
    // refusal comes back from process_gossip.
    let own_header = BlockHeader { author: 0, hash: hash_bytes(&[5]) };
    let (_, any_sk) = key_pair_from_seed(77);
    let mut bogus = State::empty(&any_sk);
    bogus.bare_state = BareState {
        primary_confidence: 1,
        endorses: own_header,
        secondary_confidence: 0,
    };
    let message = Message { sender_id: 1, receiver_id: 0, state: bogus };
    let (_, transport_sk1) = key_pair_from_seed(1);
    let envelope = Gossip::new(
        1,
        0,
        GossipBody::NightshadeStateUpdate(Box::new(message)),
        &transport_sk1,
    );
    let refusal = task.process_gossip(envelope);
    assert!(refusal.is_some(), "the engine's refusal must be surfaced");
}

#[test]
fn test_stopped_task_reports_nothing() {
    let mut task = NightshadeTask::new();
    task.reset(make_participants(0, 2), vec![1]);
    task.init_nightshade();
    task.stop();
    assert!(!task.is_final());
    assert_eq!(task.poll_commit(), None);
}
