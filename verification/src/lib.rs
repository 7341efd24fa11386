//! Nightshade consensus core.
//!
//! A fixed set of `N` authorities each proposes one block and then agrees on a
//! single proposal.  Every authority keeps an opinion — a triplet of the
//! endorsed block header and two confidence counters — and refines it by
//! merging the opinions it receives from its peers.  An opinion whose primary
//! confidence exceeds its secondary confidence by a fixed threshold becomes an
//! irreversible commitment.
//!
//! The protocol takes its cryptography as a black box: all it needs is a
//! deterministic content digest and a signature scheme whose shares and
//! public keys aggregate by addition.  The [`digest`] and [`sig`] modules
//! supply small verified schemes with exactly those interfaces; they claim
//! reproducibility, not cryptographic hardness.
//!
//! The crate is organised as follows:
//! * [`digest`] — fixed-width content digests used to identify proposals,
//! * [`sig`] — the deterministic share/aggregate signature scheme,
//! * [`wire`] — the canonical byte encoding that signatures cover,
//! * [`state`] — opinions (`BareState`, `State`), proofs, ordering and merge,
//! * [`engine`] — the per-authority decision engine (`Nightshade`),
//! * [`task`] — the gossip state machine that drives an engine.

use vstd::prelude::*;

pub mod digest;
pub mod engine;
pub mod sig;
pub mod state;
pub mod task;
pub mod wire;

verus! {

/// Index of an authority inside the fixed set of a session.
pub type AuthorityId = usize;

} // verus!
