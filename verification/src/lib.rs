//! Attestation aggregation and trust scoring for autonomous agents.
//!
//! Registered authorities issue time-bounded, revocable attestations about an
//! agent. The engine folds the still-valid attestations into a single bounded
//! trust score, supports an incremental fast path at submission time and a
//! permissionless full rebuild from a caller-supplied candidate set, and
//! manages the extended identity lifecycle (hardware rotation, sybil
//! flagging, scoped delegation).
//!
//! Record storage, caller authentication and the clock are the embedding's
//! responsibility: every operation takes the records it touches and the
//! current time as plain values and returns the event it would emit.

pub mod codec;
pub mod engine;
pub mod events;
pub mod identity;
pub mod rebuild;
pub mod state;
pub mod types;
