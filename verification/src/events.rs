//! Structured events. Every state-mutating operation returns the event it
//! would emit, carrying the operation's key identifiers and resulting
//! values for downstream indexing. Events are a side-channel notification,
//! not part of the trust computation.

use vstd::prelude::*;

use crate::types::{AuthorityType, Pubkey, SignalType};

verus! {

#[derive(Clone, Debug)]
pub struct AgentRegistered {
    pub wallet: Pubkey,
    pub name: String,
}

#[derive(Clone, Debug)]
pub struct AttestationSubmitted {
    pub agent: Pubkey,
    pub authority: Pubkey,
    pub signal_type: SignalType,
}

#[derive(Clone, Debug)]
pub struct AttestationRevoked {
    pub agent: Pubkey,
    pub authority: Pubkey,
}

#[derive(Clone, Debug)]
pub struct AgentFlagged {
    pub agent: Pubkey,
    pub authority: Pubkey,
    pub reason_hash: [u8; 32],
}

#[derive(Clone, Debug)]
pub struct AgentUnflagged {
    pub agent: Pubkey,
}

#[derive(Clone, Debug)]
pub struct TrustScoreRefreshed {
    pub agent: Pubkey,
    pub old_score: u8,
    pub new_score: u8,
}

#[derive(Clone, Debug)]
pub struct AuthorityAdded {
    pub authority: Pubkey,
    pub authority_type: AuthorityType,
}

#[derive(Clone, Debug)]
pub struct AuthorityRemoved {
    pub authority: Pubkey,
}

} // verus!
