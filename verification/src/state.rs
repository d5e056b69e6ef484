//! The stored records: protocol configuration, authorities, agents and
//! attestations, together with the view of an attestation and the cached
//! signal state that the aggregation engine folds.

use vstd::prelude::*;

use crate::types::{AuthorityType, InfraType, Pubkey, SignalType};

verus! {

/// Singleton protocol configuration.
#[derive(Clone, Copy, Debug)]
pub struct ProtocolConfig {
    /// Principal allowed to run administrative operations.
    pub admin: Pubkey,
    /// Monotonic epoch, bumped whenever previously computed trust may have
    /// been invalidated (authority removal, attestation revocation).
    pub revocation_nonce: u64,
    pub total_agents: u64,
    pub total_attestations: u64,
    pub paused: bool,
}

/// One registered verification authority. Never deleted: deactivation keeps
/// outstanding attestations attributable.
#[derive(Clone, Copy, Debug)]
pub struct Authority {
    pub pubkey: Pubkey,
    pub authority_type: AuthorityType,
    pub attestation_count: u64,
    pub active: bool,
    pub added_by: Pubkey,
    pub added_at: i64,
}

/// The trust subject. The signal fields (`infra_type`, the two stake flags,
/// `attestation_count`, `last_verified`) cache what the folded attestations
/// contributed; `trust_score` is always derivable from them and `is_flagged`,
/// never an independent source of truth. `nonce` is the epoch at the last
/// rebuild, the staleness token a consumer compares with the global epoch.
#[derive(Clone, Debug)]
pub struct AgentIdentity {
    pub wallet: Pubkey,
    pub infra_type: InfraType,
    pub has_economic_stake: bool,
    pub has_hardware_binding: bool,
    pub attestation_count: u8,
    pub is_flagged: bool,
    pub trust_score: u8,
    pub last_verified: i64,
    pub nonce: u64,
    pub registered_at: i64,
    pub name: String,
}

/// One attestation, keyed by the (agent, authority) pair. Immutable once
/// created except for the `revoked` flag.
#[derive(Clone, Copy, PartialEq, Eq, Debug)]
pub struct Attestation {
    pub agent: Pubkey,
    pub authority: Pubkey,
    pub authority_type: AuthorityType,
    pub signal_contributed: SignalType,
    pub attestation_hash: [u8; 32],
    pub tee_quote: Option<[u8; 32]>,
    pub created_at: i64,
    pub expires_at: i64,
    pub revoked: bool,
}

/// Mathematical view of an attestation: byte arrays as sequences.
pub struct AttestationView {
    pub agent: Seq<u8>,
    pub authority: Seq<u8>,
    pub authority_type: AuthorityType,
    pub signal_contributed: SignalType,
    pub attestation_hash: Seq<u8>,
    pub tee_quote: Option<Seq<u8>>,
    pub created_at: i64,
    pub expires_at: i64,
    pub revoked: bool,
}

impl View for Attestation {
    type V = AttestationView;

    open spec fn view(&self) -> AttestationView {
        AttestationView {
            agent: self.agent@,
            authority: self.authority@,
            authority_type: self.authority_type,
            signal_contributed: self.signal_contributed,
            attestation_hash: self.attestation_hash@,
            tee_quote: match self.tee_quote {
                Some(q) => Some(q@),
                None => None,
            },
            created_at: self.created_at,
            expires_at: self.expires_at,
            revoked: self.revoked,
        }
    }
}

/// The cached signal state of an agent, as the fold of the rebuild reshapes
/// it: the five fields reset at the start of a rebuild and recomputed from
/// the surviving candidates.
pub struct SignalState {
    pub infra_type: InfraType,
    pub has_economic_stake: bool,
    pub has_hardware_binding: bool,
    pub attestation_count: u8,
    pub last_verified: i64,
}

impl SignalState {
    /// The state a rebuild starts from.
    pub open spec fn reset() -> SignalState {
        SignalState {
            infra_type: InfraType::Unknown,
            has_economic_stake: false,
            has_hardware_binding: false,
            attestation_count: 0,
            last_verified: 0,
        }
    }

    /// The signal fields an agent currently caches.
    pub open spec fn of_agent(agent: AgentIdentity) -> SignalState {
        SignalState {
            infra_type: agent.infra_type,
            has_economic_stake: agent.has_economic_stake,
            has_hardware_binding: agent.has_hardware_binding,
            attestation_count: agent.attestation_count,
            last_verified: agent.last_verified,
        }
    }
}

} // verus!
