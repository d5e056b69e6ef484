//! The extended identity lifecycle: the second-generation identity object
//! for an agent, with hardware-fingerprint rotation, an externally attested
//! verification score independent of the engine's `trust_score`, DePIN
//! device binding, a sybil axis of distrust, and scoped delegation.
//!
//! Delegation grants are declarative state; enforcement is centralized in
//! `delegation_permits` / `is_authorized`, which every owner-gated
//! operation here calls, so no operation re-derives the scope and expiry
//! check.

use vstd::prelude::*;

use crate::state::Authority;
use crate::types::{pubkey_eq, DelegationScope, MoltError, Pubkey};

verus! {

/// A delegation grant: one delegate principal, one capability scope, one
/// expiry strictly in the future when granted.
#[derive(Clone, Copy, PartialEq, Eq, Debug)]
pub struct Delegation {
    pub delegate: Pubkey,
    pub scope: DelegationScope,
    pub expires_at: i64,
}

/// The extended identity of an agent. `score` is the externally attested
/// verification score, an axis independent of the engine's derived
/// `trust_score`; the two are never merged. `trust_level` is a coarse tier
/// in 0..=5. The sybil fields are a separate axis of distrust from the
/// base `is_flagged`.
#[derive(Clone, Copy, PartialEq, Eq, Debug)]
pub struct AgentProfile {
    pub owner: Pubkey,
    /// Current hardware fingerprint.
    pub identity_hash: [u8; 32],
    /// Audit trail: the fingerprint before the last rotation.
    pub previous_identity_hash: Option<[u8; 32]>,
    pub trust_level: u8,
    pub score: u8,
    pub depin_device: Option<[u8; 32]>,
    pub depin_provider: Option<Pubkey>,
    pub sybil_flagged: bool,
    pub sybil_match: Option<[u8; 32]>,
    pub sybil_reason: Option<[u8; 32]>,
    pub last_attestation: Option<[u8; 32]>,
    pub last_evidence: Option<[u8; 32]>,
    pub registered_at: i64,
    pub expires_at: i64,
    pub attested_at: i64,
    pub rotated_at: i64,
    pub delegation: Option<Delegation>,
}

impl AgentProfile {
    /// Well-formedness: the tier stays in 0..=5 and the attested score in
    /// 0..=100. Constructors establish it, every operation preserves it.
    pub open spec fn wf(self) -> bool {
        self.trust_level <= 5 && self.score <= 100
    }
}

/// Whether a granted scope covers a required one: `Full` covers
/// everything, any other scope only itself.
pub open spec fn scope_covers(granted: DelegationScope, required: DelegationScope) -> bool {
    granted is Full || granted == required
}

/// Whether the profile's delegation grant lets `principal` act with the
/// required scope at time `now`: a grant exists for this principal, has
/// not expired, and its scope covers the requirement.
pub open spec fn delegation_grants(
    profile: AgentProfile,
    principal: Pubkey,
    required: DelegationScope,
    now: i64,
) -> bool {
    profile.delegation matches Some(d) && d.delegate == principal && d.expires_at > now
        && scope_covers(d.scope, required)
}

/// Whether `signer` may run an owner-gated operation needing `required`
/// scope: the owner always may, a delegate through a live covering grant.
pub open spec fn spec_is_authorized(
    profile: AgentProfile,
    signer: Pubkey,
    required: DelegationScope,
    now: i64,
) -> bool {
    signer == profile.owner || delegation_grants(profile, signer, required, now)
}

fn scope_covers_exec(granted: &DelegationScope, required: &DelegationScope) -> (r: bool)
    ensures
        r == scope_covers(*granted, *required),
{
    match granted {
        DelegationScope::Full => true,
        _ => granted == required,
    }
}

/// The centralized delegation check: does the stored grant let `principal`
/// act with `required` scope at time `now`?
pub fn delegation_permits(
    profile: &AgentProfile,
    principal: &Pubkey,
    required: &DelegationScope,
    now: i64,
) -> (r: bool)
    ensures
        r == delegation_grants(*profile, *principal, *required, now),
{
    match &profile.delegation {
        None => false,
        Some(d) => pubkey_eq(&d.delegate, principal) && d.expires_at > now
            && scope_covers_exec(&d.scope, required),
    }
}

/// The centralized authorization check for owner-gated operations.
pub fn is_authorized(
    profile: &AgentProfile,
    signer: &Pubkey,
    required: &DelegationScope,
    now: i64,
) -> (r: bool)
    ensures
        r == spec_is_authorized(*profile, *signer, *required, now),
{
    pubkey_eq(signer, &profile.owner) || delegation_permits(profile, signer, required, now)
}

/// Register a fresh extended identity: tier 0, score 0, no bindings, no
/// sybil state, no delegation.
pub fn register_identity(owner: Pubkey, identity_hash: [u8; 32], now: i64, expires_at: i64) -> (p:
    AgentProfile)
    ensures
        p == (AgentProfile {
            owner,
            identity_hash,
            previous_identity_hash: None,
            trust_level: 0,
            score: 0,
            depin_device: None,
            depin_provider: None,
            sybil_flagged: false,
            sybil_match: None,
            sybil_reason: None,
            last_attestation: None,
            last_evidence: None,
            registered_at: now,
            expires_at,
            attested_at: 0,
            rotated_at: 0,
            delegation: None,
        }),
        p.wf(),
{
    AgentProfile {
        owner,
        identity_hash,
        previous_identity_hash: None,
        trust_level: 0,
        score: 0,
        depin_device: None,
        depin_provider: None,
        sybil_flagged: false,
        sybil_match: None,
        sybil_reason: None,
        last_attestation: None,
        last_evidence: None,
        registered_at: now,
        expires_at,
        attested_at: 0,
        rotated_at: 0,
        delegation: None,
    }
}

/// Why an `attest_verification` call is rejected, or `None` if it
/// succeeds.
pub open spec fn attest_rejection(authority: Authority, score: u8) -> Option<MoltError> {
    if !authority.active {
        Some(MoltError::AuthorityNotActive)
    } else if score > 100 {
        Some(MoltError::InvalidScore)
    } else {
        None
    }
}

/// An active authority attests a verification score for the identity,
/// recording the attestation and evidence hashes and the attestation time.
pub fn attest_verification(
    authority: &Authority,
    profile: &mut AgentProfile,
    score: u8,
    attestation_hash: [u8; 32],
    evidence_hash: [u8; 32],
    now: i64,
) -> (r: Result<(), MoltError>)
    requires
        old(profile).wf(),
    ensures
        final(profile).wf(),
        match attest_rejection(*authority, score) {
            Some(e) => r == Err::<(), MoltError>(e),
            None => r is Ok,
        },
        r is Err ==> *final(profile) == *old(profile),
        r is Ok ==> *final(profile) == (AgentProfile {
            score,
            last_attestation: Some(attestation_hash),
            last_evidence: Some(evidence_hash),
            attested_at: now,
            ..*old(profile)
        }),
{
    if !authority.active {
        return Err(MoltError::AuthorityNotActive);
    }
    if score > 100 {
        return Err(MoltError::InvalidScore);
    }
    profile.score = score;
    profile.last_attestation = Some(attestation_hash);
    profile.last_evidence = Some(evidence_hash);
    profile.attested_at = now;
    Ok(())
}

/// Owner (or a delegate with a live `Full` grant) binds a DePIN device and
/// its provider to the identity.
pub fn bind_depin_device(
    profile: &mut AgentProfile,
    signer: Pubkey,
    device: [u8; 32],
    provider: Pubkey,
    now: i64,
) -> (r: Result<(), MoltError>)
    requires
        old(profile).wf(),
    ensures
        final(profile).wf(),
        !spec_is_authorized(*old(profile), signer, DelegationScope::Full, now) ==> r == Err::<
            (),
            MoltError,
        >(MoltError::Unauthorized) && *final(profile) == *old(profile),
        spec_is_authorized(*old(profile), signer, DelegationScope::Full, now) ==> r is Ok
            && *final(profile) == (AgentProfile {
            depin_device: Some(device),
            depin_provider: Some(provider),
            ..*old(profile)
        }),
{
    if !is_authorized(profile, &signer, &DelegationScope::Full, now) {
        return Err(MoltError::Unauthorized);
    }
    profile.depin_device = Some(device);
    profile.depin_provider = Some(provider);
    Ok(())
}

/// An active authority marks the identity as colluding with another:
/// records the matching identity and the reason, and zeroes the trust
/// tier. Independent of the base `is_flagged`/`trust_score` fields.
pub fn flag_sybil(
    authority: &Authority,
    profile: &mut AgentProfile,
    matching_identity: [u8; 32],
    reason_hash: [u8; 32],
) -> (r: Result<(), MoltError>)
    requires
        old(profile).wf(),
    ensures
        final(profile).wf(),
        !authority.active ==> r == Err::<(), MoltError>(MoltError::AuthorityNotActive)
            && *final(profile) == *old(profile),
        authority.active ==> r is Ok && *final(profile) == (AgentProfile {
            sybil_flagged: true,
            sybil_match: Some(matching_identity),
            sybil_reason: Some(reason_hash),
            trust_level: 0,
            ..*old(profile)
        }),
{
    if !authority.active {
        return Err(MoltError::AuthorityNotActive);
    }
    profile.sybil_flagged = true;
    profile.sybil_match = Some(matching_identity);
    profile.sybil_reason = Some(reason_hash);
    profile.trust_level = 0;
    Ok(())
}

/// Why an `update_trust_level` call is rejected, or `None` if it
/// succeeds.
pub open spec fn update_trust_level_rejection(authority: Authority, level: u8) -> Option<
    MoltError,
> {
    if !authority.active {
        Some(MoltError::AuthorityNotActive)
    } else if level > 5 {
        Some(MoltError::InvalidTrustLevel)
    } else {
        None
    }
}

/// An active authority sets the trust tier, which must stay in 0..=5.
pub fn update_trust_level(authority: &Authority, profile: &mut AgentProfile, level: u8) -> (r:
    Result<(), MoltError>)
    requires
        old(profile).wf(),
    ensures
        final(profile).wf(),
        match update_trust_level_rejection(*authority, level) {
            Some(e) => r == Err::<(), MoltError>(e),
            None => r is Ok,
        },
        r is Err ==> *final(profile) == *old(profile),
        r is Ok ==> *final(profile) == (AgentProfile { trust_level: level, ..*old(profile) }),
{
    if !authority.active {
        return Err(MoltError::AuthorityNotActive);
    }
    if level > 5 {
        return Err(MoltError::InvalidTrustLevel);
    }
    profile.trust_level = level;
    Ok(())
}

/// Rotate to a new hardware fingerprint. The migration proof is verified
/// by an external collaborator before this operation runs. The old
/// fingerprint is archived in `previous_identity_hash`, the tier is
/// clamped to at most 2 (hardware re-binding forfeits elevated trust), the
/// last evidence hash is cleared (stale with respect to the new hardware),
/// and the externally attested `score` is preserved: behavioral history is
/// hardware-independent.
pub fn rotate_identity(
    profile: &mut AgentProfile,
    signer: Pubkey,
    new_identity_hash: [u8; 32],
    now: i64,
) -> (r: Result<(), MoltError>)
    requires
        old(profile).wf(),
    ensures
        final(profile).wf(),
        !spec_is_authorized(*old(profile), signer, DelegationScope::Full, now) ==> r == Err::<
            (),
            MoltError,
        >(MoltError::Unauthorized) && *final(profile) == *old(profile),
        spec_is_authorized(*old(profile), signer, DelegationScope::Full, now) ==> r is Ok
            && *final(profile) == (AgentProfile {
            identity_hash: new_identity_hash,
            previous_identity_hash: Some(old(profile).identity_hash),
            trust_level: if old(profile).trust_level > 2 {
                2u8
            } else {
                old(profile).trust_level
            },
            last_evidence: None,
            rotated_at: now,
            ..*old(profile)
        }),
        r is Ok ==> final(profile).score == old(profile).score,
{
    if !is_authorized(profile, &signer, &DelegationScope::Full, now) {
        return Err(MoltError::Unauthorized);
    }
    profile.previous_identity_hash = Some(profile.identity_hash);
    profile.identity_hash = new_identity_hash;
    if profile.trust_level > 2 {
        profile.trust_level = 2;
    }
    profile.last_evidence = None;
    profile.rotated_at = now;
    Ok(())
}

/// Why a `delegate_authority` call is rejected, or `None` if it succeeds.
pub open spec fn delegate_rejection(
    profile: AgentProfile,
    signer: Pubkey,
    expires_at: i64,
    now: i64,
) -> Option<MoltError> {
    if signer != profile.owner {
        Some(MoltError::Unauthorized)
    } else if expires_at <= now {
        Some(MoltError::DelegationExpired)
    } else {
        None
    }
}

/// The owner grants a delegate one capability scope with an expiry
/// strictly in the future. Only the owner may manage delegation: a
/// delegate cannot re-delegate.
pub fn delegate_authority(
    profile: &mut AgentProfile,
    signer: Pubkey,
    delegate: Pubkey,
    scope: DelegationScope,
    expires_at: i64,
    now: i64,
) -> (r: Result<(), MoltError>)
    requires
        old(profile).wf(),
    ensures
        final(profile).wf(),
        match delegate_rejection(*old(profile), signer, expires_at, now) {
            Some(e) => r == Err::<(), MoltError>(e),
            None => r is Ok,
        },
        r is Err ==> *final(profile) == *old(profile),
        r is Ok ==> *final(profile) == (AgentProfile {
            delegation: Some(Delegation { delegate, scope, expires_at }),
            ..*old(profile)
        }),
{
    if !pubkey_eq(&signer, &profile.owner) {
        return Err(MoltError::Unauthorized);
    }
    if expires_at <= now {
        return Err(MoltError::DelegationExpired);
    }
    profile.delegation = Some(Delegation { delegate, scope, expires_at });
    Ok(())
}

/// The owner revokes the delegation grant, clearing the triple. Revocable
/// at any time.
pub fn revoke_delegation(profile: &mut AgentProfile, signer: Pubkey) -> (r: Result<
    (),
    MoltError,
>)
    requires
        old(profile).wf(),
    ensures
        final(profile).wf(),
        signer != old(profile).owner ==> r == Err::<(), MoltError>(MoltError::Unauthorized)
            && *final(profile) == *old(profile),
        signer == old(profile).owner ==> r is Ok && *final(profile) == (AgentProfile {
            delegation: None,
            ..*old(profile)
        }),
{
    if !pubkey_eq(&signer, &profile.owner) {
        return Err(MoltError::Unauthorized);
    }
    profile.delegation = None;
    Ok(())
}

} // verus!
