//! The instruction-level operations of the protocol: authority registry,
//! agent registration, the incremental attestation submit path, revocation,
//! flagging, and administration. Each operation takes the records it touches
//! and the current time as plain values, rejects exactly the inputs the
//! protocol rejects, and returns the event it would emit.

use vstd::prelude::*;

use crate::events::{
    AgentFlagged, AgentRegistered, AgentUnflagged, AttestationRevoked, AttestationSubmitted,
    AuthorityAdded, AuthorityRemoved,
};
use crate::state::{AgentIdentity, Attestation, Authority, ProtocolConfig};
use crate::types::{
    infra_of_rank, merged_infra, pubkey_eq, signal_infra_rank, trust_score_of, AuthorityType,
    InfraType, MoltError, Pubkey, SignalType,
};

verus! {

/// Create the singleton protocol configuration with the given admin and a
/// fresh epoch.
pub fn initialize(admin: Pubkey) -> (config: ProtocolConfig)
    ensures
        config.admin == admin,
        config.revocation_nonce == 0,
        config.total_agents == 0,
        config.total_attestations == 0,
        !config.paused,
{
    ProtocolConfig {
        admin,
        revocation_nonce: 0,
        total_agents: 0,
        total_attestations: 0,
        paused: false,
    }
}

/// Recompute the trust score from the cached signal state:
/// 20 points for having any attestation, the infrastructure bonus
/// (Cloud 10, TEE 25, DePIN 35), 25 for economic stake, 20 for hardware
/// binding; a flagged agent scores 0 whatever else holds.
pub fn derive_trust_score(
    attestation_count: u8,
    infra_type: InfraType,
    has_economic_stake: bool,
    has_hardware_binding: bool,
    is_flagged: bool,
) -> (score: u8)
    ensures
        score == trust_score_of(
            attestation_count,
            infra_type,
            has_economic_stake,
            has_hardware_binding,
            is_flagged,
        ),
        score <= 100,
{
    let mut score: u8 = 0;
    if attestation_count >= 1 {
        score = score + 20;
    }
    match infra_type {
        InfraType::Unknown => {},
        InfraType::Cloud => {
            score = score + 10;
        },
        InfraType::TEE => {
            score = score + 25;
        },
        InfraType::DePIN => {
            score = score + 35;
        },
    }
    if has_economic_stake {
        score = score + 25;
    }
    if has_hardware_binding {
        score = score + 20;
    }
    if is_flagged {
        score = 0;
    }
    score
}

/// Monotonic merge of one signal into the agent's cached state: the
/// infrastructure class only ever advances along
/// Unknown -> Cloud -> TEE -> DePIN, the stake flags only turn on, and
/// nothing else changes. A General signal has no signal effect.
pub fn apply_signal(agent: &mut AgentIdentity, signal: &SignalType)
    ensures
        final(agent).infra_type == merged_infra(old(agent).infra_type, *signal),
        final(agent).infra_type.rank() >= old(agent).infra_type.rank(),
        final(agent).has_economic_stake == (old(agent).has_economic_stake
            || *signal is EconomicStake),
        final(agent).has_hardware_binding == (old(agent).has_hardware_binding
            || *signal is HardwareBinding),
        final(agent).wallet == old(agent).wallet,
        final(agent).attestation_count == old(agent).attestation_count,
        final(agent).is_flagged == old(agent).is_flagged,
        final(agent).trust_score == old(agent).trust_score,
        final(agent).last_verified == old(agent).last_verified,
        final(agent).nonce == old(agent).nonce,
        final(agent).registered_at == old(agent).registered_at,
        final(agent).name == old(agent).name,
{
    match signal {
        SignalType::InfraCloud => {
            if agent.infra_type == InfraType::Unknown {
                agent.infra_type = InfraType::Cloud;
            }
        },
        SignalType::InfraTEE => {
            if agent.infra_type == InfraType::Unknown || agent.infra_type == InfraType::Cloud {
                agent.infra_type = InfraType::TEE;
            }
        },
        SignalType::InfraDePIN => {
            agent.infra_type = InfraType::DePIN;
        },
        SignalType::EconomicStake => {
            agent.has_economic_stake = true;
        },
        SignalType::HardwareBinding => {
            agent.has_hardware_binding = true;
        },
        SignalType::General => {},
    }
}

/// The infrastructure class left by a sequence of submitted signals,
/// merged in order with `merged_infra` (the rule `apply_signal` and the
/// rebuild fold both promise).
pub open spec fn folded_infra(start: InfraType, signals: Seq<SignalType>) -> InfraType
    decreases signals.len(),
{
    if signals.len() == 0 {
        start
    } else {
        merged_infra(folded_infra(start, signals.drop_last()), signals.last())
    }
}

/// The maximum infrastructure ordinal any signal of the sequence
/// contributes.
pub open spec fn max_signal_rank(signals: Seq<SignalType>) -> int
    decreases signals.len(),
{
    if signals.len() == 0 {
        0
    } else {
        let m = max_signal_rank(signals.drop_last());
        let r = signal_infra_rank(signals.last());
        if r > m {
            r
        } else {
            m
        }
    }
}

/// Monotonic infra ordering: for any sequence of submitted signals, the
/// resulting class is the one whose ordinal is the maximum ever
/// contributed (so a DePIN signal forces DePIN regardless of order), and
/// the class never falls below where it started.
pub proof fn lemma_infra_fold_is_max(start: InfraType, signals: Seq<SignalType>)
    ensures
        folded_infra(start, signals) == infra_of_rank(
            if max_signal_rank(signals) > start.rank() {
                max_signal_rank(signals)
            } else {
                start.rank()
            },
        ),
        folded_infra(start, signals).rank() >= start.rank(),
    decreases signals.len(),
{
    if signals.len() > 0 {
        lemma_infra_fold_is_max(start, signals.drop_last());
    }
}

/// Why an `add_authority` call is rejected, or `None` if it succeeds.
pub open spec fn add_authority_rejection(config: ProtocolConfig, admin: Pubkey) -> Option<
    MoltError,
> {
    if config.paused {
        Some(MoltError::ProtocolPaused)
    } else if admin != config.admin {
        Some(MoltError::Unauthorized)
    } else {
        None
    }
}

/// Admin registers a new verification authority, created active with an
/// empty attestation counter.
pub fn add_authority(
    config: &ProtocolConfig,
    admin: Pubkey,
    authority_pubkey: Pubkey,
    authority_type: AuthorityType,
    now: i64,
) -> (r: Result<(Authority, AuthorityAdded), MoltError>)
    ensures
        match add_authority_rejection(*config, admin) {
            Some(e) => r == Err::<(Authority, AuthorityAdded), MoltError>(e),
            None => r is Ok,
        },
        r matches Ok((authority, ev)) ==> {
            &&& authority.pubkey == authority_pubkey
            &&& authority.authority_type == authority_type
            &&& authority.attestation_count == 0
            &&& authority.active
            &&& authority.added_by == admin
            &&& authority.added_at == now
            &&& ev.authority == authority_pubkey
            &&& ev.authority_type == authority_type
        },
{
    if config.paused {
        return Err(MoltError::ProtocolPaused);
    }
    if !pubkey_eq(&admin, &config.admin) {
        return Err(MoltError::Unauthorized);
    }
    let authority = Authority {
        pubkey: authority_pubkey,
        authority_type,
        attestation_count: 0,
        active: true,
        added_by: admin,
        added_at: now,
    };
    let ev = AuthorityAdded { authority: authority_pubkey, authority_type };
    Ok((authority, ev))
}

/// Why a `remove_authority` call is rejected, or `None` if it succeeds.
pub open spec fn remove_authority_rejection(config: ProtocolConfig, admin: Pubkey) -> Option<
    MoltError,
> {
    add_authority_rejection(config, admin)
}

/// Admin deactivates an authority (soft delete: the record stays, so its
/// outstanding attestations remain attributable) and bumps the global
/// epoch: every agent whose cached state predates the new epoch is now
/// stale until rebuilt.
pub fn remove_authority(
    config: &mut ProtocolConfig,
    authority: &mut Authority,
    admin: Pubkey,
) -> (r: Result<AuthorityRemoved, MoltError>)
    requires
        remove_authority_rejection(*old(config), admin) is None ==> old(
            config,
        ).revocation_nonce < u64::MAX,
    ensures
        match remove_authority_rejection(*old(config), admin) {
            Some(e) => r == Err::<AuthorityRemoved, MoltError>(e),
            None => r is Ok,
        },
        r is Err ==> *final(config) == *old(config) && *final(authority) == *old(authority),
        r matches Ok(ev) ==> {
            &&& *final(authority) == (Authority { active: false, ..*old(authority) })
            &&& *final(config) == (ProtocolConfig {
                revocation_nonce: (old(config).revocation_nonce + 1) as u64,
                ..*old(config)
            })
            &&& ev.authority == old(authority).pubkey
        },
{
    if config.paused {
        return Err(MoltError::ProtocolPaused);
    }
    if !pubkey_eq(&admin, &config.admin) {
        return Err(MoltError::Unauthorized);
    }
    authority.active = false;
    config.revocation_nonce = config.revocation_nonce + 1;
    Ok(AuthorityRemoved { authority: authority.pubkey })
}

/// Why a `register_agent` call is rejected, or `None` if it succeeds.
pub open spec fn register_agent_rejection(config: ProtocolConfig, name: Seq<char>) -> Option<
    MoltError,
> {
    if config.paused {
        Some(MoltError::ProtocolPaused)
    } else if name.len() > 32 {
        Some(MoltError::NameTooLong)
    } else {
        None
    }
}

/// Any principal registers itself as an agent, once: a fresh identity with
/// no signals, no flag, score 0, and the current epoch as its staleness
/// token. Uniqueness per principal is the record store's keying.
pub fn register_agent(
    config: &mut ProtocolConfig,
    wallet: Pubkey,
    name: String,
    now: i64,
) -> (r: Result<(AgentIdentity, AgentRegistered), MoltError>)
    requires
        register_agent_rejection(*old(config), name@) is None ==> old(config).total_agents
            < u64::MAX,
    ensures
        match register_agent_rejection(*old(config), name@) {
            Some(e) => r == Err::<(AgentIdentity, AgentRegistered), MoltError>(e),
            None => r is Ok,
        },
        r is Err ==> *final(config) == *old(config),
        r matches Ok((agent, ev)) ==> {
            &&& agent.wallet == wallet
            &&& agent.infra_type == InfraType::Unknown
            &&& !agent.has_economic_stake
            &&& !agent.has_hardware_binding
            &&& agent.attestation_count == 0
            &&& !agent.is_flagged
            &&& agent.trust_score == 0
            &&& agent.last_verified == 0
            &&& agent.nonce == old(config).revocation_nonce
            &&& agent.registered_at == now
            &&& agent.name == name
            &&& *final(config) == (ProtocolConfig {
                total_agents: (old(config).total_agents + 1) as u64,
                ..*old(config)
            })
            &&& ev.wallet == wallet
            &&& ev.name == name
        },
{
    if config.paused {
        return Err(MoltError::ProtocolPaused);
    }
    if name.as_str().unicode_len() > 32 {
        return Err(MoltError::NameTooLong);
    }
    let ev_name = name.clone();
    let agent = AgentIdentity {
        wallet,
        infra_type: InfraType::Unknown,
        has_economic_stake: false,
        has_hardware_binding: false,
        attestation_count: 0,
        is_flagged: false,
        trust_score: 0,
        last_verified: 0,
        nonce: config.revocation_nonce,
        registered_at: now,
        name,
    };
    config.total_agents = config.total_agents + 1;
    let ev = AgentRegistered { wallet, name: ev_name };
    Ok((agent, ev))
}

/// Why a `submit_attestation` call is rejected, or `None` if it succeeds.
pub open spec fn submit_rejection(
    config: ProtocolConfig,
    authority: Authority,
    agent: AgentIdentity,
    expires_at: i64,
    now: i64,
) -> Option<MoltError> {
    if config.paused {
        Some(MoltError::ProtocolPaused)
    } else if !authority.active {
        Some(MoltError::AuthorityNotActive)
    } else if agent.is_flagged {
        Some(MoltError::AgentFlagged)
    } else if expires_at <= now {
        Some(MoltError::AttestationExpired)
    } else {
        None
    }
}

/// An active authority attests a signal for a non-flagged agent: the
/// attestation record is created with an expiry strictly in the future, the
/// signal is merged monotonically into the agent's cached state, and the
/// counters advance. This incremental path does not recompute `trust_score`;
/// only a rebuild does.
pub fn submit_attestation(
    config: &mut ProtocolConfig,
    authority: &mut Authority,
    agent: &mut AgentIdentity,
    signal_type: SignalType,
    attestation_hash: [u8; 32],
    tee_quote: Option<[u8; 32]>,
    expires_at: i64,
    now: i64,
) -> (r: Result<(Attestation, AttestationSubmitted), MoltError>)
    requires
        submit_rejection(*old(config), *old(authority), *old(agent), expires_at, now)
            is None ==> {
            &&& old(agent).attestation_count < u8::MAX
            &&& old(authority).attestation_count < u64::MAX
            &&& old(config).total_attestations < u64::MAX
        },
    ensures
        match submit_rejection(*old(config), *old(authority), *old(agent), expires_at, now) {
            Some(e) => r == Err::<(Attestation, AttestationSubmitted), MoltError>(e),
            None => r is Ok,
        },
        r is Err ==> *final(config) == *old(config) && *final(authority) == *old(authority)
            && *final(agent) == *old(agent),
        r matches Ok((attestation, ev)) ==> {
            &&& attestation.agent == old(agent).wallet
            &&& attestation.authority == old(authority).pubkey
            &&& attestation.authority_type == old(authority).authority_type
            &&& attestation.signal_contributed == signal_type
            &&& attestation.attestation_hash == attestation_hash
            &&& attestation.tee_quote == tee_quote
            &&& attestation.created_at == now
            &&& attestation.expires_at == expires_at
            &&& !attestation.revoked
            &&& *final(agent) == (AgentIdentity {
                infra_type: merged_infra(old(agent).infra_type, signal_type),
                has_economic_stake: old(agent).has_economic_stake
                    || signal_type is EconomicStake,
                has_hardware_binding: old(agent).has_hardware_binding
                    || signal_type is HardwareBinding,
                attestation_count: (old(agent).attestation_count + 1) as u8,
                last_verified: now,
                ..*old(agent)
            })
            &&& *final(authority) == (Authority {
                attestation_count: (old(authority).attestation_count + 1) as u64,
                ..*old(authority)
            })
            &&& *final(config) == (ProtocolConfig {
                total_attestations: (old(config).total_attestations + 1) as u64,
                ..*old(config)
            })
            &&& ev.agent == old(agent).wallet
            &&& ev.authority == old(authority).pubkey
            &&& ev.signal_type == signal_type
        },
{
    if config.paused {
        return Err(MoltError::ProtocolPaused);
    }
    if !authority.active {
        return Err(MoltError::AuthorityNotActive);
    }
    if agent.is_flagged {
        return Err(MoltError::AgentFlagged);
    }
    if expires_at <= now {
        return Err(MoltError::AttestationExpired);
    }
    let attestation = Attestation {
        agent: agent.wallet,
        authority: authority.pubkey,
        authority_type: authority.authority_type,
        signal_contributed: signal_type,
        attestation_hash,
        tee_quote,
        created_at: now,
        expires_at,
        revoked: false,
    };
    apply_signal(agent, &signal_type);
    agent.attestation_count = agent.attestation_count + 1;
    agent.last_verified = now;
    authority.attestation_count = authority.attestation_count + 1;
    config.total_attestations = config.total_attestations + 1;
    let ev = AttestationSubmitted {
        agent: attestation.agent,
        authority: attestation.authority,
        signal_type,
    };
    Ok((attestation, ev))
}

/// Why a `revoke_attestation` call is rejected, or `None` if it succeeds.
pub open spec fn revoke_rejection(
    config: ProtocolConfig,
    attestation: Attestation,
    authority_signer: Pubkey,
) -> Option<MoltError> {
    if config.paused {
        Some(MoltError::ProtocolPaused)
    } else if attestation.authority != authority_signer {
        Some(MoltError::Unauthorized)
    } else {
        None
    }
}

/// The issuing authority revokes its own attestation and bumps the global
/// epoch: cached trust that counted this attestation is now stale.
pub fn revoke_attestation(
    config: &mut ProtocolConfig,
    attestation: &mut Attestation,
    authority_signer: Pubkey,
) -> (r: Result<AttestationRevoked, MoltError>)
    requires
        revoke_rejection(*old(config), *old(attestation), authority_signer) is None ==> old(
            config,
        ).revocation_nonce < u64::MAX,
    ensures
        match revoke_rejection(*old(config), *old(attestation), authority_signer) {
            Some(e) => r == Err::<AttestationRevoked, MoltError>(e),
            None => r is Ok,
        },
        r is Err ==> *final(config) == *old(config) && *final(attestation) == *old(attestation),
        r matches Ok(ev) ==> {
            &&& *final(attestation) == (Attestation { revoked: true, ..*old(attestation) })
            &&& *final(config) == (ProtocolConfig {
                revocation_nonce: (old(config).revocation_nonce + 1) as u64,
                ..*old(config)
            })
            &&& ev.agent == old(attestation).agent
            &&& ev.authority == old(attestation).authority
        },
{
    if config.paused {
        return Err(MoltError::ProtocolPaused);
    }
    if !pubkey_eq(&attestation.authority, &authority_signer) {
        return Err(MoltError::Unauthorized);
    }
    attestation.revoked = true;
    config.revocation_nonce = config.revocation_nonce + 1;
    Ok(AttestationRevoked { agent: attestation.agent, authority: attestation.authority })
}

/// Why a `flag_agent` call is rejected, or `None` if it succeeds.
pub open spec fn flag_rejection(config: ProtocolConfig, authority: Authority) -> Option<
    MoltError,
> {
    if config.paused {
        Some(MoltError::ProtocolPaused)
    } else if !authority.active {
        Some(MoltError::AuthorityNotActive)
    } else {
        None
    }
}

/// Any active authority flags an agent: distrust takes effect immediately,
/// forcing `trust_score` to 0 without waiting for a rebuild.
pub fn flag_agent(
    config: &ProtocolConfig,
    authority: &Authority,
    agent: &mut AgentIdentity,
    reason_hash: [u8; 32],
) -> (r: Result<AgentFlagged, MoltError>)
    ensures
        match flag_rejection(*config, *authority) {
            Some(e) => r == Err::<AgentFlagged, MoltError>(e),
            None => r is Ok,
        },
        r is Err ==> *final(agent) == *old(agent),
        r matches Ok(ev) ==> {
            &&& *final(agent) == (AgentIdentity {
                is_flagged: true,
                trust_score: 0,
                ..*old(agent)
            })
            &&& ev.agent == old(agent).wallet
            &&& ev.authority == authority.pubkey
            &&& ev.reason_hash == reason_hash
        },
{
    if config.paused {
        return Err(MoltError::ProtocolPaused);
    }
    if !authority.active {
        return Err(MoltError::AuthorityNotActive);
    }
    agent.is_flagged = true;
    agent.trust_score = 0;
    Ok(AgentFlagged { agent: agent.wallet, authority: authority.pubkey, reason_hash })
}

/// Why an `unflag_agent` call is rejected, or `None` if it succeeds.
pub open spec fn unflag_rejection(config: ProtocolConfig, admin: Pubkey) -> Option<MoltError> {
    add_authority_rejection(config, admin)
}

/// Admin clears the flag. The score is deliberately not restored: trust
/// must be re-earned through a rebuild, so `trust_score` stays as it was
/// (0 after a flag) until `refresh_identity_signals` recomputes it.
pub fn unflag_agent(config: &ProtocolConfig, agent: &mut AgentIdentity, admin: Pubkey) -> (r:
    Result<AgentUnflagged, MoltError>)
    ensures
        match unflag_rejection(*config, admin) {
            Some(e) => r == Err::<AgentUnflagged, MoltError>(e),
            None => r is Ok,
        },
        r is Err ==> *final(agent) == *old(agent),
        r matches Ok(ev) ==> {
            &&& *final(agent) == (AgentIdentity { is_flagged: false, ..*old(agent) })
            &&& final(agent).trust_score == old(agent).trust_score
            &&& ev.agent == old(agent).wallet
        },
{
    if config.paused {
        return Err(MoltError::ProtocolPaused);
    }
    if !pubkey_eq(&admin, &config.admin) {
        return Err(MoltError::Unauthorized);
    }
    agent.is_flagged = false;
    Ok(AgentUnflagged { agent: agent.wallet })
}

/// Why a `close_attestation` call is rejected, or `None` if it succeeds.
pub open spec fn close_rejection(attestation: Attestation, authority_signer: Pubkey) -> Option<
    MoltError,
> {
    if !attestation.revoked {
        Some(MoltError::AttestationNotRevoked)
    } else if attestation.authority != authority_signer {
        Some(MoltError::Unauthorized)
    } else {
        None
    }
}

/// The issuing authority reclaims a revoked attestation record. The engine
/// only validates the request; deleting the record and refunding its rent
/// is the record store's work.
pub fn close_attestation(attestation: &Attestation, authority_signer: Pubkey) -> (r: Result<
    AttestationRevoked,
    MoltError,
>)
    ensures
        match close_rejection(*attestation, authority_signer) {
            Some(e) => r == Err::<AttestationRevoked, MoltError>(e),
            None => r is Ok,
        },
        r matches Ok(ev) ==> {
            &&& ev.agent == attestation.agent
            &&& ev.authority == attestation.authority
        },
{
    if !attestation.revoked {
        return Err(MoltError::AttestationNotRevoked);
    }
    if !pubkey_eq(&attestation.authority, &authority_signer) {
        return Err(MoltError::Unauthorized);
    }
    Ok(AttestationRevoked { agent: attestation.agent, authority: attestation.authority })
}

/// Admin pauses or unpauses the protocol. Pausing is itself allowed while
/// paused: only the admin check gates this operation.
pub fn set_paused(config: &mut ProtocolConfig, admin: Pubkey, paused: bool) -> (r: Result<
    (),
    MoltError,
>)
    ensures
        admin != old(config).admin ==> r == Err::<(), MoltError>(MoltError::Unauthorized)
            && *final(config) == *old(config),
        admin == old(config).admin ==> r is Ok && *final(config) == (ProtocolConfig {
            paused,
            ..*old(config)
        }),
{
    if !pubkey_eq(&admin, &config.admin) {
        return Err(MoltError::Unauthorized);
    }
    config.paused = paused;
    Ok(())
}

/// Admin hands the admin role to a new principal.
pub fn transfer_admin(config: &mut ProtocolConfig, admin: Pubkey, new_admin: Pubkey) -> (r:
    Result<(), MoltError>)
    ensures
        admin != old(config).admin ==> r == Err::<(), MoltError>(MoltError::Unauthorized)
            && *final(config) == *old(config),
        admin == old(config).admin ==> r is Ok && *final(config) == (ProtocolConfig {
            admin: new_admin,
            ..*old(config)
        }),
{
    if !pubkey_eq(&admin, &config.admin) {
        return Err(MoltError::Unauthorized);
    }
    config.admin = new_admin;
    Ok(())
}

} // verus!
