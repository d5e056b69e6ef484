use moltlaunch::codec::encode_attestation;
use moltlaunch::engine::{initialize, register_agent, submit_attestation};
use moltlaunch::rebuild::{refresh_identity_signals, CandidateRecord};
use moltlaunch::state::{AgentIdentity, Attestation, Authority, ProtocolConfig};
use moltlaunch::types::{AuthorityType, InfraType, SignalType};

fn key(n: u8) -> [u8; 32] {
    let mut k = [0u8; 32];
    k[0] = n;
    k
}

const PROGRAM: u8 = 42;

fn attestation(agent: u8, authority: u8, signal: SignalType) -> Attestation {
    Attestation {
        agent: key(agent),
        authority: key(authority),
        authority_type: AuthorityType::Single,
        signal_contributed: signal,
        attestation_hash: key(200),
        tee_quote: None,
        created_at: 1_500,
        expires_at: 10_000,
        revoked: false,
    }
}

fn candidate(a: &Attestation) -> CandidateRecord {
    CandidateRecord { owner: key(PROGRAM), data: encode_attestation(a) }
}

fn setup(wallet: u8) -> (ProtocolConfig, AgentIdentity) {
    let mut config = initialize(key(1));
    let (agent, _) = register_agent(&mut config, key(wallet), "worker".to_owned(), 1_000)
        .expect("agent should register");
    (config, agent)
}

#[test]
fn rebuild_of_empty_candidate_list_resets_everything() {
    let (config, mut agent) = setup(9);
    agent.infra_type = InfraType::DePIN;
    agent.has_economic_stake = true;
    agent.attestation_count = 3;
    agent.trust_score = 100;
    agent.last_verified = 1_234;
    let ev = refresh_identity_signals(&config, &mut agent, &Vec::new(), key(PROGRAM), 2_000);
    assert_eq!(agent.infra_type, InfraType::Unknown);
    assert!(!agent.has_economic_stake);
    assert!(!agent.has_hardware_binding);
    assert_eq!(agent.attestation_count, 0);
    assert_eq!(agent.last_verified, 0);
    assert_eq!(agent.trust_score, 0);
    assert_eq!(ev.old_score, 100);
    assert_eq!(ev.new_score, 0);
}

#[test]
fn scenario_tee_plus_stake_scores_seventy() {
    let (config, mut agent) = setup(9);
    let tee = attestation(9, 2, SignalType::InfraTEE);
    let stake = attestation(9, 2, SignalType::EconomicStake);
    let candidates = vec![candidate(&tee), candidate(&stake)];
    refresh_identity_signals(&config, &mut agent, &candidates, key(PROGRAM), 2_000);
    assert_eq!(agent.infra_type, InfraType::TEE);
    assert!(agent.has_economic_stake);
    assert_eq!(agent.attestation_count, 2);
    assert_eq!(agent.trust_score, 20 + 25 + 25);
    assert_eq!(agent.last_verified, 1_500);
    assert_eq!(agent.nonce, config.revocation_nonce);
}

#[test]
fn scenario_revoked_stake_drops_to_forty_five() {
    let (config, mut agent) = setup(9);
    let tee = attestation(9, 2, SignalType::InfraTEE);
    let mut stake = attestation(9, 2, SignalType::EconomicStake);
    stake.revoked = true;
    let candidates = vec![candidate(&tee), candidate(&stake)];
    refresh_identity_signals(&config, &mut agent, &candidates, key(PROGRAM), 2_000);
    assert_eq!(agent.attestation_count, 1);
    assert!(!agent.has_economic_stake);
    assert_eq!(agent.trust_score, 20 + 25);
}

#[test]
fn scenario_flag_zeroes_and_only_rebuild_restores() {
    let (config, mut agent) = setup(9);
    let tee = attestation(9, 2, SignalType::InfraTEE);
    let stake = attestation(9, 2, SignalType::EconomicStake);
    let candidates = vec![candidate(&tee), candidate(&stake)];
    refresh_identity_signals(&config, &mut agent, &candidates, key(PROGRAM), 2_000);
    assert_eq!(agent.trust_score, 70);

    // An active authority flags: immediate zero.
    let authority = Authority {
        pubkey: key(2),
        authority_type: AuthorityType::Single,
        attestation_count: 0,
        active: true,
        added_by: key(1),
        added_at: 1_000,
    };
    moltlaunch::engine::flag_agent(&config, &authority, &mut agent, key(5))
        .expect("authority flags");
    assert_eq!(agent.trust_score, 0);

    // A rebuild while flagged still yields 0: the override re-applies.
    refresh_identity_signals(&config, &mut agent, &candidates, key(PROGRAM), 2_000);
    assert_eq!(agent.trust_score, 0);

    // Unflag alone does not restore the score.
    moltlaunch::engine::unflag_agent(&config, &mut agent, key(1)).expect("admin unflags");
    assert_eq!(agent.trust_score, 0);

    // The next rebuild restores 70, the attestations still being valid.
    refresh_identity_signals(&config, &mut agent, &candidates, key(PROGRAM), 2_000);
    assert_eq!(agent.trust_score, 70);
}

#[test]
fn rebuild_is_idempotent_and_order_independent() {
    let (config, mut agent) = setup(9);
    let a = attestation(9, 2, SignalType::InfraDePIN);
    let b = attestation(9, 3, SignalType::HardwareBinding);
    let c = attestation(9, 4, SignalType::General);
    let forward = vec![candidate(&a), candidate(&b), candidate(&c)];
    let shuffled = vec![candidate(&c), candidate(&a), candidate(&b)];

    refresh_identity_signals(&config, &mut agent, &forward, key(PROGRAM), 2_000);
    let first = (
        agent.infra_type,
        agent.has_economic_stake,
        agent.has_hardware_binding,
        agent.attestation_count,
        agent.last_verified,
        agent.trust_score,
        agent.nonce,
    );
    assert_eq!(agent.trust_score, 20 + 35 + 20);

    // Running the rebuild again with the same candidates changes nothing.
    refresh_identity_signals(&config, &mut agent, &forward, key(PROGRAM), 2_000);
    let second = (
        agent.infra_type,
        agent.has_economic_stake,
        agent.has_hardware_binding,
        agent.attestation_count,
        agent.last_verified,
        agent.trust_score,
        agent.nonce,
    );
    assert_eq!(first, second);

    // Shuffling the candidate list never changes the result.
    refresh_identity_signals(&config, &mut agent, &shuffled, key(PROGRAM), 2_000);
    let third = (
        agent.infra_type,
        agent.has_economic_stake,
        agent.has_hardware_binding,
        agent.attestation_count,
        agent.last_verified,
        agent.trust_score,
        agent.nonce,
    );
    assert_eq!(first, third);
}

#[test]
fn rebuild_skips_polluted_candidates() {
    let (config, mut agent) = setup(9);
    let valid_tee = attestation(9, 2, SignalType::InfraTEE);
    let valid_stake = attestation(9, 3, SignalType::EconomicStake);

    // Records that must all be skipped.
    let other_agent = attestation(8, 2, SignalType::InfraDePIN);
    let mut revoked = attestation(9, 4, SignalType::HardwareBinding);
    revoked.revoked = true;
    let mut expired = attestation(9, 5, SignalType::InfraDePIN);
    expired.expires_at = 1_999;
    let mut foreign = candidate(&attestation(9, 6, SignalType::InfraDePIN));
    foreign.owner = key(7);
    let short = CandidateRecord { owner: key(PROGRAM), data: vec![0u8; 10] };
    let mut wrong_tag = candidate(&attestation(9, 6, SignalType::InfraDePIN));
    wrong_tag.data[0] = 0xff;
    let mut bad_signal = candidate(&attestation(9, 6, SignalType::InfraDePIN));
    bad_signal.data[73] = 99;
    let mut bad_flag = candidate(&attestation(9, 6, SignalType::InfraDePIN));
    bad_flag.data[155] = 2;
    let mut bad_timestamp = candidate(&attestation(9, 6, SignalType::InfraDePIN));
    bad_timestamp.data[146] = 0x80;

    let polluted = vec![
        candidate(&valid_tee),
        candidate(&other_agent),
        candidate(&revoked),
        foreign,
        short,
        wrong_tag,
        candidate(&valid_stake),
        bad_signal,
        bad_flag,
        bad_timestamp,
        candidate(&expired),
    ];
    refresh_identity_signals(&config, &mut agent, &polluted, key(PROGRAM), 2_000);
    let polluted_result = (
        agent.infra_type,
        agent.has_economic_stake,
        agent.has_hardware_binding,
        agent.attestation_count,
        agent.last_verified,
        agent.trust_score,
    );

    // The valid subset alone yields the same state.
    let clean = vec![candidate(&valid_tee), candidate(&valid_stake)];
    refresh_identity_signals(&config, &mut agent, &clean, key(PROGRAM), 2_000);
    let clean_result = (
        agent.infra_type,
        agent.has_economic_stake,
        agent.has_hardware_binding,
        agent.attestation_count,
        agent.last_verified,
        agent.trust_score,
    );
    assert_eq!(polluted_result, clean_result);
    assert_eq!(agent.attestation_count, 2);
    assert_eq!(agent.trust_score, 70);
}

#[test]
fn rebuild_keeps_unexpired_and_unset_expiry() {
    let (config, mut agent) = setup(9);
    // expires_at == 0 means no expiry is set: the record survives.
    let mut open_ended = attestation(9, 2, SignalType::InfraCloud);
    open_ended.expires_at = 0;
    // An expiry exactly at `now` is not yet past.
    let mut edge = attestation(9, 3, SignalType::EconomicStake);
    edge.expires_at = 2_000;
    let candidates = vec![candidate(&open_ended), candidate(&edge)];
    refresh_identity_signals(&config, &mut agent, &candidates, key(PROGRAM), 2_000);
    assert_eq!(agent.attestation_count, 2);
    assert_eq!(agent.infra_type, InfraType::Cloud);
    assert!(agent.has_economic_stake);
}

#[test]
fn rebuild_stamps_current_epoch() {
    let (mut config, mut agent) = setup(9);
    config.revocation_nonce = 7;
    refresh_identity_signals(&config, &mut agent, &Vec::new(), key(PROGRAM), 2_000);
    assert_eq!(agent.nonce, 7);
}

#[test]
fn submit_then_rebuild_agree_on_signal_state() {
    // The incremental path and the rebuild fold the same merge rules.
    let mut config = initialize(key(1));
    let mut authority = Authority {
        pubkey: key(2),
        authority_type: AuthorityType::Single,
        attestation_count: 0,
        active: true,
        added_by: key(1),
        added_at: 1_000,
    };
    let (mut agent, _) = register_agent(&mut config, key(9), "worker".to_owned(), 1_000)
        .expect("agent should register");
    let (first, _) = submit_attestation(
        &mut config,
        &mut authority,
        &mut agent,
        SignalType::InfraTEE,
        key(201),
        None,
        10_000,
        1_500,
    )
    .expect("first submit");
    let (second, _) = submit_attestation(
        &mut config,
        &mut authority,
        &mut agent,
        SignalType::EconomicStake,
        key(202),
        None,
        10_000,
        1_600,
    )
    .expect("second submit");
    let incremental = (agent.infra_type, agent.has_economic_stake, agent.attestation_count);

    let candidates = vec![candidate(&first), candidate(&second)];
    refresh_identity_signals(&config, &mut agent, &candidates, key(PROGRAM), 2_000);
    assert_eq!(
        incremental,
        (agent.infra_type, agent.has_economic_stake, agent.attestation_count)
    );
    assert_eq!(agent.trust_score, 70);
}
