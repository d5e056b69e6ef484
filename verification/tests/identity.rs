use moltlaunch::identity::{
    attest_verification, bind_depin_device, delegate_authority, delegation_permits, flag_sybil,
    is_authorized, register_identity, revoke_delegation, rotate_identity, update_trust_level,
};
use moltlaunch::state::Authority;
use moltlaunch::types::{AuthorityType, DelegationScope, MoltError};

fn key(n: u8) -> [u8; 32] {
    let mut k = [0u8; 32];
    k[0] = n;
    k
}

fn active_authority(n: u8) -> Authority {
    Authority {
        pubkey: key(n),
        authority_type: AuthorityType::OracleOperator,
        attestation_count: 0,
        active: true,
        added_by: key(1),
        added_at: 1_000,
    }
}

#[test]
fn register_identity_starts_clean() {
    let p = register_identity(key(9), key(10), 1_000, 50_000);
    assert_eq!(p.owner, key(9));
    assert_eq!(p.identity_hash, key(10));
    assert_eq!(p.previous_identity_hash, None);
    assert_eq!(p.trust_level, 0);
    assert_eq!(p.score, 0);
    assert!(!p.sybil_flagged);
    assert_eq!(p.registered_at, 1_000);
    assert_eq!(p.expires_at, 50_000);
    assert!(p.delegation.is_none());
}

#[test]
fn scenario_rotation_clamps_tier_and_archives_hash() {
    let authority = active_authority(2);
    let mut p = register_identity(key(9), key(10), 1_000, 50_000);
    update_trust_level(&authority, &mut p, 4).expect("authority raises tier");
    attest_verification(&authority, &mut p, 88, key(20), key(21), 1_100)
        .expect("authority attests");
    assert_eq!(p.trust_level, 4);
    assert_eq!(p.score, 88);

    rotate_identity(&mut p, key(9), key(11), 1_200).expect("owner rotates");
    assert_eq!(p.identity_hash, key(11));
    assert_eq!(p.previous_identity_hash, Some(key(10)));
    // Hardware re-binding forfeits elevated trust: the tier clamps to 2.
    assert_eq!(p.trust_level, 2);
    // The externally attested score is hardware-independent and survives.
    assert_eq!(p.score, 88);
    // Evidence is stale with respect to the new hardware.
    assert_eq!(p.last_evidence, None);
    assert_eq!(p.rotated_at, 1_200);
}

#[test]
fn rotation_below_clamp_keeps_tier() {
    let authority = active_authority(2);
    let mut p = register_identity(key(9), key(10), 1_000, 50_000);
    update_trust_level(&authority, &mut p, 1).expect("authority sets tier");
    rotate_identity(&mut p, key(9), key(11), 1_200).expect("owner rotates");
    assert_eq!(p.trust_level, 1);
}

#[test]
fn rotate_requires_owner_or_full_delegate() {
    let mut p = register_identity(key(9), key(10), 1_000, 50_000);
    let r = rotate_identity(&mut p, key(3), key(11), 1_200);
    assert_eq!(r.unwrap_err(), MoltError::Unauthorized);
    assert_eq!(p.identity_hash, key(10));
}

#[test]
fn attest_verification_bounds_score() {
    let authority = active_authority(2);
    let mut p = register_identity(key(9), key(10), 1_000, 50_000);
    let r = attest_verification(&authority, &mut p, 101, key(20), key(21), 1_100);
    assert_eq!(r.unwrap_err(), MoltError::InvalidScore);
    assert_eq!(p.score, 0);

    let mut inactive = active_authority(2);
    inactive.active = false;
    let r = attest_verification(&inactive, &mut p, 50, key(20), key(21), 1_100);
    assert_eq!(r.unwrap_err(), MoltError::AuthorityNotActive);

    attest_verification(&authority, &mut p, 100, key(20), key(21), 1_100).expect("at the bound");
    assert_eq!(p.score, 100);
    assert_eq!(p.last_attestation, Some(key(20)));
    assert_eq!(p.last_evidence, Some(key(21)));
    assert_eq!(p.attested_at, 1_100);
}

#[test]
fn update_trust_level_bounds_tier() {
    let authority = active_authority(2);
    let mut p = register_identity(key(9), key(10), 1_000, 50_000);
    let r = update_trust_level(&authority, &mut p, 6);
    assert_eq!(r.unwrap_err(), MoltError::InvalidTrustLevel);
    update_trust_level(&authority, &mut p, 5).expect("at the bound");
    assert_eq!(p.trust_level, 5);
}

#[test]
fn flag_sybil_zeroes_tier_and_records_match() {
    let authority = active_authority(2);
    let mut p = register_identity(key(9), key(10), 1_000, 50_000);
    update_trust_level(&authority, &mut p, 5).expect("authority raises tier");
    attest_verification(&authority, &mut p, 60, key(20), key(21), 1_100)
        .expect("authority attests");

    flag_sybil(&authority, &mut p, key(30), key(31)).expect("authority flags sybil");
    assert!(p.sybil_flagged);
    assert_eq!(p.sybil_match, Some(key(30)));
    assert_eq!(p.sybil_reason, Some(key(31)));
    assert_eq!(p.trust_level, 0);
    // The sybil axis leaves the attested score alone.
    assert_eq!(p.score, 60);
}

#[test]
fn delegation_grants_scope_until_expiry() {
    let mut p = register_identity(key(9), key(10), 1_000, 50_000);

    // Only the owner can delegate, and only with a future expiry.
    let r = delegate_authority(&mut p, key(3), key(4), DelegationScope::AttestOnly, 2_000, 1_000);
    assert_eq!(r.unwrap_err(), MoltError::Unauthorized);
    let r = delegate_authority(&mut p, key(9), key(4), DelegationScope::AttestOnly, 1_000, 1_000);
    assert_eq!(r.unwrap_err(), MoltError::DelegationExpired);

    delegate_authority(&mut p, key(9), key(4), DelegationScope::AttestOnly, 2_000, 1_000)
        .expect("owner delegates");
    // The exact scope is granted, others are not.
    assert!(delegation_permits(&p, &key(4), &DelegationScope::AttestOnly, 1_500));
    assert!(!delegation_permits(&p, &key(4), &DelegationScope::Full, 1_500));
    assert!(!delegation_permits(&p, &key(4), &DelegationScope::ReadOnly, 1_500));
    // Another principal gets nothing.
    assert!(!delegation_permits(&p, &key(5), &DelegationScope::AttestOnly, 1_500));
    // The grant dies at its expiry.
    assert!(!delegation_permits(&p, &key(4), &DelegationScope::AttestOnly, 2_000));

    // A Full grant covers every scope.
    delegate_authority(&mut p, key(9), key(4), DelegationScope::Full, 2_000, 1_000)
        .expect("owner re-delegates");
    assert!(delegation_permits(&p, &key(4), &DelegationScope::SignTransactions, 1_500));
    assert!(is_authorized(&p, &key(4), &DelegationScope::ReadOnly, 1_500));

    // A Full delegate may run owner-gated operations such as rotation.
    rotate_identity(&mut p, key(4), key(11), 1_500).expect("delegate rotates");
    assert_eq!(p.identity_hash, key(11));

    // Revocation clears the triple at any time.
    let r = revoke_delegation(&mut p, key(4));
    assert_eq!(r.unwrap_err(), MoltError::Unauthorized);
    revoke_delegation(&mut p, key(9)).expect("owner revokes");
    assert!(p.delegation.is_none());
    assert!(!delegation_permits(&p, &key(4), &DelegationScope::AttestOnly, 1_500));
}

#[test]
fn bind_depin_device_records_binding() {
    let mut p = register_identity(key(9), key(10), 1_000, 50_000);
    let r = bind_depin_device(&mut p, key(3), key(40), key(41), 1_100);
    assert_eq!(r.unwrap_err(), MoltError::Unauthorized);
    bind_depin_device(&mut p, key(9), key(40), key(41), 1_100).expect("owner binds");
    assert_eq!(p.depin_device, Some(key(40)));
    assert_eq!(p.depin_provider, Some(key(41)));
}
