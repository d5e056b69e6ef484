//! Core vocabulary: identifiers, the signal and infrastructure enums, the
//! monotonic merge rule and the trust-score formula, and the error taxonomy.

use vstd::prelude::*;

verus! {

/// 32-byte identifier: principals (wallets, authorities, the program's
/// storage namespace) and opaque hashes are all carried in this form.
pub type Pubkey = [u8; 32];

/// Byte-for-byte equality of two 32-byte identifiers.
pub fn pubkey_eq(a: &Pubkey, b: &Pubkey) -> (r: bool)
    ensures
        r <==> (a@ == b@),
        r <==> (*a == *b),
{
    let mut i: usize = 0;
    while i < 32
        invariant
            i <= 32,
            forall|j: int| 0 <= j < i ==> a@[j] == b@[j],
        decreases 32 - i,
    {
        if a[i] != b[i] {
            return false;
        }
        i = i + 1;
    }
    proof {
        assert(a@ =~= b@);
        assert(*a =~= *b);
    }
    true
}

/// Kind of a registered verification authority.
#[derive(Clone, Copy, PartialEq, Eq, Structural, Debug)]
pub enum AuthorityType {
    Single,
    MultisigMember,
    OracleOperator,
    NCNValidator,
}

/// Infrastructure class of an agent, totally ordered:
/// Unknown < Cloud < TEE < DePIN.
#[derive(Clone, Copy, PartialEq, Eq, Structural, Debug)]
pub enum InfraType {
    Unknown,
    Cloud,
    TEE,
    DePIN,
}

/// Signal contributed by one attestation.
#[derive(Clone, Copy, PartialEq, Eq, Structural, Debug)]
pub enum SignalType {
    InfraCloud,
    InfraTEE,
    InfraDePIN,
    EconomicStake,
    HardwareBinding,
    General,
}

/// Capability scope of a delegation grant on the extended identity.
#[derive(Clone, Copy, PartialEq, Eq, Structural, Debug)]
pub enum DelegationScope {
    Full,
    AttestOnly,
    ReadOnly,
    SignTransactions,
}

/// Why an operation was rejected. Authorization and precondition failures
/// abort the operation with no state change.
#[derive(Clone, Copy, PartialEq, Eq, Structural, Debug)]
pub enum MoltError {
    Unauthorized,
    AgentAlreadyRegistered,
    AgentNotFound,
    AuthorityNotActive,
    AttestationAlreadyExists,
    AttestationExpired,
    AgentFlagged,
    ProtocolPaused,
    NameTooLong,
    InvalidSignalType,
    AttestationNotRevoked,
    InvalidTrustLevel,
    InvalidScore,
    DelegationExpired,
}

impl InfraType {
    /// Ordinal in the total order Unknown < Cloud < TEE < DePIN.
    pub open spec fn rank(self) -> int {
        match self {
            InfraType::Unknown => 0,
            InfraType::Cloud => 1,
            InfraType::TEE => 2,
            InfraType::DePIN => 3,
        }
    }

    /// Score contribution of the infrastructure class.
    pub open spec fn bonus(self) -> int {
        match self {
            InfraType::Unknown => 0,
            InfraType::Cloud => 10,
            InfraType::TEE => 25,
            InfraType::DePIN => 35,
        }
    }
}

/// The infrastructure class whose ordinal is `r` (clamped into 0..=3).
pub open spec fn infra_of_rank(r: int) -> InfraType {
    if r >= 3 {
        InfraType::DePIN
    } else if r == 2 {
        InfraType::TEE
    } else if r == 1 {
        InfraType::Cloud
    } else {
        InfraType::Unknown
    }
}

/// The infrastructure tier a signal contributes; 0 for non-infra signals.
pub open spec fn signal_infra_rank(s: SignalType) -> int {
    match s {
        SignalType::InfraCloud => 1,
        SignalType::InfraTEE => 2,
        SignalType::InfraDePIN => 3,
        SignalType::EconomicStake => 0,
        SignalType::HardwareBinding => 0,
        SignalType::General => 0,
    }
}

/// Monotonic merge of one signal into the current infrastructure class: the
/// class only ever advances, to the maximum of the current ordinal and the
/// ordinal the signal contributes. DePIN (the top of the order) therefore
/// wins unconditionally.
pub open spec fn merged_infra(cur: InfraType, s: SignalType) -> InfraType {
    if signal_infra_rank(s) > cur.rank() {
        infra_of_rank(signal_infra_rank(s))
    } else {
        cur
    }
}

/// Points accumulated by the signal state before the flag override:
/// 20 for having any attestation, the infrastructure bonus, 25 for economic
/// stake, 20 for hardware binding. The maximum attainable is 100.
pub open spec fn score_points(
    attestation_count: u8,
    infra: InfraType,
    has_economic_stake: bool,
    has_hardware_binding: bool,
) -> int {
    (if attestation_count >= 1 {
        20int
    } else {
        0int
    }) + infra.bonus() + (if has_economic_stake {
        25int
    } else {
        0int
    }) + (if has_hardware_binding {
        20int
    } else {
        0int
    })
}

/// The derived trust score: the accumulated points, forced to 0 when the
/// agent is flagged.
pub open spec fn trust_score_of(
    attestation_count: u8,
    infra: InfraType,
    has_economic_stake: bool,
    has_hardware_binding: bool,
    is_flagged: bool,
) -> u8 {
    if is_flagged {
        0
    } else {
        score_points(attestation_count, infra, has_economic_stake, has_hardware_binding) as u8
    }
}

/// The score formula stays within the documented range for every
/// combination of flag, infrastructure class and counters.
pub proof fn lemma_trust_score_bounded(
    attestation_count: u8,
    infra: InfraType,
    has_economic_stake: bool,
    has_hardware_binding: bool,
    is_flagged: bool,
)
    ensures
        0 <= trust_score_of(
            attestation_count,
            infra,
            has_economic_stake,
            has_hardware_binding,
            is_flagged,
        ) <= 100,
{
}

/// A flagged agent scores 0 whatever its accumulated signal strength.
pub proof fn lemma_flag_forces_zero(
    attestation_count: u8,
    infra: InfraType,
    has_economic_stake: bool,
    has_hardware_binding: bool,
)
    ensures
        trust_score_of(attestation_count, infra, has_economic_stake, has_hardware_binding, true)
            == 0,
{
}

} // verus!
