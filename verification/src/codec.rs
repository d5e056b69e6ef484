//! The byte format of a stored attestation record: an 8-byte type tag
//! followed by fixed-width fields. The rebuild path trusts nothing about a
//! candidate record, so the parser here is total: any buffer that is too
//! short, carries the wrong tag, or fails field layout (an unknown enum
//! tag, a flag byte that is not 0 or 1, a timestamp out of range) parses to
//! nothing. Bytes beyond the record length are ignored.

use vstd::prelude::*;

use vstd::bytes::{
    lemma_auto_spec_u64_to_from_le_bytes, spec_u64_from_le_bytes, spec_u64_to_le_bytes,
    u64_from_le_bytes, u64_to_le_bytes,
};
use vstd::slice::slice_subrange;

use crate::state::{Attestation, AttestationView};
use crate::types::{AuthorityType, SignalType};

verus! {

/// Total size in bytes of a serialized attestation record.
pub const ATTESTATION_RECORD_LEN: usize = 156;

/// The 8-byte type tag that opens every attestation record.
pub open spec fn attestation_tag() -> Seq<u8> {
    seq![0x41u8, 0x54u8, 0x54u8, 0x45u8, 0x53u8, 0x54u8, 0x52u8, 0x43u8]
}

/// Byte tag of an authority type.
pub open spec fn authority_type_tag(t: AuthorityType) -> u8 {
    match t {
        AuthorityType::Single => 0,
        AuthorityType::MultisigMember => 1,
        AuthorityType::OracleOperator => 2,
        AuthorityType::NCNValidator => 3,
    }
}

/// The authority type a byte tag denotes, if any.
pub open spec fn authority_type_of_tag(t: u8) -> Option<AuthorityType> {
    if t == 0 {
        Some(AuthorityType::Single)
    } else if t == 1 {
        Some(AuthorityType::MultisigMember)
    } else if t == 2 {
        Some(AuthorityType::OracleOperator)
    } else if t == 3 {
        Some(AuthorityType::NCNValidator)
    } else {
        None
    }
}

/// Byte tag of a signal type.
pub open spec fn signal_type_tag(s: SignalType) -> u8 {
    match s {
        SignalType::InfraCloud => 0,
        SignalType::InfraTEE => 1,
        SignalType::InfraDePIN => 2,
        SignalType::EconomicStake => 3,
        SignalType::HardwareBinding => 4,
        SignalType::General => 5,
    }
}

/// The signal type a byte tag denotes, if any.
pub open spec fn signal_type_of_tag(t: u8) -> Option<SignalType> {
    if t == 0 {
        Some(SignalType::InfraCloud)
    } else if t == 1 {
        Some(SignalType::InfraTEE)
    } else if t == 2 {
        Some(SignalType::InfraDePIN)
    } else if t == 3 {
        Some(SignalType::EconomicStake)
    } else if t == 4 {
        Some(SignalType::HardwareBinding)
    } else if t == 5 {
        Some(SignalType::General)
    } else {
        None
    }
}

/// A timestamp field holds a non-negative signed 64-bit value as 8
/// little-endian bytes; a stored value above `i64::MAX` fails layout.
pub open spec fn timestamp_of_bytes(s: Seq<u8>) -> Option<i64> {
    let v = spec_u64_from_le_bytes(s);
    if v > i64::MAX {
        None
    } else {
        Some(v as i64)
    }
}

/// 32 zero bytes: the placeholder quote zone of a record without a TEE
/// quote.
pub open spec fn zeros32() -> Seq<u8> {
    Seq::new(32, |i: int| 0u8)
}

/// What a candidate buffer parses to, if anything. Field offsets: agent at
/// 8, authority at 40, the two enum tags at 72 and 73, the attestation hash
/// at 74, the quote presence flag at 106 with the quote zone at 107, the
/// two timestamps at 139 and 147, the revoked flag at 155.
pub open spec fn spec_parse_attestation(data: Seq<u8>) -> Option<AttestationView> {
    if data.len() < ATTESTATION_RECORD_LEN {
        None
    } else if data.subrange(0, 8) != attestation_tag() {
        None
    } else {
        let atype = authority_type_of_tag(data[72]);
        let signal = signal_type_of_tag(data[73]);
        let created = timestamp_of_bytes(data.subrange(139, 147));
        let expires = timestamp_of_bytes(data.subrange(147, 155));
        if atype is None || signal is None || !(data[106] == 0 || data[106] == 1) || created
            is None || expires is None || !(data[155] == 0 || data[155] == 1) {
            None
        } else {
            Some(
                AttestationView {
                    agent: data.subrange(8, 40),
                    authority: data.subrange(40, 72),
                    authority_type: atype->Some_0,
                    signal_contributed: signal->Some_0,
                    attestation_hash: data.subrange(74, 106),
                    tee_quote: if data[106] == 1 {
                        Some(data.subrange(107, 139))
                    } else {
                        None
                    },
                    created_at: created->Some_0,
                    expires_at: expires->Some_0,
                    revoked: data[155] == 1,
                },
            )
        }
    }
}

/// The bytes an attestation serializes to.
pub open spec fn spec_encode_attestation(a: AttestationView) -> Seq<u8> {
    attestation_tag() + a.agent + a.authority + seq![authority_type_tag(a.authority_type)]
        + seq![signal_type_tag(a.signal_contributed)] + a.attestation_hash + (match a.tee_quote {
        Some(q) => seq![1u8] + q,
        None => seq![0u8] + zeros32(),
    }) + spec_u64_to_le_bytes(a.created_at as u64) + spec_u64_to_le_bytes(a.expires_at as u64)
        + seq![if a.revoked { 1u8 } else { 0u8 }]
}

fn authority_type_to_tag(t: &AuthorityType) -> (r: u8)
    ensures
        r == authority_type_tag(*t),
{
    match t {
        AuthorityType::Single => 0,
        AuthorityType::MultisigMember => 1,
        AuthorityType::OracleOperator => 2,
        AuthorityType::NCNValidator => 3,
    }
}

fn authority_type_from_tag(t: u8) -> (r: Option<AuthorityType>)
    ensures
        r == authority_type_of_tag(t),
{
    if t == 0 {
        Some(AuthorityType::Single)
    } else if t == 1 {
        Some(AuthorityType::MultisigMember)
    } else if t == 2 {
        Some(AuthorityType::OracleOperator)
    } else if t == 3 {
        Some(AuthorityType::NCNValidator)
    } else {
        None
    }
}

fn signal_type_to_tag(s: &SignalType) -> (r: u8)
    ensures
        r == signal_type_tag(*s),
{
    match s {
        SignalType::InfraCloud => 0,
        SignalType::InfraTEE => 1,
        SignalType::InfraDePIN => 2,
        SignalType::EconomicStake => 3,
        SignalType::HardwareBinding => 4,
        SignalType::General => 5,
    }
}

fn signal_type_from_tag(t: u8) -> (r: Option<SignalType>)
    ensures
        r == signal_type_of_tag(t),
{
    if t == 0 {
        Some(SignalType::InfraCloud)
    } else if t == 1 {
        Some(SignalType::InfraTEE)
    } else if t == 2 {
        Some(SignalType::InfraDePIN)
    } else if t == 3 {
        Some(SignalType::EconomicStake)
    } else if t == 4 {
        Some(SignalType::HardwareBinding)
    } else if t == 5 {
        Some(SignalType::General)
    } else {
        None
    }
}

fn has_attestation_tag(data: &[u8]) -> (r: bool)
    requires
        data@.len() >= 8,
    ensures
        r <==> data@.subrange(0, 8) == attestation_tag(),
{
    let r = data[0] == 0x41 && data[1] == 0x54 && data[2] == 0x54 && data[3] == 0x45 && data[4]
        == 0x53 && data[5] == 0x54 && data[6] == 0x52 && data[7] == 0x43;
    proof {
        let sub = data@.subrange(0, 8);
        assert(forall|i: int| 0 <= i < 8 ==> sub[i] == data@[i]);
        if r {
            assert(sub =~= attestation_tag());
        }
        if sub == attestation_tag() {
            assert(data@[0] == attestation_tag()[0]);
            assert(data@[1] == attestation_tag()[1]);
            assert(data@[2] == attestation_tag()[2]);
            assert(data@[3] == attestation_tag()[3]);
            assert(data@[4] == attestation_tag()[4]);
            assert(data@[5] == attestation_tag()[5]);
            assert(data@[6] == attestation_tag()[6]);
            assert(data@[7] == attestation_tag()[7]);
        }
    }
    r
}

fn read_bytes32(data: &[u8], off: usize) -> (r: [u8; 32])
    requires
        off + 32 <= data@.len(),
    ensures
        r@ == data@.subrange(off as int, off as int + 32),
{
    let n: usize = data.len();
    let mut out: [u8; 32] = [0u8; 32];
    let mut i: usize = 0;
    while i < 32
        invariant
            i <= 32,
            off + 32 <= n,
            n == data@.len(),
            out@.len() == 32,
            forall|j: int| 0 <= j < i ==> out@[j] == data@[off + j],
        decreases 32 - i,
    {
        out[i] = data[off + i];
        i = i + 1;
    }
    proof {
        assert(out@ =~= data@.subrange(off as int, off as int + 32));
    }
    out
}

fn read_timestamp(data: &[u8], off: usize) -> (r: Option<i64>)
    requires
        off + 8 <= data@.len(),
    ensures
        r == timestamp_of_bytes(data@.subrange(off as int, off as int + 8)),
{
    let n: usize = data.len();
    let s = slice_subrange(data, off, off + 8);
    let v = u64_from_le_bytes(s);
    if v > i64::MAX as u64 {
        None
    } else {
        Some(v as i64)
    }
}

/// Parse one candidate buffer. Returns the record exactly when the spec
/// parse accepts the bytes, and nothing on any malformed buffer.
pub fn parse_attestation(data: &[u8]) -> (r: Option<Attestation>)
    ensures
        r matches Some(a) ==> spec_parse_attestation(data@) == Some(a@),
        r is None ==> spec_parse_attestation(data@) is None,
{
    if data.len() < ATTESTATION_RECORD_LEN {
        return None;
    }
    if !has_attestation_tag(data) {
        return None;
    }
    let atype = match authority_type_from_tag(data[72]) {
        Some(t) => t,
        None => {
            return None;
        },
    };
    let signal = match signal_type_from_tag(data[73]) {
        Some(t) => t,
        None => {
            return None;
        },
    };
    let qflag = data[106];
    if !(qflag == 0 || qflag == 1) {
        return None;
    }
    let created_at = match read_timestamp(data, 139) {
        Some(t) => t,
        None => {
            return None;
        },
    };
    let expires_at = match read_timestamp(data, 147) {
        Some(t) => t,
        None => {
            return None;
        },
    };
    let rflag = data[155];
    if !(rflag == 0 || rflag == 1) {
        return None;
    }
    let agent = read_bytes32(data, 8);
    let authority = read_bytes32(data, 40);
    let attestation_hash = read_bytes32(data, 74);
    let tee_quote = if qflag == 1 {
        Some(read_bytes32(data, 107))
    } else {
        None
    };
    let a = Attestation {
        agent,
        authority,
        authority_type: atype,
        signal_contributed: signal,
        attestation_hash,
        tee_quote,
        created_at,
        expires_at,
        revoked: rflag == 1,
    };
    proof {
        assert(spec_parse_attestation(data@) == Some(a@));
    }
    Some(a)
}

fn push_bytes32(out: &mut Vec<u8>, b: &[u8; 32])
    ensures
        final(out)@ == old(out)@ + b@,
{
    let ghost prefix = out@;
    let mut i: usize = 0;
    while i < 32
        invariant
            i <= 32,
            out@.len() == prefix.len() + i,
            forall|j: int| 0 <= j < prefix.len() ==> out@[j] == prefix[j],
            forall|j: int| 0 <= j < i ==> out@[prefix.len() + j] == b@[j],
        decreases 32 - i,
    {
        out.push(b[i]);
        i = i + 1;
    }
    proof {
        assert(out@ =~= prefix + b@);
    }
}

fn push_zeros32(out: &mut Vec<u8>)
    ensures
        final(out)@ == old(out)@ + zeros32(),
{
    let ghost prefix = out@;
    let mut i: usize = 0;
    while i < 32
        invariant
            i <= 32,
            out@.len() == prefix.len() + i,
            forall|j: int| 0 <= j < prefix.len() ==> out@[j] == prefix[j],
            forall|j: int| prefix.len() <= j < prefix.len() + i ==> out@[j] == 0,
        decreases 32 - i,
    {
        out.push(0);
        i = i + 1;
    }
    proof {
        assert(out@ =~= prefix + zeros32());
    }
}

/// Serialize an attestation into the record format. Timestamps are stored
/// unsigned, so they must be non-negative.
pub fn encode_attestation(a: &Attestation) -> (r: Vec<u8>)
    requires
        a.created_at >= 0,
        a.expires_at >= 0,
    ensures
        r@ == spec_encode_attestation(a@),
        r@.len() == ATTESTATION_RECORD_LEN,
{
    proof {
        lemma_auto_spec_u64_to_from_le_bytes();
    }
    let mut out: Vec<u8> = Vec::new();
    out.push(0x41);
    out.push(0x54);
    out.push(0x54);
    out.push(0x45);
    out.push(0x53);
    out.push(0x54);
    out.push(0x52);
    out.push(0x43);
    proof {
        assert(out@ =~= attestation_tag());
    }
    push_bytes32(&mut out, &a.agent);
    push_bytes32(&mut out, &a.authority);
    out.push(authority_type_to_tag(&a.authority_type));
    out.push(signal_type_to_tag(&a.signal_contributed));
    push_bytes32(&mut out, &a.attestation_hash);
    match &a.tee_quote {
        Some(q) => {
            out.push(1);
            push_bytes32(&mut out, q);
        },
        None => {
            out.push(0);
            push_zeros32(&mut out);
        },
    }
    let mut created = u64_to_le_bytes(a.created_at as u64);
    out.append(&mut created);
    let mut expires = u64_to_le_bytes(a.expires_at as u64);
    out.append(&mut expires);
    if a.revoked {
        out.push(1);
    } else {
        out.push(0);
    }
    proof {
        assert(out@ =~= spec_encode_attestation(a@));
    }
    out
}

/// A serialized attestation parses back to itself: the record format loses
/// nothing an attestation holds.
pub proof fn lemma_attestation_round_trip(a: AttestationView)
    requires
        a.agent.len() == 32,
        a.authority.len() == 32,
        a.attestation_hash.len() == 32,
        a.tee_quote matches Some(q) ==> q.len() == 32,
        0 <= a.created_at,
        0 <= a.expires_at,
    ensures
        spec_encode_attestation(a).len() == ATTESTATION_RECORD_LEN,
        spec_parse_attestation(spec_encode_attestation(a)) == Some(a),
{
    lemma_auto_spec_u64_to_from_le_bytes();
    let e = spec_encode_attestation(a);
    assert(e.subrange(0, 8) =~= attestation_tag());
    assert(e.subrange(8, 40) =~= a.agent);
    assert(e.subrange(40, 72) =~= a.authority);
    assert(e[72] == authority_type_tag(a.authority_type));
    assert(e[73] == signal_type_tag(a.signal_contributed));
    assert(e.subrange(74, 106) =~= a.attestation_hash);
    match a.tee_quote {
        Some(q) => {
            assert(e[106] == 1);
            assert(e.subrange(107, 139) =~= q);
        },
        None => {
            assert(e[106] == 0);
        },
    }
    assert(e.subrange(139, 147) =~= spec_u64_to_le_bytes(a.created_at as u64));
    assert(e.subrange(147, 155) =~= spec_u64_to_le_bytes(a.expires_at as u64));
    assert(e[155] == if a.revoked { 1u8 } else { 0u8 });
    assert(timestamp_of_bytes(e.subrange(139, 147)) == Some(a.created_at));
    assert(timestamp_of_bytes(e.subrange(147, 155)) == Some(a.expires_at));
    assert(spec_parse_attestation(e) == Some(a));
}

} // verus!
