//! The permissionless full rebuild: reset an agent's cached signal state,
//! defensively filter a caller-supplied candidate list, fold the survivors
//! with the same monotonic merge rules as the submit path, recompute the
//! trust score from first principles and stamp the current epoch.
//!
//! The engine trusts nothing about the candidate list: records owned by a
//! foreign namespace, buffers that fail the size, tag or layout checks,
//! records for a different agent, revoked records and expired records are
//! skipped one by one, never failing the call. Rebuilding needs no
//! authorization: it can only make the cached state more correct relative
//! to the currently valid candidates it is shown.

use vstd::prelude::*;

use crate::codec::{parse_attestation, spec_parse_attestation, ATTESTATION_RECORD_LEN};
use crate::engine::{apply_signal, derive_trust_score};
use crate::events::TrustScoreRefreshed;
use crate::state::{AgentIdentity, AttestationView, ProtocolConfig, SignalState};
use crate::types::{merged_infra, pubkey_eq, trust_score_of, InfraType, Pubkey};

verus! {

/// One caller-supplied candidate: a raw record as read from storage,
/// together with the storage namespace that owns it.
pub struct CandidateRecord {
    pub owner: Pubkey,
    pub data: Vec<u8>,
}

/// Mathematical view of a candidate: owner and record bytes as sequences.
pub struct CandidateView {
    pub owner: Seq<u8>,
    pub data: Seq<u8>,
}

impl View for CandidateRecord {
    type V = CandidateView;

    open spec fn view(&self) -> CandidateView {
        CandidateView { owner: self.owner@, data: self.data@ }
    }
}

/// The views of a candidate list.
pub open spec fn candidate_views(cs: Seq<CandidateRecord>) -> Seq<CandidateView> {
    cs.map_values(|c: CandidateRecord| c@)
}

/// The attestation a candidate contributes to a rebuild of `wallet` under
/// namespace `pid` at time `now`, if it survives the defensive filter:
/// owned by the namespace, parses as an attestation record, issued for
/// this agent, not revoked, and not expired (`expires_at > 0` means the
/// expiry is set).
pub open spec fn surviving_attestation(
    c: CandidateView,
    pid: Seq<u8>,
    wallet: Seq<u8>,
    now: i64,
) -> Option<AttestationView> {
    if c.owner != pid {
        None
    } else {
        match spec_parse_attestation(c.data) {
            None => None,
            Some(at) => {
                if at.agent != wallet {
                    None
                } else if at.revoked {
                    None
                } else if at.expires_at > 0 && at.expires_at < now {
                    None
                } else {
                    Some(at)
                }
            },
        }
    }
}

/// Effect of one candidate on the signal state: a surviving candidate
/// merges its signal monotonically, advances the counter (saturating) and
/// raises `last_verified` to its creation time; any other candidate leaves
/// the state unchanged.
pub open spec fn rebuild_step(
    st: SignalState,
    c: CandidateView,
    pid: Seq<u8>,
    wallet: Seq<u8>,
    now: i64,
) -> SignalState {
    match surviving_attestation(c, pid, wallet, now) {
        None => st,
        Some(at) => SignalState {
            infra_type: merged_infra(st.infra_type, at.signal_contributed),
            has_economic_stake: st.has_economic_stake || at.signal_contributed
                is EconomicStake,
            has_hardware_binding: st.has_hardware_binding || at.signal_contributed
                is HardwareBinding,
            attestation_count: if st.attestation_count < 255 {
                (st.attestation_count + 1) as u8
            } else {
                255u8
            },
            last_verified: if at.created_at > st.last_verified {
                at.created_at
            } else {
                st.last_verified
            },
        },
    }
}

/// The signal state after folding a candidate list, in list order.
pub open spec fn folded_signals(
    st: SignalState,
    cs: Seq<CandidateView>,
    pid: Seq<u8>,
    wallet: Seq<u8>,
    now: i64,
) -> SignalState
    decreases cs.len(),
{
    if cs.len() == 0 {
        st
    } else {
        rebuild_step(
            folded_signals(st, cs.drop_last(), pid, wallet, now),
            cs.last(),
            pid,
            wallet,
            now,
        )
    }
}

/// The agent a rebuild leaves behind: the signal fields replaced by the
/// fold of the candidate list from a fresh reset, the trust score derived
/// from scratch (still 0 when flagged), and the epoch stamped as the new
/// staleness token. Everything else is untouched.
pub open spec fn refreshed_agent(
    agent: AgentIdentity,
    epoch: u64,
    cs: Seq<CandidateView>,
    pid: Seq<u8>,
    now: i64,
) -> AgentIdentity {
    let st = folded_signals(SignalState::reset(), cs, pid, agent.wallet@, now);
    AgentIdentity {
        infra_type: st.infra_type,
        has_economic_stake: st.has_economic_stake,
        has_hardware_binding: st.has_hardware_binding,
        attestation_count: st.attestation_count,
        last_verified: st.last_verified,
        trust_score: trust_score_of(
            st.attestation_count,
            st.infra_type,
            st.has_economic_stake,
            st.has_hardware_binding,
            agent.is_flagged,
        ),
        nonce: epoch,
        ..agent
    }
}

/// Permissionless full rebuild of an agent's cached signal state and trust
/// score from a caller-supplied candidate list. Malformed or foreign
/// candidates are skipped, never escalated to a call failure.
pub fn refresh_identity_signals(
    config: &ProtocolConfig,
    agent: &mut AgentIdentity,
    candidates: &Vec<CandidateRecord>,
    program_id: Pubkey,
    now: i64,
) -> (ev: TrustScoreRefreshed)
    ensures
        *final(agent) == refreshed_agent(
            *old(agent),
            config.revocation_nonce,
            candidate_views(candidates@),
            program_id@,
            now,
        ),
        ev.agent == old(agent).wallet,
        ev.old_score == old(agent).trust_score,
        ev.new_score == final(agent).trust_score,
{
    let ghost at_entry = *agent;
    let old_score = agent.trust_score;
    agent.infra_type = InfraType::Unknown;
    agent.has_economic_stake = false;
    agent.has_hardware_binding = false;
    agent.attestation_count = 0;
    agent.last_verified = 0;
    let n = candidates.len();
    let mut i: usize = 0;
    while i < n
        invariant
            i <= n,
            n == candidates@.len(),
            agent.wallet == at_entry.wallet,
            agent.is_flagged == at_entry.is_flagged,
            agent.trust_score == at_entry.trust_score,
            agent.nonce == at_entry.nonce,
            agent.registered_at == at_entry.registered_at,
            agent.name == at_entry.name,
            SignalState::of_agent(*agent) == folded_signals(
                SignalState::reset(),
                candidate_views(candidates@).take(i as int),
                program_id@,
                at_entry.wallet@,
                now,
            ),
        decreases n - i,
    {
        let c = &candidates[i];
        let ghost before = SignalState::of_agent(*agent);
        if pubkey_eq(&c.owner, &program_id) {
            if c.data.len() >= ATTESTATION_RECORD_LEN {
                match parse_attestation(c.data.as_slice()) {
                    Some(at) => {
                        if pubkey_eq(&at.agent, &agent.wallet) {
                            if !at.revoked {
                                if !(at.expires_at > 0 && at.expires_at < now) {
                                    apply_signal(agent, &at.signal_contributed);
                                    if agent.attestation_count < 255 {
                                        agent.attestation_count = agent.attestation_count + 1;
                                    }
                                    if at.created_at > agent.last_verified {
                                        agent.last_verified = at.created_at;
                                    }
                                }
                            }
                        }
                    },
                    None => {},
                }
            }
        }
        proof {
            let views = candidate_views(candidates@);
            assert(views[i as int] == candidates@[i as int]@);
            assert(views.take(i as int + 1).drop_last() =~= views.take(i as int));
            assert(views.take(i as int + 1).last() == views[i as int]);
            assert(SignalState::of_agent(*agent) == rebuild_step(
                before,
                views[i as int],
                program_id@,
                at_entry.wallet@,
                now,
            ));
        }
        i = i + 1;
    }
    let score = derive_trust_score(
        agent.attestation_count,
        agent.infra_type,
        agent.has_economic_stake,
        agent.has_hardware_binding,
        agent.is_flagged,
    );
    agent.trust_score = score;
    agent.nonce = config.revocation_nonce;
    proof {
        assert(candidate_views(candidates@).take(n as int) =~= candidate_views(candidates@));
        assert(*agent == refreshed_agent(
            at_entry,
            config.revocation_nonce,
            candidate_views(candidates@),
            program_id@,
            now,
        ));
    }
    TrustScoreRefreshed { agent: agent.wallet, old_score, new_score: score }
}

/// The subsequence of a candidate list that survives the defensive filter.
pub open spec fn surviving_candidates(
    cs: Seq<CandidateView>,
    pid: Seq<u8>,
    wallet: Seq<u8>,
    now: i64,
) -> Seq<CandidateView>
    decreases cs.len(),
{
    if cs.len() == 0 {
        Seq::empty()
    } else if surviving_attestation(cs.last(), pid, wallet, now) is Some {
        surviving_candidates(cs.drop_last(), pid, wallet, now).push(cs.last())
    } else {
        surviving_candidates(cs.drop_last(), pid, wallet, now)
    }
}

/// Appending one candidate folds as one more step.
proof fn lemma_fold_push(
    st: SignalState,
    cs: Seq<CandidateView>,
    c: CandidateView,
    pid: Seq<u8>,
    wallet: Seq<u8>,
    now: i64,
)
    ensures
        folded_signals(st, cs.push(c), pid, wallet, now) == rebuild_step(
            folded_signals(st, cs, pid, wallet, now),
            c,
            pid,
            wallet,
            now,
        ),
{
    assert(cs.push(c).drop_last() =~= cs);
    assert(cs.push(c).last() == c);
}

proof fn lemma_fold_ignores_invalid(
    st: SignalState,
    cs: Seq<CandidateView>,
    pid: Seq<u8>,
    wallet: Seq<u8>,
    now: i64,
)
    ensures
        folded_signals(st, cs, pid, wallet, now) == folded_signals(
            st,
            surviving_candidates(cs, pid, wallet, now),
            pid,
            wallet,
            now,
        ),
    decreases cs.len(),
{
    if cs.len() > 0 {
        lemma_fold_ignores_invalid(st, cs.drop_last(), pid, wallet, now);
        if surviving_attestation(cs.last(), pid, wallet, now) is Some {
            lemma_fold_push(
                st,
                surviving_candidates(cs.drop_last(), pid, wallet, now),
                cs.last(),
                pid,
                wallet,
                now,
            );
        }
    }
}

/// Rebuild correctness under pollution: a candidate list holding records
/// for a different agent, revoked records, expired records, malformed
/// buffers or records owned by a foreign namespace rebuilds to exactly the
/// state its valid subset alone rebuilds to.
pub proof fn lemma_rebuild_ignores_invalid(
    agent: AgentIdentity,
    epoch: u64,
    cs: Seq<CandidateView>,
    pid: Seq<u8>,
    now: i64,
)
    ensures
        refreshed_agent(agent, epoch, cs, pid, now) == refreshed_agent(
            agent,
            epoch,
            surviving_candidates(cs, pid, agent.wallet@, now),
            pid,
            now,
        ),
{
    lemma_fold_ignores_invalid(SignalState::reset(), cs, pid, agent.wallet@, now);
}

/// Two rebuild steps commute: the merge is a maximum, the stake flags a
/// disjunction, the counter saturating, `last_verified` a maximum.
proof fn lemma_step_commutes(
    st: SignalState,
    c1: CandidateView,
    c2: CandidateView,
    pid: Seq<u8>,
    wallet: Seq<u8>,
    now: i64,
)
    ensures
        rebuild_step(rebuild_step(st, c1, pid, wallet, now), c2, pid, wallet, now)
            == rebuild_step(rebuild_step(st, c2, pid, wallet, now), c1, pid, wallet, now),
{
}

/// Any element of the list may be folded last.
proof fn lemma_fold_pull_out(
    st: SignalState,
    cs: Seq<CandidateView>,
    j: int,
    pid: Seq<u8>,
    wallet: Seq<u8>,
    now: i64,
)
    requires
        0 <= j < cs.len(),
    ensures
        folded_signals(st, cs, pid, wallet, now) == rebuild_step(
            folded_signals(st, cs.remove(j), pid, wallet, now),
            cs[j],
            pid,
            wallet,
            now,
        ),
    decreases cs.len(),
{
    if j == cs.len() - 1 {
        assert(cs.remove(j) =~= cs.drop_last());
    } else {
        let dl = cs.drop_last();
        lemma_fold_pull_out(st, dl, j, pid, wallet, now);
        lemma_step_commutes(
            folded_signals(st, dl.remove(j), pid, wallet, now),
            cs[j],
            cs.last(),
            pid,
            wallet,
            now,
        );
        assert(cs.remove(j).drop_last() =~= dl.remove(j));
        assert(cs.remove(j).last() == cs.last());
    }
}

/// Rebuild order independence: folding is invariant under any reordering
/// (or, with duplicates, any rearrangement) of the candidate list.
pub proof fn lemma_fold_permutation(
    st: SignalState,
    cs1: Seq<CandidateView>,
    cs2: Seq<CandidateView>,
    pid: Seq<u8>,
    wallet: Seq<u8>,
    now: i64,
)
    requires
        cs1.to_multiset() == cs2.to_multiset(),
    ensures
        folded_signals(st, cs1, pid, wallet, now) == folded_signals(st, cs2, pid, wallet, now),
    decreases cs1.len(),
{
    broadcast use vstd::seq_lib::group_to_multiset_ensures;

    if cs1.len() == 0 {
        assert(cs1.to_multiset().len() == cs1.len());
        assert(cs2.to_multiset().len() == cs2.len());
        assert(cs2.len() == 0);
    } else {
        let x = cs1.last();
        assert(cs1.contains(x));
        assert(cs2.to_multiset().count(x) > 0);
        assert(cs2.contains(x));
        let j = choose|j: int| 0 <= j < cs2.len() && cs2[j] == x;
        lemma_fold_pull_out(st, cs2, j, pid, wallet, now);
        assert(cs1.drop_last() =~= cs1.remove(cs1.len() - 1));
        assert(cs1.drop_last().to_multiset() == cs2.remove(j).to_multiset());
        lemma_fold_permutation(st, cs1.drop_last(), cs2.remove(j), pid, wallet, now);
    }
}

/// Rebuild idempotence, first half: shuffling or rearranging the candidate
/// list never changes the rebuilt agent.
pub proof fn lemma_rebuild_order_independent(
    agent: AgentIdentity,
    epoch: u64,
    cs1: Seq<CandidateView>,
    cs2: Seq<CandidateView>,
    pid: Seq<u8>,
    now: i64,
)
    requires
        cs1.to_multiset() == cs2.to_multiset(),
    ensures
        refreshed_agent(agent, epoch, cs1, pid, now) == refreshed_agent(
            agent,
            epoch,
            cs2,
            pid,
            now,
        ),
{
    lemma_fold_permutation(SignalState::reset(), cs1, cs2, pid, agent.wallet@, now);
}

/// Flag override, rebuild half: however strong the folded signals, a
/// rebuild of a flagged agent leaves the trust score at 0; the formula
/// re-applies the override.
pub proof fn lemma_flagged_rebuild_scores_zero(
    agent: AgentIdentity,
    epoch: u64,
    cs: Seq<CandidateView>,
    pid: Seq<u8>,
    now: i64,
)
    requires
        agent.is_flagged,
    ensures
        refreshed_agent(agent, epoch, cs, pid, now).trust_score == 0,
        refreshed_agent(agent, epoch, cs, pid, now).is_flagged,
{
}

/// Rebuild idempotence, second half: rebuilding twice in succession from
/// the same candidate set leaves exactly the state of the first rebuild,
/// since a rebuild depends only on fields it preserves.
pub proof fn lemma_rebuild_idempotent(
    agent: AgentIdentity,
    epoch: u64,
    cs: Seq<CandidateView>,
    pid: Seq<u8>,
    now: i64,
)
    ensures
        refreshed_agent(refreshed_agent(agent, epoch, cs, pid, now), epoch, cs, pid, now)
            == refreshed_agent(agent, epoch, cs, pid, now),
{
    let once = refreshed_agent(agent, epoch, cs, pid, now);
    assert(once.wallet == agent.wallet);
    assert(once.is_flagged == agent.is_flagged);
}

} // verus!
