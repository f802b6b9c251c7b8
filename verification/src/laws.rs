//! Laws of the engine, proved once and for all over the model's
//! one-step transition functions.

use vstd::prelude::*;

use crate::engine::step_state;
use crate::engine::step_verdict;
use crate::engine::submission_ignored;
use crate::engine::EngineModel;
use crate::engine::Submission;
use crate::numeral::parse_u32_spec;
use crate::stats::Statistics;
use crate::verdict::Verdict;

verus! {

/// The engine state after a whole sequence of submissions.
pub open spec fn run(m: EngineModel, evs: Seq<Submission>) -> EngineModel
    decreases evs.len(),
{
    if evs.len() == 0 {
        m
    } else {
        run(step_state(m, evs[0]), evs.drop_first())
    }
}

/// An ignored event never mutates anything: the state after it is the
/// state before it, bit for bit.
pub proof fn lemma_ignored_is_pure(m: EngineModel, s: Submission)
    requires
        step_verdict(m, s) == Verdict::Ignored,
    ensures
        step_state(m, s) == m,
{
}

/// Any processed rejection — wrong number, unparsable text, or a
/// consecutive turn — resets the tenant's chain: the running count goes
/// to zero and the last contributor is cleared, regardless of the prior
/// value.
pub proof fn lemma_rejection_resets(m: EngineModel, s: Submission)
    requires
        step_verdict(m, s) == Verdict::WrongNumber || step_verdict(m, s) == Verdict::NotANumber
            || step_verdict(m, s) == Verdict::ConsecutiveTurn,
    ensures
        step_state(m, s).tenants[s.tenant].running_count == 0,
        step_state(m, s).tenants[s.tenant].last_contributor is None,
{
}

/// An accepted submission advances the tenant's chain by exactly one
/// and remembers its author as the last contributor.
pub proof fn lemma_acceptance_advances(m: EngineModel, s: Submission)
    requires
        step_verdict(m, s) == Verdict::Accepted,
    ensures
        step_state(m, s).tenants[s.tenant].running_count == m.tenants[s.tenant].running_count + 1,
        step_state(m, s).tenants[s.tenant].last_contributor == Some(s.participant),
{
}

/// A run of in-order submissions from alternating participants is
/// accepted throughout: each event targets the configured channel,
/// carries the next number in the chain, and no participant takes two
/// consecutive turns, so after `n` such events the running count has
/// grown by exactly `n` and the last contributor is the author of the
/// last event.
pub proof fn lemma_counting_chain(m: EngineModel, evs: Seq<Submission>, tenant: u64, channel: u64)
    requires
        m.tenants.contains_key(tenant),
        m.tenants[tenant].active_channel == channel,
        m.tenants[tenant].running_count + evs.len() <= u32::MAX,
        forall|k: int|
            0 <= k < evs.len() ==> {
                let e = #[trigger] evs[k];
                &&& e.tenant == tenant
                &&& e.channel == channel
                &&& !e.automated
                &&& parse_u32_spec(e.text) == Some(
                    (m.tenants[tenant].running_count + k + 1) as u32,
                )
            },
        forall|k: int|
            0 < k < evs.len() ==> (#[trigger] evs[k]).participant != evs[k - 1].participant,
        evs.len() > 0 ==> m.tenants[tenant].last_contributor != Some(evs[0].participant),
    ensures
        run(m, evs).tenants.contains_key(tenant),
        run(m, evs).tenants[tenant].running_count == m.tenants[tenant].running_count + evs.len(),
        run(m, evs).tenants[tenant].active_channel == channel,
        evs.len() > 0 ==> run(m, evs).tenants[tenant].last_contributor == Some(
            evs[evs.len() - 1].participant,
        ),
        evs.len() == 0 ==> run(m, evs) == m,
    decreases evs.len(),
{
    if evs.len() > 0 {
        let e0 = evs[0];
        assert(!submission_ignored(m, e0));
        assert(step_verdict(m, e0) == Verdict::Accepted);
        let m1 = step_state(m, e0);
        let rest = evs.drop_first();
        assert(m1.tenants[tenant].running_count == m.tenants[tenant].running_count + 1);
        assert forall|k: int| 0 <= k < rest.len() implies {
            let e = #[trigger] rest[k];
            &&& e.tenant == tenant
            &&& e.channel == channel
            &&& !e.automated
            &&& parse_u32_spec(e.text) == Some((m1.tenants[tenant].running_count + k + 1) as u32)
        } by {
            assert(rest[k] == evs[k + 1]);
        }
        assert forall|k: int|
            0 < k < rest.len() implies (#[trigger] rest[k]).participant != rest[k
            - 1].participant by {
            assert(rest[k] == evs[k + 1]);
            assert(rest[k - 1] == evs[k]);
        }
        if rest.len() > 0 {
            assert(rest[0] == evs[1]);
            assert(m1.tenants[tenant].last_contributor == Some(evs[0].participant));
            assert(m1.tenants[tenant].last_contributor != Some(rest[0].participant));
        }
        lemma_counting_chain(m1, rest, tenant, channel);
        if rest.len() > 0 {
            assert(rest[rest.len() - 1] == evs[evs.len() - 1]);
        }
    }
}

/// Two first-time submissions by one unseen participant, to two
/// different tenants, create exactly one participant record, holding
/// the tally of each of the two tenants.
pub proof fn lemma_idempotent_creation(m: EngineModel, s1: Submission, s2: Submission)
    requires
        s1.participant == s2.participant,
        s1.tenant != s2.tenant,
        !m.participants.contains_key(s1.participant),
        !submission_ignored(m, s1),
        !submission_ignored(step_state(m, s1), s2),
    ensures
        step_state(step_state(m, s1), s2).participants.dom() =~= m.participants.dom().insert(
            s1.participant,
        ),
        step_state(step_state(m, s1), s2).participants[s1.participant].per_tenant[s1.tenant]
            == Statistics::zero_spec().bump(step_verdict(m, s1) == Verdict::Accepted),
        step_state(step_state(m, s1), s2).participants[s1.participant].per_tenant[s2.tenant]
            == Statistics::zero_spec().bump(
            step_verdict(step_state(m, s1), s2) == Verdict::Accepted,
        ),
        step_state(step_state(m, s1), s2).participants[s1.participant].global
            == Statistics::zero_spec().bump(step_verdict(m, s1) == Verdict::Accepted).bump(
            step_verdict(step_state(m, s1), s2) == Verdict::Accepted,
        ),
{
    let m1 = step_state(m, s1);
    let m2 = step_state(m1, s2);
    assert(m1.participants.dom() =~= m.participants.dom().insert(s1.participant));
    assert(m2.participants.dom() =~= m1.participants.dom().insert(s2.participant));
    assert(m2.participants.dom() =~= m.participants.dom().insert(s1.participant));
}

/// Tally counters are monotone: no step ever lowers a tenant's tally,
/// a participant's global tally, or a participant's tally for any
/// tenant. There is no decrement operation.
pub proof fn lemma_tallies_monotone(m: EngineModel, s: Submission)
    ensures
        forall|t: u64|
            #[trigger] m.tenants.contains_key(t) ==> step_state(m, s).tenants.contains_key(t)
                && m.tenants[t].tally.correct <= step_state(m, s).tenants[t].tally.correct
                && m.tenants[t].tally.incorrect <= step_state(m, s).tenants[t].tally.incorrect,
        forall|p: u64|
            #[trigger] m.participants.contains_key(p) ==> step_state(m, s).participants.contains_key(p)
                && m.participants[p].global.correct <= step_state(m, s).participants[p].global.correct
                && m.participants[p].global.incorrect <= step_state(
                m,
                s,
            ).participants[p].global.incorrect,
        forall|p: u64, t: u64|
            m.participants.contains_key(p) && #[trigger] m.participants[p].per_tenant.contains_key(
                t,
            ) ==> step_state(m, s).participants[p].per_tenant.contains_key(t)
                && m.participants[p].per_tenant[t].correct <= step_state(
                m,
                s,
            ).participants[p].per_tenant[t].correct && m.participants[p].per_tenant[t].incorrect
                <= step_state(m, s).participants[p].per_tenant[t].incorrect,
{
}

/// Tenants are fully independent: a submission for one tenant never
/// changes another tenant's record, nor any participant's tally for
/// that other tenant.
pub proof fn lemma_cross_tenant_independence(m: EngineModel, s: Submission, other: u64)
    requires
        other != s.tenant,
    ensures
        step_state(m, s).tenants.contains_key(other) == m.tenants.contains_key(other),
        m.tenants.contains_key(other) ==> step_state(m, s).tenants[other] == m.tenants[other],
        forall|p: u64|
            #[trigger] m.participants.contains_key(p) ==> step_state(m, s).participants.contains_key(p)
                && step_state(m, s).participants[p].per_tenant.contains_key(other)
                == m.participants[p].per_tenant.contains_key(other) && (
            m.participants[p].per_tenant.contains_key(other) ==> step_state(
                m,
                s,
            ).participants[p].per_tenant[other] == m.participants[p].per_tenant[other]),
        forall|p: u64|
            !m.participants.contains_key(p) && #[trigger] step_state(
                m,
                s,
            ).participants.contains_key(p) ==> !step_state(
                m,
                s,
            ).participants[p].per_tenant.contains_key(other),
{
}

} // verus!
