//! The counting engine: the sole mutator of tenant chains and tallies,
//! and the sole decision point for accept/reject.
//!
//! Every operation is specified against [`EngineModel`], the engine's
//! mathematical state, and the one-step transition functions
//! [`step_verdict`] and [`step_state`]. Processing one submission is a
//! single atomic step: either the event is ignored and nothing changes,
//! or the tenant record and the submitter's record change together.

use std::collections::HashMap;
use vstd::prelude::*;

use crate::numeral::parse_u32;
use crate::numeral::parse_u32_spec;
use crate::participant::ParticipantModel;
use crate::participant::ParticipantState;
use crate::stats::Statistics;
use crate::tenant::tenant_after;
use crate::tenant::TenantState;
use crate::verdict::Verdict;

verus! {

broadcast use vstd::std_specs::hash::group_hash_axioms;

/// One inbound submission event, as the engine's model sees it.
pub struct Submission {
    pub tenant: u64,
    pub participant: u64,
    pub channel: u64,
    pub text: Seq<u8>,
    pub automated: bool,
}

/// The engine's mathematical state: both directories as maps.
#[verifier::ext_equal]
pub struct EngineModel {
    pub tenants: Map<u64, TenantState>,
    pub participants: Map<u64, ParticipantModel>,
}

impl EngineModel {
    /// The state of an engine that has seen nothing.
    pub open spec fn empty_spec() -> EngineModel {
        EngineModel { tenants: Map::empty(), participants: Map::empty() }
    }

    /// The submitter's record, or a fresh zeroed one for a first-time
    /// submitter.
    pub open spec fn participant_or_fresh(self, participant: u64) -> ParticipantModel {
        if self.participants.contains_key(participant) {
            self.participants[participant]
        } else {
            ParticipantModel::fresh_spec()
        }
    }
}

/// An event the engine does not process at all: automated sender, a
/// tenant with no counting channel configured, or an event from a
/// channel other than the tenant's active one.
pub open spec fn submission_ignored(m: EngineModel, s: Submission) -> bool {
    ||| s.automated
    ||| !m.tenants.contains_key(s.tenant)
    ||| m.tenants[s.tenant].active_channel != s.channel
}

/// The game rule, given the tenant's current record and the parsed
/// submission: accepted exactly when the text parsed, the value is the
/// next one in the chain, and the submitter did not also produce the
/// previous accepted submission.
pub open spec fn decide(t: TenantState, participant: u64, parsed: Option<u32>) -> Verdict {
    match parsed {
        None => Verdict::NotANumber,
        Some(v) => {
            if v == t.running_count + 1 {
                if t.last_contributor == Some(participant) {
                    Verdict::ConsecutiveTurn
                } else {
                    Verdict::Accepted
                }
            } else {
                Verdict::WrongNumber
            }
        },
    }
}

/// The verdict for one submission against the current state.
pub open spec fn step_verdict(m: EngineModel, s: Submission) -> Verdict {
    if submission_ignored(m, s) {
        Verdict::Ignored
    } else {
        decide(m.tenants[s.tenant], s.participant, parse_u32_spec(s.text))
    }
}

/// The state after one submission: unchanged when ignored; otherwise
/// the tenant record and the submitter's record (created on first
/// contact) are updated together.
pub open spec fn step_state(m: EngineModel, s: Submission) -> EngineModel {
    if submission_ignored(m, s) {
        m
    } else {
        let accepted = step_verdict(m, s) == Verdict::Accepted;
        EngineModel {
            tenants: m.tenants.insert(
                s.tenant,
                tenant_after(m.tenants[s.tenant], s.participant, accepted),
            ),
            participants: m.participants.insert(
                s.participant,
                m.participant_or_fresh(s.participant).record_spec(s.tenant, accepted),
            ),
        }
    }
}

/// The state after an admin reconfiguration request: denied requests
/// change nothing; granted ones update the tenant's active channel, or
/// create the tenant's record if it has none yet.
pub open spec fn configure_state(
    m: EngineModel,
    tenant: u64,
    channel: u64,
    requester_is_admin: bool,
) -> EngineModel {
    if !requester_is_admin {
        m
    } else if m.tenants.contains_key(tenant) {
        EngineModel {
            tenants: m.tenants.insert(
                tenant,
                (TenantState {
                    active_channel: channel,
                    ..m.tenants[tenant]
                }),
            ),
            participants: m.participants,
        }
    } else {
        EngineModel {
            tenants: m.tenants.insert(tenant, TenantState::fresh_spec(channel)),
            participants: m.participants,
        }
    }
}

/// What a statistics query answers: nothing for a participant the
/// engine has never seen; otherwise the global tally, or the tally for
/// the requested tenant (zeroed when the participant never submitted
/// there).
pub open spec fn query_spec(m: EngineModel, participant: u64, scope: Option<u64>) -> Option<
    Statistics,
> {
    if !m.participants.contains_key(participant) {
        None
    } else {
        match scope {
            None => Some(m.participants[participant].global),
            Some(t) => Some(m.participants[participant].tenant_tally(t)),
        }
    }
}

/// The engine: the tenant directory and the participant directory.
pub struct Engine {
    tenants: HashMap<u64, TenantState>,
    participants: HashMap<u64, ParticipantState>,
}

impl View for Engine {
    type V = EngineModel;

    closed spec fn view(&self) -> EngineModel {
        EngineModel {
            tenants: self.tenants@,
            participants: self.participants@.map_values(|p: ParticipantState| p@),
        }
    }
}

impl Engine {
    /// A fresh engine with empty directories.
    pub fn new() -> (e: Engine)
        ensures
            e@ == EngineModel::empty_spec(),
    {
        let e = Engine { tenants: HashMap::new(), participants: HashMap::new() };
        proof {
            assert(e@.tenants =~= EngineModel::empty_spec().tenants);
            assert(e@.participants =~= EngineModel::empty_spec().participants);
            assert(e@ =~= EngineModel::empty_spec());
        }
        e
    }

    /// Process one inbound submission as a single atomic step, and
    /// return the verdict for the notifier. Ignored events change
    /// nothing; processed ones move the tenant's chain and all three
    /// tallies together, as [`step_state`] says.
    pub fn process_submission(
        &mut self,
        tenant_id: u64,
        participant_id: u64,
        origin_channel: u64,
        text: &[u8],
        is_automated: bool,
    ) -> (v: Verdict)
        ensures
            ({
                let s = Submission {
                    tenant: tenant_id,
                    participant: participant_id,
                    channel: origin_channel,
                    text: text@,
                    automated: is_automated,
                };
                &&& v == step_verdict(old(self)@, s)
                &&& final(self)@ == step_state(old(self)@, s)
            }),
    {
        let ghost s = Submission {
            tenant: tenant_id,
            participant: participant_id,
            channel: origin_channel,
            text: text@,
            automated: is_automated,
        };
        if is_automated {
            return Verdict::Ignored;
        }
        let t = match self.tenants.get(&tenant_id) {
            Some(t) => *t,
            None => {
                return Verdict::Ignored;
            },
        };
        if t.active_channel != origin_channel {
            return Verdict::Ignored;
        }
        assert(!submission_ignored(self@, s));

        let parsed = parse_u32(text);
        let verdict = match parsed {
            None => Verdict::NotANumber,
            Some(v) => {
                if t.running_count < u32::MAX && v == t.running_count + 1 {
                    match t.last_contributor {
                        Some(lc) => {
                            if lc == participant_id {
                                Verdict::ConsecutiveTurn
                            } else {
                                Verdict::Accepted
                            }
                        },
                        None => Verdict::Accepted,
                    }
                } else {
                    Verdict::WrongNumber
                }
            },
        };
        assert(verdict == decide(t, participant_id, parse_u32_spec(text@)));
        let accepted = verdict == Verdict::Accepted;

        let mut p = match self.participants.remove(&participant_id) {
            Some(p) => p,
            None => ParticipantState::fresh(),
        };
        p.record(tenant_id, accepted);
        self.participants.insert(participant_id, p);

        let new_running: u32 = if accepted {
            t.running_count + 1
        } else {
            0
        };
        let mut new_tally = t.tally;
        new_tally.record(accepted);
        let new_t = TenantState {
            tally: new_tally,
            active_channel: t.active_channel,
            running_count: new_running,
            last_contributor: if accepted {
                Some(participant_id)
            } else {
                None
            },
        };
        self.tenants.insert(tenant_id, new_t);

        proof {
            let m0 = old(self)@;
            assert(new_t == tenant_after(m0.tenants[tenant_id], participant_id, accepted));
            assert(self@.tenants =~= step_state(m0, s).tenants);
            assert(self@.participants =~= step_state(m0, s).participants);
            assert(self@ =~= step_state(m0, s));
        }
        verdict
    }

    /// Apply an admin reconfiguration request: designate `channel_id`
    /// as the tenant's counting channel, creating the tenant's record
    /// if it has none, but only when the requester is an administrator.
    pub fn set_active_channel(
        &mut self,
        tenant_id: u64,
        channel_id: u64,
        requester_is_admin: bool,
    ) -> (v: Verdict)
        ensures
            v == if requester_is_admin {
                Verdict::ChannelConfigured
            } else {
                Verdict::PermissionDenied
            },
            final(self)@ == configure_state(old(self)@, tenant_id, channel_id, requester_is_admin),
    {
        if !requester_is_admin {
            return Verdict::PermissionDenied;
        }
        let new_t = match self.tenants.get(&tenant_id) {
            Some(t) => TenantState {
                tally: t.tally,
                active_channel: channel_id,
                running_count: t.running_count,
                last_contributor: t.last_contributor,
            },
            None => TenantState::fresh(channel_id),
        };
        self.tenants.insert(tenant_id, new_t);
        proof {
            let m1 = configure_state(old(self)@, tenant_id, channel_id, requester_is_admin);
            assert(self@.tenants =~= m1.tenants);
            assert(self@ =~= m1);
        }
        Verdict::ChannelConfigured
    }

    /// Answer a statistics query. Returns nothing for a participant the
    /// engine has never seen — distinct from a zeroed tally. Read-only.
    pub fn query_participant(&self, participant_id: u64, scope_tenant: Option<u64>) -> (r: Option<
        Statistics,
    >)
        ensures
            r == query_spec(self@, participant_id, scope_tenant),
    {
        let p = match self.participants.get(&participant_id) {
            Some(p) => p,
            None => {
                return None;
            },
        };
        match scope_tenant {
            None => Some(p.global),
            Some(t) => {
                match p.per_tenant.get(&t) {
                    Some(st) => Some(*st),
                    None => Some(Statistics::zero()),
                }
            },
        }
    }

    /// How many participants the engine has ever seen: the number of
    /// entries in the participant directory. Read-only.
    pub fn participant_count(&self) -> (n: usize)
        ensures
            n == self@.participants.dom().len(),
    {
        let n = self.participants.len();
        proof {
            assert(self@.participants.dom() =~= self.participants@.dom());
        }
        n
    }

    /// Read one tenant's record, if the tenant is configured. Read-only.
    pub fn tenant_info(&self, tenant_id: u64) -> (r: Option<TenantState>)
        ensures
            r == if self@.tenants.contains_key(tenant_id) {
                Some(self@.tenants[tenant_id])
            } else {
                None::<TenantState>
            },
    {
        match self.tenants.get(&tenant_id) {
            Some(t) => Some(*t),
            None => None,
        }
    }
}

} // verus!
