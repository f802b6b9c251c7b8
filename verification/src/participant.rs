//! Per-participant state: a global tally plus one tally per tenant.

use std::collections::HashMap;
use vstd::prelude::*;

use crate::stats::Statistics;

verus! {

broadcast use vstd::std_specs::hash::group_hash_axioms;

/// The mathematical model of a participant record.
#[verifier::ext_equal]
pub struct ParticipantModel {
    pub global: Statistics,
    pub per_tenant: Map<u64, Statistics>,
}

/// One participant's record.
pub struct ParticipantState {
    pub global: Statistics,
    pub per_tenant: HashMap<u64, Statistics>,
}

impl View for ParticipantState {
    type V = ParticipantModel;

    open spec fn view(&self) -> ParticipantModel {
        ParticipantModel { global: self.global, per_tenant: self.per_tenant@ }
    }
}

impl ParticipantModel {
    /// The record a first-time submitter starts from.
    pub open spec fn fresh_spec() -> ParticipantModel {
        ParticipantModel { global: Statistics::zero_spec(), per_tenant: Map::empty() }
    }

    /// This participant's tally for `tenant`: zeroed when the
    /// participant has never submitted there.
    pub open spec fn tenant_tally(self, tenant: u64) -> Statistics {
        if self.per_tenant.contains_key(tenant) {
            self.per_tenant[tenant]
        } else {
            Statistics::zero_spec()
        }
    }
}

impl ParticipantState {
    pub fn fresh() -> (r: ParticipantState)
        ensures
            r@ == ParticipantModel::fresh_spec(),
    {
        let r = ParticipantState { global: Statistics::zero(), per_tenant: HashMap::new() };
        proof {
            assert(r@.per_tenant =~= Map::<u64, Statistics>::empty());
            assert(r@ =~= ParticipantModel::fresh_spec());
        }
        r
    }

    /// Record the outcome of one processed submission in `tenant`: the
    /// global tally and the tally for that tenant move together.
    pub fn record(&mut self, tenant: u64, accepted: bool)
        ensures
            final(self)@ == old(self)@.record_spec(tenant, accepted),
    {
        self.global.record(accepted);
        let prev = self.per_tenant.remove(&tenant);
        let mut t = match prev {
            Some(t) => t,
            None => Statistics::zero(),
        };
        t.record(accepted);
        self.per_tenant.insert(tenant, t);
        proof {
            assert(self.per_tenant@ =~= old(self)@.record_spec(tenant, accepted).per_tenant);
            assert(self@ =~= old(self)@.record_spec(tenant, accepted));
        }
    }
}

impl ParticipantModel {
    /// The record after one processed submission in `tenant` with the
    /// given outcome.
    pub open spec fn record_spec(self, tenant: u64, accepted: bool) -> ParticipantModel {
        ParticipantModel {
            global: self.global.bump(accepted),
            per_tenant: self.per_tenant.insert(tenant, self.tenant_tally(tenant).bump(accepted)),
        }
    }
}

} // verus!
