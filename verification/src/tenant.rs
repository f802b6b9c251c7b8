//! Per-tenant counting state.

use vstd::prelude::*;

use crate::stats::Statistics;

verus! {

/// One tenant's record: its tenant-wide tally, the channel it counts
/// in, the last accepted value of its chain, and who produced it.
///
/// `running_count` is the last value accepted into the chain; the next
/// expected submission is one more. `last_contributor` is `None` exactly
/// when the chain has never been advanced or was just reset.
#[derive(Clone, Copy, PartialEq, Eq, Debug)]
pub struct TenantState {
    pub tally: Statistics,
    pub active_channel: u64,
    pub running_count: u32,
    pub last_contributor: Option<u64>,
}

impl TenantState {
    /// A freshly configured tenant: zeroed tally, empty chain, counting
    /// in `channel`.
    pub open spec fn fresh_spec(channel: u64) -> TenantState {
        TenantState {
            tally: Statistics::zero_spec(),
            active_channel: channel,
            running_count: 0,
            last_contributor: None,
        }
    }

    pub fn fresh(channel: u64) -> (r: TenantState)
        ensures
            r == Self::fresh_spec(channel),
    {
        TenantState {
            tally: Statistics::zero(),
            active_channel: channel,
            running_count: 0,
            last_contributor: None,
        }
    }
}

/// The tenant record after one processed (not ignored) submission by
/// `participant` with the given outcome: acceptance advances the chain
/// and remembers the contributor; any rejection resets the chain.
pub open spec fn tenant_after(t: TenantState, participant: u64, accepted: bool) -> TenantState {
    if accepted {
        TenantState {
            tally: t.tally.bump_correct(),
            active_channel: t.active_channel,
            running_count: (t.running_count + 1) as u32,
            last_contributor: Some(participant),
        }
    } else {
        TenantState {
            tally: t.tally.bump_incorrect(),
            active_channel: t.active_channel,
            running_count: 0,
            last_contributor: None,
        }
    }
}

} // verus!
