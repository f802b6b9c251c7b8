//! The engine's pure outcome value for one inbound event.

use vstd::prelude::*;

verus! {

/// How the engine judged one event. The engine never performs I/O: a
/// notifier outside the engine maps each tag to a reaction or message.
#[derive(Clone, Copy, PartialEq, Eq, Structural, Debug)]
pub enum Verdict {
    /// The submission extended the tenant's counting chain.
    Accepted,
    /// The submission parsed as a number, but not the expected one.
    WrongNumber,
    /// The submission did not parse as a non-negative integer.
    NotANumber,
    /// The number was right, but the same participant also produced the
    /// previous accepted submission.
    ConsecutiveTurn,
    /// The event was not processed at all: automated sender, tenant not
    /// configured, or wrong channel. No state changed.
    Ignored,
    /// An admin-only reconfiguration was requested without permission.
    PermissionDenied,
    /// A tenant's active counting channel was (re)configured.
    ChannelConfigured,
}

} // verus!
