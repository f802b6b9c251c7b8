//! A multi-tenant counting-game engine.
//!
//! Each tenant owns an independent counting chain: participants submit
//! numbers, and a submission is accepted exactly when it is the next
//! integer in the chain and its author did not also produce the previous
//! accepted submission. Every processed submission updates the tenant's
//! tally, the participant's global tally and the participant's tally for
//! that tenant, atomically as one step. The engine performs no I/O of
//! its own: it takes plain values and answers with a verdict for a
//! notifier to render.

pub mod engine;
pub mod laws;
pub mod mention;
pub mod numeral;
pub mod participant;
pub mod stats;
pub mod tenant;
pub mod uptime;
pub mod verdict;
