//! Orchestration logic for a facade over a long-running peer conductor:
//! configuration synthesis, application lifecycle decisions, signed call
//! envelopes, the signal receiver set and the process-wide service slot.
use vstd::prelude::*;

pub mod apps;
pub mod call;
pub mod config;
pub mod error;
pub mod lifecycle;
pub mod registry;
pub mod signals;

verus! {

} // verus!
