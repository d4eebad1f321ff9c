//! A verified model of a two-phase confidential-computation protocol and a
//! token-sale escrow.
//!
//! A requester queues a computation under a caller-chosen offset; a remote
//! executor later resolves it through a single authorized callback, and only
//! a disclosed predicate (never the private inputs) crosses the trust
//! boundary. The escrow sells a token inventory at a settable unit price with
//! overflow-checked, all-or-nothing settlement.

pub mod addr;
pub mod comp_def;
pub mod tracker;
pub mod instructions;
pub mod escrow;
