//! A read proxy in front of a ledger of record and its archive shards.
//!
//! Clients ask for a block at a height or for the current tip of the
//! chain. The proxy resolves a block request against the primary ledger
//! endpoint and, when the primary answers with a redirect, re-issues the
//! request once against the named archive shard. It also accepts resource
//! donations and reports its own held resource balance.
//!
//! The remote transport and the host execution environment are outside
//! collaborators: the embedding program performs the round trips and the
//! host-level resource operations, and hands their outcomes to the
//! verified functions here, which make every decision.

use vstd::prelude::*;

pub mod accountant;
pub mod endpoint;
pub mod resolver;
pub mod tip;

verus! {

/// A position in the append-only, totally ordered block sequence.
pub type BlockHeight = u64;

/// A quantity of the consumable resource that backs execution.
pub type ResourceAmount = u64;

} // verus!
