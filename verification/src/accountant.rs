//! Resource accounting: accepting donations and reporting the held balance.
//!
//! The host execution environment owns the real balance and the amount the
//! current caller has offered; the embedding program reads both from the
//! host and mirrors them in the explicit values taken here, so that the
//! accounting decisions are verified.

use vstd::prelude::*;

use crate::ResourceAmount;

verus! {

/// What the host reports about the current invocation: the amount of
/// resource its caller has offered. Read-only to this service.
pub struct CallContext {
    pub offered: ResourceAmount,
}

/// The resource this service currently holds. Mutated only by accepting
/// a donation.
pub struct Balance {
    pub held: ResourceAmount,
}

/// Accepts the full offered amount into the held balance and returns the
/// accepted amount. A donation is never rejected and never partially
/// accepted.
pub fn donate(ctx: &CallContext, balance: &mut Balance) -> (accepted: ResourceAmount)
    requires
        old(balance).held + ctx.offered <= u64::MAX,
    ensures
        accepted == ctx.offered,
        accepted <= ctx.offered,
        final(balance).held == old(balance).held + accepted,
{
    balance.held = balance.held + ctx.offered;
    ctx.offered
}

/// Reports the currently held balance; a pure read.
pub fn get_balance(balance: &Balance) -> (r: ResourceAmount)
    ensures
        r == balance.held,
{
    balance.held
}

} // verus!
