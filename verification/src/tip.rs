//! The tip tracker: a single-hop query for the chain's current tip.
//!
//! One round trip to the primary's tip-query method, with an empty
//! request, yields the latest committed height and an optional
//! certification blob. The blob is opaque here: it passes through to the
//! caller untouched, who may verify it independently.

use vstd::prelude::*;

use crate::BlockHeight;
use crate::endpoint::EndpointId;

verus! {

/// The chain's current tip: the latest committed height and an optional
/// certification blob this service never inspects.
#[derive(Clone, PartialEq, Eq, Hash, Debug)]
pub struct TipOfChain {
    pub certification: Option<Vec<u8>>,
    pub tip_index: BlockHeight,
}

/// What the primary's tip query answers.
#[derive(Clone, PartialEq, Eq, Hash, Debug)]
pub struct TipReply {
    pub certification: Option<Vec<u8>>,
    pub tip_index: BlockHeight,
}

/// How the tip query's round trip ended.
#[derive(Clone, PartialEq, Eq, Hash, Debug)]
pub enum TipOutcome {
    Replied(TipReply),
    Unreachable(String),
}

/// A remote round trip that could not complete: the endpoint addressed
/// and the transport's account of the failure.
#[derive(Clone, PartialEq, Eq, Hash, Debug)]
pub struct TransportError {
    pub endpoint: EndpointId,
    pub message: String,
}

/// The wire method name of the primary's tip query.
pub open spec fn spec_tip_method_name() -> Seq<char> {
    "tip_of_chain_pb"@
}

/// The wire method name of the primary's tip query, for the gateway to
/// put on the call.
pub fn tip_method_name() -> (s: &'static str)
    ensures
        s@ == spec_tip_method_name(),
{
    "tip_of_chain_pb"
}

/// How the tip query's outcome decides the result: a reply's fields pass
/// through unchanged; a transport failure is reported with the primary's
/// identity.
pub open spec fn spec_get_tip(primary: EndpointId, outcome: TipOutcome) -> Result<
    TipOfChain,
    TransportError,
> {
    match outcome {
        TipOutcome::Replied(reply) => Ok(
            TipOfChain { certification: reply.certification, tip_index: reply.tip_index },
        ),
        TipOutcome::Unreachable(message) => Err(TransportError { endpoint: primary, message }),
    }
}

/// Maps the tip query's outcome into the result handed to the caller.
/// The certification blob and the tip index pass through unchanged.
pub fn get_tip(primary: EndpointId, outcome: TipOutcome) -> (r: Result<TipOfChain, TransportError>)
    ensures
        r == spec_get_tip(primary, outcome),
{
    match outcome {
        TipOutcome::Replied(reply) => Ok(
            TipOfChain { certification: reply.certification, tip_index: reply.tip_index },
        ),
        TipOutcome::Unreachable(message) => Err(TransportError { endpoint: primary, message }),
    }
}

/// Queries the chain's current tip. `gateway` performs the single round
/// trip to the primary's tip-query method with an empty request; it is
/// invoked exactly once, and its outcome decides the result as
/// `spec_get_tip` says.
pub fn fetch_tip<F: Fn() -> TipOutcome>(gateway: F, primary: EndpointId) -> (r: Result<
    TipOfChain,
    TransportError,
>)
    requires
        call_requires(gateway, ()),
    ensures
        exists|outcome: TipOutcome|
            #[trigger] call_ensures(gateway, (), outcome) && r == spec_get_tip(primary, outcome),
{
    let outcome = gateway();
    get_tip(primary, outcome)
}

} // verus!
