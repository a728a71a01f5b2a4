//! The block resolver: the two-hop lookup protocol.
//!
//! A resolution queries the primary ledger for a height. The primary
//! answers with the encoded block, with a redirect to the archive shard
//! now holding it, or with "not found"; the transport itself may also
//! fail. A redirect is followed exactly once, with the archives' own
//! lookup method; a redirect received from an archive is not followed
//! but reported. A retrieved payload is then decoded by the ledger
//! domain's decoder, whose failure is reported, never swallowed.
//!
//! The remote round trips themselves are the gateway's work: the driver
//! functions here take the gateway as a function value and are verified
//! against whatever outcomes it returns.

use vstd::prelude::*;

use crate::BlockHeight;
use crate::endpoint::EndpointId;

verus! {

/// One block in its binary transport encoding: an opaque byte payload.
#[derive(Clone, PartialEq, Eq, Hash, Debug)]
pub struct EncodedBlock {
    pub bytes: Vec<u8>,
}

/// The structured content of one block, as the ledger domain's decoder
/// produced it. This service never interprets it; the embedding program
/// converts the domain's decoded form into and out of this one.
#[derive(Clone, PartialEq, Eq, Hash, Debug)]
pub struct Block {
    pub content: Vec<u8>,
}

/// Which lookup contract a call uses: the primary ledger's or the
/// archive shards'. The two differ in wire method name, and only the
/// primary's replies may carry a redirect that is then followed.
#[derive(Clone, Copy, PartialEq, Eq, Hash, Debug)]
pub enum LookupMethod {
    Primary,
    Archive,
}

/// The wire method name a lookup variant addresses.
pub open spec fn spec_method_name(m: LookupMethod) -> Seq<char> {
    match m {
        LookupMethod::Primary => "block_pb"@,
        LookupMethod::Archive => "get_block_pb"@,
    }
}

/// The wire method name a lookup variant addresses, for the gateway to
/// put on the call.
pub fn method_name(m: LookupMethod) -> (s: &'static str)
    ensures
        s@ == spec_method_name(m),
{
    match m {
        LookupMethod::Primary => "block_pb",
        LookupMethod::Archive => "get_block_pb",
    }
}

/// One remote lookup this service wants performed: which endpoint, under
/// which method, for which height.
#[derive(Clone, Copy, PartialEq, Eq, Hash, Debug)]
pub struct BlockCall {
    pub endpoint: EndpointId,
    pub method: LookupMethod,
    pub height: BlockHeight,
}

/// What a reached endpoint answered to a block lookup.
#[derive(Clone, PartialEq, Eq, Hash, Debug)]
pub enum BlockReply {
    /// The endpoint holds the block and returned its encoding.
    Found(EncodedBlock),
    /// The block has moved to the named archive shard.
    Redirect(EndpointId),
    /// No block exists at the queried height here.
    Absent,
}

/// How one remote round trip ended: a reply from the endpoint, or a
/// transport failure carrying the transport's own message.
#[derive(Clone, PartialEq, Eq, Hash, Debug)]
pub enum CallOutcome {
    Replied(BlockReply),
    Unreachable(String),
}

/// Why a lookup failed.
#[derive(Clone, PartialEq, Eq, Hash, Debug)]
pub enum LookupFailure {
    /// The round trip to `endpoint` could not complete; `message` is the
    /// transport's account of the failure.
    Transport { endpoint: EndpointId, message: String },
    /// The queried height does not exist at the queried endpoint.
    NotFound,
    /// The named archive shard itself answered with a redirect, which is
    /// followed no further.
    UnresolvedRedirect(EndpointId),
    /// A retrieved payload could not be decoded into a block.
    DecodeFailure,
}

/// What follows the primary's outcome: either the resolution is decided,
/// or one more call — to the archive the primary named — is owed.
#[derive(PartialEq, Eq, Hash, Debug)]
pub enum ResolveStep {
    Done(Result<EncodedBlock, LookupFailure>),
    FollowRedirect(BlockCall),
}

/// The first call of a resolution: the primary's lookup for `height`.
pub open spec fn spec_start_call(primary: EndpointId, height: BlockHeight) -> BlockCall {
    BlockCall { endpoint: primary, method: LookupMethod::Primary, height }
}

/// The follow-up call after a redirect: the named archive's lookup for
/// the same height, under the archives' method.
pub open spec fn spec_archive_call(target: EndpointId, height: BlockHeight) -> BlockCall {
    BlockCall { endpoint: target, method: LookupMethod::Archive, height }
}

/// The first call of a resolution, for the embedding program to hand to
/// its gateway.
pub fn start_call(primary: EndpointId, height: BlockHeight) -> (c: BlockCall)
    ensures
        c == spec_start_call(primary, height),
{
    BlockCall { endpoint: primary, method: LookupMethod::Primary, height }
}

/// How the resolution proceeds once the primary's round trip has ended.
pub open spec fn spec_after_primary(
    primary: EndpointId,
    height: BlockHeight,
    outcome: CallOutcome,
) -> ResolveStep {
    match outcome {
        CallOutcome::Unreachable(message) => ResolveStep::Done(
            Err(LookupFailure::Transport { endpoint: primary, message }),
        ),
        CallOutcome::Replied(BlockReply::Absent) => ResolveStep::Done(
            Err(LookupFailure::NotFound),
        ),
        CallOutcome::Replied(BlockReply::Found(b)) => ResolveStep::Done(Ok(b)),
        CallOutcome::Replied(BlockReply::Redirect(target)) => ResolveStep::FollowRedirect(
            spec_archive_call(target, height),
        ),
    }
}

/// Classifies the primary's outcome. Exactly a redirect leads to a
/// second call; everything else decides the resolution here.
pub fn after_primary(primary: EndpointId, height: BlockHeight, outcome: CallOutcome) -> (r:
    ResolveStep)
    ensures
        r == spec_after_primary(primary, height, outcome),
{
    match outcome {
        CallOutcome::Unreachable(message) => ResolveStep::Done(
            Err(LookupFailure::Transport { endpoint: primary, message }),
        ),
        CallOutcome::Replied(BlockReply::Absent) => ResolveStep::Done(
            Err(LookupFailure::NotFound),
        ),
        CallOutcome::Replied(BlockReply::Found(b)) => ResolveStep::Done(Ok(b)),
        CallOutcome::Replied(BlockReply::Redirect(target)) => ResolveStep::FollowRedirect(
            start_archive_call(target, height),
        ),
    }
}

/// The follow-up call after a redirect, for the embedding program to
/// hand to its gateway.
pub fn start_archive_call(target: EndpointId, height: BlockHeight) -> (c: BlockCall)
    ensures
        c == spec_archive_call(target, height),
{
    BlockCall { endpoint: target, method: LookupMethod::Archive, height }
}

/// How the archive's outcome decides the resolution.
pub open spec fn spec_after_archive(archive: EndpointId, outcome: CallOutcome) -> Result<
    EncodedBlock,
    LookupFailure,
> {
    match outcome {
        CallOutcome::Unreachable(message) => Err(
            LookupFailure::Transport { endpoint: archive, message },
        ),
        CallOutcome::Replied(BlockReply::Absent) => Err(LookupFailure::NotFound),
        CallOutcome::Replied(BlockReply::Found(b)) => Ok(b),
        CallOutcome::Replied(BlockReply::Redirect(_)) => Err(
            LookupFailure::UnresolvedRedirect(archive),
        ),
    }
}

/// Classifies the archive's outcome. A redirect from the archive is not
/// followed: it fails the lookup, naming the archive that gave it.
pub fn after_archive(archive: EndpointId, outcome: CallOutcome) -> (r: Result<
    EncodedBlock,
    LookupFailure,
>)
    ensures
        r == spec_after_archive(archive, outcome),
{
    match outcome {
        CallOutcome::Unreachable(message) => Err(
            LookupFailure::Transport { endpoint: archive, message },
        ),
        CallOutcome::Replied(BlockReply::Absent) => Err(LookupFailure::NotFound),
        CallOutcome::Replied(BlockReply::Found(b)) => Ok(b),
        CallOutcome::Replied(BlockReply::Redirect(_)) => Err(
            LookupFailure::UnresolvedRedirect(archive),
        ),
    }
}

/// Folds the ledger decoder's outcome into the lookup result: a decode
/// failure is a reported error, never swallowed.
pub open spec fn spec_after_decode(decoded: Option<Block>) -> Result<Block, LookupFailure> {
    match decoded {
        Some(b) => Ok(b),
        None => Err(LookupFailure::DecodeFailure),
    }
}

/// Folds the ledger decoder's outcome into the lookup result.
pub fn after_decode(decoded: Option<Block>) -> (r: Result<Block, LookupFailure>)
    ensures
        r == spec_after_decode(decoded),
{
    match decoded {
        Some(b) => Ok(b),
        None => Err(LookupFailure::DecodeFailure),
    }
}

/// How many remote round trips a resolution makes, as a function of the
/// primary's outcome: two exactly when the primary redirected, else one.
pub open spec fn spec_call_count(first: CallOutcome) -> int {
    match first {
        CallOutcome::Replied(BlockReply::Redirect(_)) => 2,
        _ => 1,
    }
}

/// The resolution's encoded result as a function of the round trips'
/// outcomes. `second` matters exactly when the primary redirected.
pub open spec fn spec_resolution(
    primary: EndpointId,
    height: BlockHeight,
    first: CallOutcome,
    second: CallOutcome,
) -> Result<EncodedBlock, LookupFailure> {
    match spec_after_primary(primary, height, first) {
        ResolveStep::Done(r) => r,
        ResolveStep::FollowRedirect(c2) => spec_after_archive(c2.endpoint, second),
    }
}

/// Law: a height the primary holds directly resolves to exactly that
/// encoded block, and the resolution makes exactly one round trip —
/// whatever a second round trip would have answered.
pub proof fn lemma_direct_hit(
    primary: EndpointId,
    height: BlockHeight,
    b: EncodedBlock,
    second: CallOutcome,
)
    ensures
        spec_resolution(primary, height, CallOutcome::Replied(BlockReply::Found(b)), second)
            == Ok::<EncodedBlock, LookupFailure>(b),
        spec_call_count(CallOutcome::Replied(BlockReply::Found(b))) == 1,
{
}

/// Law: when the primary redirects to archive `a` and `a` holds the
/// block, the resolution yields exactly that encoded block in exactly
/// two round trips, the second addressed to `a` under the archives'
/// method, for the same height.
pub proof fn lemma_archive_hit(
    primary: EndpointId,
    height: BlockHeight,
    a: EndpointId,
    b: EncodedBlock,
)
    ensures
        spec_after_primary(primary, height, CallOutcome::Replied(BlockReply::Redirect(a)))
            == ResolveStep::FollowRedirect(spec_archive_call(a, height)),
        spec_archive_call(a, height) == (BlockCall {
            endpoint: a,
            method: LookupMethod::Archive,
            height,
        }),
        spec_resolution(
            primary,
            height,
            CallOutcome::Replied(BlockReply::Redirect(a)),
            CallOutcome::Replied(BlockReply::Found(b)),
        ) == Ok::<EncodedBlock, LookupFailure>(b),
        spec_call_count(CallOutcome::Replied(BlockReply::Redirect(a))) == 2,
{
}

/// Law: when the primary redirects to archive `a` and `a` itself
/// redirects, the resolution fails naming `a`, after exactly two round
/// trips — the archive's redirect target is never called.
pub proof fn lemma_unresolved_redirect(
    primary: EndpointId,
    height: BlockHeight,
    a: EndpointId,
    target: EndpointId,
)
    ensures
        spec_resolution(
            primary,
            height,
            CallOutcome::Replied(BlockReply::Redirect(a)),
            CallOutcome::Replied(BlockReply::Redirect(target)),
        ) == Err::<EncodedBlock, LookupFailure>(LookupFailure::UnresolvedRedirect(a)),
        spec_call_count(CallOutcome::Replied(BlockReply::Redirect(a))) == 2,
{
}

/// Law: a height the primary reports absent fails as not found, in
/// exactly one round trip — whatever a second round trip would have
/// answered.
pub proof fn lemma_absent(
    primary: EndpointId,
    height: BlockHeight,
    second: CallOutcome,
)
    ensures
        spec_resolution(primary, height, CallOutcome::Replied(BlockReply::Absent), second)
            == Err::<EncodedBlock, LookupFailure>(LookupFailure::NotFound),
        spec_call_count(CallOutcome::Replied(BlockReply::Absent)) == 1,
{
}

/// Law: resolution is deterministic in the round trips' outcomes. Two
/// resolutions of the same height against a backend that answered the
/// same both times decide the same result.
pub proof fn lemma_resolution_deterministic(
    primary: EndpointId,
    height: BlockHeight,
    first: CallOutcome,
    second: CallOutcome,
    r1: Result<EncodedBlock, LookupFailure>,
    r2: Result<EncodedBlock, LookupFailure>,
)
    requires
        r1 == spec_resolution(primary, height, first, second),
        r2 == spec_resolution(primary, height, first, second),
    ensures
        r1 == r2,
{
}

/// What the driver promises of its result, given the outcome of the
/// primary's round trip: whatever the resolution still needs — the
/// archive's round trip after a redirect, the decode of a retrieved
/// payload — happened, once each, and decided `r` as the protocol says.
pub open spec fn resolved_from<
    F: Fn(BlockCall) -> CallOutcome,
    D: Fn(EncodedBlock) -> Option<Block>,
>(
    gateway: F,
    decoder: D,
    primary: EndpointId,
    height: BlockHeight,
    first: CallOutcome,
    r: Result<Block, LookupFailure>,
) -> bool {
    match spec_after_primary(primary, height, first) {
        ResolveStep::Done(done) => match done {
            Ok(e) => exists|d: Option<Block>|
                #[trigger] call_ensures(decoder, (e,), d) && r == spec_after_decode(d),
            Err(f) => r == Err::<Block, LookupFailure>(f),
        },
        ResolveStep::FollowRedirect(c2) => exists|second: CallOutcome|
            #[trigger] call_ensures(gateway, (c2,), second) && match spec_after_archive(
                c2.endpoint,
                second,
            ) {
                Ok(e) => exists|d: Option<Block>|
                    #[trigger] call_ensures(decoder, (e,), d) && r == spec_after_decode(d),
                Err(f) => r == Err::<Block, LookupFailure>(f),
            },
    }
}

/// Resolves `height` to its decoded block. `gateway` performs one remote
/// round trip for the call it is given: it is invoked once for the
/// primary's lookup and, exactly when the primary redirects, once more
/// for the named archive's lookup — never a third time. `decoder` is the
/// ledger domain's decode, invoked once, exactly on a retrieved payload.
pub fn resolve_block<F: Fn(BlockCall) -> CallOutcome, D: Fn(EncodedBlock) -> Option<Block>>(
    gateway: F,
    decoder: D,
    primary: EndpointId,
    height: BlockHeight,
) -> (r: Result<Block, LookupFailure>)
    requires
        call_requires(gateway, (spec_start_call(primary, height),)),
        forall|target: EndpointId| #[trigger] call_requires(
            gateway,
            (spec_archive_call(target, height),),
        ),
        forall|e: EncodedBlock| #[trigger] call_requires(decoder, (e,)),
    ensures
        exists|first: CallOutcome|
            #[trigger] call_ensures(gateway, (spec_start_call(primary, height),), first)
                && resolved_from(gateway, decoder, primary, height, first, r),
{
    let first_call = start_call(primary, height);
    let out1 = gateway(first_call);
    match after_primary(primary, height, out1) {
        ResolveStep::Done(done) => match done {
            Ok(e) => {
                let d = decoder(e);
                after_decode(d)
            },
            Err(f) => Err(f),
        },
        ResolveStep::FollowRedirect(second_call) => {
            let out2 = gateway(second_call);
            match after_archive(second_call.endpoint, out2) {
                Ok(e) => {
                    let d = decoder(e);
                    after_decode(d)
                },
                Err(f) => Err(f),
            }
        },
    }
}

} // verus!
