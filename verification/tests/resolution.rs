use std::cell::Cell;

use ledger_history::endpoint::EndpointId;
use ledger_history::resolver::{
    after_archive, after_decode, after_primary, method_name, resolve_block, start_archive_call,
    start_call, Block, BlockCall, BlockReply, CallOutcome, EncodedBlock, LookupFailure,
    LookupMethod, ResolveStep,
};

fn endpoint(tag: u8) -> EndpointId {
    EndpointId::from_bytes(&[tag]).unwrap()
}

fn decode(e: EncodedBlock) -> Option<Block> {
    Some(Block { content: e.bytes })
}

#[test]
fn method_names_match_the_wire_protocol() {
    assert_eq!(method_name(LookupMethod::Primary), "block_pb");
    assert_eq!(method_name(LookupMethod::Archive), "get_block_pb");
}

#[test]
fn start_call_addresses_the_primary() {
    let primary = endpoint(1);
    let c = start_call(primary, 55);
    assert_eq!(c.endpoint, primary);
    assert_eq!(c.method, LookupMethod::Primary);
    assert_eq!(c.height, 55);
}

#[test]
fn direct_hit_uses_one_call() {
    let primary = endpoint(1);
    let calls = Cell::new(0u32);
    let gw = |c: BlockCall| {
        calls.set(calls.get() + 1);
        assert_eq!(c.endpoint, primary);
        assert_eq!(c.method, LookupMethod::Primary);
        assert_eq!(c.height, 7);
        CallOutcome::Replied(BlockReply::Found(EncodedBlock { bytes: vec![9, 8, 7] }))
    };
    let r = resolve_block(gw, decode, primary, 7);
    assert_eq!(calls.get(), 1);
    assert_eq!(r, Ok(Block { content: vec![9, 8, 7] }));
}

#[test]
fn redirect_then_hit_uses_two_calls_addressed_to_the_archive() {
    let primary = endpoint(1);
    let archive = endpoint(2);
    let calls = Cell::new(0u32);
    let gw = |c: BlockCall| {
        calls.set(calls.get() + 1);
        match c.method {
            LookupMethod::Primary => {
                assert_eq!(c.endpoint, primary);
                assert_eq!(c.height, 300);
                CallOutcome::Replied(BlockReply::Redirect(archive))
            }
            LookupMethod::Archive => {
                assert_eq!(c.endpoint, archive);
                assert_eq!(c.height, 300);
                CallOutcome::Replied(BlockReply::Found(EncodedBlock { bytes: vec![4] }))
            }
        }
    };
    let r = resolve_block(gw, decode, primary, 300);
    assert_eq!(calls.get(), 2);
    assert_eq!(r, Ok(Block { content: vec![4] }));
}

#[test]
fn archive_redirect_is_not_followed() {
    let primary = endpoint(1);
    let archive = endpoint(2);
    let elsewhere = endpoint(3);
    let calls = Cell::new(0u32);
    let gw = |c: BlockCall| {
        calls.set(calls.get() + 1);
        match c.method {
            LookupMethod::Primary => CallOutcome::Replied(BlockReply::Redirect(archive)),
            LookupMethod::Archive => CallOutcome::Replied(BlockReply::Redirect(elsewhere)),
        }
    };
    let r = resolve_block(gw, decode, primary, 12);
    assert_eq!(calls.get(), 2);
    assert_eq!(r, Err(LookupFailure::UnresolvedRedirect(archive)));
}

#[test]
fn absent_height_fails_not_found_with_one_call() {
    let primary = endpoint(1);
    let calls = Cell::new(0u32);
    let gw = |_c: BlockCall| {
        calls.set(calls.get() + 1);
        CallOutcome::Replied(BlockReply::Absent)
    };
    let r = resolve_block(gw, decode, primary, 0);
    assert_eq!(calls.get(), 1);
    assert_eq!(r, Err(LookupFailure::NotFound));
}

#[test]
fn absent_at_the_archive_fails_not_found() {
    let primary = endpoint(1);
    let archive = endpoint(2);
    let gw = |c: BlockCall| match c.method {
        LookupMethod::Primary => CallOutcome::Replied(BlockReply::Redirect(archive)),
        LookupMethod::Archive => CallOutcome::Replied(BlockReply::Absent),
    };
    let r = resolve_block(gw, decode, primary, 4);
    assert_eq!(r, Err(LookupFailure::NotFound));
}

#[test]
fn transport_failure_on_the_first_hop_names_the_primary() {
    let primary = endpoint(1);
    let gw = |_c: BlockCall| CallOutcome::Unreachable("connection reset".to_string());
    let r = resolve_block(gw, decode, primary, 9);
    assert_eq!(
        r,
        Err(LookupFailure::Transport {
            endpoint: primary,
            message: "connection reset".to_string(),
        })
    );
}

#[test]
fn transport_failure_on_the_second_hop_names_the_archive() {
    let primary = endpoint(1);
    let archive = endpoint(2);
    let gw = |c: BlockCall| match c.method {
        LookupMethod::Primary => CallOutcome::Replied(BlockReply::Redirect(archive)),
        LookupMethod::Archive => CallOutcome::Unreachable("no route".to_string()),
    };
    let r = resolve_block(gw, decode, primary, 9);
    assert_eq!(
        r,
        Err(LookupFailure::Transport { endpoint: archive, message: "no route".to_string() })
    );
}

#[test]
fn decode_failure_is_reported_not_swallowed() {
    let primary = endpoint(1);
    let gw = |_c: BlockCall| {
        CallOutcome::Replied(BlockReply::Found(EncodedBlock { bytes: vec![1, 2] }))
    };
    let r = resolve_block(gw, |_e: EncodedBlock| None, primary, 9);
    assert_eq!(r, Err(LookupFailure::DecodeFailure));
}

#[test]
fn resolution_is_idempotent_against_an_unchanged_backend() {
    let primary = endpoint(1);
    let archive = endpoint(2);
    let gw = |c: BlockCall| match c.method {
        LookupMethod::Primary => CallOutcome::Replied(BlockReply::Redirect(archive)),
        LookupMethod::Archive => {
            CallOutcome::Replied(BlockReply::Found(EncodedBlock { bytes: vec![6, 6] }))
        }
    };
    let r1 = resolve_block(gw, decode, primary, 21);
    let r2 = resolve_block(gw, decode, primary, 21);
    assert_eq!(r1, r2);
    assert_eq!(r1, Ok(Block { content: vec![6, 6] }));
}

#[test]
fn step_functions_classify_each_outcome() {
    let primary = endpoint(1);
    let archive = endpoint(2);
    assert_eq!(
        after_primary(primary, 5, CallOutcome::Replied(BlockReply::Absent)),
        ResolveStep::Done(Err(LookupFailure::NotFound))
    );
    assert_eq!(
        after_primary(primary, 5, CallOutcome::Replied(BlockReply::Redirect(archive))),
        ResolveStep::FollowRedirect(start_archive_call(archive, 5))
    );
    assert_eq!(
        after_archive(archive, CallOutcome::Replied(BlockReply::Redirect(primary))),
        Err(LookupFailure::UnresolvedRedirect(archive))
    );
    assert_eq!(
        after_archive(archive, CallOutcome::Replied(BlockReply::Found(EncodedBlock {
            bytes: vec![3],
        }))),
        Ok(EncodedBlock { bytes: vec![3] })
    );
    assert_eq!(after_decode(None), Err(LookupFailure::DecodeFailure));
    assert_eq!(
        after_decode(Some(Block { content: vec![1] })),
        Ok(Block { content: vec![1] })
    );
}
