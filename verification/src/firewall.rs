//! The classifier: from a frame and a blocklist to a decision.

use crate::action::Decision;
use crate::blocklist::Blocklist;
use crate::frame::{FrameBuffer, Truncated};
use crate::headers::{
    ether_type, has_eth_hdr, has_ipv4_hdr, is_ipv4, read_ether_type, read_source_address,
    source_address, ETHER_TYPE_IPV4,
};
use vstd::prelude::*;

verus! {

/// The frame holds an Ethernet header that announces IPv4.
pub open spec fn announces_ipv4(frame: Seq<u8>) -> bool {
    has_eth_hdr(frame) && ether_type(frame) == ETHER_TYPE_IPV4
}

/// The frame announces IPv4 and holds the whole IPv4 header.
pub open spec fn well_formed_ipv4(frame: Seq<u8>) -> bool {
    announces_ipv4(frame) && has_ipv4_hdr(frame)
}

/// The address by which a frame is looked up, for the frames that are looked
/// up at all: `Ok(Some(source))` for a well-formed IPv4 frame, `Ok(None)` for
/// a frame of another protocol, `Err` for a frame cut short.
pub open spec fn frame_key(frame: Seq<u8>) -> Result<Option<u32>, Truncated> {
    if !has_eth_hdr(frame) {
        Err(Truncated)
    } else if ether_type(frame) != ETHER_TYPE_IPV4 {
        Ok(None)
    } else if !has_ipv4_hdr(frame) {
        Err(Truncated)
    } else {
        Ok(Some(source_address(frame)))
    }
}

/// The decision for a frame whose key is `key`, given whether the blocklist
/// holds that key.
pub open spec fn decision_for(key: Result<Option<u32>, Truncated>, entries: Map<u32, u32>) -> Decision {
    match key {
        Err(_) => Decision::Abort,
        Ok(None) => Decision::Pass,
        Ok(Some(address)) => if entries.contains_key(address) {
            Decision::Drop
        } else {
            Decision::Pass
        },
    }
}

/// The decision the filter reaches on `frame` when the blocklist holds
/// `entries`.
pub open spec fn decision(frame: Seq<u8>, entries: Map<u32, u32>) -> Decision {
    decision_for(frame_key(frame), entries)
}

/// Whether `address` is blocked: whether the blocklist holds it.
pub fn block_ip(blocklist: &Blocklist, address: u32) -> (blocked: bool)
    ensures
        blocked == blocklist@.contains_key(address),
{
    blocklist.get(address).is_some()
}

/// Derives the lookup key of a frame: parses the Ethernet header and, for
/// IPv4, the source address behind it.
pub fn classification_key(ctx: &FrameBuffer) -> (key: Result<Option<u32>, Truncated>)
    ensures
        key == frame_key(ctx@),
{
    let ty = read_ether_type(ctx)?;
    if !is_ipv4(ty) {
        return Ok(None);
    }
    let source_addr = read_source_address(ctx)?;
    Ok(Some(source_addr))
}

/// The code of the decision for an IPv4 frame, given whether its source is
/// listed: drop what is listed, pass everything else.
pub fn verdict_for(listed: bool) -> (action: u32)
    ensures
        action == if listed { Decision::Drop.code() } else { Decision::Pass.code() },
{
    if listed {
        Decision::Drop.code()
    } else {
        Decision::Pass.code()
    }
}

/// Classifies one frame, keeping a parse failure apart from the decisions.
///
/// Returns `Err(Truncated)` for exactly the frames that are to be aborted,
/// and otherwise the code of pass or drop.
pub fn try_xdp_firewall(ctx: &FrameBuffer, blocklist: &Blocklist) -> (action: Result<u32, Truncated>)
    ensures
        action is Err <==> decision(ctx@, blocklist@) == Decision::Abort,
        action matches Ok(code) ==> code == decision(ctx@, blocklist@).code(),
{
    match classification_key(ctx)? {
        None => Ok(Decision::Pass.code()),
        Some(source_addr) => Ok(verdict_for(block_ip(blocklist, source_addr))),
    }
}

/// Classifies one frame. Every frame gets a decision: a frame that cannot be
/// parsed is aborted, not passed.
pub fn xdp_firewall(ctx: &FrameBuffer, blocklist: &Blocklist) -> (action: u32)
    ensures
        action == decision(ctx@, blocklist@).code(),
        !has_eth_hdr(ctx@) ==> action == Decision::Abort.code(),
        has_eth_hdr(ctx@) && ether_type(ctx@) != ETHER_TYPE_IPV4 ==> action
            == Decision::Pass.code(),
        announces_ipv4(ctx@) && !has_ipv4_hdr(ctx@) ==> action == Decision::Abort.code(),
        well_formed_ipv4(ctx@) && !blocklist@.contains_key(source_address(ctx@)) ==> action
            == Decision::Pass.code(),
        well_formed_ipv4(ctx@) && blocklist@.contains_key(source_address(ctx@)) ==> action
            == Decision::Drop.code(),
{
    match try_xdp_firewall(ctx, blocklist) {
        Ok(ret) => ret,
        Err(_) => Decision::Abort.code(),
    }
}

} // verus!
