//! The two headers the filter looks at: where they lie in a frame, and how
//! the fields it needs are decoded from the bytes.

use crate::frame::{ptr_at, window, FrameBuffer, Truncated};
use vstd::prelude::*;

verus! {

/// Length in bytes of an Ethernet header.
pub const ETH_HDR_LEN: usize = 14;

/// Length in bytes of an IPv4 header without options.
pub const IPV4_HDR_LEN: usize = 20;

/// Offset of the EtherType field inside an Ethernet header.
pub const ETHER_TYPE_OFFSET: usize = 12;

/// Offset of the source address inside an IPv4 header.
pub const SRC_ADDR_OFFSET: usize = 12;

/// The EtherType that announces an IPv4 payload.
pub const ETHER_TYPE_IPV4: u16 = 0x0800;

/// The 16-bit number whose big-endian encoding is `hi, lo`.
pub open spec fn be16(hi: u8, lo: u8) -> u16 {
    (hi * 0x100 + lo) as u16
}

/// The 32-bit number whose big-endian encoding is `b0, b1, b2, b3`.
pub open spec fn be32(b0: u8, b1: u8, b2: u8, b3: u8) -> u32 {
    (b0 * 0x100_0000 + b1 * 0x1_0000 + b2 * 0x100 + b3) as u32
}

/// The frame is long enough to hold an Ethernet header.
pub open spec fn has_eth_hdr(frame: Seq<u8>) -> bool {
    frame.len() >= ETH_HDR_LEN
}

/// The frame is long enough to hold an Ethernet header followed by an IPv4
/// header.
pub open spec fn has_ipv4_hdr(frame: Seq<u8>) -> bool {
    frame.len() >= ETH_HDR_LEN + IPV4_HDR_LEN
}

/// EtherType of a frame that holds an Ethernet header, in host byte order.
pub open spec fn ether_type(frame: Seq<u8>) -> u16
    recommends
        has_eth_hdr(frame),
{
    be16(frame[ETHER_TYPE_OFFSET as int], frame[ETHER_TYPE_OFFSET + 1])
}

/// Source address of a frame that holds an Ethernet and an IPv4 header, in
/// host byte order.
pub open spec fn source_address(frame: Seq<u8>) -> u32
    recommends
        has_ipv4_hdr(frame),
{
    let at = ETH_HDR_LEN + SRC_ADDR_OFFSET;
    be32(frame[at], frame[at + 1], frame[at + 2], frame[at + 3])
}

/// Reads `network_types::eth::EthHdr::LEN`, the size of the crate's packed
/// Ethernet header struct: two 6-byte addresses and a 16-bit type, 14 bytes.
#[verifier::external_body]
fn eth_hdr_len() -> (len: usize)
    ensures
        len == ETH_HDR_LEN,
{
    network_types::eth::EthHdr::LEN
}

/// Reads `network_types::ip::Ipv4Hdr::LEN`, the size of the crate's IPv4
/// header struct, which lays out the 20 bytes of a header without options.
#[verifier::external_body]
fn ipv4_hdr_len() -> (len: usize)
    ensures
        len == IPV4_HDR_LEN,
{
    network_types::ip::Ipv4Hdr::LEN
}

/// Reads `network_types::eth::EtherType::Ipv4`. The crate stores the
/// discriminant in network byte order (`0x0800_u16.to_be()`); `u16::from_be`
/// brings it back to host order, which gives 0x0800 on every machine.
#[verifier::external_body]
fn ether_type_ipv4() -> (ty: u16)
    ensures
        ty == ETHER_TYPE_IPV4,
{
    u16::from_be(network_types::eth::EtherType::Ipv4 as u16)
}

/// Decodes a big-endian 16-bit field.
fn load_be16(hi: u8, lo: u8) -> (value: u16)
    ensures
        value == be16(hi, lo),
{
    (hi as u16) * 0x100 + (lo as u16)
}

/// Decodes a big-endian 32-bit field.
pub(crate) fn load_be32(b0: u8, b1: u8, b2: u8, b3: u8) -> (value: u32)
    ensures
        value == be32(b0, b1, b2, b3),
{
    (b0 as u32) * 0x100_0000 + (b1 as u32) * 0x1_0000 + (b2 as u32) * 0x100 + (b3 as u32)
}

/// Reads the EtherType from the Ethernet header at the start of the frame.
///
/// Fails exactly when the frame is too short to hold an Ethernet header.
pub fn read_ether_type(ctx: &FrameBuffer) -> (ty: Result<u16, Truncated>)
    ensures
        ty is Ok <==> has_eth_hdr(ctx@),
        ty matches Ok(t) ==> t == ether_type(ctx@),
{
    let ethhdr = ptr_at(ctx, 0, eth_hdr_len())?;
    assert(ethhdr@ == window(ctx@, 0, ETH_HDR_LEN as int));
    Ok(load_be16(ethhdr[ETHER_TYPE_OFFSET], ethhdr[ETHER_TYPE_OFFSET + 1]))
}

/// Reads the source address from the IPv4 header that follows the Ethernet
/// header, and converts it from network to host byte order.
///
/// Fails exactly when the frame is too short to hold both headers.
pub fn read_source_address(ctx: &FrameBuffer) -> (addr: Result<u32, Truncated>)
    ensures
        addr is Ok <==> has_ipv4_hdr(ctx@),
        addr matches Ok(a) ==> a == source_address(ctx@),
{
    let ipv4hdr = ptr_at(ctx, eth_hdr_len(), ipv4_hdr_len())?;
    assert(ipv4hdr@ == window(ctx@, ETH_HDR_LEN as int, IPV4_HDR_LEN as int));
    Ok(
        load_be32(
            ipv4hdr[SRC_ADDR_OFFSET],
            ipv4hdr[SRC_ADDR_OFFSET + 1],
            ipv4hdr[SRC_ADDR_OFFSET + 2],
            ipv4hdr[SRC_ADDR_OFFSET + 3],
        ),
    )
}

/// Whether `ty` is the EtherType of IPv4.
pub fn is_ipv4(ty: u16) -> (yes: bool)
    ensures
        yes == (ty == ETHER_TYPE_IPV4),
{
    ty == ether_type_ipv4()
}

} // verus!
