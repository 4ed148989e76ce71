//! Raw-frame field access and the forwarding rewrite.
//!
//! Frames are byte vectors with the usual fixed layout: destination hardware
//! address at offset 0, source hardware address at offset 6, a big-endian
//! type field at offset 12, and the payload from offset 14 on. For a payload
//! frame the embedded network-layer header starts at offset 14 and carries
//! its destination address at offset 16 within that header.

use vstd::prelude::*;

use crate::addr::MacAddr;
use crate::addr::Ipv4Addr;

verus! {

/// Frame type field value marking an address-resolution message.
pub const ETHERTYPE_ARP: u16 = 0x0806;

/// Length of the link-layer header.
pub const ETHER_HEADER_LEN: usize = 14;

/// Shortest frame on which a network-layer destination can be read:
/// link-layer header plus a minimal network-layer header.
pub const MIN_IPV4_FRAME_LEN: usize = 34;

/// The big-endian 16-bit value at offset `i`.
pub open spec fn spec_be16(f: Seq<u8>, i: int) -> u16 {
    (f[i] * 0x100 + f[i + 1]) as u16
}

/// The big-endian 32-bit value at offset `i`.
pub open spec fn spec_be32(f: Seq<u8>, i: int) -> u32 {
    (f[i] * 0x1000000 + f[i + 1] * 0x10000 + f[i + 2] * 0x100 + f[i + 3]) as u32
}

/// The six-byte hardware address starting at offset `i`.
pub open spec fn spec_mac_at(f: Seq<u8>, i: int) -> MacAddr {
    MacAddr(f[i], f[i + 1], f[i + 2], f[i + 3], f[i + 4], f[i + 5])
}

/// The four-byte network-layer address starting at offset `i`.
pub open spec fn spec_ipv4_at(f: Seq<u8>, i: int) -> Ipv4Addr {
    Ipv4Addr(f[i], f[i + 1], f[i + 2], f[i + 3])
}

/// The frame's type field.
pub open spec fn spec_ethertype(f: Seq<u8>) -> u16 {
    spec_be16(f, 12)
}

/// Whether the frame is an address-resolution message.
pub open spec fn spec_is_arp(f: Seq<u8>) -> bool {
    spec_ethertype(f) == ETHERTYPE_ARP
}

/// The cache key of a payload frame's network-layer destination address.
pub open spec fn spec_ipv4_dest_key(f: Seq<u8>) -> u32 {
    spec_be32(f, 30)
}

/// The network-layer destination address of a payload frame.
pub open spec fn spec_ipv4_dest(f: Seq<u8>) -> Ipv4Addr {
    spec_ipv4_at(f, 30)
}

/// The forwarded image of frame `f`: fresh destination and source hardware
/// addresses, then everything of `f` from its type field on.
pub open spec fn spec_rewrite(f: Seq<u8>, dst: MacAddr, src: MacAddr) -> Seq<u8> {
    dst@ + src@ + f.skip(12)
}

/// Reads the frame's type field.
pub fn ethertype(packet: &Vec<u8>) -> (t: u16)
    requires
        packet@.len() >= ETHER_HEADER_LEN,
    ensures
        t == spec_ethertype(packet@),
{
    (packet[12] as u16) * 0x100 + (packet[13] as u16)
}

/// Tests whether the frame is an address-resolution message.
pub fn is_arp_frame(packet: &Vec<u8>) -> (b: bool)
    requires
        packet@.len() >= ETHER_HEADER_LEN,
    ensures
        b == spec_is_arp(packet@),
{
    ethertype(packet) == ETHERTYPE_ARP
}

/// Reads the cache key of the payload frame's destination address.
pub fn ipv4_dest_key(packet: &Vec<u8>) -> (k: u32)
    requires
        packet@.len() >= MIN_IPV4_FRAME_LEN,
    ensures
        k == spec_ipv4_dest_key(packet@),
{
    (packet[30] as u32) * 0x1000000 + (packet[31] as u32) * 0x10000 + (packet[32] as u32) * 0x100
        + (packet[33] as u32)
}

/// Reads the payload frame's destination address.
pub fn ipv4_dest(packet: &Vec<u8>) -> (a: Ipv4Addr)
    requires
        packet@.len() >= MIN_IPV4_FRAME_LEN,
    ensures
        a == spec_ipv4_dest(packet@),
{
    Ipv4Addr(packet[30], packet[31], packet[32], packet[33])
}

/// Appends the six bytes of a hardware address.
pub(crate) fn push_mac(v: &mut Vec<u8>, m: MacAddr)
    ensures
        final(v)@ == old(v)@ + m@,
{
    v.push(m.0);
    v.push(m.1);
    v.push(m.2);
    v.push(m.3);
    v.push(m.4);
    v.push(m.5);
    assert(v@ =~= old(v)@ + m@);
}

/// Appends the four bytes of a network-layer address.
pub(crate) fn push_ipv4(v: &mut Vec<u8>, a: Ipv4Addr)
    ensures
        final(v)@ == old(v)@ + a@,
{
    v.push(a.0);
    v.push(a.1);
    v.push(a.2);
    v.push(a.3);
    assert(v@ =~= old(v)@ + a@);
}

/// Builds the forwarded image of `packet`: the resolved destination and the
/// transmitting attachment point's own address, followed by the original
/// frame from its type field on.
pub fn rewrite_frame(packet: &Vec<u8>, dst: MacAddr, src: MacAddr) -> (r: Vec<u8>)
    requires
        packet@.len() >= 12,
    ensures
        r@ == spec_rewrite(packet@, dst, src),
{
    let mut v: Vec<u8> = Vec::new();
    push_mac(&mut v, dst);
    push_mac(&mut v, src);
    let mut i: usize = 12;
    while i < packet.len()
        invariant
            12 <= i <= packet@.len(),
            v@ == dst@ + src@ + packet@.subrange(12, i as int),
        decreases packet@.len() - i,
    {
        v.push(packet[i]);
        proof {
            assert(packet@.subrange(12, i + 1) =~= packet@.subrange(12, i as int).push(
                packet@[i as int],
            ));
        }
        i += 1;
    }
    proof {
        assert(packet@.subrange(12, packet@.len() as int) =~= packet@.skip(12));
    }
    v
}

} // verus!
