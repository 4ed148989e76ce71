//! Address-resolution message layout and the broadcast request builder.
//!
//! A resolution message follows the link-layer header (offset 14) with:
//! hardware type (2 bytes), protocol type (2 bytes), address lengths
//! (1 byte each), operation (2 bytes), sender hardware address (6 bytes,
//! offset 22 in the frame), sender network-layer address (4 bytes, offset
//! 28), target hardware address (6 bytes, offset 32) and target
//! network-layer address (4 bytes, offset 38), 42 bytes in all.

use vstd::prelude::*;

use crate::addr::Iface;
use crate::addr::Ipv4Addr;
use crate::addr::MacAddr;
use crate::addr::spec_ipv4_key;
use crate::frame::spec_be16;
use crate::frame::spec_be32;
use crate::frame::spec_ethertype;
use crate::frame::spec_ipv4_at;
use crate::frame::spec_is_arp;
use crate::frame::spec_mac_at;
use crate::frame::push_ipv4;
use crate::frame::push_mac;

verus! {

/// Length of a whole resolution-message frame.
pub const MIN_ARP_FRAME_LEN: usize = 42;

/// The sender's hardware address stated in a resolution message.
pub open spec fn spec_arp_sender_mac(f: Seq<u8>) -> MacAddr {
    spec_mac_at(f, 22)
}

/// The cache key of the sender's network-layer address stated in a
/// resolution message.
pub open spec fn spec_arp_sender_key(f: Seq<u8>) -> u32 {
    spec_be32(f, 28)
}

/// The sender's network-layer address stated in a resolution message.
pub open spec fn spec_arp_sender_ip(f: Seq<u8>) -> Ipv4Addr {
    spec_ipv4_at(f, 28)
}

/// The target hardware address stated in a resolution message.
pub open spec fn spec_arp_target_mac(f: Seq<u8>) -> MacAddr {
    spec_mac_at(f, 32)
}

/// The cache key of the target network-layer address stated in a
/// resolution message.
pub open spec fn spec_arp_target_key(f: Seq<u8>) -> u32 {
    spec_be32(f, 38)
}

/// Reads the sender hardware address of a resolution message.
pub fn arp_sender_mac(packet: &Vec<u8>) -> (m: MacAddr)
    requires
        packet@.len() >= MIN_ARP_FRAME_LEN,
    ensures
        m == spec_arp_sender_mac(packet@),
{
    MacAddr(packet[22], packet[23], packet[24], packet[25], packet[26], packet[27])
}

/// Reads the cache key of the sender network-layer address of a resolution
/// message.
pub fn arp_sender_key(packet: &Vec<u8>) -> (k: u32)
    requires
        packet@.len() >= MIN_ARP_FRAME_LEN,
    ensures
        k == spec_arp_sender_key(packet@),
{
    (packet[28] as u32) * 0x1000000 + (packet[29] as u32) * 0x10000 + (packet[30] as u32) * 0x100
        + (packet[31] as u32)
}

/// Reads the target hardware address of a resolution message.
pub fn arp_target_mac(packet: &Vec<u8>) -> (m: MacAddr)
    requires
        packet@.len() >= MIN_ARP_FRAME_LEN,
    ensures
        m == spec_arp_target_mac(packet@),
{
    MacAddr(packet[32], packet[33], packet[34], packet[35], packet[36], packet[37])
}

/// The broadcast resolution-request frame that asks for `target_ip` on
/// behalf of the attachment point with the given addresses.
pub open spec fn spec_arp_request(sender_mac: MacAddr, sender_ip: Ipv4Addr, target_ip: Ipv4Addr) -> Seq<u8> {
    seq![0xffu8, 0xff, 0xff, 0xff, 0xff, 0xff]  // broadcast destination
    + sender_mac@  // frame source
    + seq![0x08u8, 0x06]  // type field: resolution message
    + seq![0x00u8, 0x01]  // hardware type
    + seq![0x08u8, 0x00]  // protocol type
    + seq![0x06u8, 0x04]  // address lengths
    + seq![0x00u8, 0x01]  // operation: request
    + sender_mac@ + sender_ip@  // sender addresses
    + seq![0x00u8, 0x00, 0x00, 0x00, 0x00, 0x00]  // target hardware: unknown
    + target_ip@
}

/// Builds the broadcast resolution request that `iface` transmits to
/// resolve `target_ip`. Pure construction, no side effects.
pub fn gen_arp_request(iface: Iface, target_ip: Ipv4Addr) -> (r: Vec<u8>)
    ensures
        r@ == spec_arp_request(iface.mac, iface.ipv4, target_ip),
{
    let mut v: Vec<u8> = Vec::new();
    push_mac(&mut v, MacAddr::broadcast());
    push_mac(&mut v, iface.mac);
    v.push(0x08);
    v.push(0x06);
    v.push(0x00);
    v.push(0x01);
    v.push(0x08);
    v.push(0x00);
    v.push(0x06);
    v.push(0x04);
    v.push(0x00);
    v.push(0x01);
    push_mac(&mut v, iface.mac);
    push_ipv4(&mut v, iface.ipv4);
    push_mac(&mut v, MacAddr::zero());
    push_ipv4(&mut v, target_ip);
    proof {
        assert(v@ =~= spec_arp_request(iface.mac, iface.ipv4, target_ip));
    }
    v
}

/// What a built request states in its fields: it is a resolution message,
/// its sender fields identify the transmitting attachment point, its target
/// hardware address is unknown, and its target network-layer address is the
/// address being resolved.
pub proof fn lemma_arp_request_fields(sender_mac: MacAddr, sender_ip: Ipv4Addr, target_ip: Ipv4Addr)
    ensures
        spec_arp_request(sender_mac, sender_ip, target_ip).len() == MIN_ARP_FRAME_LEN,
        spec_is_arp(spec_arp_request(sender_mac, sender_ip, target_ip)),
        spec_arp_sender_mac(spec_arp_request(sender_mac, sender_ip, target_ip)) == sender_mac,
        spec_arp_sender_ip(spec_arp_request(sender_mac, sender_ip, target_ip)) == sender_ip,
        spec_arp_sender_key(spec_arp_request(sender_mac, sender_ip, target_ip)) == spec_ipv4_key(
            sender_ip,
        ),
        spec_arp_target_mac(spec_arp_request(sender_mac, sender_ip, target_ip)) == MacAddr(
            0,
            0,
            0,
            0,
            0,
            0,
        ),
        spec_arp_target_key(spec_arp_request(sender_mac, sender_ip, target_ip)) == spec_ipv4_key(
            target_ip,
        ),
{
    let r = spec_arp_request(sender_mac, sender_ip, target_ip);
    assert(r.len() == 42);
    assert(r[12] == 0x08 && r[13] == 0x06);
    assert(r[22] == sender_mac.0 && r[23] == sender_mac.1 && r[24] == sender_mac.2 && r[25]
        == sender_mac.3 && r[26] == sender_mac.4 && r[27] == sender_mac.5);
    assert(r[28] == sender_ip.0 && r[29] == sender_ip.1 && r[30] == sender_ip.2 && r[31]
        == sender_ip.3);
    assert(r[32] == 0 && r[33] == 0 && r[34] == 0 && r[35] == 0 && r[36] == 0 && r[37] == 0);
    assert(r[38] == target_ip.0 && r[39] == target_ip.1 && r[40] == target_ip.2 && r[41]
        == target_ip.3);
}

} // verus!
