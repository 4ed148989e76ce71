//! Addresses and attachment-point identity.
//!
//! A hardware (link-layer) address is six bytes, a network-layer address is
//! four bytes, and an attachment point is identified by one of each.

use vstd::prelude::*;

verus! {

/// A six-byte link-layer hardware address.
#[derive(Clone, Copy, Debug, PartialEq, Eq, Structural)]
pub struct MacAddr(pub u8, pub u8, pub u8, pub u8, pub u8, pub u8);

impl View for MacAddr {
    type V = Seq<u8>;

    open spec fn view(&self) -> Seq<u8> {
        seq![self.0, self.1, self.2, self.3, self.4, self.5]
    }
}

impl MacAddr {
    /// The all-ones broadcast address.
    pub fn broadcast() -> (m: MacAddr)
        ensures
            m == MacAddr(0xff, 0xff, 0xff, 0xff, 0xff, 0xff),
    {
        MacAddr(0xff, 0xff, 0xff, 0xff, 0xff, 0xff)
    }

    /// The all-zero placeholder address.
    pub fn zero() -> (m: MacAddr)
        ensures
            m == MacAddr(0, 0, 0, 0, 0, 0),
    {
        MacAddr(0, 0, 0, 0, 0, 0)
    }
}

/// A four-byte network-layer (IPv4-style) address.
#[derive(Clone, Copy, Debug, PartialEq, Eq, Structural)]
pub struct Ipv4Addr(pub u8, pub u8, pub u8, pub u8);

impl View for Ipv4Addr {
    type V = Seq<u8>;

    open spec fn view(&self) -> Seq<u8> {
        seq![self.0, self.1, self.2, self.3]
    }
}

/// The numeric value of a network-layer address, used as the cache key.
pub open spec fn spec_ipv4_key(a: Ipv4Addr) -> u32 {
    (a.0 * 0x1000000 + a.1 * 0x10000 + a.2 * 0x100 + a.3) as u32
}

/// Computes the cache key of a network-layer address.
pub fn ipv4_key(a: Ipv4Addr) -> (k: u32)
    ensures
        k == spec_ipv4_key(a),
{
    (a.0 as u32) * 0x1000000 + (a.1 as u32) * 0x10000 + (a.2 as u32) * 0x100 + (a.3 as u32)
}

/// The identity of one attachment point: its hardware address and its own
/// network-layer address. Immutable after startup.
#[derive(Clone, Copy, Debug, PartialEq, Eq, Structural)]
pub struct Iface {
    pub mac: MacAddr,
    pub ipv4: Ipv4Addr,
}

} // verus!
