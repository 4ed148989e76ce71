//! A verified two-port transparent bridge: frames received on one attachment
//! point are forwarded out the other after the destination's hardware address
//! has been resolved through a shared ARP cache.

pub mod addr;
pub mod arp_packet;
pub mod arp_table;
pub mod engine;
pub mod frame;
