//! The dual-port forwarding engine.
//!
//! Two symmetric worker loops run concurrently, one per attachment point;
//! each consumes frames from its own transport and produces frames on the
//! other attachment point's transport, sharing one resolution cache. The
//! functions here are the decisions of one such loop for one inbound frame:
//! the caller performs the transmissions, the inter-attempt pauses and the
//! locking of the shared cache.

use vstd::prelude::*;

use crate::addr::Iface;
use crate::addr::MacAddr;
use crate::arp_packet::MIN_ARP_FRAME_LEN;
use crate::arp_packet::arp_sender_key;
use crate::arp_packet::arp_sender_mac;
use crate::arp_packet::arp_target_mac;
use crate::arp_packet::gen_arp_request;
use crate::arp_packet::spec_arp_request;
use crate::arp_packet::spec_arp_sender_key;
use crate::arp_packet::spec_arp_sender_mac;
use crate::arp_packet::spec_arp_target_mac;
use crate::arp_table::ArpTable;
use crate::frame::ETHER_HEADER_LEN;
use crate::frame::MIN_IPV4_FRAME_LEN;
use crate::frame::ipv4_dest;
use crate::frame::ipv4_dest_key;
use crate::frame::is_arp_frame;
use crate::frame::rewrite_frame;
use crate::frame::spec_ipv4_dest;
use crate::frame::spec_ipv4_dest_key;
use crate::frame::spec_is_arp;
use crate::frame::spec_rewrite;

verus! {

/// Total number of cache lookups attempted for one payload frame.
pub const RETRY_LIMIT: u8 = 5;

/// One of the two attachment points of the bridge.
#[derive(Clone, Copy, Debug, PartialEq, Eq, Structural)]
pub enum Port {
    A,
    B,
}

/// The attachment point opposite `p`: the one a frame received on `p` is
/// forwarded toward.
pub open spec fn spec_opposite(p: Port) -> Port {
    match p {
        Port::A => Port::B,
        Port::B => Port::A,
    }
}

/// Returns the attachment point opposite `p`.
pub fn opposite(p: Port) -> (q: Port)
    ensures
        q == spec_opposite(p),
{
    match p {
        Port::A => Port::B,
        Port::B => Port::A,
    }
}

/// The whole bridge: the shared resolution cache and the identity of both
/// attachment points. The identities never change after startup.
pub struct Bridge {
    pub atbl: ArpTable,
    pub a: Iface,
    pub b: Iface,
}

/// The identity of attachment point `p` of bridge `br`.
pub open spec fn spec_iface(br: Bridge, p: Port) -> Iface {
    match p {
        Port::A => br.a,
        Port::B => br.b,
    }
}

/// A frame to transmit, together with the attachment point whose transport
/// it leaves on.
#[derive(Debug)]
pub struct Emission {
    pub port: Port,
    pub frame: Vec<u8>,
}

/// Learns from a resolution message received on the attachment point whose
/// identity is `iface`: if and only if the message's stated target hardware
/// address equals that attachment point's own hardware address, the stated
/// sender mapping is inserted into the cache; any other message leaves the
/// cache exactly as it was.
pub fn update_arp_table(atbl: &mut ArpTable, packet: &Vec<u8>, iface: Iface)
    requires
        packet@.len() >= MIN_ARP_FRAME_LEN,
    ensures
        spec_arp_target_mac(packet@) == iface.mac ==> final(atbl)@ == old(atbl)@.insert(
            spec_arp_sender_key(packet@),
            spec_arp_sender_mac(packet@),
        ),
        spec_arp_target_mac(packet@) != iface.mac ==> final(atbl)@ == old(atbl)@,
{
    let target = arp_target_mac(packet);
    if target == iface.mac {
        let key = arp_sender_key(packet);
        let mac = arp_sender_mac(packet);
        atbl.insert(key, mac);
    }
}

/// The decision of one resolution attempt for a payload frame.
#[derive(Debug)]
pub enum ResolveStep {
    /// The destination is resolved: transmit this frame on the opposite
    /// attachment point's transport.
    Forward(Vec<u8>),
    /// Not resolved, attempts remain: pause, then try again.
    Wait,
    /// Not resolved and this was the last attempt: discard the frame
    /// silently.
    Drop,
}

/// One attempt of the bounded retry protocol: looks the payload frame's
/// destination up in the cache and decides whether to forward, wait or
/// drop. `src_mac` is the transmitting (opposite) attachment point's own
/// hardware address; `attempts_left` counts this attempt.
pub fn resolve_attempt(atbl: &ArpTable, packet: &Vec<u8>, src_mac: MacAddr, attempts_left: u8) -> (step:
    ResolveStep)
    requires
        packet@.len() >= MIN_IPV4_FRAME_LEN,
        attempts_left >= 1,
    ensures
        atbl@.contains_key(spec_ipv4_dest_key(packet@)) ==> (step matches ResolveStep::Forward(f)
            && f@ == spec_rewrite(packet@, atbl@[spec_ipv4_dest_key(packet@)], src_mac)),
        !atbl@.contains_key(spec_ipv4_dest_key(packet@)) && attempts_left > 1 ==> step
            == ResolveStep::Wait,
        !atbl@.contains_key(spec_ipv4_dest_key(packet@)) && attempts_left == 1 ==> step
            == ResolveStep::Drop,
{
    let key = ipv4_dest_key(packet);
    match atbl.lookup(key) {
        Some(mac) => ResolveStep::Forward(rewrite_frame(packet, mac, src_mac)),
        None => {
            if attempts_left > 1 {
                ResolveStep::Wait
            } else {
                ResolveStep::Drop
            }
        },
    }
}

/// The cache views that the successive attempts of one retry run observe,
/// and what the run forwards: the first view holding the key decides, a run
/// whose views never hold the key forwards nothing.
pub open spec fn spec_retry_outcome(
    views: Seq<Map<u32, MacAddr>>,
    f: Seq<u8>,
    src_mac: MacAddr,
) -> Option<Seq<u8>>
    decreases views.len(),
{
    if views.len() == 0 {
        None
    } else if views[0].contains_key(spec_ipv4_dest_key(f)) {
        Some(spec_rewrite(f, views[0][spec_ipv4_dest_key(f)], src_mac))
    } else {
        spec_retry_outcome(views.drop_first(), f, src_mac)
    }
}

/// Retry exhaustion law: if no insertion for the payload frame's
/// destination is observed by any attempt of a retry run — however many
/// attempts the run makes — the run forwards no frame at all.
pub proof fn lemma_retry_exhaustion(views: Seq<Map<u32, MacAddr>>, f: Seq<u8>, src_mac: MacAddr)
    requires
        forall|i: int|
            0 <= i < views.len() ==> !(#[trigger] views[i]).contains_key(spec_ipv4_dest_key(f)),
    ensures
        spec_retry_outcome(views, f, src_mac) is None,
    decreases views.len(),
{
    if views.len() > 0 {
        lemma_retry_exhaustion(views.drop_first(), f, src_mac);
    }
}

/// First-hit law: a retry run whose very first attempt observes a cache
/// view holding the destination forwards the frame rewritten with that
/// view's entry.
pub proof fn lemma_retry_first_hit(views: Seq<Map<u32, MacAddr>>, f: Seq<u8>, src_mac: MacAddr)
    requires
        views.len() > 0,
        views[0].contains_key(spec_ipv4_dest_key(f)),
    ensures
        spec_retry_outcome(views, f, src_mac) == Some(
            spec_rewrite(f, views[0][spec_ipv4_dest_key(f)], src_mac),
        ),
{
}

/// Processes one inbound frame received on attachment point `rx`, exactly
/// as one worker loop does between two receives: classify, learn from a
/// resolution message, or resolve the destination (transmitting one
/// broadcast request on a cache miss, then attempting the lookup up to
/// `RETRY_LIMIT` times) and forward the rewritten frame. Returns the frames
/// to transmit, in transmission order; every one of them leaves on the
/// attachment point opposite `rx`.
///
/// This driver holds the bridge exclusively, so no insertion can arrive
/// between its retry attempts and a first-attempt miss always ends in a
/// silent drop; the concurrent process calls `update_arp_table` and
/// `resolve_attempt` directly, locking the shared cache only around each
/// single attempt and pausing between attempts.
#[verifier::loop_isolation(false)]
pub fn receive_process(br: &mut Bridge, rx: Port, packet: &Vec<u8>) -> (out: Vec<Emission>)
    requires
        packet@.len() >= ETHER_HEADER_LEN,
        spec_is_arp(packet@) ==> packet@.len() >= MIN_ARP_FRAME_LEN,
        !spec_is_arp(packet@) ==> packet@.len() >= MIN_IPV4_FRAME_LEN,
    ensures
        final(br).a == old(br).a,
        final(br).b == old(br).b,
        // directional isolation: everything transmitted leaves opposite rx
        forall|i: int| 0 <= i < out@.len() ==> (#[trigger] out@[i]).port == spec_opposite(rx),
        // a resolution message is learned from, never forwarded
        spec_is_arp(packet@) ==> {
            &&& out@.len() == 0
            &&& final(br).atbl@ == if spec_arp_target_mac(packet@) == spec_iface(*old(br), rx).mac {
                old(br).atbl@.insert(spec_arp_sender_key(packet@), spec_arp_sender_mac(packet@))
            } else {
                old(br).atbl@
            }
        },
        // a payload frame never changes the cache
        !spec_is_arp(packet@) ==> final(br).atbl@ == old(br).atbl@,
        // resolved destination: exactly one forwarded frame, no request
        !spec_is_arp(packet@) && old(br).atbl@.contains_key(spec_ipv4_dest_key(packet@)) ==> {
            &&& out@.len() == 1
            &&& out@[0].frame@ == spec_rewrite(
                packet@,
                old(br).atbl@[spec_ipv4_dest_key(packet@)],
                spec_iface(*old(br), spec_opposite(rx)).mac,
            )
        },
        // unresolved destination: exactly one broadcast request, no payload
        !spec_is_arp(packet@) && !old(br).atbl@.contains_key(spec_ipv4_dest_key(packet@)) ==> {
            &&& out@.len() == 1
            &&& out@[0].frame@ == spec_arp_request(
                spec_iface(*old(br), spec_opposite(rx)).mac,
                spec_iface(*old(br), spec_opposite(rx)).ipv4,
                spec_ipv4_dest(packet@),
            )
        },
{
    let rx_iface = match rx {
        Port::A => br.a,
        Port::B => br.b,
    };
    let tx_port = opposite(rx);
    let tx_iface = match tx_port {
        Port::A => br.a,
        Port::B => br.b,
    };
    let mut out: Vec<Emission> = Vec::new();

    if is_arp_frame(packet) {
        update_arp_table(&mut br.atbl, packet, rx_iface);
        return out;
    }

    let target_key = ipv4_dest_key(packet);
    let target_ip = ipv4_dest(packet);
    if br.atbl.lookup(target_key).is_none() {
        let request = gen_arp_request(tx_iface, target_ip);
        out.push(Emission { port: tx_port, frame: request });
    }

    let ghost out_pre = out@;
    let mut attempt: u8 = 1;
    while attempt <= RETRY_LIMIT
        invariant
            1 <= attempt <= RETRY_LIMIT + 1,
            out@ == out_pre,
            attempt >= 2 ==> !br.atbl@.contains_key(target_key),
        decreases RETRY_LIMIT + 1 - attempt,
    {
        match br.atbl.lookup(target_key) {
            Some(mac) => {
                let forwarded = rewrite_frame(packet, mac, tx_iface.mac);
                out.push(Emission { port: tx_port, frame: forwarded });
                return out;
            },
            None => {
                attempt += 1;
            },
        }
    }
    out
}

} // verus!
