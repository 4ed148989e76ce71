use router_rs::addr::Iface;
use router_rs::addr::Ipv4Addr;
use router_rs::addr::MacAddr;
use router_rs::arp_packet::arp_sender_key;
use router_rs::arp_packet::arp_sender_mac;
use router_rs::arp_packet::arp_target_mac;
use router_rs::arp_packet::gen_arp_request;
use router_rs::frame::ethertype;
use router_rs::frame::ipv4_dest;
use router_rs::frame::ipv4_dest_key;
use router_rs::frame::is_arp_frame;
use router_rs::frame::rewrite_frame;

/// A payload frame: link-layer header, then a 20-byte network-layer header
/// whose destination address (bytes 30..34 of the frame) is `dest`, then
/// `payload`.
fn make_payload_frame(dst: [u8; 6], src: [u8; 6], ethertype: u16, dest: [u8; 4], payload: &[u8]) -> Vec<u8> {
    let mut f = Vec::new();
    f.extend_from_slice(&dst);
    f.extend_from_slice(&src);
    f.push((ethertype >> 8) as u8);
    f.push((ethertype & 0xff) as u8);
    // minimal network-layer header: only the destination field matters here
    f.extend_from_slice(&[0x45, 0, 0, 40, 0, 0, 0, 0, 64, 0, 0, 0]);
    f.extend_from_slice(&[192, 168, 0, 1]); // source address
    f.extend_from_slice(&dest);
    f.extend_from_slice(payload);
    f
}

#[test]
fn ethertype_is_read_big_endian() {
    let f = make_payload_frame([0; 6], [0; 6], 0x0800, [10, 0, 0, 5], &[]);
    assert_eq!(ethertype(&f), 0x0800);
    assert!(!is_arp_frame(&f));
    let g = make_payload_frame([0; 6], [0; 6], 0x0806, [10, 0, 0, 5], &[]);
    assert_eq!(ethertype(&g), 0x0806);
    assert!(is_arp_frame(&g));
}

#[test]
fn ipv4_destination_is_read_from_the_embedded_header() {
    let f = make_payload_frame([1; 6], [2; 6], 0x0800, [10, 0, 0, 5], &[9, 9, 9]);
    assert_eq!(ipv4_dest(&f), Ipv4Addr(10, 0, 0, 5));
    assert_eq!(ipv4_dest_key(&f), 0x0a000005);
}

#[test]
fn rewrite_swaps_addresses_and_keeps_the_rest() {
    let f = make_payload_frame([1; 6], [2; 6], 0x0800, [10, 0, 0, 5], &[0xde, 0xad]);
    let r = rewrite_frame(&f, MacAddr(0xaa, 0xaa, 0xaa, 0xaa, 0xaa, 0xaa), MacAddr(3, 3, 3, 3, 3, 3));
    assert_eq!(&r[0..6], &[0xaa; 6]);
    assert_eq!(&r[6..12], &[3, 3, 3, 3, 3, 3]);
    assert_eq!(&r[12..], &f[12..]);
    assert_eq!(r.len(), f.len());
}

#[test]
fn generated_request_has_the_exact_expected_bytes() {
    let iface = Iface { mac: MacAddr(0x02, 0x42, 0xc0, 0xa8, 0x00, 0x01), ipv4: Ipv4Addr(192, 168, 0, 1) };
    let r = gen_arp_request(iface, Ipv4Addr(10, 0, 0, 5));
    let expected: Vec<u8> = vec![
        0xff, 0xff, 0xff, 0xff, 0xff, 0xff, // broadcast destination
        0x02, 0x42, 0xc0, 0xa8, 0x00, 0x01, // frame source
        0x08, 0x06, // type field: resolution message
        0x00, 0x01, // hardware type
        0x08, 0x00, // protocol type
        0x06, 0x04, // address lengths
        0x00, 0x01, // operation: request
        0x02, 0x42, 0xc0, 0xa8, 0x00, 0x01, // sender hardware address
        192, 168, 0, 1, // sender network-layer address
        0x00, 0x00, 0x00, 0x00, 0x00, 0x00, // target hardware: unknown
        10, 0, 0, 5, // target network-layer address
    ];
    assert_eq!(r, expected);
}

#[test]
fn generated_request_reads_back_through_the_accessors() {
    let iface = Iface { mac: MacAddr(3, 3, 3, 3, 3, 3), ipv4: Ipv4Addr(10, 0, 1, 1) };
    let r = gen_arp_request(iface, Ipv4Addr(10, 0, 0, 5));
    assert_eq!(r.len(), 42);
    assert!(is_arp_frame(&r));
    assert_eq!(arp_sender_mac(&r), MacAddr(3, 3, 3, 3, 3, 3));
    assert_eq!(arp_sender_key(&r), 0x0a000101);
    assert_eq!(arp_target_mac(&r), MacAddr(0, 0, 0, 0, 0, 0));
}
