use router_rs::addr::MacAddr;
use router_rs::addr::Ipv4Addr;
use router_rs::addr::ipv4_key;
use router_rs::arp_table::ArpTable;

#[test]
fn lookup_of_never_inserted_key_is_none() {
    let t = ArpTable::new();
    assert_eq!(t.lookup(0), None);
    assert_eq!(t.lookup(ipv4_key(Ipv4Addr(10, 0, 0, 5))), None);
}

#[test]
fn lookup_returns_inserted_mapping() {
    let mut t = ArpTable::new();
    let key = ipv4_key(Ipv4Addr(10, 0, 0, 5));
    t.insert(key, MacAddr(0xaa, 0xaa, 0xaa, 0xaa, 0xaa, 0xaa));
    assert_eq!(t.lookup(key), Some(MacAddr(0xaa, 0xaa, 0xaa, 0xaa, 0xaa, 0xaa)));
}

#[test]
fn most_recent_insert_wins() {
    let mut t = ArpTable::new();
    let key = ipv4_key(Ipv4Addr(192, 168, 1, 7));
    t.insert(key, MacAddr(1, 2, 3, 4, 5, 6));
    t.insert(key, MacAddr(7, 8, 9, 10, 11, 12));
    assert_eq!(t.lookup(key), Some(MacAddr(7, 8, 9, 10, 11, 12)));
}

#[test]
fn inserts_for_other_keys_leave_a_key_unmapped() {
    let mut t = ArpTable::new();
    t.insert(ipv4_key(Ipv4Addr(10, 0, 0, 1)), MacAddr(1, 1, 1, 1, 1, 1));
    t.insert(ipv4_key(Ipv4Addr(10, 0, 0, 2)), MacAddr(2, 2, 2, 2, 2, 2));
    assert_eq!(t.lookup(ipv4_key(Ipv4Addr(10, 0, 0, 3))), None);
    assert_eq!(t.lookup(ipv4_key(Ipv4Addr(10, 0, 0, 1))), Some(MacAddr(1, 1, 1, 1, 1, 1)));
    assert_eq!(t.lookup(ipv4_key(Ipv4Addr(10, 0, 0, 2))), Some(MacAddr(2, 2, 2, 2, 2, 2)));
}

#[test]
fn ipv4_key_is_big_endian_value() {
    assert_eq!(ipv4_key(Ipv4Addr(10, 0, 0, 5)), 0x0a000005);
    assert_eq!(ipv4_key(Ipv4Addr(255, 255, 255, 255)), 0xffffffff);
    assert_eq!(ipv4_key(Ipv4Addr(0, 0, 0, 0)), 0);
    assert_eq!(ipv4_key(Ipv4Addr(192, 168, 1, 7)), 0xc0a80107);
}
