use softnpu::admin::{dump_tables, DumpLine, Expected, IpAddr};
use softnpu::dump_text::{ipv6_slots, line_text};
use softnpu::protocol::TableEntry;
use std::collections::BTreeMap;

fn entry(k: &[u8], p: &[u8]) -> TableEntry {
    TableEntry { action_id: "a".to_string(), keyset_data: k.to_vec(), parameter_data: p.to_vec() }
}

/// The text of the IPv6 addresses these tests use.
fn v6_text(o: [u8; 16]) -> String {
    let mut fd00_1 = [0u8; 16];
    fd00_1[0] = 0xfd;
    fd00_1[15] = 1;
    if o == fd00_1 {
        "fd00::1".to_string()
    } else if o == [0u8; 16] {
        "::".to_string()
    } else {
        panic!("no text for {:?}", o)
    }
}

fn empty_tables() -> BTreeMap<u32, Vec<TableEntry>> {
    (0u32..=11).map(|k| (k, vec![])).collect()
}

fn text(tables: &BTreeMap<u32, Vec<TableEntry>>) -> Vec<String> {
    dump_tables(tables)
        .iter()
        .map(|l| {
            let (a, b) = ipv6_slots(l);
            let t = |o: Option<[u8; 16]>| o.map(v6_text).unwrap_or_default();
            line_text(l, &t(a), &t(b))
        })
        .collect()
}

#[test]
fn an_empty_dump_prints_the_headings() {
    assert_eq!(
        text(&empty_tables()),
        vec![
            "local v6:", "local v4:", "router v6:", "router v4:", "resolver v4:", "resolver v6:",
            "nat_v4:", "nat_v6:", "port_mac:", "icmp_v6:", "icmp_v4:", "proxy_arp:",
        ]
    );
}

#[test]
fn a_route_is_printed_with_its_gateway() {
    let mut t = empty_tables();
    t.insert(3, vec![entry(&[10, 0, 0, 0, 24], &[1, 10, 0, 0, 1])]);
    let lines = text(&t);
    let at = lines.iter().position(|l| l == "router v4:").unwrap();
    assert_eq!(lines[at + 1], "10.0.0.0/24 -> 10.0.0.1 (1)");
    assert_eq!(lines[at + 2], "resolver v4:");
}

#[test]
fn undecodable_parts_are_question_marks() {
    let mut t = empty_tables();
    t.insert(3, vec![entry(&[1, 2], &[1, 10, 0, 0, 1])]);
    t.insert(8, vec![entry(&[10, 0, 0, 9], &[1, 2])]);
    t.insert(4, vec![entry(&[1], &[0xab])]);
    let lines = text(&t);
    let at = lines.iter().position(|l| l == "router v4:").unwrap();
    assert_eq!(lines[at + 1], "expected [address, subnet], found: [1, 2]");
    assert_eq!(lines[at + 2], "? -> 10.0.0.1 (1)");
    let at = lines.iter().position(|l| l == "resolver v4:").unwrap();
    assert_eq!(lines[at + 1], "expected mac address, found: [1, 2]");
    assert_eq!(lines[at + 2], "10.0.0.9 -> ?");
    let at = lines.iter().position(|l| l == "nat_v4:").unwrap();
    assert_eq!(lines[at + 1], "expected [address, nat_id], found: [1]");
    assert_eq!(lines[at + 2], "expected [address, vni, mac], found: [ab]");
    assert_eq!(lines[at + 3], "? -> ?");
}

#[test]
fn every_kind_of_line_has_its_layout() {
    let mut t = empty_tables();
    let v6: [u8; 16] = [0xfd, 0, 0, 0, 0, 0, 0, 0, 0, 0, 0, 0, 0, 0, 0, 1];
    let mut nat6 = v6.to_vec();
    nat6.extend_from_slice(&[0, 80, 0, 90]);
    let mut target = v6.to_vec();
    target.extend_from_slice(&[0, 0, 7, 1, 2, 3, 4, 5, 0xff]);
    t.insert(0, vec![entry(&v6, &[])]);
    t.insert(5, vec![entry(&nat6, &target)]);
    t.insert(10, vec![entry(&[4], &[1, 2, 3, 4, 5, 6])]);
    t.insert(7, vec![entry(&[1, 0x20], &[])]);
    t.insert(11, vec![entry(&[10, 0, 0, 1, 10, 0, 0, 9], &[6, 5, 4, 3, 2, 1])]);
    let lines = text(&t);
    assert_eq!(lines[1], "fd00::1");
    let at = lines.iter().position(|l| l == "nat_v6:").unwrap();
    assert_eq!(lines[at + 1], "fd00::1 80/90 -> fd00::1 7/01:02:03:04:05:ff");
    let at = lines.iter().position(|l| l == "port_mac:").unwrap();
    assert_eq!(lines[at + 1], "4: 01:02:03:04:05:06");
    let at = lines.iter().position(|l| l == "icmp_v4:").unwrap();
    assert_eq!(lines[at + 1], "a [\n    0x1,\n    0x20,\n] []");
    assert_eq!(lines[at + 1], format!("{} {:#x?} {:#x?}", "a", vec![1u8, 0x20], Vec::<u8>::new()));
    assert_eq!(lines.last().unwrap(), "10.0.0.1/10.0.0.9: 06:05:04:03:02:01");
}

#[test]
fn byte_lists_are_written_as_debug_hex() {
    let l = DumpLine::Unexpected { expected: Expected::PortAddress, data: vec![0, 15, 16, 255] };
    assert_eq!(line_text(&l, "", ""), format!("expected [port, address], found: {:x?}", vec![0u8, 15, 16, 255]));
    let l = DumpLine::Unexpected { expected: Expected::Address, data: vec![] };
    assert_eq!(line_text(&l, "", ""), "expected address, found: []");
}

#[test]
fn only_ipv6_addresses_take_given_text() {
    let l = DumpLine::Route {
        target: Some((IpAddr::V6([0; 16]), 64)),
        gateway: Some((IpAddr::V4([192, 168, 1, 254]), 3)),
    };
    assert_eq!(ipv6_slots(&l), (Some([0; 16]), None));
    assert_eq!(line_text(&l, "::", "ignored"), "::/64 -> 192.168.1.254 (3)");
}
