use softnpu::admin::{dump_tables, DumpLine, Expected, IpAddr, Section};
use softnpu::protocol::TableEntry;
use std::collections::BTreeMap;

fn entry(k: &[u8], p: &[u8]) -> TableEntry {
    TableEntry { action_id: "a".to_string(), keyset_data: k.to_vec(), parameter_data: p.to_vec() }
}

fn empty_tables() -> BTreeMap<u32, Vec<TableEntry>> {
    let mut t = BTreeMap::new();
    for id in 0u32..12 {
        t.insert(id, Vec::new());
    }
    t
}

#[test]
fn empty_dump_has_every_heading_in_order() {
    let lines = dump_tables(&empty_tables());
    let headings: Vec<Section> = lines
        .iter()
        .map(|l| match l {
            DumpLine::Heading(s) => *s,
            other => panic!("unexpected line {:?}", other),
        })
        .collect();
    assert_eq!(
        headings,
        vec![
            Section::LocalV6,
            Section::LocalV4,
            Section::RouterV6,
            Section::RouterV4,
            Section::ResolverV4,
            Section::ResolverV6,
            Section::NatV4,
            Section::NatV6,
            Section::PortMac,
            Section::IcmpV6,
            Section::IcmpV4,
            Section::ProxyArp,
        ]
    );
}

#[test]
fn dump_decodes_entries_and_reports_bad_data() {
    let mut t = empty_tables();
    t.insert(1, vec![entry(&[10, 0, 0, 1], &[]), entry(&[1, 2], &[])]);
    t.insert(3, vec![entry(&[10, 0, 0, 0, 8], &[2, 10, 0, 0, 254]), entry(&[1], &[2, 10, 0, 0, 254])]);
    t.insert(10, vec![entry(&[4], &[1, 2, 3, 4, 5, 6, 7])]);
    t.insert(11, vec![entry(&[10, 0, 0, 1, 10, 0, 0, 9], &[6, 5, 4, 3, 2, 1])]);
    t.insert(7, vec![entry(&[1], &[2])]);
    let lines = dump_tables(&t);
    // local v6 heading, local v4 heading
    assert!(matches!(lines[0], DumpLine::Heading(Section::LocalV6)));
    assert!(matches!(lines[1], DumpLine::Heading(Section::LocalV4)));
    assert!(matches!(lines[2], DumpLine::Address(IpAddr::V4([10, 0, 0, 1]))));
    assert!(matches!(&lines[3], DumpLine::Unexpected { expected: Expected::Address, data } if data == &vec![1, 2]));
    assert!(matches!(lines[4], DumpLine::Heading(Section::RouterV6)));
    assert!(matches!(lines[5], DumpLine::Heading(Section::RouterV4)));
    assert!(matches!(
        lines[6],
        DumpLine::Route {
            target: Some((IpAddr::V4([10, 0, 0, 0]), 8)),
            gateway: Some((IpAddr::V4([10, 0, 0, 254]), 2)),
        }
    ));
    assert!(matches!(&lines[7], DumpLine::Unexpected { expected: Expected::AddressSubnet, data } if data == &vec![1]));
    assert!(matches!(
        lines[8],
        DumpLine::Route { target: None, gateway: Some((IpAddr::V4([10, 0, 0, 254]), 2)) }
    ));
    let port_mac = lines.iter().position(|l| matches!(l, DumpLine::Heading(Section::PortMac))).unwrap();
    assert!(matches!(lines[port_mac + 1], DumpLine::PortMac { port: 4, mac: [1, 2, 3, 4, 5, 6] }));
    let icmp4 = lines.iter().position(|l| matches!(l, DumpLine::Heading(Section::IcmpV4))).unwrap();
    assert!(matches!(&lines[icmp4 + 1], DumpLine::Entry(e) if e.keyset_data == vec![1] && e.action_id == "a"));
    assert!(matches!(
        lines.last().unwrap(),
        DumpLine::ProxyArp { begin: [10, 0, 0, 1], end: [10, 0, 0, 9], mac: [6, 5, 4, 3, 2, 1] }
    ));
}
