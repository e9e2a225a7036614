use softnpu::admin::{
    command_request, format_mac, get_addr, get_addr_nat_id, get_addr_subnet, get_addr_vni_mac,
    get_mac, get_port_addr, AdminCommand, AdminError, AdminRequest, IpAddr, MacAddr, LOCAL_V4,
    NAT_V4, NAT_V6, PORT_MAC, PROXY_ARP, RESOLVER_V6, ROUTER_V4, ROUTER_V6,
};

fn add_parts(r: AdminRequest) -> (u32, u32, Vec<u8>, Vec<u8>) {
    match r {
        AdminRequest::TableAdd { table, action, keyset_data, parameter_data } => {
            (table, action, keyset_data, parameter_data)
        }
        other => panic!("expected a table add, got {:?}", other),
    }
}

fn remove_parts(r: AdminRequest) -> (u32, Vec<u8>) {
    match r {
        AdminRequest::TableRemove { table, keyset_data } => (table, keyset_data),
        other => panic!("expected a table remove, got {:?}", other),
    }
}

#[test]
fn add_route4_encodes_destination_mask_port_and_nexthop() {
    let cmd = AdminCommand::AddRoute4 {
        destination: [10, 1, 2, 0],
        mask: 24,
        port: 3,
        nexthop: [10, 1, 2, 1],
    };
    let (table, action, keyset, params) = add_parts(command_request(&cmd).unwrap());
    assert_eq!(table, ROUTER_V4);
    assert_eq!(table, 3);
    assert_eq!(action, 1);
    assert_eq!(keyset, vec![10, 1, 2, 0, 24]);
    assert_eq!(params, vec![3, 10, 1, 2, 1]);
}

#[test]
fn remove_route6_encodes_destination_and_mask() {
    let mut dst = [0u8; 16];
    dst[0] = 0xfd;
    dst[15] = 1;
    let cmd = AdminCommand::RemoveRoute6 { destination: dst, mask: 64 };
    let (table, keyset) = remove_parts(command_request(&cmd).unwrap());
    assert_eq!(table, ROUTER_V6);
    let mut expected = dst.to_vec();
    expected.push(64);
    assert_eq!(keyset, expected);
}

#[test]
fn add_nat4_encodes_range_vni_and_mac() {
    let target = [0xfdu8, 0, 0, 0, 0, 0, 0, 0, 0, 0, 0, 0, 0, 0, 0, 7];
    let cmd = AdminCommand::AddNat4 {
        dst: [192, 168, 1, 1],
        begin: 1024,
        end: 0x1234,
        target,
        vni: 0x00ab_cdef,
        mac: MacAddr([1, 2, 3, 4, 5, 6]),
    };
    let (table, action, keyset, params) = add_parts(command_request(&cmd).unwrap());
    assert_eq!(table, NAT_V4);
    assert_eq!(action, 0);
    assert_eq!(keyset, vec![192, 168, 1, 1, 0x04, 0x00, 0x12, 0x34]);
    let mut expected = target.to_vec();
    expected.extend_from_slice(&[0xab, 0xcd, 0xef, 1, 2, 3, 4, 5, 6]);
    assert_eq!(params, expected);
}

#[test]
fn add_nat6_with_a_vni_over_24_bits_is_refused() {
    let cmd = AdminCommand::AddNat6 {
        dst: [0; 16],
        begin: 1,
        end: 2,
        target: [0; 16],
        vni: 1 << 24,
        mac: MacAddr([0; 6]),
    };
    assert_eq!(command_request(&cmd).unwrap_err(), AdminError::VniTooBig);
    let ok = AdminCommand::AddNat6 {
        dst: [0; 16],
        begin: 1,
        end: 2,
        target: [0; 16],
        vni: (1 << 24) - 1,
        mac: MacAddr([0; 6]),
    };
    let (table, _, _, params) = add_parts(command_request(&ok).unwrap());
    assert_eq!(table, NAT_V6);
    assert_eq!(&params[16..19], &[0xff, 0xff, 0xff]);
}

#[test]
fn local_addresses_mac_and_resolver_commands() {
    let (table, action, keyset, params) =
        add_parts(command_request(&AdminCommand::AddAddress4 { address: [1, 2, 3, 4] }).unwrap());
    assert_eq!((table, action), (LOCAL_V4, 0));
    assert_eq!(keyset, vec![1, 2, 3, 4]);
    assert!(params.is_empty());

    let (table, _, keyset, params) = add_parts(
        command_request(&AdminCommand::SetMac { port: 2, mac: MacAddr([9, 8, 7, 6, 5, 4]) })
            .unwrap(),
    );
    assert_eq!(table, PORT_MAC);
    assert_eq!(keyset, vec![2]);
    assert_eq!(params, vec![9, 8, 7, 6, 5, 4]);

    let (table, keyset) =
        remove_parts(command_request(&AdminCommand::ClearMac { port: 2 }).unwrap());
    assert_eq!((table, keyset), (PORT_MAC, vec![2]));

    let l3 = [0x20u8; 16];
    let (table, _, keyset, params) = add_parts(
        command_request(&AdminCommand::AddNdpEntry { l3, l2: MacAddr([1; 6]) }).unwrap(),
    );
    assert_eq!(table, RESOLVER_V6);
    assert_eq!(keyset, l3.to_vec());
    assert_eq!(params, vec![1; 6]);
}

#[test]
fn proxy_arp_key_is_both_ends_of_the_range() {
    let cmd = AdminCommand::AddProxyArp {
        begin: [10, 0, 0, 1],
        end: [10, 0, 0, 9],
        mac: MacAddr([0xa; 6]),
    };
    let (table, _, keyset, params) = add_parts(command_request(&cmd).unwrap());
    assert_eq!(table, PROXY_ARP);
    assert_eq!(keyset, vec![10, 0, 0, 1, 10, 0, 0, 9]);
    assert_eq!(params, vec![0xa; 6]);
    let (table, keyset) = remove_parts(
        command_request(&AdminCommand::RemoveProxyArp { begin: [10, 0, 0, 1], end: [10, 0, 0, 9] })
            .unwrap(),
    );
    assert_eq!(table, PROXY_ARP);
    assert_eq!(keyset, vec![10, 0, 0, 1, 10, 0, 0, 9]);
}

#[test]
fn port_count_and_dump_state_ask_the_switch() {
    assert!(matches!(command_request(&AdminCommand::PortCount), Ok(AdminRequest::RadixRequest)));
    assert!(matches!(command_request(&AdminCommand::DumpState), Ok(AdminRequest::DumpRequest)));
}

#[test]
fn decoders_read_addresses_by_length() {
    assert!(matches!(get_addr(&[1, 2, 3, 4]), Some(IpAddr::V4([1, 2, 3, 4]))));
    assert!(matches!(get_addr(&[7; 16]), Some(IpAddr::V6(a)) if a == [7; 16]));
    assert!(get_addr(&[1, 2, 3]).is_none());
    assert!(get_addr(&[]).is_none());
    assert_eq!(get_mac(&[1, 2, 3, 4, 5, 6]), Some([1, 2, 3, 4, 5, 6]));
    assert_eq!(get_mac(&[1, 2, 3, 4, 5]), None);
}

#[test]
fn decoders_read_subnets_ports_nat_ids_and_targets() {
    assert!(matches!(get_addr_subnet(&[10, 0, 0, 0, 8]), Some((IpAddr::V4([10, 0, 0, 0]), 8))));
    assert!(get_addr_subnet(&[10, 0, 0, 0]).is_none());
    assert!(matches!(get_port_addr(&[5, 10, 0, 0, 1]), Some((IpAddr::V4([10, 0, 0, 1]), 5))));
    let mut v6 = vec![9u8];
    v6.extend_from_slice(&[0xfe; 16]);
    assert!(matches!(get_port_addr(&v6), Some((IpAddr::V6(a), 9)) if a == [0xfe; 16]));
    assert!(matches!(
        get_addr_nat_id(&[1, 2, 3, 4, 0x01, 0x02, 0xff, 0xfe]),
        Some((IpAddr::V4([1, 2, 3, 4]), 0x0102, 0xfffe))
    ));
    let data = [1u8, 2, 3, 4, 0x12, 0x34, 0x56, 10, 11, 12, 13, 14, 15];
    assert!(matches!(
        get_addr_vni_mac(&data),
        Some((IpAddr::V4([1, 2, 3, 4]), 0x123456, [10, 11, 12, 13, 14, 15]))
    ));
    assert!(get_addr_vni_mac(&data[..12]).is_none());
}

#[test]
fn added_nat_entry_reads_back() {
    let cmd = AdminCommand::AddNat6 {
        dst: [0x11; 16],
        begin: 100,
        end: 200,
        target: [0x22; 16],
        vni: 77,
        mac: MacAddr([3; 6]),
    };
    let (_, _, keyset, params) = add_parts(command_request(&cmd).unwrap());
    assert!(matches!(get_addr_nat_id(&keyset), Some((IpAddr::V6(a), 100, 200)) if a == [0x11; 16]));
    assert!(matches!(
        get_addr_vni_mac(&params),
        Some((IpAddr::V6(a), 77, [3, 3, 3, 3, 3, 3])) if a == [0x22; 16]
    ));
}

#[test]
fn mac_addresses_parse() {
    assert_eq!(MacAddr::parse("aa:bb:cc:dd:ee:ff").unwrap().0, [0xaa, 0xbb, 0xcc, 0xdd, 0xee, 0xff]);
    assert_eq!(MacAddr::parse("A8:40:25:0:1:2").unwrap().0, [0xa8, 0x40, 0x25, 0, 1, 2]);
    assert_eq!(MacAddr::parse("+1:0000ff:2:3:4:5").unwrap().0, [1, 0xff, 2, 3, 4, 5]);
    let parsed: MacAddr = "01:02:03:04:05:06".parse().unwrap();
    assert_eq!(parsed.0, [1, 2, 3, 4, 5, 6]);
}

#[test]
fn malformed_mac_addresses_are_refused() {
    let msg = "Expected mac in the form aa:bb:cc:dd:ee:ff";
    assert_eq!(MacAddr::parse("aa:bb:cc:dd:ee").unwrap_err(), msg);
    assert_eq!(MacAddr::parse("aa:bb:cc:dd:ee:ff:00").unwrap_err(), msg);
    assert_eq!(MacAddr::parse("aa:bb:cc:dd:ee:1ff").unwrap_err(), msg);
    assert_eq!(MacAddr::parse("aa:bb::dd:ee:ff").unwrap_err(), msg);
    assert_eq!(MacAddr::parse("aa:bb:cc:dd:ee:+").unwrap_err(), msg);
    assert_eq!(MacAddr::parse("aa:bb:cc:dd:ee:-1").unwrap_err(), msg);
    assert_eq!(MacAddr::parse("aa:bb:cc:dd:ee:gg").unwrap_err(), msg);
    assert_eq!(MacAddr::parse("").unwrap_err(), msg);
}

#[test]
fn formatted_mac_parses_back() {
    let mac = [0x0a, 0xff, 0x00, 0x10, 0x9c, 0x01];
    let text = format_mac(&mac);
    assert_eq!(text, "0a:ff:00:10:9c:01");
    assert_eq!(MacAddr::parse(&text).unwrap().0, mac);
}
