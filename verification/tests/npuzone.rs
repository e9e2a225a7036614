use softnpu::npuzone::{
    artifact_file, artifact_is_current, counted_port, counted_port_links, create_ports,
    destroy_ports, get_port_spec,
    host_zone_link_count, link_name, listed_port, listed_port_links, remote_checksum,
    runtime_dir, runtime_file, split_pair, zone_brand, zone_config, zone_name, PortSpec,
    PortSpecError, ZoneInfo, SOFTNPU_SCRIPT, ZONE_PORT_MTU,
};

fn zone(port_count: usize, ports: Vec<&str>) -> ZoneInfo {
    ZoneInfo {
        name: "z".into(),
        port_count,
        ports: ports.into_iter().map(String::from).collect(),
        with_host: false,
        omicron_zone: false,
        softnpu_commit: None,
        sidecar_lite_commit: None,
    }
}

#[test]
fn ports_are_a_count_or_a_list() {
    assert!(matches!(get_port_spec(&zone(2, vec![])), Ok(PortSpec::Count(2))));
    match get_port_spec(&zone(0, vec!["a,b"])) {
        Ok(PortSpec::List(l)) => assert_eq!(l, vec!["a,b".to_string()]),
        other => panic!("{:?}", other),
    }
    assert_eq!(get_port_spec(&zone(1, vec!["a,b"])).unwrap_err(), PortSpecError::Exclusive);
    assert_eq!(get_port_spec(&zone(0, vec![])).unwrap_err(), PortSpecError::Missing);
    assert_eq!(PortSpecError::Exclusive.message(), "--port-count and --ports are exclusive");
    assert_eq!(PortSpecError::Missing.message(), "must provide --port-count or --ports");
}

#[test]
fn runtime_paths_and_names() {
    assert_eq!(runtime_dir("z1"), "/var/run/softnpu/z1");
    assert_eq!(runtime_file("z1", "softnpu.toml"), "/var/run/softnpu/z1/softnpu.toml");
    assert_eq!(link_name("z1", "shx", 10), "z1_shx10");
    assert_eq!(zone_name("z1", "softnpu"), "z1_softnpu");
    assert_eq!(zone_brand(true), "omicron1");
    assert_eq!(zone_brand(false), "sparse");
    assert_eq!(host_zone_link_count(6), 3);
    assert_eq!(artifact_file(true, "scadm"), "scadm.sha256.txt");
    assert_eq!(artifact_file(false, "libsidecar_lite.so"), "libsidecar_lite.so");
    assert_eq!(zone_config().p4_program, "/softnpu/asic_program.so");
}

#[test]
fn counted_ports_have_host_and_sidecar_pairs() {
    let p = counted_port("sw", 0);
    assert_eq!((p.host.end_a.as_str(), p.host.end_b.as_str()), ("sw_shx0", "sw_shi0"));
    assert_eq!((p.sidecar.end_a.as_str(), p.sidecar.end_b.as_str()), ("sw_spx0", "sw_spi0"));
    assert_eq!(p.port.sidecar, "sw_spi0");
    assert_eq!(p.port.scrimlet, "sw_shi0");
    assert_eq!(p.port.mtu, ZONE_PORT_MTU);
    assert_eq!(counted_port_links("sw", 1), vec!["sw_shx1", "sw_shi1", "sw_spx1", "sw_spi1"]);
}

#[test]
fn listed_ports_split_at_the_first_comma() {
    let p = listed_port("sw", 2, "igb0,vnic1").unwrap();
    assert_eq!(p.link.end_a, "vnic1");
    assert_eq!(p.link.end_b, "sw_shi2");
    assert_eq!(p.sys, "igb0");
    assert_eq!(p.port.sidecar, "igb0");
    assert_eq!(p.port.scrimlet, "sw_shi2");
    assert_eq!(split_pair("a,b,c"), Some(("a".to_string(), "b,c".to_string())));
    assert_eq!(split_pair(",x"), Some((String::new(), "x".to_string())));
    assert_eq!(split_pair("nocomma"), None);
    assert_eq!(listed_port("sw", 0, "bad").unwrap_err(), "--port expected sys,host found bad");
    assert_eq!(listed_port_links("sw", 3, "igb0,vnic1").unwrap(), vec!["sw_shi3", "vnic1"]);
    assert!(listed_port_links("sw", 3, "igb0").is_err());
}

#[test]
fn checksums_compare_trimmed() {
    let remote = remote_checksum(b"  abc123\n");
    assert_eq!(remote, "abc123");
    assert!(artifact_is_current(Some(&"abc123".to_string()), &remote));
    assert!(!artifact_is_current(Some(&"abc124".to_string()), &remote));
    assert!(!artifact_is_current(None, &remote));
}

fn strs(v: &[String]) -> Vec<&str> {
    v.iter().map(|s| s.as_str()).collect()
}

#[test]
fn counted_ports_are_set_up_and_torn_down() {
    let setup = create_ports("sw", PortSpec::Count(2));
    let pairs: Vec<(&str, &str)> =
        setup.links.iter().map(|l| (l.end_a.as_str(), l.end_b.as_str())).collect();
    assert_eq!(
        pairs,
        vec![("sw_shx0", "sw_shi0"), ("sw_spx0", "sw_spi0"), ("sw_shx1", "sw_shi1"), ("sw_spx1", "sw_spi1")]
    );
    assert!(setup.user_supplied.is_empty());
    assert!(setup.error.is_none());
    assert_eq!(setup.config.p4_program, "/softnpu/asic_program.so");
    let ports: Vec<(&str, &str, usize)> = setup
        .config
        .ports
        .iter()
        .map(|p| (p.sidecar.as_str(), p.scrimlet.as_str(), p.mtu))
        .collect();
    assert_eq!(ports, vec![("sw_spi0", "sw_shi0", 9000), ("sw_spi1", "sw_shi1", 9000)]);

    let teardown = destroy_ports("sw", PortSpec::Count(2));
    assert_eq!(
        strs(&teardown.links),
        vec!["sw_shx0", "sw_shi0", "sw_spx0", "sw_spi0", "sw_shx1", "sw_shi1", "sw_spx1", "sw_spi1"]
    );
    assert!(teardown.error.is_none());
}

#[test]
fn listed_ports_stop_at_the_first_entry_without_a_comma() {
    let list = || PortSpec::List(vec!["igb0,vnic0".into(), "bad".into(), "igb1,vnic1".into()]);
    let setup = create_ports("sw", list());
    assert_eq!(setup.links.len(), 1);
    assert_eq!((setup.links[0].end_a.as_str(), setup.links[0].end_b.as_str()), ("vnic0", "sw_shi0"));
    assert_eq!(strs(&setup.user_supplied), vec!["igb0"]);
    assert_eq!(setup.config.ports.len(), 1);
    assert_eq!(setup.config.ports[0].sidecar, "igb0");
    assert_eq!(setup.config.ports[0].scrimlet, "sw_shi0");
    assert_eq!(setup.error.as_deref(), Some("--port expected sys,host found bad"));

    let teardown = destroy_ports("sw", list());
    assert_eq!(strs(&teardown.links), vec!["sw_shi0", "vnic0"]);
    assert_eq!(teardown.error.as_deref(), Some("--port expected sys,host found bad"));
}

#[test]
fn teardown_deletes_both_ends_of_every_created_link() {
    let list = || PortSpec::List(vec!["a,x".into(), "b,y".into()]);
    let setup = create_ports("z", list());
    let teardown = destroy_ports("z", list());
    let mut created: Vec<String> =
        setup.links.iter().flat_map(|l| vec![l.end_a.clone(), l.end_b.clone()]).collect();
    let mut deleted = teardown.links.clone();
    created.sort();
    deleted.sort();
    assert_eq!(created, deleted);
    assert!(setup.error.is_none() && teardown.error.is_none());
    assert!(destroy_ports("z", PortSpec::Count(0)).links.is_empty());
}

#[test]
fn counted_ports_never_repeat_a_link() {
    let setup = create_ports("sw", PortSpec::Count(12));
    let mut ends: Vec<String> =
        setup.links.iter().flat_map(|l| vec![l.end_a.clone(), l.end_b.clone()]).collect();
    let n = ends.len();
    assert_eq!(n, 48);
    ends.sort();
    ends.dedup();
    assert_eq!(ends.len(), n);
}

#[test]
fn the_start_command_is_one_line() {
    assert!(SOFTNPU_SCRIPT.starts_with("#!/bin/bash\n"));
    assert!(SOFTNPU_SCRIPT.contains(
        "    start) \n        /softnpu/softnpu --uds-path /softnpu /softnpu/softnpu.toml &> /var/log/softnpu.log &\n        ;;\n"
    ));
    assert!(!SOFTNPU_SCRIPT.contains('\\'));
}

#[test]
fn checksums_lose_unicode_white_space_too() {
    assert_eq!(remote_checksum("\u{a0}\tabc\u{3000}\r\n".as_bytes()), "abc");
    assert_eq!(remote_checksum(b" \n "), "");
    assert_eq!(remote_checksum(b"a b"), "a b");
}
