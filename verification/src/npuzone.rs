//! Building a SoftNpu zone: the port links and their names, the switch
//! configuration written for the zone, the zone names, and the artifacts the
//! zone runs.
//!
//! Each switch port is a pair of simnet links: the host side (`shx`/`shi`)
//! and the sidecar side (`spx`/`spi`); user supplied ports pair a system
//! link with a host-side link.

use vstd::prelude::*;
use crate::config::{Config, Port};
use crate::text::{
    all_ascii, ascii_chars, decimal, lemma_decimal_injective, lossy_utf8, push_decimal,
    utf8_lossy_text,
};

verus! {

/// The MTU of a SoftNpu zone's ports.
pub const ZONE_PORT_MTU: usize = 9000;

/// The options of a SoftNpu zone.
#[derive(Debug)]
pub struct ZoneInfo {
    /// Name of the SoftNpu zone.
    pub name: String,
    /// Number of ports.
    pub port_count: usize,
    /// Ports as `sys_port,host_port` pairs.
    pub ports: Vec<String>,
    /// Also create the host zone and plumb in ports.
    pub with_host: bool,
    /// Use the omicron zone brand instead of sparse.
    pub omicron_zone: bool,
    /// The softnpu commit to use.
    pub softnpu_commit: Option<String>,
    /// The sidecar-lite commit to use.
    pub sidecar_lite_commit: Option<String>,
}

/// How the ports of a zone are given: a count, or a list of pairs.
#[derive(Debug)]
pub enum PortSpec {
    Count(usize),
    List(Vec<String>),
}

/// Why the ports of a zone are not given right.
#[derive(Debug, PartialEq, Eq, Structural)]
pub enum PortSpecError {
    /// Both a count and a list were given.
    Exclusive,
    /// Neither a count nor a list was given.
    Missing,
}

impl PortSpecError {
    /// The message that describes the error.
    pub fn message(&self) -> (m: &'static str)
        ensures
            *self == PortSpecError::Exclusive ==> m@ == "--port-count and --ports are exclusive"@,
            *self == PortSpecError::Missing ==> m@ == "must provide --port-count or --ports"@,
    {
        match self {
            PortSpecError::Exclusive => "--port-count and --ports are exclusive",
            PortSpecError::Missing => "must provide --port-count or --ports",
        }
    }
}

/// The strings as sequences of characters.
pub open spec fn strings_view(v: Seq<String>) -> Seq<Seq<char>> {
    v.map_values(|s: String| s@)
}

/// Copies of the strings `v`.
pub fn copy_strings(v: &Vec<String>) -> (out: Vec<String>)
    ensures
        strings_view(out@) == strings_view(v@),
{
    let mut out: Vec<String> = Vec::new();
    let mut i: usize = 0;
    while i < v.len()
        invariant
            i <= v@.len(),
            strings_view(out@) == strings_view(v@).take(i as int),
        decreases v@.len() - i,
    {
        let ghost before = out@;
        out.push(v[i].clone());
        assert(strings_view(out@) =~= strings_view(before).push(v@[i as int]@));
        i = i + 1;
        assert(strings_view(v@).take(i as int) =~= strings_view(v@).take((i - 1) as int).push(
            v@[i - 1]@,
        ));
    }
    assert(strings_view(v@).take(i as int) =~= strings_view(v@));
    out
}

/// The ports of a zone: exactly one of a count and a list must be given.
pub fn get_port_spec(z: &ZoneInfo) -> (r: Result<PortSpec, PortSpecError>)
    ensures
        z.port_count != 0 && z.ports@.len() != 0 ==> r == Err::<PortSpec, PortSpecError>(
            PortSpecError::Exclusive,
        ),
        z.port_count == 0 && z.ports@.len() == 0 ==> r == Err::<PortSpec, PortSpecError>(
            PortSpecError::Missing,
        ),
        z.port_count != 0 && z.ports@.len() == 0 ==> (r matches Ok(PortSpec::Count(n)) && n
            == z.port_count),
        z.port_count == 0 && z.ports@.len() != 0 ==> (r matches Ok(PortSpec::List(l))
            && strings_view(l@) == strings_view(z.ports@)),
{
    if z.port_count != 0 && !z.ports.is_empty() {
        return Err(PortSpecError::Exclusive);
    }
    if z.port_count == 0 && z.ports.is_empty() {
        return Err(PortSpecError::Missing);
    }
    if z.port_count != 0 {
        Ok(PortSpec::Count(z.port_count))
    } else {
        Ok(PortSpec::List(copy_strings(&z.ports)))
    }
}

/// The directory that holds a zone's artifacts and configuration.
pub open spec fn runtime_dir_spec(name: Seq<char>) -> Seq<char> {
    "/var/run/softnpu/"@ + name
}

/// The directory that holds a zone's artifacts and configuration.
pub fn runtime_dir(name: &str) -> (dir: String)
    ensures
        dir@ == runtime_dir_spec(name@),
{
    let mut dir = String::from_str("/var/run/softnpu/");
    dir.append(name);
    dir
}

/// The path of `file` in the zone's runtime directory.
pub fn runtime_file(name: &str, file: &str) -> (path: String)
    ensures
        path@ == runtime_dir_spec(name@) + "/"@ + file@,
{
    let mut path = runtime_dir(name);
    path.append("/");
    path.append(file);
    path
}

/// The name of link `i` of a zone of kind `kind` (`shx`, `shi`, `spx` or
/// `spi`): the zone's name, an underscore, the kind and the number.
pub open spec fn link_name_spec(name: Seq<char>, kind: Seq<char>, i: nat) -> Seq<char> {
    name + "_"@ + kind + decimal(i)
}

/// The name of link `i` of kind `kind`.
pub fn link_name(name: &str, kind: &str, i: usize) -> (link: String)
    ensures
        link@ == link_name_spec(name@, kind@, i as nat),
{
    let mut link = String::from_str(name);
    link.append("_");
    link.append(kind);
    push_decimal(&mut link, i);
    link
}

/// A simnet link pair: its two ends.
#[derive(Debug)]
pub struct LinkPair {
    pub end_a: String,
    pub end_b: String,
}

/// The links and the switch port of port `i` of a zone whose ports are
/// counted: a host-side pair and a sidecar-side pair; the switch connects
/// the sidecar-side and host-side internal ends.
#[derive(Debug)]
pub struct CountedPort {
    pub host: LinkPair,
    pub sidecar: LinkPair,
    pub port: Port,
}

/// The links and switch port of port `i` of zone `name`.
pub fn counted_port(name: &str, i: usize) -> (p: CountedPort)
    ensures
        p.host.end_a@ == link_name_spec(name@, "shx"@, i as nat),
        p.host.end_b@ == link_name_spec(name@, "shi"@, i as nat),
        p.sidecar.end_a@ == link_name_spec(name@, "spx"@, i as nat),
        p.sidecar.end_b@ == link_name_spec(name@, "spi"@, i as nat),
        p.port.sidecar@ == link_name_spec(name@, "spi"@, i as nat),
        p.port.scrimlet@ == link_name_spec(name@, "shi"@, i as nat),
        p.port.mtu == ZONE_PORT_MTU,
{
    let host = LinkPair { end_a: link_name(name, "shx", i), end_b: link_name(name, "shi", i) };
    let sidecar = LinkPair { end_a: link_name(name, "spx", i), end_b: link_name(name, "spi", i) };
    let port = Port {
        sidecar: link_name(name, "spi", i),
        scrimlet: link_name(name, "shi", i),
        mtu: ZONE_PORT_MTU,
    };
    CountedPort { host, sidecar, port }
}

/// The first `,` of `s`, if any.
pub open spec fn first_comma(s: Seq<char>) -> Option<int> {
    if exists|k: int| 0 <= k < s.len() && s[k] == ',' {
        Some(choose|k: int| 0 <= k < s.len() && s[k] == ',' && forall|j: int| 0 <= j < k ==> s[j] != ',')
    } else {
        None
    }
}

/// A `sys,host` pair split at its first comma, as `str::split_once` does.
pub open spec fn split_pair_spec(s: Seq<char>) -> Option<(Seq<char>, Seq<char>)> {
    match first_comma(s) {
        Some(k) => Some((s.take(k), s.skip(k + 1))),
        None => None,
    }
}

/// Splits a `sys,host` pair at its first comma.
pub fn split_pair(s: &str) -> (r: Option<(String, String)>)
    ensures
        match split_pair_spec(s@) {
            Some((a, b)) => r matches Some((x, y)) && x@ == a && y@ == b,
            None => r is None,
        },
{
    let n = s.unicode_len();
    let mut i: usize = 0;
    while i < n
        invariant
            n == s@.len(),
            i <= n,
            forall|j: int| 0 <= j < i ==> s@[j] != ',',
        decreases n - i,
    {
        if s.get_char(i) == ',' {
            let ghost k = i as int;
            assert(0 <= k < s@.len() && s@[k] == ',' && forall|j: int| 0 <= j < k ==> s@[j] != ',');
            let ghost chosen = choose|k: int|
                0 <= k < s@.len() && s@[k] == ',' && forall|j: int| 0 <= j < k ==> s@[j] != ',';
            assert(chosen == k) by {
                if chosen < k {
                    assert(s@[chosen] != ',');
                } else if chosen > k {
                    assert(s@[k] != ',');
                }
            }
            let first = s.substring_char(0, i);
            let second = s.substring_char(i + 1, n);
            assert(s@.subrange(0, k) =~= s@.take(k));
            assert(s@.subrange(k + 1, n as int) =~= s@.skip(k + 1));
            return Some((String::from_str(first), String::from_str(second)));
        }
        i = i + 1;
    }
    None
}

/// A port of a zone given by a `sys,host` pair: the host link joined to the
/// zone's internal link, and the system link that the switch uses as its
/// sidecar side.
#[derive(Debug)]
pub struct ListedPort {
    pub link: LinkPair,
    pub sys: String,
    pub port: Port,
}

/// The message of a port pair without a comma.
pub open spec fn pair_error_spec(p: Seq<char>) -> Seq<char> {
    "--port expected sys,host found "@ + p
}

/// The links and switch port of the `i`th listed port `p` of zone `name`.
pub fn listed_port(name: &str, i: usize, p: &str) -> (r: Result<ListedPort, String>)
    ensures
        match split_pair_spec(p@) {
            Some((sys, host)) => r matches Ok(lp) && lp.link.end_a@ == host && lp.link.end_b@
                == link_name_spec(name@, "shi"@, i as nat) && lp.sys@ == sys && lp.port.sidecar@
                == sys && lp.port.scrimlet@ == link_name_spec(name@, "shi"@, i as nat)
                && lp.port.mtu == ZONE_PORT_MTU,
            None => r matches Err(e) && e@ == pair_error_spec(p@),
        },
{
    match split_pair(p) {
        Some((sys, host)) => {
            let internal = link_name(name, "shi", i);
            let scrimlet = link_name(name, "shi", i);
            let sidecar = sys.clone();
            Ok(
                ListedPort {
                    link: LinkPair { end_a: host, end_b: internal },
                    sys,
                    port: Port { sidecar, scrimlet, mtu: ZONE_PORT_MTU },
                },
            )
        },
        None => {
            let mut e = String::from_str("--port expected sys,host found ");
            e.append(p);
            Err(e)
        },
    }
}

/// The links to delete for the `i`th port of a zone whose ports are
/// counted.
pub fn counted_port_links(name: &str, i: usize) -> (links: Vec<String>)
    ensures
        strings_view(links@) == seq![
            link_name_spec(name@, "shx"@, i as nat),
            link_name_spec(name@, "shi"@, i as nat),
            link_name_spec(name@, "spx"@, i as nat),
            link_name_spec(name@, "spi"@, i as nat),
        ],
{
    let mut links: Vec<String> = Vec::new();
    links.push(link_name(name, "shx", i));
    links.push(link_name(name, "shi", i));
    links.push(link_name(name, "spx", i));
    links.push(link_name(name, "spi", i));
    assert(strings_view(links@) =~= seq![
        link_name_spec(name@, "shx"@, i as nat),
        link_name_spec(name@, "shi"@, i as nat),
        link_name_spec(name@, "spx"@, i as nat),
        link_name_spec(name@, "spi"@, i as nat),
    ]);
    links
}

/// The links to delete for the `i`th listed port `p` of a zone: the zone's
/// internal link, then the host link.
pub fn listed_port_links(name: &str, i: usize, p: &str) -> (r: Result<Vec<String>, String>)
    ensures
        match split_pair_spec(p@) {
            Some((sys, host)) => r matches Ok(links) && strings_view(links@) == seq![
                link_name_spec(name@, "shi"@, i as nat),
                host,
            ],
            None => r matches Err(e) && e@ == pair_error_spec(p@),
        },
{
    match listed_port(name, i, p) {
        Ok(lp) => {
            let mut links: Vec<String> = Vec::new();
            links.push(link_name(name, "shi", i));
            links.push(lp.link.end_a);
            assert(strings_view(links@) =~= seq![
                link_name_spec(name@, "shi"@, i as nat),
                split_pair_spec(p@).unwrap().1,
            ]);
            Ok(links)
        },
        Err(e) => Err(e),
    }
}

/// What tearing down a zone's ports does: the links to delete, in order,
/// and the error met after them, if any.
#[derive(Debug)]
pub struct PortTeardown {
    pub links: Vec<String>,
    pub error: Option<String>,
}

/// The links of the first `n` ports of a zone whose ports are counted.
pub open spec fn counted_teardown(name: Seq<char>, n: nat) -> Seq<Seq<char>>
    decreases n,
{
    if n == 0 {
        Seq::empty()
    } else {
        let i = (n - 1) as nat;
        counted_teardown(name, i) + seq![
            link_name_spec(name, "shx"@, i),
            link_name_spec(name, "shi"@, i),
            link_name_spec(name, "spx"@, i),
            link_name_spec(name, "spi"@, i),
        ]
    }
}

/// The links to delete for the first `n` listed ports, and the error of the
/// first of them that is not a `sys,host` pair: nothing after it is
/// deleted.
pub open spec fn listed_teardown(name: Seq<char>, ports: Seq<Seq<char>>, n: nat) -> (
    Seq<Seq<char>>,
    Option<Seq<char>>,
)
    decreases n,
{
    if n == 0 {
        (Seq::empty(), None)
    } else {
        let i = (n - 1) as nat;
        let prev = listed_teardown(name, ports, i);
        if prev.1 is Some {
            prev
        } else {
            match split_pair_spec(ports[i as int]) {
                Some((_sys, host)) => (prev.0 + seq![link_name_spec(name, "shi"@, i), host], None),
                None => (prev.0, Some(pair_error_spec(ports[i as int]))),
            }
        }
    }
}

/// What tearing down the ports `spec` of zone `name` does.
pub open spec fn teardown_spec(name: Seq<char>, spec: PortSpec) -> (Seq<Seq<char>>, Option<Seq<char>>) {
    match spec {
        PortSpec::Count(n) => (counted_teardown(name, n as nat), None),
        PortSpec::List(l) => listed_teardown(name, strings_view(l@), l@.len()),
    }
}

/// A port teardown with its strings as sequences.
pub open spec fn teardown_view(t: PortTeardown) -> (Seq<Seq<char>>, Option<Seq<char>>) {
    (
        strings_view(t.links@),
        match t.error {
            Some(e) => Some(e@),
            None => None,
        },
    )
}

/// Once a listed port is found that is not a pair, the later ports change
/// nothing.
proof fn lemma_listed_teardown_stops(name: Seq<char>, ports: Seq<Seq<char>>, i: nat, j: nat)
    requires
        i <= j,
        listed_teardown(name, ports, i).1 is Some,
    ensures
        listed_teardown(name, ports, j) == listed_teardown(name, ports, i),
    decreases j,
{
    if j > i {
        lemma_listed_teardown_stops(name, ports, i, (j - 1) as nat);
    }
}

/// The links to delete, in order, when the ports `port_spec` of zone `name`
/// are torn down: for counted ports the four links of each port; for listed
/// ports the zone's internal link and the host link of each pair, up to the
/// first entry that is not a pair, whose error then ends the teardown.
pub fn destroy_ports(name: &str, port_spec: PortSpec) -> (t: PortTeardown)
    ensures
        teardown_view(t) == teardown_spec(name@, port_spec),
{
    let ghost whole = teardown_spec(name@, port_spec);
    let mut links: Vec<String> = Vec::new();
    match port_spec {
        PortSpec::Count(count) => {
            let mut i: usize = 0;
            while i < count
                invariant
                    i <= count,
                    strings_view(links@) == counted_teardown(name@, i as nat),
                decreases count - i,
            {
                let ghost before = links@;
                let mut port_links = counted_port_links(name, i);
                let ghost added = port_links@;
                links.append(&mut port_links);
                assert(strings_view(links@) =~= strings_view(before) + strings_view(added));
                i = i + 1;
            }
            PortTeardown { links, error: None }
        },
        PortSpec::List(ports) => {
            let ghost pv = strings_view(ports@);
            let mut i: usize = 0;
            while i < ports.len()
                invariant
                    i <= ports@.len(),
                    pv == strings_view(ports@),
                    whole == teardown_spec(name@, port_spec),
                    whole == listed_teardown(name@, pv, ports@.len()),
                    listed_teardown(name@, pv, i as nat) == (strings_view(links@), None::<Seq<char>>),
                decreases ports@.len() - i,
            {
                let ghost before = links@;
                assert(pv[i as int] == ports@[i as int]@);
                match listed_port_links(name, i, ports[i].as_str()) {
                    Ok(mut port_links) => {
                        let ghost added = port_links@;
                        links.append(&mut port_links);
                        assert(strings_view(links@) =~= strings_view(before) + strings_view(added));
                    },
                    Err(e) => {
                        proof {
                            assert(split_pair_spec(pv[i as int]) is None);
                            assert(listed_teardown(name@, pv, (i + 1) as nat) == (
                                strings_view(links@),
                                Some(e@),
                            ));
                            lemma_listed_teardown_stops(name@, pv, (i + 1) as nat, ports@.len());
                        }
                        let t = PortTeardown { links, error: Some(e) };
                        return t;
                    },
                }
                i = i + 1;
            }
            PortTeardown { links, error: None }
        },
    }
}

/// What setting up a zone's ports does: the link pairs to create and the
/// user supplied system links, in order, the switch configuration to write
/// once all of them are made, and the error met after them, if any.
#[derive(Debug)]
pub struct PortSetup {
    pub links: Vec<LinkPair>,
    pub user_supplied: Vec<String>,
    pub config: Config,
    pub error: Option<String>,
}

/// A port setup with its strings as sequences: link pairs as their two
/// ends, switch ports as (sidecar, scrimlet, MTU).
pub struct SetupView {
    pub links: Seq<(Seq<char>, Seq<char>)>,
    pub user_supplied: Seq<Seq<char>>,
    pub ports: Seq<(Seq<char>, Seq<char>, usize)>,
    pub error: Option<Seq<char>>,
}

/// Link pairs as their two ends.
pub open spec fn pairs_view(links: Seq<LinkPair>) -> Seq<(Seq<char>, Seq<char>)> {
    links.map_values(|p: LinkPair| (p.end_a@, p.end_b@))
}

/// Switch ports as (sidecar, scrimlet, MTU).
pub open spec fn ports_view(ports: Seq<Port>) -> Seq<(Seq<char>, Seq<char>, usize)> {
    ports.map_values(|p: Port| (p.sidecar@, p.scrimlet@, p.mtu))
}

/// A port setup with its strings as sequences.
pub open spec fn setup_view(s: PortSetup) -> SetupView {
    SetupView {
        links: pairs_view(s.links@),
        user_supplied: strings_view(s.user_supplied@),
        ports: ports_view(s.config.ports@),
        error: match s.error {
            Some(e) => Some(e@),
            None => None,
        },
    }
}

/// A setup that makes nothing.
pub open spec fn empty_setup() -> SetupView {
    SetupView { links: Seq::empty(), user_supplied: Seq::empty(), ports: Seq::empty(), error: None }
}

/// The setup of the first `n` ports of a zone whose ports are counted: for
/// port `i` a host-side pair `shx`/`shi` and a sidecar-side pair `spx`/`spi`,
/// and a switch port from `spi` to `shi`.
pub open spec fn counted_setup(name: Seq<char>, n: nat) -> SetupView
    decreases n,
{
    if n == 0 {
        empty_setup()
    } else {
        let i = (n - 1) as nat;
        let prev = counted_setup(name, i);
        SetupView {
            links: prev.links + seq![
                (link_name_spec(name, "shx"@, i), link_name_spec(name, "shi"@, i)),
                (link_name_spec(name, "spx"@, i), link_name_spec(name, "spi"@, i)),
            ],
            user_supplied: prev.user_supplied,
            ports: prev.ports.push(
                (link_name_spec(name, "spi"@, i), link_name_spec(name, "shi"@, i), ZONE_PORT_MTU),
            ),
            error: None,
        }
    }
}

/// The setup of the first `n` listed ports: for the `i`th pair `sys,host` a
/// link from `host` to the zone's `shi` link, the user supplied link `sys`
/// and a switch port from `sys` to `shi`; the first entry that is not a pair
/// gives the error, and nothing after it is set up.
pub open spec fn listed_setup(name: Seq<char>, ports: Seq<Seq<char>>, n: nat) -> SetupView
    decreases n,
{
    if n == 0 {
        empty_setup()
    } else {
        let i = (n - 1) as nat;
        let prev = listed_setup(name, ports, i);
        if prev.error is Some {
            prev
        } else {
            match split_pair_spec(ports[i as int]) {
                Some((sys, host)) => SetupView {
                    links: prev.links.push((host, link_name_spec(name, "shi"@, i))),
                    user_supplied: prev.user_supplied.push(sys),
                    ports: prev.ports.push((sys, link_name_spec(name, "shi"@, i), ZONE_PORT_MTU)),
                    error: None,
                },
                None => SetupView { error: Some(pair_error_spec(ports[i as int])), ..prev },
            }
        }
    }
}

/// What setting up the ports `spec` of zone `name` does.
pub open spec fn setup_spec(name: Seq<char>, spec: PortSpec) -> SetupView {
    match spec {
        PortSpec::Count(n) => counted_setup(name, n as nat),
        PortSpec::List(l) => listed_setup(name, strings_view(l@), l@.len()),
    }
}

/// Once a listed port is found that is not a pair, the later ports change
/// nothing.
proof fn lemma_listed_setup_stops(name: Seq<char>, ports: Seq<Seq<char>>, i: nat, j: nat)
    requires
        i <= j,
        listed_setup(name, ports, i).error is Some,
    ensures
        listed_setup(name, ports, j) == listed_setup(name, ports, i),
    decreases j,
{
    if j > i {
        lemma_listed_setup_stops(name, ports, i, (j - 1) as nat);
    }
}

/// The setup of the ports `spec` of zone `name`: the links to create, the
/// user supplied links and the switch configuration, whose program is the
/// zone's ASIC program; for listed ports, up to the first entry that is not
/// a `sys,host` pair, whose error then ends the setup.
pub fn create_ports(name: &str, spec: PortSpec) -> (s: PortSetup)
    ensures
        setup_view(s) == setup_spec(name@, spec),
        s.config.p4_program@ == "/softnpu/asic_program.so"@,
{
    let ghost whole = setup_spec(name@, spec);
    let mut cfg = zone_config();
    let mut links: Vec<LinkPair> = Vec::new();
    let mut user_supplied: Vec<String> = Vec::new();
    assert(pairs_view(links@) =~= Seq::empty());
    assert(strings_view(user_supplied@) =~= Seq::empty());
    assert(ports_view(cfg.ports@) =~= Seq::empty());
    match spec {
        PortSpec::Count(count) => {
            let mut i: usize = 0;
            while i < count
                invariant
                    i <= count,
                    whole == counted_setup(name@, count as nat),
                    cfg.p4_program@ == "/softnpu/asic_program.so"@,
                    (SetupView {
                        links: pairs_view(links@),
                        user_supplied: strings_view(user_supplied@),
                        ports: ports_view(cfg.ports@),
                        error: None,
                    }) == counted_setup(name@, i as nat),
                decreases count - i,
            {
                let ghost links_before = links@;
                let ghost ports_before = cfg.ports@;
                let p = counted_port(name, i);
                links.push(p.host);
                links.push(p.sidecar);
                cfg.ports.push(p.port);
                assert(pairs_view(links@) =~= pairs_view(links_before) + seq![
                    (link_name_spec(name@, "shx"@, i as nat), link_name_spec(name@, "shi"@, i as nat)),
                    (link_name_spec(name@, "spx"@, i as nat), link_name_spec(name@, "spi"@, i as nat)),
                ]);
                assert(ports_view(cfg.ports@) =~= ports_view(ports_before).push(
                    (
                        link_name_spec(name@, "spi"@, i as nat),
                        link_name_spec(name@, "shi"@, i as nat),
                        ZONE_PORT_MTU,
                    ),
                ));
                i = i + 1;
            }
            PortSetup { links, user_supplied, config: cfg, error: None }
        },
        PortSpec::List(ports) => {
            let ghost pv = strings_view(ports@);
            let mut i: usize = 0;
            while i < ports.len()
                invariant
                    i <= ports@.len(),
                    pv == strings_view(ports@),
                    whole == setup_spec(name@, spec),
                    whole == listed_setup(name@, pv, ports@.len()),
                    cfg.p4_program@ == "/softnpu/asic_program.so"@,
                    (SetupView {
                        links: pairs_view(links@),
                        user_supplied: strings_view(user_supplied@),
                        ports: ports_view(cfg.ports@),
                        error: None,
                    }) == listed_setup(name@, pv, i as nat),
                decreases ports@.len() - i,
            {
                let ghost links_before = links@;
                let ghost user_before = user_supplied@;
                let ghost ports_before = cfg.ports@;
                assert(pv[i as int] == ports@[i as int]@);
                match listed_port(name, i, ports[i].as_str()) {
                    Ok(lp) => {
                        links.push(lp.link);
                        user_supplied.push(lp.sys);
                        cfg.ports.push(lp.port);
                        assert(pairs_view(links@) =~= pairs_view(links_before).push(
                            (split_pair_spec(pv[i as int]).unwrap().1, link_name_spec(name@, "shi"@, i as nat)),
                        ));
                        assert(strings_view(user_supplied@) =~= strings_view(user_before).push(
                            split_pair_spec(pv[i as int]).unwrap().0,
                        ));
                        assert(ports_view(cfg.ports@) =~= ports_view(ports_before).push(
                            (
                                split_pair_spec(pv[i as int]).unwrap().0,
                                link_name_spec(name@, "shi"@, i as nat),
                                ZONE_PORT_MTU,
                            ),
                        ));
                    },
                    Err(e) => {
                        proof {
                            lemma_listed_setup_stops(name@, pv, (i + 1) as nat, ports@.len());
                        }
                        return PortSetup { links, user_supplied, config: cfg, error: Some(e) };
                    },
                }
                i = i + 1;
            }
            PortSetup { links, user_supplied, config: cfg, error: None }
        },
    }
}

/// Both ends of each link pair, in order.
pub open spec fn link_ends(pairs: Seq<(Seq<char>, Seq<char>)>) -> Seq<Seq<char>>
    decreases pairs.len(),
{
    if pairs.len() == 0 {
        Seq::empty()
    } else {
        link_ends(pairs.drop_last()).push(pairs.last().0).push(pairs.last().1)
    }
}

proof fn lemma_link_ends_push(pairs: Seq<(Seq<char>, Seq<char>)>, p: (Seq<char>, Seq<char>))
    ensures
        link_ends(pairs.push(p)) == link_ends(pairs).push(p.0).push(p.1),
{
    assert(pairs.push(p).drop_last() =~= pairs);
}

proof fn lemma_counted_teardown_undoes_setup(name: Seq<char>, n: nat)
    ensures
        counted_teardown(name, n) == link_ends(counted_setup(name, n).links),
    decreases n,
{
    if n > 0 {
        let i = (n - 1) as nat;
        lemma_counted_teardown_undoes_setup(name, i);
        let prev = counted_setup(name, i).links;
        let a = (link_name_spec(name, "shx"@, i), link_name_spec(name, "shi"@, i));
        let b = (link_name_spec(name, "spx"@, i), link_name_spec(name, "spi"@, i));
        assert(prev + seq![a, b] =~= prev.push(a).push(b));
        lemma_link_ends_push(prev, a);
        lemma_link_ends_push(prev.push(a), b);
        assert(counted_teardown(name, n) =~= link_ends(prev).push(a.0).push(a.1).push(b.0).push(
            b.1,
        ));
    }
}

proof fn lemma_listed_teardown_undoes_setup(name: Seq<char>, ports: Seq<Seq<char>>, n: nat)
    ensures
        listed_teardown(name, ports, n).1 == listed_setup(name, ports, n).error,
        listed_teardown(name, ports, n).0.to_multiset() == link_ends(
            listed_setup(name, ports, n).links,
        ).to_multiset(),
    decreases n,
{
    broadcast use vstd::seq_lib::to_multiset_build;

    if n > 0 {
        let i = (n - 1) as nat;
        lemma_listed_teardown_undoes_setup(name, ports, i);
        let prev = listed_setup(name, ports, i);
        let prev_links = listed_teardown(name, ports, i).0;
        if prev.error is None {
            if let Some((sys, host)) = split_pair_spec(ports[i as int]) {
                let shi = link_name_spec(name, "shi"@, i);
                lemma_link_ends_push(prev.links, (host, shi));
                assert(prev_links + seq![shi, host] =~= prev_links.push(shi).push(host));
                assert(prev_links.to_multiset().insert(shi).insert(host) =~= prev_links.to_multiset(
                ).insert(host).insert(shi));
            }
        }
    }
}

/// Tearing down a zone's ports deletes exactly the links that setting them
/// up creates, both ends of each pair, each as often as it is created (for
/// counted ports in the same order), and both stop at the same listed entry
/// with the same error.
pub proof fn lemma_teardown_undoes_setup(name: Seq<char>, spec: PortSpec)
    ensures
        teardown_spec(name, spec).1 == setup_spec(name, spec).error,
        teardown_spec(name, spec).0.to_multiset() == link_ends(
            setup_spec(name, spec).links,
        ).to_multiset(),
        spec is Count ==> teardown_spec(name, spec).0 == link_ends(setup_spec(name, spec).links),
{
    match spec {
        PortSpec::Count(n) => lemma_counted_teardown_undoes_setup(name, n as nat),
        PortSpec::List(l) => lemma_listed_teardown_undoes_setup(name, strings_view(l@), l@.len()),
    }
}

/// Link names of three-letter kinds are equal only for the same kind and
/// number.
proof fn lemma_link_name_injective(name: Seq<char>, k1: Seq<char>, i1: nat, k2: Seq<char>, i2: nat)
    requires
        k1.len() == 3,
        k2.len() == 3,
        link_name_spec(name, k1, i1) == link_name_spec(name, k2, i2),
    ensures
        k1 == k2,
        i1 == i2,
{
    let a = link_name_spec(name, k1, i1);
    let b = link_name_spec(name, k2, i2);
    reveal_strlit("_");
    let start: int = name.len() as int + 1;
    assert(a.subrange(start, start + 3) =~= k1);
    assert(b.subrange(start, start + 3) =~= k2);
    assert(a.skip(start + 3) =~= decimal(i1));
    assert(b.skip(start + 3) =~= decimal(i2));
    lemma_decimal_injective(i1, i2);
}

/// The kind of the `k`th link of a counted port.
pub open spec fn counted_kind(k: int) -> Seq<char> {
    if k == 0 {
        "shx"@
    } else if k == 1 {
        "shi"@
    } else if k == 2 {
        "spx"@
    } else {
        "spi"@
    }
}

/// The links of the first `n` counted ports, four per port in the order
/// of `counted_kind`.
proof fn lemma_counted_teardown_index(name: Seq<char>, n: nat)
    ensures
        counted_teardown(name, n).len() == 4 * n,
        forall|a: int|
            0 <= a < 4 * n ==> #[trigger] counted_teardown(name, n)[a] == link_name_spec(
                name,
                counted_kind(a % 4),
                (a / 4) as nat,
            ),
    decreases n,
{
    if n > 0 {
        let m = (n - 1) as nat;
        lemma_counted_teardown_index(name, m);
        assert forall|a: int| 0 <= a < 4 * n implies #[trigger] counted_teardown(name, n)[a]
            == link_name_spec(name, counted_kind(a % 4), (a / 4) as nat) by {
            if a >= 4 * m {
                assert(a / 4 == m && a % 4 == a - 4 * m) by (nonlinear_arith)
                    requires
                        4 * m <= a < 4 * m + 4,
                ;
            } else {
                assert(counted_teardown(name, n)[a] == counted_teardown(name, m)[a]);
            }
        }
    }
}

/// Setting up counted ports never makes the same link twice: the ends of
/// all its link pairs are distinct.
pub proof fn lemma_counted_links_distinct(name: Seq<char>, n: nat)
    ensures
        forall|a: int, b: int|
            0 <= a < b < link_ends(counted_setup(name, n).links).len() ==> link_ends(
                counted_setup(name, n).links,
            )[a] != link_ends(counted_setup(name, n).links)[b],
{
    lemma_counted_teardown_undoes_setup(name, n);
    lemma_counted_teardown_index(name, n);
    reveal_strlit("shx");
    reveal_strlit("shi");
    reveal_strlit("spx");
    reveal_strlit("spi");
    let links = counted_teardown(name, n);
    assert forall|a: int, b: int| 0 <= a < b < links.len() implies links[a] != links[b] by {
        if links[a] == links[b] {
            lemma_link_name_injective(
                name,
                counted_kind(a % 4),
                (a / 4) as nat,
                counted_kind(b % 4),
                (b / 4) as nat,
            );
            let (ka, kb) = (a % 4, b % 4);
            assert(0 <= ka < 4 && 0 <= kb < 4);
            assert(counted_kind(ka)[1] == 'h' <==> ka < 2);
            assert(counted_kind(kb)[1] == 'h' <==> kb < 2);
            assert(counted_kind(ka)[2] == 'x' <==> (ka == 0 || ka == 2));
            assert(counted_kind(kb)[2] == 'x' <==> (kb == 0 || kb == 2));
            assert(ka == kb);
            assert(a == 4 * (a / 4) + a % 4 && b == 4 * (b / 4) + b % 4) by (nonlinear_arith)
                requires
                    0 <= a,
                    0 <= b,
            ;
        }
    }
}

/// The switch configuration of a zone, before its ports are added: the
/// zone runs the ASIC program from its mounted runtime directory.
pub fn zone_config() -> (cfg: Config)
    ensures
        cfg.p4_program@ == "/softnpu/asic_program.so"@,
        cfg.ports@.len() == 0,
{
    Config { p4_program: String::from_str("/softnpu/asic_program.so"), ports: Vec::new() }
}

/// The name of the zone of kind `suffix` (`softnpu` or `host`).
pub fn zone_name(name: &str, suffix: &str) -> (z: String)
    ensures
        z@ == name@ + "_"@ + suffix@,
{
    let mut z = String::from_str(name);
    z.append("_");
    z.append(suffix);
    z
}

/// The zone brand: `omicron1` for an omicron zone, else `sparse`.
pub fn zone_brand(omicron_zone: bool) -> (b: &'static str)
    ensures
        omicron_zone ==> b@ == "omicron1"@,
        !omicron_zone ==> b@ == "sparse"@,
{
    if omicron_zone {
        "omicron1"
    } else {
        "sparse"
    }
}

/// The number of links that the host zone takes: the host side of each
/// port, which is the first half of the links.
pub fn host_zone_link_count(link_count: usize) -> (n: usize)
    ensures
        n == link_count / 2,
{
    link_count / 2
}

/// The file of an artifact to fetch: the artifact or its checksum.
pub fn artifact_file(shasum: bool, artifact: &str) -> (file: String)
    ensures
        shasum ==> file@ == artifact@ + ".sha256.txt"@,
        !shasum ==> file@ == artifact@,
{
    let mut file = String::from_str(artifact);
    if shasum {
        file.append(".sha256.txt");
    }
    file
}


/// Whether `c` has the Unicode `White_Space` property: tab, line feed,
/// vertical tab, form feed, carriage return, space, next line, no-break
/// space, ogham space mark, the spaces U+2000 to U+200A, line and paragraph
/// separator, narrow no-break space, medium mathematical space and
/// ideographic space.
pub open spec fn white_space(c: char) -> bool {
    let u = c as u32;
    ||| 0x9 <= u <= 0xd
    ||| u == 0x20
    ||| u == 0x85
    ||| u == 0xa0
    ||| u == 0x1680
    ||| 0x2000 <= u <= 0x200a
    ||| u == 0x2028
    ||| u == 0x2029
    ||| u == 0x202f
    ||| u == 0x205f
    ||| u == 0x3000
}

/// `s` without its leading whitespace.
pub open spec fn trim_start_spec(s: Seq<char>) -> Seq<char>
    decreases s.len(),
{
    if s.len() > 0 && white_space(s[0]) {
        trim_start_spec(s.drop_first())
    } else {
        s
    }
}

/// `s` without its trailing whitespace.
pub open spec fn trim_end_spec(s: Seq<char>) -> Seq<char>
    decreases s.len(),
{
    if s.len() > 0 && white_space(s.last()) {
        trim_end_spec(s.drop_last())
    } else {
        s
    }
}

/// `s` without its leading and trailing whitespace: the part of `s` from
/// its first to its last character that is not whitespace.
pub open spec fn trim_spec(s: Seq<char>) -> Seq<char> {
    trim_end_spec(trim_start_spec(s))
}

/// `str::trim`: `s` with its leading and trailing whitespace (the
/// characters of the Unicode `White_Space` property) removed.
#[verifier::external_body]
fn trim_text(s: &str) -> (t: String)
    ensures
        t@ == trim_spec(s@),
{
    s.trim().to_owned()
}

/// The checksum that a checksum file holds: its text, trimmed.
pub fn remote_checksum(body: &[u8]) -> (sum: String)
    ensures
        sum@ == trim_spec(lossy_utf8(body@)),
        all_ascii(body@) ==> sum@ == trim_spec(ascii_chars(body@)),
{
    let text = utf8_lossy_text(body);
    trim_text(text.as_str())
}

/// Whether an artifact already on disk is the published one: its digest,
/// if it could be computed, equals the published checksum.
pub fn artifact_is_current(local_digest: Option<&String>, remote: &String) -> (current: bool)
    ensures
        current <==> (local_digest matches Some(d) && d@ == remote@),
{
    match local_digest {
        Some(d) => *d == *remote,
        None => false,
    }
}

/// The script that starts and stops SoftNpu in the zone.
pub const SOFTNPU_SCRIPT: &'static str = "#!/bin/bash

case $1 in
    start) 
        /softnpu/softnpu \
            --uds-path /softnpu \
            /softnpu/softnpu.toml \
            &> /var/log/softnpu.log \
            &
        ;;
    stop)
        pkill -9 softnpu
        ;;
    *)
        echo 'usage: npu [start|stop]'
        exit 1
        ;;
esac
";

} // verus!
