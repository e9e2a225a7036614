//! The text of a table dump: each dump line as the administration tool
//! prints it.
//!
//! IPv4 addresses are written here in dotted decimal; the text of an IPv6
//! address is handed in by the caller, one for each address of a line.

use vstd::prelude::*;
use crate::admin::{
    format_mac, hex_char, hex_digit_char, mac_text, DumpLine, DumpLineView, Expected, IpAddr,
    IpAddrView, Section,
};
use crate::protocol::TableEntry;
use crate::text::{decimal, push_char, push_decimal};

verus! {

/// The heading of a section.
pub open spec fn heading_text(s: Section) -> Seq<char> {
    match s {
        Section::LocalV6 => "local v6:"@,
        Section::LocalV4 => "local v4:"@,
        Section::RouterV6 => "router v6:"@,
        Section::RouterV4 => "router v4:"@,
        Section::ResolverV4 => "resolver v4:"@,
        Section::ResolverV6 => "resolver v6:"@,
        Section::NatV4 => "nat_v4:"@,
        Section::NatV6 => "nat_v6:"@,
        Section::PortMac => "port_mac:"@,
        Section::IcmpV6 => "icmp_v6:"@,
        Section::IcmpV4 => "icmp_v4:"@,
        Section::ProxyArp => "proxy_arp:"@,
    }
}

/// What a decoder expected, as its message names it.
pub open spec fn expected_text(e: Expected) -> Seq<char> {
    match e {
        Expected::Address => "address"@,
        Expected::MacAddress => "mac address"@,
        Expected::AddressSubnet => "[address, subnet]"@,
        Expected::AddressVniMac => "[address, vni, mac]"@,
        Expected::AddressNatId => "[address, nat_id]"@,
        Expected::PortAddress => "[port, address]"@,
    }
}

/// `n` in lower-case hexadecimal, without leading zeros.
pub open spec fn lower_hex(n: nat) -> Seq<char>
    decreases n,
{
    if n < 16 {
        seq![hex_char(n)]
    } else {
        lower_hex(n / 16).push(hex_char(n % 16))
    }
}

/// The bytes in lower-case hexadecimal, between `, ` separators.
pub open spec fn hex_items(data: Seq<u8>) -> Seq<char>
    decreases data.len(),
{
    if data.len() == 0 {
        Seq::empty()
    } else if data.len() == 1 {
        lower_hex(data[0] as nat)
    } else {
        hex_items(data.drop_last()) + ", "@ + lower_hex(data.last() as nat)
    }
}

/// The bytes as `{:x?}` writes them: in brackets, lower-case hexadecimal,
/// `, ` between them.
pub open spec fn debug_hex(data: Seq<u8>) -> Seq<char> {
    "["@ + hex_items(data) + "]"@
}

/// The lines of the bytes as `{:#x?}` writes them, one `0x`-prefixed byte
/// per indented line, each with a trailing comma.
pub open spec fn pretty_hex_items(data: Seq<u8>) -> Seq<char>
    decreases data.len(),
{
    if data.len() == 0 {
        Seq::empty()
    } else {
        pretty_hex_items(data.drop_last()) + "    0x"@ + lower_hex(data.last() as nat) + ",\n"@
    }
}

/// The bytes as `{:#x?}` writes them: `[]` when there are none, else the
/// bracket, a newline, a line per byte and the closing bracket.
pub open spec fn pretty_hex(data: Seq<u8>) -> Seq<char> {
    if data.len() == 0 {
        "[]"@
    } else {
        "[\n"@ + pretty_hex_items(data) + "]"@
    }
}

/// An IPv4 address in dotted decimal.
pub open spec fn ipv4_text(o: Seq<u8>) -> Seq<char> {
    decimal(o[0] as nat) + "."@ + decimal(o[1] as nat) + "."@ + decimal(o[2] as nat) + "."@
        + decimal(o[3] as nat)
}

/// An address as the dump writes it: an IPv4 address in dotted decimal, an
/// IPv6 address as the text `v6` given for it.
pub open spec fn addr_text(a: IpAddrView, v6: Seq<char>) -> Seq<char> {
    match a {
        IpAddrView::V4(o) => ipv4_text(o),
        IpAddrView::V6(_) => v6,
    }
}

/// The text of a dump line, where `first` and `second` are the texts of the
/// line's first and second address when that address is an IPv6 address;
/// a part that did not decode is written `?`.
pub open spec fn line_text_spec(l: DumpLineView, first: Seq<char>, second: Seq<char>) -> Seq<char> {
    match l {
        DumpLineView::Heading(s) => heading_text(s),
        DumpLineView::Unexpected { expected, data } => "expected "@ + expected_text(expected)
            + ", found: "@ + debug_hex(data),
        DumpLineView::Address(a) => addr_text(a, first),
        DumpLineView::Route { target, gateway } => (match target {
            Some((a, m)) => addr_text(a, first) + "/"@ + decimal(m as nat),
            None => "?"@,
        }) + " -> "@ + (match gateway {
            Some((a, p)) => addr_text(a, second) + " ("@ + decimal(p as nat) + ")"@,
            None => "?"@,
        }),
        DumpLineView::Resolver { l3, l2 } => (match l3 {
            Some(a) => addr_text(a, first),
            None => "?"@,
        }) + " -> "@ + (match l2 {
            Some(m) => mac_text(m),
            None => "?"@,
        }),
        DumpLineView::Nat { id, target } => (match id {
            Some((dst, begin, end)) => addr_text(dst, first) + " "@ + decimal(begin as nat) + "/"@
                + decimal(end as nat),
            None => "?"@,
        }) + " -> "@ + (match target {
            Some((a, vni, m)) => addr_text(a, second) + " "@ + decimal(vni as nat) + "/"@
                + mac_text(m),
            None => "?"@,
        }),
        DumpLineView::PortMac { port, mac } => decimal(port as nat) + ": "@ + mac_text(mac),
        DumpLineView::Entry(e) => e.action_id + " "@ + pretty_hex(e.keyset_data) + " "@
            + pretty_hex(e.parameter_data),
        DumpLineView::ProxyArp { begin, end, mac } => ipv4_text(begin) + "/"@ + ipv4_text(end)
            + ": "@ + mac_text(mac),
    }
}

/// The first and second address of a dump line, where it has them: the
/// addresses whose texts `line_text_spec` takes as `first` and `second`.
pub open spec fn line_addrs(l: DumpLineView) -> (Option<IpAddrView>, Option<IpAddrView>) {
    match l {
        DumpLineView::Address(a) => (Some(a), None),
        DumpLineView::Route { target, gateway } => (
            match target {
                Some((a, _)) => Some(a),
                None => None,
            },
            match gateway {
                Some((a, _)) => Some(a),
                None => None,
            },
        ),
        DumpLineView::Resolver { l3, .. } => (l3, None),
        DumpLineView::Nat { id, target } => (
            match id {
                Some((a, _, _)) => Some(a),
                None => None,
            },
            match target {
                Some((a, _, _)) => Some(a),
                None => None,
            },
        ),
        _ => (None, None),
    }
}

/// The octets of an address that is an IPv6 address.
pub open spec fn v6_octets(a: Option<IpAddrView>) -> Option<Seq<u8>> {
    match a {
        Some(IpAddrView::V6(o)) => Some(o),
        _ => None,
    }
}

/// Optional octets as a sequence.
pub open spec fn opt_octets(o: Option<[u8; 16]>) -> Option<Seq<u8>> {
    match o {
        Some(a) => Some(a@),
        None => None,
    }
}

fn v6_of(a: &IpAddr) -> (r: Option<[u8; 16]>)
    ensures
        opt_octets(r) == v6_octets(Some(a@)),
{
    match a {
        IpAddr::V6(o) => Some(*o),
        IpAddr::V4(_) => None,
    }
}

/// The IPv6 addresses among the first and second address of a dump line,
/// whose texts `line_text` takes.
pub fn ipv6_slots(line: &DumpLine) -> (r: (Option<[u8; 16]>, Option<[u8; 16]>))
    ensures
        opt_octets(r.0) == v6_octets(line_addrs(line@).0),
        opt_octets(r.1) == v6_octets(line_addrs(line@).1),
{
    match line {
        DumpLine::Address(a) => (v6_of(a), None),
        DumpLine::Route { target, gateway } => (
            match target {
                Some((a, _)) => v6_of(a),
                None => None,
            },
            match gateway {
                Some((a, _)) => v6_of(a),
                None => None,
            },
        ),
        DumpLine::Resolver { l3, .. } => (
            match l3 {
                Some(a) => v6_of(a),
                None => None,
            },
            None,
        ),
        DumpLine::Nat { id, target } => (
            match id {
                Some((a, _, _)) => v6_of(a),
                None => None,
            },
            match target {
                Some((a, _, _)) => v6_of(a),
                None => None,
            },
        ),
        _ => (None, None),
    }
}

/// A route line shows the destination's text, `/` and the prefix length,
/// then ` -> `, then the gateway's text and its egress port in
/// parentheses. The destination is the line's first address and the
/// gateway its second: an IPv6 destination is written as the first text
/// given and an IPv6 gateway as the second, an IPv4 one in dotted decimal,
/// and a part that did not decode as `?`.
pub proof fn lemma_route_line_layout(
    t: Option<(IpAddrView, u8)>,
    g: Option<(IpAddrView, u8)>,
    first: Seq<char>,
    second: Seq<char>,
)
    ensures
        ({
            let l = DumpLineView::Route { target: t, gateway: g };
            let text = line_text_spec(l, first, second);
            let dst = match t {
                Some((IpAddrView::V6(_), m)) => first + "/"@ + decimal(m as nat),
                Some((IpAddrView::V4(o), m)) => decimal(o[0] as nat) + "."@ + decimal(o[1] as nat)
                    + "."@ + decimal(o[2] as nat) + "."@ + decimal(o[3] as nat) + "/"@ + decimal(
                    m as nat,
                ),
                None => "?"@,
            };
            let gw = match g {
                Some((IpAddrView::V6(_), p)) => second + " ("@ + decimal(p as nat) + ")"@,
                Some((IpAddrView::V4(o), p)) => decimal(o[0] as nat) + "."@ + decimal(o[1] as nat)
                    + "."@ + decimal(o[2] as nat) + "."@ + decimal(o[3] as nat) + " ("@ + decimal(
                    p as nat,
                ) + ")"@,
                None => "?"@,
            };
            &&& text == dst + " -> "@ + gw
            &&& line_addrs(l).0 == (match t {
                Some((a, _)) => Some(a),
                None => None::<IpAddrView>,
            })
            &&& line_addrs(l).1 == (match g {
                Some((a, _)) => Some(a),
                None => None::<IpAddrView>,
            })
        }),
{
}

/// A NAT line shows the destination's text, its first and last port, then
/// ` -> `, then the target's text, the VNI and the inner MAC address. The
/// destination is the line's first address and the target its second: an
/// IPv6 one is written as the text given for it, an IPv4 one in dotted
/// decimal, and a part that did not decode as `?`.
pub proof fn lemma_nat_line_layout(
    id: Option<(IpAddrView, u16, u16)>,
    target: Option<(IpAddrView, u32, Seq<u8>)>,
    first: Seq<char>,
    second: Seq<char>,
)
    ensures
        ({
            let l = DumpLineView::Nat { id, target };
            let text = line_text_spec(l, first, second);
            let left = match id {
                Some((IpAddrView::V6(_), b, e)) => first + " "@ + decimal(b as nat) + "/"@
                    + decimal(e as nat),
                Some((IpAddrView::V4(o), b, e)) => ipv4_text(o) + " "@ + decimal(b as nat) + "/"@
                    + decimal(e as nat),
                None => "?"@,
            };
            let right = match target {
                Some((IpAddrView::V6(_), vni, m)) => second + " "@ + decimal(vni as nat) + "/"@
                    + mac_text(m),
                Some((IpAddrView::V4(o), vni, m)) => ipv4_text(o) + " "@ + decimal(vni as nat)
                    + "/"@ + mac_text(m),
                None => "?"@,
            };
            text == left + " -> "@ + right
        }),
{
}

fn heading(s: Section) -> (t: &'static str)
    ensures
        t@ == heading_text(s),
{
    match s {
        Section::LocalV6 => "local v6:",
        Section::LocalV4 => "local v4:",
        Section::RouterV6 => "router v6:",
        Section::RouterV4 => "router v4:",
        Section::ResolverV4 => "resolver v4:",
        Section::ResolverV6 => "resolver v6:",
        Section::NatV4 => "nat_v4:",
        Section::NatV6 => "nat_v6:",
        Section::PortMac => "port_mac:",
        Section::IcmpV6 => "icmp_v6:",
        Section::IcmpV4 => "icmp_v4:",
        Section::ProxyArp => "proxy_arp:",
    }
}

fn expected_name(e: Expected) -> (t: &'static str)
    ensures
        t@ == expected_text(e),
{
    match e {
        Expected::Address => "address",
        Expected::MacAddress => "mac address",
        Expected::AddressSubnet => "[address, subnet]",
        Expected::AddressVniMac => "[address, vni, mac]",
        Expected::AddressNatId => "[address, nat_id]",
        Expected::PortAddress => "[port, address]",
    }
}

/// Appends `n` in lower-case hexadecimal.
fn push_lower_hex(s: &mut String, n: u8)
    ensures
        final(s)@ == old(s)@ + lower_hex(n as nat),
{
    let ghost start = s@;
    if n >= 16 {
        push_char(s, hex_digit_char(n / 16));
        assert(lower_hex((n / 16) as nat) == seq![hex_char((n / 16) as nat)]);
    }
    push_char(s, hex_digit_char(n % 16));
    assert(s@ =~= start + lower_hex(n as nat));
}

fn push_debug_hex(s: &mut String, data: &Vec<u8>)
    ensures
        final(s)@ == old(s)@ + debug_hex(data@),
{
    let ghost start = s@;
    s.append("[");
    let ghost open = s@;
    let mut i: usize = 0;
    while i < data.len()
        invariant
            i <= data@.len(),
            s@ == open + hex_items(data@.take(i as int)),
        decreases data@.len() - i,
    {
        let ghost before = s@;
        if i > 0 {
            s.append(", ");
        }
        push_lower_hex(s, data[i]);
        assert(data@.take(i + 1).drop_last() =~= data@.take(i as int));
        i = i + 1;
        assert(s@ =~= open + hex_items(data@.take(i as int)));
    }
    assert(data@.take(i as int) =~= data@);
    s.append("]");
    assert(s@ =~= start + debug_hex(data@));
}

fn push_pretty_hex(s: &mut String, data: &Vec<u8>)
    ensures
        final(s)@ == old(s)@ + pretty_hex(data@),
{
    if data.len() == 0 {
        s.append("[]");
        return;
    }
    let ghost start = s@;
    s.append("[\n");
    let ghost open = s@;
    let mut i: usize = 0;
    while i < data.len()
        invariant
            i <= data@.len(),
            s@ == open + pretty_hex_items(data@.take(i as int)),
        decreases data@.len() - i,
    {
        s.append("    0x");
        push_lower_hex(s, data[i]);
        s.append(",\n");
        assert(data@.take(i + 1).drop_last() =~= data@.take(i as int));
        i = i + 1;
        assert(s@ =~= open + pretty_hex_items(data@.take(i as int)));
    }
    assert(data@.take(i as int) =~= data@);
    s.append("]");
    assert(s@ =~= start + pretty_hex(data@));
}

fn push_ipv4(s: &mut String, o: &[u8; 4])
    ensures
        final(s)@ == old(s)@ + ipv4_text(o@),
{
    let ghost start = s@;
    push_decimal(s, o[0] as usize);
    s.append(".");
    push_decimal(s, o[1] as usize);
    s.append(".");
    push_decimal(s, o[2] as usize);
    s.append(".");
    push_decimal(s, o[3] as usize);
    assert(s@ =~= start + ipv4_text(o@));
}

fn push_addr(s: &mut String, a: &IpAddr, v6: &str)
    ensures
        final(s)@ == old(s)@ + addr_text(a@, v6@),
{
    match a {
        IpAddr::V4(o) => push_ipv4(s, o),
        IpAddr::V6(_) => s.append(v6),
    }
}

fn push_mac(s: &mut String, mac: &[u8; 6])
    ensures
        final(s)@ == old(s)@ + mac_text(mac@),
{
    let m = format_mac(mac);
    s.append(m.as_str());
}

/// The text of a dump line as the administration tool prints it. `first`
/// and `second` are the texts of the line's first and second address where
/// that address is an IPv6 address (they are not read for an IPv4 one).
pub fn line_text(line: &DumpLine, first: &str, second: &str) -> (text: String)
    ensures
        text@ == line_text_spec(line@, first@, second@),
{
    let mut s = String::new();
    match line {
        DumpLine::Heading(sec) => {
            s.append(heading(*sec));
        },
        DumpLine::Unexpected { expected, data } => {
            s.append("expected ");
            s.append(expected_name(*expected));
            s.append(", found: ");
            push_debug_hex(&mut s, data);
        },
        DumpLine::Address(a) => {
            push_addr(&mut s, a, first);
        },
        DumpLine::Route { target, gateway } => {
            match target {
                Some((a, m)) => {
                    push_addr(&mut s, a, first);
                    s.append("/");
                    push_decimal(&mut s, *m as usize);
                },
                None => {
                    s.append("?");
                },
            }
            s.append(" -> ");
            match gateway {
                Some((a, p)) => {
                    push_addr(&mut s, a, second);
                    s.append(" (");
                    push_decimal(&mut s, *p as usize);
                    s.append(")");
                },
                None => {
                    s.append("?");
                },
            }
        },
        DumpLine::Resolver { l3, l2 } => {
            match l3 {
                Some(a) => push_addr(&mut s, a, first),
                None => {
                    s.append("?");
                },
            }
            s.append(" -> ");
            match l2 {
                Some(m) => push_mac(&mut s, m),
                None => {
                    s.append("?");
                },
            }
        },
        DumpLine::Nat { id, target } => {
            match id {
                Some((dst, begin, end)) => {
                    push_addr(&mut s, dst, first);
                    s.append(" ");
                    push_decimal(&mut s, *begin as usize);
                    s.append("/");
                    push_decimal(&mut s, *end as usize);
                },
                None => {
                    s.append("?");
                },
            }
            s.append(" -> ");
            match target {
                Some((a, vni, m)) => {
                    push_addr(&mut s, a, second);
                    s.append(" ");
                    push_decimal(&mut s, *vni as usize);
                    s.append("/");
                    push_mac(&mut s, m);
                },
                None => {
                    s.append("?");
                },
            }
        },
        DumpLine::PortMac { port, mac } => {
            push_decimal(&mut s, *port as usize);
            s.append(": ");
            push_mac(&mut s, mac);
        },
        DumpLine::Entry(e) => {
            s.append(e.action_id.as_str());
            s.append(" ");
            push_pretty_hex(&mut s, &e.keyset_data);
            s.append(" ");
            push_pretty_hex(&mut s, &e.parameter_data);
        },
        DumpLine::ProxyArp { begin, end, mac } => {
            push_ipv4(&mut s, begin);
            s.append("/");
            push_ipv4(&mut s, end);
            s.append(": ");
            push_mac(&mut s, mac);
        },
    }
    assert(s@ =~= line_text_spec(line@, first@, second@));
    s
}

} // verus!
