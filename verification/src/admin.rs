//! The administration tool's protocol: how each command becomes a table
//! operation on the switch, and how the table entries that the switch dumps
//! are read back.
//!
//! Table ids of the SoftNpu router program: local addresses (v6, v4),
//! routes (v6, v4), NAT (v4, v6), ICMP (v6, v4), resolvers (v4, v6), port MAC
//! addresses and proxy ARP ranges.

use vstd::prelude::*;
use std::collections::BTreeMap;
use crate::bytes::{append_be16, append_be24, append_bytes, be16, be16_value, be24, be24_value, array4_at, array6_at, array16_at, copy_bytes};
use crate::protocol::{TableEntry, TableEntryView};
use crate::text::push_char;

verus! {

/// The table of local IPv6 addresses.
pub const LOCAL_V6: u32 = 0;
/// The table of local IPv4 addresses.
pub const LOCAL_V4: u32 = 1;
/// The IPv6 routing table.
pub const ROUTER_V6: u32 = 2;
/// The IPv4 routing table.
pub const ROUTER_V4: u32 = 3;
/// The NAT table for IPv4 destinations.
pub const NAT_V4: u32 = 4;
/// The NAT table for IPv6 destinations.
pub const NAT_V6: u32 = 5;
/// The ICMPv6 table.
pub const ICMP_V6: u32 = 6;
/// The ICMPv4 table.
pub const ICMP_V4: u32 = 7;
/// The ARP table (IPv4 to MAC).
pub const RESOLVER_V4: u32 = 8;
/// The NDP table (IPv6 to MAC).
pub const RESOLVER_V6: u32 = 9;
/// The table of port MAC addresses.
pub const PORT_MAC: u32 = 10;
/// The table of proxy ARP ranges.
pub const PROXY_ARP: u32 = 11;

/// The largest VNI plus one: a VNI has 24 bits.
pub const VNI_LIMIT: u32 = 0x100_0000;

/// An IPv4 or IPv6 address, by its octets.
#[derive(Clone, Copy, Debug)]
pub enum IpAddr {
    V4([u8; 4]),
    V6([u8; 16]),
}

/// An address as a sequence of octets.
pub enum IpAddrView {
    V4(Seq<u8>),
    V6(Seq<u8>),
}

impl View for IpAddr {
    type V = IpAddrView;

    open spec fn view(&self) -> IpAddrView {
        match self {
            IpAddr::V4(a) => IpAddrView::V4(a@),
            IpAddr::V6(a) => IpAddrView::V6(a@),
        }
    }
}

/// A MAC address.
#[derive(Clone, Copy, Debug)]
pub struct MacAddr(pub [u8; 6]);

/// A command of the administration tool, with its arguments.
#[derive(Clone, Copy, Debug)]
pub enum AdminCommand {
    AddRoute4 { destination: [u8; 4], mask: u8, port: u8, nexthop: [u8; 4] },
    RemoveRoute4 { destination: [u8; 4], mask: u8 },
    AddRoute6 { destination: [u8; 16], mask: u8, port: u8, nexthop: [u8; 16] },
    RemoveRoute6 { destination: [u8; 16], mask: u8 },
    AddAddress6 { address: [u8; 16] },
    RemoveAddress6 { address: [u8; 16] },
    AddAddress4 { address: [u8; 4] },
    RemoveAddress4 { address: [u8; 4] },
    SetMac { port: u8, mac: MacAddr },
    ClearMac { port: u8 },
    PortCount,
    AddNdpEntry { l3: [u8; 16], l2: MacAddr },
    RemoveNdpEntry { l3: [u8; 16] },
    AddArpEntry { l3: [u8; 4], l2: MacAddr },
    RemoveArpEntry { l3: [u8; 4] },
    DumpState,
    AddNat6 { dst: [u8; 16], begin: u16, end: u16, target: [u8; 16], vni: u32, mac: MacAddr },
    RemoveNat6 { dst: [u8; 16], begin: u16, end: u16 },
    AddNat4 { dst: [u8; 4], begin: u16, end: u16, target: [u8; 16], vni: u32, mac: MacAddr },
    RemoveNat4 { dst: [u8; 4], begin: u16, end: u16 },
    AddProxyArp { begin: [u8; 4], end: [u8; 4], mac: MacAddr },
    RemoveProxyArp { begin: [u8; 4], end: [u8; 4] },
}

/// A request that the administration tool sends to the switch.
#[derive(Debug)]
pub enum AdminRequest {
    TableAdd { table: u32, action: u32, keyset_data: Vec<u8>, parameter_data: Vec<u8> },
    TableRemove { table: u32, keyset_data: Vec<u8> },
    RadixRequest,
    DumpRequest,
}

/// An administration request with its byte strings as sequences.
pub enum AdminRequestView {
    TableAdd { table: u32, action: u32, keyset_data: Seq<u8>, parameter_data: Seq<u8> },
    TableRemove { table: u32, keyset_data: Seq<u8> },
    RadixRequest,
    DumpRequest,
}

impl View for AdminRequest {
    type V = AdminRequestView;

    open spec fn view(&self) -> AdminRequestView {
        match self {
            AdminRequest::TableAdd { table, action, keyset_data, parameter_data } =>
                AdminRequestView::TableAdd {
                    table: *table,
                    action: *action,
                    keyset_data: keyset_data@,
                    parameter_data: parameter_data@,
                },
            AdminRequest::TableRemove { table, keyset_data } =>
                AdminRequestView::TableRemove { table: *table, keyset_data: keyset_data@ },
            AdminRequest::RadixRequest => AdminRequestView::RadixRequest,
            AdminRequest::DumpRequest => AdminRequestView::DumpRequest,
        }
    }
}

/// Why a command cannot be sent.
#[derive(Debug, PartialEq, Eq, Structural)]
pub enum AdminError {
    /// The VNI does not fit in 24 bits.
    VniTooBig,
}

/// The key of a route: the destination's octets, then the prefix length.
pub open spec fn route_keyset(destination: Seq<u8>, mask: u8) -> Seq<u8> {
    destination.push(mask)
}

/// The parameters of a route: the egress port, then the next hop's octets.
pub open spec fn route_parameters(port: u8, nexthop: Seq<u8>) -> Seq<u8> {
    seq![port] + nexthop
}

/// The key of a NAT entry: the destination's octets, then the first and
/// last port of the range, big-endian.
pub open spec fn nat_keyset(dst: Seq<u8>, begin: u16, end: u16) -> Seq<u8> {
    dst + be16(begin) + be16(end)
}

/// The parameters of a NAT entry: the underlay target's octets, the VNI's
/// three bytes, big-endian, and the inner MAC address.
pub open spec fn nat_parameters(target: Seq<u8>, vni: u32, mac: Seq<u8>) -> Seq<u8> {
    target + be24(vni) + mac
}

/// The request that a command stands for, or `None` where the command is
/// refused (a VNI of more than 24 bits).
pub open spec fn command_request_spec(cmd: AdminCommand) -> Option<AdminRequestView> {
    match cmd {
        AdminCommand::AddRoute4 { destination, mask, port, nexthop } => Some(
            AdminRequestView::TableAdd {
                table: ROUTER_V4,
                action: 1,
                keyset_data: route_keyset(destination@, mask),
                parameter_data: route_parameters(port, nexthop@),
            },
        ),
        AdminCommand::RemoveRoute4 { destination, mask } => Some(
            AdminRequestView::TableRemove {
                table: ROUTER_V4,
                keyset_data: route_keyset(destination@, mask),
            },
        ),
        AdminCommand::AddRoute6 { destination, mask, port, nexthop } => Some(
            AdminRequestView::TableAdd {
                table: ROUTER_V6,
                action: 1,
                keyset_data: route_keyset(destination@, mask),
                parameter_data: route_parameters(port, nexthop@),
            },
        ),
        AdminCommand::RemoveRoute6 { destination, mask } => Some(
            AdminRequestView::TableRemove {
                table: ROUTER_V6,
                keyset_data: route_keyset(destination@, mask),
            },
        ),
        AdminCommand::AddAddress6 { address } => Some(
            AdminRequestView::TableAdd {
                table: LOCAL_V6,
                action: 0,
                keyset_data: address@,
                parameter_data: Seq::empty(),
            },
        ),
        AdminCommand::RemoveAddress6 { address } => Some(
            AdminRequestView::TableRemove { table: LOCAL_V6, keyset_data: address@ },
        ),
        AdminCommand::AddAddress4 { address } => Some(
            AdminRequestView::TableAdd {
                table: LOCAL_V4,
                action: 0,
                keyset_data: address@,
                parameter_data: Seq::empty(),
            },
        ),
        AdminCommand::RemoveAddress4 { address } => Some(
            AdminRequestView::TableRemove { table: LOCAL_V4, keyset_data: address@ },
        ),
        AdminCommand::SetMac { port, mac } => Some(
            AdminRequestView::TableAdd {
                table: PORT_MAC,
                action: 0,
                keyset_data: seq![port],
                parameter_data: mac.0@,
            },
        ),
        AdminCommand::ClearMac { port } => Some(
            AdminRequestView::TableRemove { table: PORT_MAC, keyset_data: seq![port] },
        ),
        AdminCommand::PortCount => Some(AdminRequestView::RadixRequest),
        AdminCommand::AddNdpEntry { l3, l2 } => Some(
            AdminRequestView::TableAdd {
                table: RESOLVER_V6,
                action: 0,
                keyset_data: l3@,
                parameter_data: l2.0@,
            },
        ),
        AdminCommand::RemoveNdpEntry { l3 } => Some(
            AdminRequestView::TableRemove { table: RESOLVER_V6, keyset_data: l3@ },
        ),
        AdminCommand::AddArpEntry { l3, l2 } => Some(
            AdminRequestView::TableAdd {
                table: RESOLVER_V4,
                action: 0,
                keyset_data: l3@,
                parameter_data: l2.0@,
            },
        ),
        AdminCommand::RemoveArpEntry { l3 } => Some(
            AdminRequestView::TableRemove { table: RESOLVER_V4, keyset_data: l3@ },
        ),
        AdminCommand::DumpState => Some(AdminRequestView::DumpRequest),
        AdminCommand::AddNat6 { dst, begin, end, target, vni, mac } => if vni >= VNI_LIMIT {
            None
        } else {
            Some(
                AdminRequestView::TableAdd {
                    table: NAT_V6,
                    action: 0,
                    keyset_data: nat_keyset(dst@, begin, end),
                    parameter_data: nat_parameters(target@, vni, mac.0@),
                },
            )
        },
        AdminCommand::RemoveNat6 { dst, begin, end } => Some(
            AdminRequestView::TableRemove { table: NAT_V6, keyset_data: nat_keyset(dst@, begin, end) },
        ),
        AdminCommand::AddNat4 { dst, begin, end, target, vni, mac } => if vni >= VNI_LIMIT {
            None
        } else {
            Some(
                AdminRequestView::TableAdd {
                    table: NAT_V4,
                    action: 0,
                    keyset_data: nat_keyset(dst@, begin, end),
                    parameter_data: nat_parameters(target@, vni, mac.0@),
                },
            )
        },
        AdminCommand::RemoveNat4 { dst, begin, end } => Some(
            AdminRequestView::TableRemove { table: NAT_V4, keyset_data: nat_keyset(dst@, begin, end) },
        ),
        AdminCommand::AddProxyArp { begin, end, mac } => Some(
            AdminRequestView::TableAdd {
                table: PROXY_ARP,
                action: 0,
                keyset_data: begin@ + end@,
                parameter_data: mac.0@,
            },
        ),
        AdminCommand::RemoveProxyArp { begin, end } => Some(
            AdminRequestView::TableRemove { table: PROXY_ARP, keyset_data: begin@ + end@ },
        ),
    }
}

fn route_keyset_of(destination: &[u8], mask: u8) -> (v: Vec<u8>)
    ensures
        v@ == route_keyset(destination@, mask),
{
    let mut v = copy_bytes(destination);
    v.push(mask);
    v
}

fn route_parameters_of(port: u8, nexthop: &[u8]) -> (v: Vec<u8>)
    ensures
        v@ == route_parameters(port, nexthop@),
{
    let mut v: Vec<u8> = Vec::new();
    v.push(port);
    append_bytes(&mut v, nexthop);
    assert(v@ =~= route_parameters(port, nexthop@));
    v
}

fn nat_keyset_of(dst: &[u8], begin: u16, end: u16) -> (v: Vec<u8>)
    ensures
        v@ == nat_keyset(dst@, begin, end),
{
    let mut v = copy_bytes(dst);
    append_be16(&mut v, begin);
    append_be16(&mut v, end);
    v
}

fn nat_parameters_of(target: &[u8], vni: u32, mac: &[u8]) -> (v: Vec<u8>)
    ensures
        v@ == nat_parameters(target@, vni, mac@),
{
    let mut v = copy_bytes(target);
    append_be24(&mut v, vni);
    append_bytes(&mut v, mac);
    v
}

fn pair_of(first: &[u8], second: &[u8]) -> (v: Vec<u8>)
    ensures
        v@ == first@ + second@,
{
    let mut v = copy_bytes(first);
    append_bytes(&mut v, second);
    v
}

/// The request that `cmd` sends to the switch, or `VniTooBig` for a NAT
/// entry whose VNI does not fit in 24 bits.
pub fn command_request(cmd: &AdminCommand) -> (r: Result<AdminRequest, AdminError>)
    ensures
        match command_request_spec(*cmd) {
            Some(req) => r matches Ok(sent) && sent@ == req,
            None => r == Err::<AdminRequest, AdminError>(AdminError::VniTooBig),
        },
{
    match cmd {
        AdminCommand::AddRoute4 { destination, mask, port, nexthop } => Ok(
            AdminRequest::TableAdd {
                table: ROUTER_V4,
                action: 1,
                keyset_data: route_keyset_of(destination, *mask),
                parameter_data: route_parameters_of(*port, nexthop),
            },
        ),
        AdminCommand::RemoveRoute4 { destination, mask } => Ok(
            AdminRequest::TableRemove {
                table: ROUTER_V4,
                keyset_data: route_keyset_of(destination, *mask),
            },
        ),
        AdminCommand::AddRoute6 { destination, mask, port, nexthop } => Ok(
            AdminRequest::TableAdd {
                table: ROUTER_V6,
                action: 1,
                keyset_data: route_keyset_of(destination, *mask),
                parameter_data: route_parameters_of(*port, nexthop),
            },
        ),
        AdminCommand::RemoveRoute6 { destination, mask } => Ok(
            AdminRequest::TableRemove {
                table: ROUTER_V6,
                keyset_data: route_keyset_of(destination, *mask),
            },
        ),
        AdminCommand::AddAddress6 { address } => Ok(
            AdminRequest::TableAdd {
                table: LOCAL_V6,
                action: 0,
                keyset_data: copy_bytes(address),
                parameter_data: Vec::new(),
            },
        ),
        AdminCommand::RemoveAddress6 { address } => Ok(
            AdminRequest::TableRemove { table: LOCAL_V6, keyset_data: copy_bytes(address) },
        ),
        AdminCommand::AddAddress4 { address } => Ok(
            AdminRequest::TableAdd {
                table: LOCAL_V4,
                action: 0,
                keyset_data: copy_bytes(address),
                parameter_data: Vec::new(),
            },
        ),
        AdminCommand::RemoveAddress4 { address } => Ok(
            AdminRequest::TableRemove { table: LOCAL_V4, keyset_data: copy_bytes(address) },
        ),
        AdminCommand::SetMac { port, mac } => {
            let mut keyset_data: Vec<u8> = Vec::new();
            keyset_data.push(*port);
            assert(keyset_data@ =~= seq![*port]);
            Ok(
                AdminRequest::TableAdd {
                    table: PORT_MAC,
                    action: 0,
                    keyset_data,
                    parameter_data: copy_bytes(&mac.0),
                },
            )
        },
        AdminCommand::ClearMac { port } => {
            let mut keyset_data: Vec<u8> = Vec::new();
            keyset_data.push(*port);
            assert(keyset_data@ =~= seq![*port]);
            Ok(AdminRequest::TableRemove { table: PORT_MAC, keyset_data })
        },
        AdminCommand::PortCount => Ok(AdminRequest::RadixRequest),
        AdminCommand::AddNdpEntry { l3, l2 } => Ok(
            AdminRequest::TableAdd {
                table: RESOLVER_V6,
                action: 0,
                keyset_data: copy_bytes(l3),
                parameter_data: copy_bytes(&l2.0),
            },
        ),
        AdminCommand::RemoveNdpEntry { l3 } => Ok(
            AdminRequest::TableRemove { table: RESOLVER_V6, keyset_data: copy_bytes(l3) },
        ),
        AdminCommand::AddArpEntry { l3, l2 } => Ok(
            AdminRequest::TableAdd {
                table: RESOLVER_V4,
                action: 0,
                keyset_data: copy_bytes(l3),
                parameter_data: copy_bytes(&l2.0),
            },
        ),
        AdminCommand::RemoveArpEntry { l3 } => Ok(
            AdminRequest::TableRemove { table: RESOLVER_V4, keyset_data: copy_bytes(l3) },
        ),
        AdminCommand::DumpState => Ok(AdminRequest::DumpRequest),
        AdminCommand::AddNat6 { dst, begin, end, target, vni, mac } => {
            if *vni >= VNI_LIMIT {
                return Err(AdminError::VniTooBig);
            }
            Ok(
                AdminRequest::TableAdd {
                    table: NAT_V6,
                    action: 0,
                    keyset_data: nat_keyset_of(dst, *begin, *end),
                    parameter_data: nat_parameters_of(target, *vni, &mac.0),
                },
            )
        },
        AdminCommand::RemoveNat6 { dst, begin, end } => Ok(
            AdminRequest::TableRemove { table: NAT_V6, keyset_data: nat_keyset_of(dst, *begin, *end) },
        ),
        AdminCommand::AddNat4 { dst, begin, end, target, vni, mac } => {
            if *vni >= VNI_LIMIT {
                return Err(AdminError::VniTooBig);
            }
            Ok(
                AdminRequest::TableAdd {
                    table: NAT_V4,
                    action: 0,
                    keyset_data: nat_keyset_of(dst, *begin, *end),
                    parameter_data: nat_parameters_of(target, *vni, &mac.0),
                },
            )
        },
        AdminCommand::RemoveNat4 { dst, begin, end } => Ok(
            AdminRequest::TableRemove { table: NAT_V4, keyset_data: nat_keyset_of(dst, *begin, *end) },
        ),
        AdminCommand::AddProxyArp { begin, end, mac } => Ok(
            AdminRequest::TableAdd {
                table: PROXY_ARP,
                action: 0,
                keyset_data: pair_of(begin, end),
                parameter_data: copy_bytes(&mac.0),
            },
        ),
        AdminCommand::RemoveProxyArp { begin, end } => Ok(
            AdminRequest::TableRemove { table: PROXY_ARP, keyset_data: pair_of(begin, end) },
        ),
    }
}


/// The address whose octets are `data`: four octets make an IPv4 address,
/// sixteen an IPv6 address, any other length none.
pub open spec fn addr_spec(data: Seq<u8>) -> Option<IpAddrView> {
    if data.len() == 4 {
        Some(IpAddrView::V4(data))
    } else if data.len() == 16 {
        Some(IpAddrView::V6(data))
    } else {
        None
    }
}

/// A MAC address is six octets.
pub open spec fn mac_spec(data: Seq<u8>) -> Option<Seq<u8>> {
    if data.len() == 6 {
        Some(data)
    } else {
        None
    }
}

/// An address followed by a prefix length.
pub open spec fn subnet_spec(data: Seq<u8>) -> Option<(IpAddrView, u8)> {
    if data.len() == 5 {
        Some((IpAddrView::V4(data.take(4)), data[4]))
    } else if data.len() == 17 {
        Some((IpAddrView::V6(data.take(16)), data[16]))
    } else {
        None
    }
}

/// An address, a 24-bit VNI (big-endian) and a MAC address.
pub open spec fn vni_mac_spec(data: Seq<u8>) -> Option<(IpAddrView, u32, Seq<u8>)> {
    if data.len() == 13 {
        Some(
            (
                IpAddrView::V4(data.take(4)),
                be24_value(data[4], data[5], data[6]),
                data.subrange(7, 13),
            ),
        )
    } else if data.len() == 25 {
        Some(
            (
                IpAddrView::V6(data.take(16)),
                be24_value(data[16], data[17], data[18]),
                data.subrange(19, 25),
            ),
        )
    } else {
        None
    }
}

/// An address followed by the first and last port of a range, big-endian.
pub open spec fn nat_id_spec(data: Seq<u8>) -> Option<(IpAddrView, u16, u16)> {
    if data.len() == 8 {
        Some(
            (
                IpAddrView::V4(data.take(4)),
                be16_value(data[4], data[5]),
                be16_value(data[6], data[7]),
            ),
        )
    } else if data.len() == 20 {
        Some(
            (
                IpAddrView::V6(data.take(16)),
                be16_value(data[16], data[17]),
                be16_value(data[18], data[19]),
            ),
        )
    } else {
        None
    }
}

/// A port followed by an address.
pub open spec fn port_addr_spec(data: Seq<u8>) -> Option<(IpAddrView, u8)> {
    if data.len() == 5 {
        Some((IpAddrView::V4(data.skip(1)), data[0]))
    } else if data.len() == 17 {
        Some((IpAddrView::V6(data.skip(1)), data[0]))
    } else {
        None
    }
}

/// An optional address by its view.
pub open spec fn opt_addr_view(a: Option<IpAddr>) -> Option<IpAddrView> {
    match a {
        Some(x) => Some(x@),
        None => None,
    }
}

/// An optional MAC address as a sequence.
pub open spec fn opt_mac_view(m: Option<[u8; 6]>) -> Option<Seq<u8>> {
    match m {
        Some(x) => Some(x@),
        None => None,
    }
}

/// An optional address and byte, the address by its view.
pub open spec fn opt_addr_byte_view(r: Option<(IpAddr, u8)>) -> Option<(IpAddrView, u8)> {
    match r {
        Some((a, b)) => Some((a@, b)),
        None => None,
    }
}

/// An optional address, VNI and MAC address, by their views.
pub open spec fn opt_vni_mac_view(r: Option<(IpAddr, u32, [u8; 6])>) -> Option<
    (IpAddrView, u32, Seq<u8>),
> {
    match r {
        Some((a, v, m)) => Some((a@, v, m@)),
        None => None,
    }
}

/// An optional address and port range, the address by its view.
pub open spec fn opt_nat_id_view(r: Option<(IpAddr, u16, u16)>) -> Option<(IpAddrView, u16, u16)> {
    match r {
        Some((a, b, e)) => Some((a@, b, e)),
        None => None,
    }
}

/// The address of `width` octets that starts at `off`.
fn addr_at(data: &[u8], off: usize, width: usize) -> (a: IpAddr)
    requires
        width == 4 || width == 16,
        off + width <= data@.len(),
    ensures
        a@ == (if width == 4 {
            IpAddrView::V4(data@.subrange(off as int, off + width))
        } else {
            IpAddrView::V6(data@.subrange(off as int, off + width))
        }),
{
    if width == 4 {
        IpAddr::V4(array4_at(data, off))
    } else {
        IpAddr::V6(array16_at(data, off))
    }
}

fn be16_at(data: &[u8], off: usize) -> (x: u16)
    requires
        off + 2 <= data@.len(),
    ensures
        x == be16_value(data@[off as int], data@[off + 1]),
{
    (data[off] as u16) * 256 + (data[off + 1] as u16)
}

fn be24_at(data: &[u8], off: usize) -> (x: u32)
    requires
        off + 3 <= data@.len(),
    ensures
        x == be24_value(data@[off as int], data@[off + 1], data@[off + 2]),
{
    (data[off] as u32) * 65536 + (data[off + 1] as u32) * 256 + (data[off + 2] as u32)
}

/// Reads an address: four or sixteen octets.
pub fn get_addr(data: &[u8]) -> (a: Option<IpAddr>)
    ensures
        opt_addr_view(a) == addr_spec(data@),
{
    if data.len() == 4 || data.len() == 16 {
        let a = addr_at(data, 0, data.len());
        assert(data@.subrange(0, data@.len() as int) =~= data@);
        Some(a)
    } else {
        None
    }
}

/// Reads a MAC address: six octets.
pub fn get_mac(data: &[u8]) -> (m: Option<[u8; 6]>)
    ensures
        opt_mac_view(m) == mac_spec(data@),
{
    if data.len() == 6 {
        let m = array6_at(data, 0);
        assert(data@.subrange(0, 6) =~= data@);
        Some(m)
    } else {
        None
    }
}

/// Reads an address and its prefix length.
pub fn get_addr_subnet(data: &[u8]) -> (r: Option<(IpAddr, u8)>)
    ensures
        opt_addr_byte_view(r) == subnet_spec(data@),
{
    if data.len() == 5 || data.len() == 17 {
        let width = data.len() - 1;
        let a = addr_at(data, 0, width);
        assert(data@.subrange(0, width as int) =~= data@.take(width as int));
        Some((a, data[width]))
    } else {
        None
    }
}

/// Reads an address, a VNI and a MAC address.
pub fn get_addr_vni_mac(data: &[u8]) -> (r: Option<(IpAddr, u32, [u8; 6])>)
    ensures
        opt_vni_mac_view(r) == vni_mac_spec(data@),
{
    if data.len() == 13 || data.len() == 25 {
        let width = data.len() - 9;
        let a = addr_at(data, 0, width);
        assert(data@.subrange(0, width as int) =~= data@.take(width as int));
        let vni = be24_at(data, width);
        let mac = array6_at(data, width + 3);
        Some((a, vni, mac))
    } else {
        None
    }
}

/// Reads an address and a port range.
pub fn get_addr_nat_id(data: &[u8]) -> (r: Option<(IpAddr, u16, u16)>)
    ensures
        opt_nat_id_view(r) == nat_id_spec(data@),
{
    if data.len() == 8 || data.len() == 20 {
        let width = data.len() - 4;
        let a = addr_at(data, 0, width);
        assert(data@.subrange(0, width as int) =~= data@.take(width as int));
        let begin = be16_at(data, width);
        let end = be16_at(data, width + 2);
        Some((a, begin, end))
    } else {
        None
    }
}

/// Reads a port and an address.
pub fn get_port_addr(data: &[u8]) -> (r: Option<(IpAddr, u8)>)
    ensures
        opt_addr_byte_view(r) == port_addr_spec(data@),
{
    if data.len() == 5 || data.len() == 17 {
        let width = data.len() - 1;
        let a = addr_at(data, 1, width);
        assert(data@.subrange(1, 1 + width as int) =~= data@.skip(1));
        Some((a, data[0]))
    } else {
        None
    }
}

/// Two big-endian bytes read back give the value they encode.
pub proof fn lemma_be16_round_trip(x: u16)
    ensures
        be16_value(be16(x)[0], be16(x)[1]) == x,
{
}

/// Three big-endian bytes read back give the value they encode, for a value
/// of at most 24 bits.
pub proof fn lemma_be24_round_trip(x: u32)
    requires
        x < VNI_LIMIT,
    ensures
        be24_value(be24(x)[0], be24(x)[1], be24(x)[2]) == x,
{
}

/// Every entry that a command adds to a table is read back, by the decoder
/// that the dump uses for that table, as the command's own arguments.
pub proof fn lemma_added_entry_reads_back(cmd: AdminCommand)
    requires
        command_request_spec(cmd) is Some,
    ensures
        cmd matches AdminCommand::AddRoute4 { destination, mask, port, nexthop } ==> (
        command_request_spec(cmd) matches Some(
            AdminRequestView::TableAdd { table, keyset_data, parameter_data, .. },
        ) && table == ROUTER_V4 && subnet_spec(keyset_data) == Some(
            (IpAddrView::V4(destination@), mask),
        ) && port_addr_spec(parameter_data) == Some((IpAddrView::V4(nexthop@), port))),
        cmd matches AdminCommand::AddRoute6 { destination, mask, port, nexthop } ==> (
        command_request_spec(cmd) matches Some(
            AdminRequestView::TableAdd { table, keyset_data, parameter_data, .. },
        ) && table == ROUTER_V6 && subnet_spec(keyset_data) == Some(
            (IpAddrView::V6(destination@), mask),
        ) && port_addr_spec(parameter_data) == Some((IpAddrView::V6(nexthop@), port))),
        cmd matches AdminCommand::AddAddress4 { address } ==> (command_request_spec(cmd) matches Some(
            AdminRequestView::TableAdd { table, keyset_data, .. },
        ) && table == LOCAL_V4 && addr_spec(keyset_data) == Some(IpAddrView::V4(address@))),
        cmd matches AdminCommand::AddAddress6 { address } ==> (command_request_spec(cmd) matches Some(
            AdminRequestView::TableAdd { table, keyset_data, .. },
        ) && table == LOCAL_V6 && addr_spec(keyset_data) == Some(IpAddrView::V6(address@))),
        cmd matches AdminCommand::AddArpEntry { l3, l2 } ==> (command_request_spec(cmd) matches Some(
            AdminRequestView::TableAdd { table, keyset_data, parameter_data, .. },
        ) && table == RESOLVER_V4 && addr_spec(keyset_data) == Some(IpAddrView::V4(l3@))
            && mac_spec(parameter_data) == Some(l2.0@)),
        cmd matches AdminCommand::AddNdpEntry { l3, l2 } ==> (command_request_spec(cmd) matches Some(
            AdminRequestView::TableAdd { table, keyset_data, parameter_data, .. },
        ) && table == RESOLVER_V6 && addr_spec(keyset_data) == Some(IpAddrView::V6(l3@))
            && mac_spec(parameter_data) == Some(l2.0@)),
        cmd matches AdminCommand::AddNat4 { dst, begin, end, target, vni, mac } ==> (
        command_request_spec(cmd) matches Some(
            AdminRequestView::TableAdd { table, keyset_data, parameter_data, .. },
        ) && table == NAT_V4 && nat_id_spec(keyset_data) == Some(
            (IpAddrView::V4(dst@), begin, end),
        ) && vni_mac_spec(parameter_data) == Some((IpAddrView::V6(target@), vni, mac.0@))),
        cmd matches AdminCommand::AddNat6 { dst, begin, end, target, vni, mac } ==> (
        command_request_spec(cmd) matches Some(
            AdminRequestView::TableAdd { table, keyset_data, parameter_data, .. },
        ) && table == NAT_V6 && nat_id_spec(keyset_data) == Some(
            (IpAddrView::V6(dst@), begin, end),
        ) && vni_mac_spec(parameter_data) == Some((IpAddrView::V6(target@), vni, mac.0@))),
        cmd matches AdminCommand::SetMac { port, mac } ==> (command_request_spec(cmd) matches Some(
            AdminRequestView::TableAdd { table, keyset_data, parameter_data, .. },
        ) && table == PORT_MAC && keyset_data.len() == 1 && keyset_data[0] == port
            && parameter_data == mac.0@),
        cmd matches AdminCommand::AddProxyArp { begin, end, mac } ==> (command_request_spec(cmd) matches Some(
            AdminRequestView::TableAdd { table, keyset_data, parameter_data, .. },
        ) && table == PROXY_ARP && keyset_data.len() == 8 && keyset_data.take(4) == begin@
            && keyset_data.subrange(4, 8) == end@ && parameter_data == mac.0@),
{
    match cmd {
        AdminCommand::AddRoute4 { destination, mask, port, nexthop } => {
            assert(route_keyset(destination@, mask).take(4) =~= destination@);
            assert(route_parameters(port, nexthop@).skip(1) =~= nexthop@);
        },
        AdminCommand::AddRoute6 { destination, mask, port, nexthop } => {
            assert(route_keyset(destination@, mask).take(16) =~= destination@);
            assert(route_parameters(port, nexthop@).skip(1) =~= nexthop@);
        },
        AdminCommand::AddNat4 { dst, begin, end, target, vni, mac } => {
            lemma_be16_round_trip(begin);
            lemma_be16_round_trip(end);
            lemma_be24_round_trip(vni);
            let k = nat_keyset(dst@, begin, end);
            let p = nat_parameters(target@, vni, mac.0@);
            assert(k.take(4) =~= dst@);
            assert(p.take(16) =~= target@);
            assert(p.subrange(19, 25) =~= mac.0@);
        },
        AdminCommand::AddNat6 { dst, begin, end, target, vni, mac } => {
            lemma_be16_round_trip(begin);
            lemma_be16_round_trip(end);
            lemma_be24_round_trip(vni);
            let k = nat_keyset(dst@, begin, end);
            let p = nat_parameters(target@, vni, mac.0@);
            assert(k.take(16) =~= dst@);
            assert(p.take(16) =~= target@);
            assert(p.subrange(19, 25) =~= mac.0@);
        },
        AdminCommand::AddProxyArp { begin, end, mac } => {
            assert((begin@ + end@).take(4) =~= begin@);
            assert((begin@ + end@).subrange(4, 8) =~= end@);
        },
        _ => {},
    }
}

/// Whether `remove` names the key that `add` creates.
pub open spec fn removes_key_of(add: AdminCommand, remove: AdminCommand) -> bool {
    match (add, remove) {
        (
            AdminCommand::AddRoute4 { destination: d1, mask: m1, .. },
            AdminCommand::RemoveRoute4 { destination: d2, mask: m2 },
        ) => d1 == d2 && m1 == m2,
        (
            AdminCommand::AddRoute6 { destination: d1, mask: m1, .. },
            AdminCommand::RemoveRoute6 { destination: d2, mask: m2 },
        ) => d1 == d2 && m1 == m2,
        (AdminCommand::AddAddress4 { address: a1 }, AdminCommand::RemoveAddress4 { address: a2 }) =>
            a1 == a2,
        (AdminCommand::AddAddress6 { address: a1 }, AdminCommand::RemoveAddress6 { address: a2 }) =>
            a1 == a2,
        (AdminCommand::SetMac { port: p1, .. }, AdminCommand::ClearMac { port: p2 }) => p1 == p2,
        (AdminCommand::AddNdpEntry { l3: a1, .. }, AdminCommand::RemoveNdpEntry { l3: a2 }) =>
            a1 == a2,
        (AdminCommand::AddArpEntry { l3: a1, .. }, AdminCommand::RemoveArpEntry { l3: a2 }) =>
            a1 == a2,
        (
            AdminCommand::AddNat6 { dst: d1, begin: b1, end: e1, .. },
            AdminCommand::RemoveNat6 { dst: d2, begin: b2, end: e2 },
        ) => d1 == d2 && b1 == b2 && e1 == e2,
        (
            AdminCommand::AddNat4 { dst: d1, begin: b1, end: e1, .. },
            AdminCommand::RemoveNat4 { dst: d2, begin: b2, end: e2 },
        ) => d1 == d2 && b1 == b2 && e1 == e2,
        (
            AdminCommand::AddProxyArp { begin: b1, end: e1, .. },
            AdminCommand::RemoveProxyArp { begin: b2, end: e2 },
        ) => b1 == b2 && e1 == e2,
        _ => false,
    }
}

/// A removal names exactly the table and key that the matching addition
/// wrote, so it undoes that addition.
pub proof fn lemma_remove_targets_added_entry(add: AdminCommand, remove: AdminCommand)
    requires
        removes_key_of(add, remove),
        command_request_spec(add) is Some,
    ensures
        command_request_spec(add) matches Some(
            AdminRequestView::TableAdd { table: t1, keyset_data: k1, .. },
        ) && command_request_spec(remove) matches Some(
            AdminRequestView::TableRemove { table: t2, keyset_data: k2 },
        ) && t1 == t2 && k1 == k2,
{
}


/// The sections of a table dump, in the order they are shown.
#[derive(Clone, Copy, Debug, PartialEq, Eq, Structural)]
pub enum Section {
    LocalV6,
    LocalV4,
    RouterV6,
    RouterV4,
    ResolverV4,
    ResolverV6,
    NatV4,
    NatV6,
    PortMac,
    IcmpV6,
    IcmpV4,
    ProxyArp,
}

/// The table that a section shows.
pub open spec fn section_table(s: Section) -> u32 {
    match s {
        Section::LocalV6 => LOCAL_V6,
        Section::LocalV4 => LOCAL_V4,
        Section::RouterV6 => ROUTER_V6,
        Section::RouterV4 => ROUTER_V4,
        Section::ResolverV4 => RESOLVER_V4,
        Section::ResolverV6 => RESOLVER_V6,
        Section::NatV4 => NAT_V4,
        Section::NatV6 => NAT_V6,
        Section::PortMac => PORT_MAC,
        Section::IcmpV6 => ICMP_V6,
        Section::IcmpV4 => ICMP_V4,
        Section::ProxyArp => PROXY_ARP,
    }
}

/// The order of the sections in a dump.
pub open spec fn dump_sections() -> Seq<Section> {
    seq![
        Section::LocalV6,
        Section::LocalV4,
        Section::RouterV6,
        Section::RouterV4,
        Section::ResolverV4,
        Section::ResolverV6,
        Section::NatV4,
        Section::NatV6,
        Section::PortMac,
        Section::IcmpV6,
        Section::IcmpV4,
        Section::ProxyArp,
    ]
}

/// What a decoder expected where the data did not fit.
#[derive(Clone, Copy, Debug, PartialEq, Eq, Structural)]
pub enum Expected {
    Address,
    MacAddress,
    AddressSubnet,
    AddressVniMac,
    AddressNatId,
    PortAddress,
}

/// One line of a table dump.
#[derive(Debug)]
pub enum DumpLine {
    /// The title of a section.
    Heading(Section),
    /// Data that did not have the shape a decoder expected.
    Unexpected { expected: Expected, data: Vec<u8> },
    /// A local address.
    Address(IpAddr),
    /// A route: destination subnet to gateway (egress port and next hop).
    Route { target: Option<(IpAddr, u8)>, gateway: Option<(IpAddr, u8)> },
    /// A resolver entry: L3 address to MAC address.
    Resolver { l3: Option<IpAddr>, l2: Option<[u8; 6]> },
    /// A NAT entry: address and port range to target, VNI and MAC address.
    Nat { id: Option<(IpAddr, u16, u16)>, target: Option<(IpAddr, u32, [u8; 6])> },
    /// A port's MAC address.
    PortMac { port: u8, mac: [u8; 6] },
    /// A raw table entry.
    Entry(TableEntry),
    /// A proxy ARP range and the MAC address that answers for it.
    ProxyArp { begin: [u8; 4], end: [u8; 4], mac: [u8; 6] },
}

/// A dump line with its byte strings as sequences.
pub enum DumpLineView {
    Heading(Section),
    Unexpected { expected: Expected, data: Seq<u8> },
    Address(IpAddrView),
    Route { target: Option<(IpAddrView, u8)>, gateway: Option<(IpAddrView, u8)> },
    Resolver { l3: Option<IpAddrView>, l2: Option<Seq<u8>> },
    Nat { id: Option<(IpAddrView, u16, u16)>, target: Option<(IpAddrView, u32, Seq<u8>)> },
    PortMac { port: u8, mac: Seq<u8> },
    Entry(TableEntryView),
    ProxyArp { begin: Seq<u8>, end: Seq<u8>, mac: Seq<u8> },
}

impl View for DumpLine {
    type V = DumpLineView;

    open spec fn view(&self) -> DumpLineView {
        match self {
            DumpLine::Heading(s) => DumpLineView::Heading(*s),
            DumpLine::Unexpected { expected, data } => DumpLineView::Unexpected {
                expected: *expected,
                data: data@,
            },
            DumpLine::Address(a) => DumpLineView::Address(a@),
            DumpLine::Route { target, gateway } => DumpLineView::Route {
                target: opt_addr_byte_view(*target),
                gateway: opt_addr_byte_view(*gateway),
            },
            DumpLine::Resolver { l3, l2 } => DumpLineView::Resolver {
                l3: opt_addr_view(*l3),
                l2: opt_mac_view(*l2),
            },
            DumpLine::Nat { id, target } => DumpLineView::Nat {
                id: opt_nat_id_view(*id),
                target: opt_vni_mac_view(*target),
            },
            DumpLine::PortMac { port, mac } => DumpLineView::PortMac { port: *port, mac: mac@ },
            DumpLine::Entry(e) => DumpLineView::Entry(e@),
            DumpLine::ProxyArp { begin, end, mac } => DumpLineView::ProxyArp {
                begin: begin@,
                end: end@,
                mac: mac@,
            },
        }
    }
}

/// The views of a sequence of dump lines.
pub open spec fn lines_view(lines: Seq<DumpLine>) -> Seq<DumpLineView> {
    lines.map_values(|l: DumpLine| l@)
}

/// A line reporting `data` where `failed` holds, else nothing.
pub open spec fn unexpected_if(failed: bool, expected: Expected, data: Seq<u8>) -> Seq<
    DumpLineView,
> {
    if failed {
        seq![DumpLineView::Unexpected { expected, data }]
    } else {
        Seq::empty()
    }
}

/// Whether the dump can show `e` in section `s`: the port MAC and proxy ARP
/// sections read fixed positions of the key and the parameters.
pub open spec fn entry_fits(s: Section, e: TableEntryView) -> bool {
    match s {
        Section::PortMac => e.keyset_data.len() >= 1 && e.parameter_data.len() >= 6,
        Section::ProxyArp => e.keyset_data.len() >= 8 && e.parameter_data.len() >= 6,
        _ => true,
    }
}

/// The lines that show entry `e` in section `s`.
pub open spec fn entry_lines(s: Section, e: TableEntryView) -> Seq<DumpLineView> {
    let k = e.keyset_data;
    let p = e.parameter_data;
    match s {
        Section::LocalV6 | Section::LocalV4 => match addr_spec(k) {
            Some(a) => seq![DumpLineView::Address(a)],
            None => unexpected_if(true, Expected::Address, k),
        },
        Section::RouterV6 | Section::RouterV4 => unexpected_if(
            subnet_spec(k) is None,
            Expected::AddressSubnet,
            k,
        ) + unexpected_if(port_addr_spec(p) is None, Expected::PortAddress, p) + seq![
            DumpLineView::Route { target: subnet_spec(k), gateway: port_addr_spec(p) },
        ],
        Section::ResolverV4 | Section::ResolverV6 => unexpected_if(
            addr_spec(k) is None,
            Expected::Address,
            k,
        ) + unexpected_if(mac_spec(p) is None, Expected::MacAddress, p) + seq![
            DumpLineView::Resolver { l3: addr_spec(k), l2: mac_spec(p) },
        ],
        Section::NatV4 | Section::NatV6 => unexpected_if(
            nat_id_spec(k) is None,
            Expected::AddressNatId,
            k,
        ) + unexpected_if(vni_mac_spec(p) is None, Expected::AddressVniMac, p) + seq![
            DumpLineView::Nat { id: nat_id_spec(k), target: vni_mac_spec(p) },
        ],
        Section::PortMac => seq![DumpLineView::PortMac { port: k[0], mac: p.take(6) }],
        Section::IcmpV6 | Section::IcmpV4 => seq![DumpLineView::Entry(e)],
        Section::ProxyArp => seq![
            DumpLineView::ProxyArp { begin: k.take(4), end: k.subrange(4, 8), mac: p.take(6) },
        ],
    }
}

/// The lines that show the entries `es` in section `s`, after its heading.
pub open spec fn entries_lines(s: Section, es: Seq<TableEntryView>) -> Seq<DumpLineView>
    decreases es.len(),
{
    if es.len() == 0 {
        Seq::empty()
    } else {
        entries_lines(s, es.drop_last()) + entry_lines(s, es.last())
    }
}

/// The views of a sequence of table entries.
pub open spec fn entries_view(es: Seq<TableEntry>) -> Seq<TableEntryView> {
    es.map_values(|e: TableEntry| e@)
}

/// A section: its heading, then its entries.
pub open spec fn section_lines(s: Section, es: Seq<TableEntryView>) -> Seq<DumpLineView> {
    seq![DumpLineView::Heading(s)] + entries_lines(s, es)
}

/// The sections `secs` of a dump of `tables`.
pub open spec fn sections_lines(secs: Seq<Section>, tables: Map<u32, Vec<TableEntry>>) -> Seq<
    DumpLineView,
>
    decreases secs.len(),
{
    if secs.len() == 0 {
        Seq::empty()
    } else {
        sections_lines(secs.drop_last(), tables) + section_lines(
            secs.last(),
            entries_view(tables[section_table(secs.last())]@),
        )
    }
}

/// Whether a dump of `tables` can be shown: every section's table is
/// present, and every entry fits its section.
pub open spec fn dump_shows(tables: Map<u32, Vec<TableEntry>>) -> bool {
    forall|i: int|
        0 <= i < dump_sections().len() ==> {
            let s = #[trigger] dump_sections()[i];
            &&& tables.contains_key(section_table(s))
            &&& forall|j: int|
                0 <= j < tables[section_table(s)]@.len() ==> entry_fits(
                    s,
                    #[trigger] tables[section_table(s)]@[j]@,
                )
        }
}

fn push_line(out: &mut Vec<DumpLine>, l: DumpLine)
    ensures
        lines_view(final(out)@) == lines_view(old(out)@).push(l@),
{
    let ghost before = out@;
    out.push(l);
    assert(lines_view(out@) =~= lines_view(before).push(l@));
}

fn push_unexpected(out: &mut Vec<DumpLine>, failed: bool, expected: Expected, data: &[u8])
    ensures
        lines_view(final(out)@) == lines_view(old(out)@) + unexpected_if(failed, expected, data@),
{
    if failed {
        push_line(out, DumpLine::Unexpected { expected, data: copy_bytes(data) });
        assert(lines_view(out@) =~= lines_view(old(out)@) + unexpected_if(failed, expected, data@));
    } else {
        assert(lines_view(out@) =~= lines_view(old(out)@) + unexpected_if(failed, expected, data@));
    }
}

/// Appends the lines that show entry `e` in section `s`.
fn push_entry_lines(out: &mut Vec<DumpLine>, s: Section, e: &TableEntry)
    requires
        entry_fits(s, e@),
    ensures
        lines_view(final(out)@) == lines_view(old(out)@) + entry_lines(s, e@),
{
    let ghost before = lines_view(out@);
    let k = e.keyset_data.as_slice();
    let p = e.parameter_data.as_slice();
    match s {
        Section::LocalV6 | Section::LocalV4 => {
            match get_addr(k) {
                Some(a) => push_line(out, DumpLine::Address(a)),
                None => push_unexpected(out, true, Expected::Address, k),
            }
            assert(lines_view(out@) =~= before + entry_lines(s, e@));
        },
        Section::RouterV6 | Section::RouterV4 => {
            let target = get_addr_subnet(k);
            push_unexpected(out, target.is_none(), Expected::AddressSubnet, k);
            let gateway = get_port_addr(p);
            push_unexpected(out, gateway.is_none(), Expected::PortAddress, p);
            push_line(out, DumpLine::Route { target, gateway });
            assert(lines_view(out@) =~= before + entry_lines(s, e@));
        },
        Section::ResolverV4 | Section::ResolverV6 => {
            let l3 = get_addr(k);
            push_unexpected(out, l3.is_none(), Expected::Address, k);
            let l2 = get_mac(p);
            push_unexpected(out, l2.is_none(), Expected::MacAddress, p);
            push_line(out, DumpLine::Resolver { l3, l2 });
            assert(lines_view(out@) =~= before + entry_lines(s, e@));
        },
        Section::NatV4 | Section::NatV6 => {
            let id = get_addr_nat_id(k);
            push_unexpected(out, id.is_none(), Expected::AddressNatId, k);
            let target = get_addr_vni_mac(p);
            push_unexpected(out, target.is_none(), Expected::AddressVniMac, p);
            push_line(out, DumpLine::Nat { id, target });
            assert(lines_view(out@) =~= before + entry_lines(s, e@));
        },
        Section::PortMac => {
            let mac = array6_at(p, 0);
            assert(p@.subrange(0, 6) =~= p@.take(6));
            push_line(out, DumpLine::PortMac { port: k[0], mac });
            assert(lines_view(out@) =~= before + entry_lines(s, e@));
        },
        Section::IcmpV6 | Section::IcmpV4 => {
            push_line(out, DumpLine::Entry(e.duplicate()));
            assert(lines_view(out@) =~= before + entry_lines(s, e@));
        },
        Section::ProxyArp => {
            let begin = array4_at(k, 0);
            let end = array4_at(k, 4);
            let mac = array6_at(p, 0);
            assert(k@.subrange(0, 4) =~= k@.take(4));
            assert(p@.subrange(0, 6) =~= p@.take(6));
            push_line(out, DumpLine::ProxyArp { begin, end, mac });
            assert(lines_view(out@) =~= before + entry_lines(s, e@));
        },
    }
}

/// Appends section `s`: its heading, then a line or more for each entry.
fn push_section(out: &mut Vec<DumpLine>, s: Section, es: &Vec<TableEntry>)
    requires
        forall|j: int| 0 <= j < es@.len() ==> entry_fits(s, #[trigger] es@[j]@),
    ensures
        lines_view(final(out)@) == lines_view(old(out)@) + section_lines(s, entries_view(es@)),
{
    let ghost start = lines_view(out@);
    push_line(out, DumpLine::Heading(s));
    let mut i: usize = 0;
    while i < es.len()
        invariant
            i <= es@.len(),
            forall|j: int| 0 <= j < es@.len() ==> entry_fits(s, #[trigger] es@[j]@),
            lines_view(out@) == start + seq![DumpLineView::Heading(s)] + entries_lines(
                s,
                entries_view(es@).take(i as int),
            ),
        decreases es@.len() - i,
    {
        push_entry_lines(out, s, &es[i]);
        i = i + 1;
        assert(entries_view(es@).take(i as int).drop_last() =~= entries_view(es@).take(
            (i - 1) as int,
        ));
        assert(lines_view(out@) =~= start + seq![DumpLineView::Heading(s)] + entries_lines(
            s,
            entries_view(es@).take(i as int),
        ));
    }
    assert(entries_view(es@).take(i as int) =~= entries_view(es@));
    assert(lines_view(out@) =~= start + section_lines(s, entries_view(es@)));
}


/// The first `n` sections of a dump.
pub open spec fn sections_prefix(n: usize) -> Seq<Section> {
    dump_sections().take(n as int)
}

/// The section at position `n` of a dump.
pub open spec fn section_at(n: usize) -> Section {
    dump_sections()[n as int]
}


/// Whether the dump can show entry `e` of table `table`: a port MAC entry
/// needs a port and six parameter bytes, a proxy ARP entry two IPv4
/// addresses and six parameter bytes.
pub fn dump_shows_entry(table: u32, e: &TableEntry) -> (b: bool)
    ensures
        b == ((table == PORT_MAC ==> e.keyset_data@.len() >= 1 && e.parameter_data@.len() >= 6)
            && (table == PROXY_ARP ==> e.keyset_data@.len() >= 8 && e.parameter_data@.len()
            >= 6)),
{
    if table == PORT_MAC {
        e.keyset_data.len() >= 1 && e.parameter_data.len() >= 6
    } else if table == PROXY_ARP {
        e.keyset_data.len() >= 8 && e.parameter_data.len() >= 6
    } else {
        true
    }
}

/// The table that section `s` shows.
fn table_of(s: Section) -> (t: u32)
    ensures
        t == section_table(s),
{
    match s {
        Section::LocalV6 => LOCAL_V6,
        Section::LocalV4 => LOCAL_V4,
        Section::RouterV6 => ROUTER_V6,
        Section::RouterV4 => ROUTER_V4,
        Section::ResolverV4 => RESOLVER_V4,
        Section::ResolverV6 => RESOLVER_V6,
        Section::NatV4 => NAT_V4,
        Section::NatV6 => NAT_V6,
        Section::PortMac => PORT_MAC,
        Section::IcmpV6 => ICMP_V6,
        Section::IcmpV4 => ICMP_V4,
        Section::ProxyArp => PROXY_ARP,
    }
}

/// The entries of table `id`, which `tables` holds.
fn table_entries(tables: &BTreeMap<u32, Vec<TableEntry>>, id: u32) -> (es: &Vec<TableEntry>)
    requires
        tables@.contains_key(id),
    ensures
        *es == tables@[id],
{
    broadcast use vstd::std_specs::btree::group_btree_axioms, vstd::laws_cmp::group_laws_cmp;

    match tables.get(&id) {
        Some(es) => es,
        None => {
            assert(false);
            unreached()
        },
    }
}

/// The lines of a dump of the router's tables: each section in turn, its
/// heading and then each entry of its table decoded, with a line for each
/// piece of data that does not have the expected shape.
pub fn dump_tables(tables: &BTreeMap<u32, Vec<TableEntry>>) -> (lines: Vec<DumpLine>)
    requires
        dump_shows(tables@),
    ensures
        lines_view(lines@) == sections_lines(dump_sections(), tables@),
{
    let sections: [Section; 12] = [
        Section::LocalV6,
        Section::LocalV4,
        Section::RouterV6,
        Section::RouterV4,
        Section::ResolverV4,
        Section::ResolverV6,
        Section::NatV4,
        Section::NatV6,
        Section::PortMac,
        Section::IcmpV6,
        Section::IcmpV4,
        Section::ProxyArp,
    ];
    assert(sections@ =~= dump_sections());
    let mut out: Vec<DumpLine> = Vec::new();
    let mut i: usize = 0;
    while i < 12
        invariant
            i <= 12,
            sections@ == dump_sections(),
            dump_shows(tables@),
            lines_view(out@) == sections_lines(sections_prefix(i), tables@),
        decreases 12 - i,
    {
        let s = sections[i];
        let id = table_of(s);
        assert(section_at(i) == s);
        let es = table_entries(tables, id);
        assert(forall|j: int| 0 <= j < es@.len() ==> entry_fits(s, #[trigger] es@[j]@));
        push_section(&mut out, s, es);
        let ghost done = i;
        i = i + 1;
        assert(sections_prefix(i).drop_last() =~= sections_prefix(done));
    }
    assert(sections_prefix(12) =~= dump_sections());
    out
}


/// The pieces of `s` between the separators `sep`, as `str::split` gives
/// them: one more piece than there are separators.
pub open spec fn split_on(s: Seq<char>, sep: char) -> Seq<Seq<char>>
    decreases s.len(),
{
    if s.len() == 0 {
        seq![Seq::empty()]
    } else {
        let init = split_on(s.drop_last(), sep);
        if s.last() == sep {
            init.push(Seq::empty())
        } else {
            init.update(init.len() - 1, init.last().push(s.last()))
        }
    }
}

/// A split has at least one piece.
pub proof fn lemma_split_on_nonempty(s: Seq<char>, sep: char)
    ensures
        split_on(s, sep).len() >= 1,
    decreases s.len(),
{
    if s.len() > 0 {
        lemma_split_on_nonempty(s.drop_last(), sep);
    }
}

/// The value of a hexadecimal digit, of either case.
pub open spec fn hex_digit_value(c: char) -> Option<nat> {
    let x = c as u32;
    if 48 <= x <= 57 {
        Some((x - 48) as nat)
    } else if 97 <= x <= 102 {
        Some((x - 87) as nat)
    } else if 65 <= x <= 70 {
        Some((x - 55) as nat)
    } else {
        None
    }
}

/// The value of a string of hexadecimal digits, most significant first.
pub open spec fn hex_number(digits: Seq<char>) -> Option<nat>
    decreases digits.len(),
{
    if digits.len() == 0 {
        Some(0)
    } else {
        match (hex_number(digits.drop_last()), hex_digit_value(digits.last())) {
            (Some(v), Some(d)) => Some(v * 16 + d),
            _ => None,
        }
    }
}

/// The digits of a hexadecimal number after its optional `+` sign.
pub open spec fn hex_digits_of(part: Seq<char>) -> Seq<char> {
    if part.len() > 0 && part[0] == '+' {
        part.drop_first()
    } else {
        part
    }
}

/// What `u8::from_str_radix(part, 16)` accepts: an optional `+`, then one
/// or more hexadecimal digits whose value fits in a byte.
pub open spec fn hex_byte_spec(part: Seq<char>) -> Option<u8> {
    let digits = hex_digits_of(part);
    if digits.len() == 0 {
        None
    } else {
        match hex_number(digits) {
            Some(v) => if v < 256 {
                Some(v as u8)
            } else {
                None
            },
            None => None,
        }
    }
}

/// The octets of a MAC address written as six hexadecimal bytes between
/// colons, or `None` where `s` is not such a string.
pub open spec fn mac_parse_spec(s: Seq<char>) -> Option<Seq<u8>> {
    let parts = split_on(s, ':');
    if parts.len() == 6 && forall|i: int| 0 <= i < 6 ==> (#[trigger] hex_byte_spec(parts[i])) is Some {
        Some(Seq::new(6, |i: int| hex_byte_spec(parts[i]).unwrap()))
    } else {
        None
    }
}

/// The message of a MAC address that does not parse.
pub open spec fn mac_format_message() -> Seq<char> {
    "Expected mac in the form aa:bb:cc:dd:ee:ff"@
}

/// The pieces as sequences of characters.
pub open spec fn pieces_view(parts: Seq<Vec<char>>) -> Seq<Seq<char>> {
    parts.map_values(|p: Vec<char>| p@)
}

/// Splits `s` at each `sep`.
pub fn split_chars(s: &str, sep: char) -> (parts: Vec<Vec<char>>)
    ensures
        pieces_view(parts@) == split_on(s@, sep),
{
    let n = s.unicode_len();
    let mut parts: Vec<Vec<char>> = Vec::new();
    let mut current: Vec<char> = Vec::new();
    let mut i: usize = 0;
    proof {
        assert(s@.take(0) =~= Seq::<char>::empty());
        assert(pieces_view(parts@).push(current@) =~= split_on(s@.take(0), sep));
    }
    while i < n
        invariant
            n == s@.len(),
            i <= n,
            pieces_view(parts@).push(current@) == split_on(s@.take(i as int), sep),
        decreases n - i,
    {
        let c = s.get_char(i);
        let ghost prefix = s@.take(i as int);
        proof {
            lemma_split_on_nonempty(prefix, sep);
            assert(s@.take(i + 1).drop_last() =~= prefix);
            assert(s@.take(i + 1).last() == c);
        }
        if c == sep {
            let done = current;
            parts.push(done);
            current = Vec::new();
            assert(pieces_view(parts@).push(current@) =~= split_on(s@.take(i + 1), sep));
        } else {
            let ghost before = current@;
            current.push(c);
            assert(pieces_view(parts@).push(current@) =~= split_on(s@.take(i + 1), sep));
        }
        i = i + 1;
    }
    assert(s@.take(n as int) =~= s@);
    let ghost whole = pieces_view(parts@).push(current@);
    parts.push(current);
    assert(pieces_view(parts@) =~= whole);
    parts
}

/// The value of a hexadecimal digit.
fn hex_digit(c: char) -> (d: Option<u32>)
    ensures
        match hex_digit_value(c) {
            Some(v) => d == Some(v as u32),
            None => d is None,
        },
{
    let x = c as u32;
    if 48 <= x && x <= 57 {
        Some(x - 48)
    } else if 97 <= x && x <= 102 {
        Some(x - 87)
    } else if 65 <= x && x <= 70 {
        Some(x - 55)
    } else {
        None
    }
}

/// Reads a byte written in hexadecimal, as `u8::from_str_radix(part, 16)`
/// does.
pub fn parse_hex_byte(part: &Vec<char>) -> (b: Option<u8>)
    ensures
        b == hex_byte_spec(part@),
{
    let len = part.len();
    let start: usize = if len > 0 && part[0] == '+' {
        1
    } else {
        0
    };
    let ghost digits = hex_digits_of(part@);
    assert(digits =~= part@.subrange(start as int, len as int));
    if start == len {
        return None;
    }
    let mut valid = true;
    let mut acc: u32 = 0;
    let mut j: usize = start;
    while j < len
        invariant
            start <= j <= len,
            len == part@.len(),
            digits == part@.subrange(start as int, len as int),
            valid == hex_number(digits.take(j - start)) is Some,
            valid ==> acc <= 256,
            valid ==> (acc == 256 <==> hex_number(digits.take(j - start))->Some_0 >= 256),
            valid && acc < 256 ==> acc == hex_number(digits.take(j - start))->Some_0,
        decreases len - j,
    {
        let d = hex_digit(part[j]);
        let ghost pre = digits.take(j - start);
        assert(digits.take(j + 1 - start).drop_last() =~= pre);
        assert(digits.take(j + 1 - start).last() == part@[j as int]);
        match d {
            Some(d) => {
                if valid {
                    if acc >= 256 {
                        acc = 256;
                    } else {
                        let next = acc * 16 + d;
                        acc = if next >= 256 {
                            256
                        } else {
                            next
                        };
                    }
                }
            },
            None => {
                valid = false;
            },
        }
        j = j + 1;
    }
    assert(digits.take(len - start) =~= digits);
    if valid && acc < 256 {
        Some(acc as u8)
    } else {
        None
    }
}

impl MacAddr {
    /// Reads a MAC address written as six hexadecimal bytes between colons.
    pub fn parse(s: &str) -> (r: Result<MacAddr, String>)
        ensures
            match mac_parse_spec(s@) {
                Some(octets) => r matches Ok(m) && m.0@ == octets,
                None => r matches Err(e) && e@ == mac_format_message(),
            },
    {
        let parts = split_chars(s, ':');
        if parts.len() != 6 {
            return Err(String::from_str("Expected mac in the form aa:bb:cc:dd:ee:ff"));
        }
        let mut octets: [u8; 6] = [0; 6];
        let mut i: usize = 0;
        while i < 6
            invariant
                i <= 6,
                parts@.len() == 6,
                pieces_view(parts@) == split_on(s@, ':'),
                forall|j: int| 0 <= j < i ==> hex_byte_spec(split_on(s@, ':')[j]) == Some(
                    #[trigger] octets@[j],
                ),
            decreases 6 - i,
        {
            assert(pieces_view(parts@)[i as int] == parts@[i as int]@);
            match parse_hex_byte(&parts[i]) {
                Some(b) => {
                    octets[i] = b;
                },
                None => {
                    return Err(String::from_str("Expected mac in the form aa:bb:cc:dd:ee:ff"));
                },
            }
            i = i + 1;
        }
        assert(split_on(s@, ':').len() == 6);
        assert forall|j: int| 0 <= j < 6 implies (#[trigger] hex_byte_spec(
            split_on(s@, ':')[j],
        )) is Some by {
            assert(hex_byte_spec(split_on(s@, ':')[j]) == Some(octets@[j]));
        }
        assert(octets@ =~= Seq::new(6, |j: int| hex_byte_spec(split_on(s@, ':')[j]).unwrap()));
        Ok(MacAddr(octets))
    }
}

impl std::str::FromStr for MacAddr {
    type Err = String;

    fn from_str(s: &str) -> (r: Result<MacAddr, String>)
        ensures
            match mac_parse_spec(s@) {
                Some(octets) => r matches Ok(m) && m.0@ == octets,
                None => r matches Err(e) && e@ == mac_format_message(),
            },
    {
        MacAddr::parse(s)
    }
}


/// The lower-case hexadecimal digit of `d`.
pub open spec fn hex_char(d: nat) -> char {
    if d < 10 {
        ((48 + d) as u32) as char
    } else {
        ((87 + d) as u32) as char
    }
}

/// A byte as two lower-case hexadecimal digits (`{:02x}`).
pub open spec fn hex2(b: u8) -> Seq<char> {
    seq![hex_char((b / 16) as nat), hex_char((b % 16) as nat)]
}

/// A MAC address as six two-digit hexadecimal bytes between colons.
pub open spec fn mac_text(m: Seq<u8>) -> Seq<char> {
    hex2(m[0]) + seq![':'] + hex2(m[1]) + seq![':'] + hex2(m[2]) + seq![':'] + hex2(m[3]) + seq![
        ':',
    ] + hex2(m[4]) + seq![':'] + hex2(m[5])
}

pub(crate) fn hex_digit_char(d: u8) -> (c: char)
    requires
        d < 16,
    ensures
        c == hex_char(d as nat),
{
    if d < 10 {
        (48 + d) as char
    } else {
        (87 + d) as char
    }
}

/// Writes a MAC address as six two-digit lower-case hexadecimal bytes
/// between colons, as the dump shows it.
pub fn format_mac(mac: &[u8; 6]) -> (s: String)
    ensures
        s@ == mac_text(mac@),
{
    let mut s = String::new();
    let mut i: usize = 0;
    while i < 6
        invariant
            i <= 6,
            i == 0 ==> s@ == Seq::<char>::empty(),
            i > 0 ==> s@ == mac_text_prefix(mac@, i as nat),
        decreases 6 - i,
    {
        if i > 0 {
            push_char(&mut s, ':');
        }
        push_char(&mut s, hex_digit_char(mac[i] / 16));
        push_char(&mut s, hex_digit_char(mac[i] % 16));
        i = i + 1;
        assert(s@ =~= mac_text_prefix(mac@, i as nat));
    }
    assert(mac_text_prefix(mac@, 6) =~= mac_text(mac@)) by {
        reveal_with_fuel(mac_text_prefix, 6);
    }
    s
}

/// The first `n` bytes of a MAC address in text, between colons.
pub open spec fn mac_text_prefix(m: Seq<u8>, n: nat) -> Seq<char>
    decreases n,
{
    if n <= 1 {
        hex2(m[0])
    } else {
        mac_text_prefix(m, (n - 1) as nat) + seq![':'] + hex2(m[n - 1])
    }
}

/// Splitting at a separator: the pieces of `x`, then those of `y`.
pub proof fn lemma_split_on_concat(x: Seq<char>, sep: char, y: Seq<char>)
    ensures
        split_on(x + seq![sep] + y, sep) == split_on(x, sep) + split_on(y, sep),
    decreases y.len(),
{
    lemma_split_on_nonempty(x, sep);
    lemma_split_on_nonempty(y, sep);
    if y.len() == 0 {
        assert((x + seq![sep] + y).drop_last() =~= x);
        assert(split_on(x + seq![sep] + y, sep) =~= split_on(x, sep) + split_on(y, sep));
    } else {
        let y0 = y.drop_last();
        let c = y.last();
        lemma_split_on_concat(x, sep, y0);
        lemma_split_on_nonempty(y0, sep);
        assert((x + seq![sep] + y).drop_last() =~= x + seq![sep] + y0);
        assert((x + seq![sep] + y).last() == c);
        assert(split_on(x + seq![sep] + y, sep) =~= split_on(x, sep) + split_on(y, sep));
    }
}

/// A string without the separator is a single piece.
pub proof fn lemma_split_on_single(s: Seq<char>, sep: char)
    requires
        forall|i: int| 0 <= i < s.len() ==> s[i] != sep,
    ensures
        split_on(s, sep) == seq![s],
    decreases s.len(),
{
    if s.len() > 0 {
        let init = s.drop_last();
        assert forall|i: int| 0 <= i < init.len() implies init[i] != sep by {
            assert(init[i] == s[i]);
        }
        lemma_split_on_single(init, sep);
        assert(s.last() == s[s.len() - 1]);
        assert(init.push(s.last()) =~= s);
        assert(split_on(s, sep) =~= seq![s]);
    } else {
        assert(s =~= Seq::<char>::empty());
        assert(split_on(s, sep) =~= seq![s]);
    }
}

/// Two hexadecimal digits read back give the byte.
pub proof fn lemma_hex2_round_trip(b: u8)
    ensures
        hex_byte_spec(hex2(b)) == Some(b),
{
    let h = hex2(b);
    assert(hex_digits_of(h) == h);
    assert(h.drop_last() =~= seq![h[0]]);
    assert(seq![h[0]].drop_last() =~= Seq::<char>::empty());
    assert(hex_digit_value(h[0]) == Some((b / 16) as nat));
    assert(hex_digit_value(h[1]) == Some((b % 16) as nat));
    let first = seq![h[0]];
    assert(first.drop_last() =~= Seq::<char>::empty());
    assert(hex_number(Seq::<char>::empty()) == Some(0nat));
    assert(first.last() == h[0]);
    assert(hex_number(first) == Some(0nat * 16 + (b / 16) as nat));
    assert(hex_number(seq![h[0]]) == Some((b / 16) as nat));
    assert(hex_number(h) == Some(((b / 16) * 16 + b % 16) as nat));
}

/// Hexadecimal digits are no colons.
proof fn lemma_hex2_has_no_colon(b: u8)
    ensures
        forall|i: int| 0 <= i < hex2(b).len() ==> (#[trigger] hex2(b)[i]) != ':',
{
}

/// A MAC address that the dump writes is read back by the MAC parser as the
/// same address.
pub proof fn lemma_mac_text_round_trip(m: Seq<u8>)
    requires
        m.len() == 6,
    ensures
        mac_parse_spec(mac_text(m)) == Some(m),
{
    let sep = ':';
    lemma_hex2_has_no_colon(m[0]);
    lemma_hex2_has_no_colon(m[1]);
    lemma_hex2_has_no_colon(m[2]);
    lemma_hex2_has_no_colon(m[3]);
    lemma_hex2_has_no_colon(m[4]);
    lemma_hex2_has_no_colon(m[5]);
    lemma_split_on_single(hex2(m[0]), sep);
    lemma_split_on_single(hex2(m[1]), sep);
    lemma_split_on_single(hex2(m[2]), sep);
    lemma_split_on_single(hex2(m[3]), sep);
    lemma_split_on_single(hex2(m[4]), sep);
    lemma_split_on_single(hex2(m[5]), sep);
    let t1 = hex2(m[0]);
    let t2 = t1 + seq![sep] + hex2(m[1]);
    let t3 = t2 + seq![sep] + hex2(m[2]);
    let t4 = t3 + seq![sep] + hex2(m[3]);
    let t5 = t4 + seq![sep] + hex2(m[4]);
    let t6 = t5 + seq![sep] + hex2(m[5]);
    lemma_split_on_concat(t1, sep, hex2(m[1]));
    lemma_split_on_concat(t2, sep, hex2(m[2]));
    lemma_split_on_concat(t3, sep, hex2(m[3]));
    lemma_split_on_concat(t4, sep, hex2(m[4]));
    lemma_split_on_concat(t5, sep, hex2(m[5]));
    assert(t6 =~= mac_text(m));
    let parts = split_on(mac_text(m), sep);
    assert(parts =~= seq![hex2(m[0]), hex2(m[1]), hex2(m[2]), hex2(m[3]), hex2(m[4]), hex2(m[5])]);
    lemma_hex2_round_trip(m[0]);
    lemma_hex2_round_trip(m[1]);
    lemma_hex2_round_trip(m[2]);
    lemma_hex2_round_trip(m[3]);
    lemma_hex2_round_trip(m[4]);
    lemma_hex2_round_trip(m[5]);
    assert forall|i: int| 0 <= i < 6 implies (#[trigger] hex_byte_spec(parts[i])) == Some(m[i]) by {
    }
    assert(Seq::new(6, |i: int| hex_byte_spec(parts[i]).unwrap()) =~= m);
}

} // verus!

verus! {

/// Whether `r` adds an entry to `table` with action `action`.
pub open spec fn adds_with(r: Option<AdminRequestView>, table: u32, action: u32) -> bool {
    r matches Some(AdminRequestView::TableAdd { table: t, action: a, .. }) && t == table && a
        == action
}

/// Whether `r` removes an entry from `table`.
pub open spec fn removes_from(r: Option<AdminRequestView>, table: u32) -> bool {
    r matches Some(AdminRequestView::TableRemove { table: t, .. }) && t == table
}

/// Each command that adds an entry adds it to its own table, with the
/// forwarding action 1 for a route, IPv4 or IPv6, and action 0 for every
/// other addition (addresses, port MACs, ARP and NDP entries, NAT entries
/// with a VNI of at most 24 bits, proxy ARP ranges); each removal removes
/// from the table that the matching addition adds to.
pub proof fn lemma_additions_table_and_action(cmd: AdminCommand)
    ensures
        cmd is AddRoute4 ==> adds_with(command_request_spec(cmd), ROUTER_V4, 1),
        cmd is AddRoute6 ==> adds_with(command_request_spec(cmd), ROUTER_V6, 1),
        cmd is AddAddress4 ==> adds_with(command_request_spec(cmd), LOCAL_V4, 0),
        cmd is AddAddress6 ==> adds_with(command_request_spec(cmd), LOCAL_V6, 0),
        cmd is SetMac ==> adds_with(command_request_spec(cmd), PORT_MAC, 0),
        cmd is AddArpEntry ==> adds_with(command_request_spec(cmd), RESOLVER_V4, 0),
        cmd is AddNdpEntry ==> adds_with(command_request_spec(cmd), RESOLVER_V6, 0),
        cmd matches AdminCommand::AddNat4 { vni, .. } ==> (vni < VNI_LIMIT ==> adds_with(
            command_request_spec(cmd),
            NAT_V4,
            0,
        )) && (vni >= VNI_LIMIT ==> command_request_spec(cmd) is None),
        cmd matches AdminCommand::AddNat6 { vni, .. } ==> (vni < VNI_LIMIT ==> adds_with(
            command_request_spec(cmd),
            NAT_V6,
            0,
        )) && (vni >= VNI_LIMIT ==> command_request_spec(cmd) is None),
        cmd is AddProxyArp ==> adds_with(command_request_spec(cmd), PROXY_ARP, 0),
        cmd is RemoveRoute4 ==> removes_from(command_request_spec(cmd), ROUTER_V4),
        cmd is RemoveRoute6 ==> removes_from(command_request_spec(cmd), ROUTER_V6),
        cmd is RemoveAddress4 ==> removes_from(command_request_spec(cmd), LOCAL_V4),
        cmd is RemoveAddress6 ==> removes_from(command_request_spec(cmd), LOCAL_V6),
        cmd is ClearMac ==> removes_from(command_request_spec(cmd), PORT_MAC),
        cmd is RemoveArpEntry ==> removes_from(command_request_spec(cmd), RESOLVER_V4),
        cmd is RemoveNdpEntry ==> removes_from(command_request_spec(cmd), RESOLVER_V6),
        cmd is RemoveNat4 ==> removes_from(command_request_spec(cmd), NAT_V4),
        cmd is RemoveNat6 ==> removes_from(command_request_spec(cmd), NAT_V6),
        cmd is RemoveProxyArp ==> removes_from(command_request_spec(cmd), PROXY_ARP),
{
}

/// Every table addition that a command makes uses action 1 exactly when
/// the command adds a route, IPv4 or IPv6, and action 0 otherwise.
pub proof fn lemma_route_additions_forward(cmd: AdminCommand)
    ensures
        command_request_spec(cmd) matches Some(AdminRequestView::TableAdd { action, .. }) ==> action
            == (if cmd is AddRoute4 || cmd is AddRoute6 {
            1u32
        } else {
            0u32
        }),
{
}

/// The upper-case hexadecimal digit of `d`.
pub open spec fn upper_hex_char(d: nat) -> char {
    if d < 10 {
        ((48 + d) as u32) as char
    } else {
        ((55 + d) as u32) as char
    }
}

/// A byte as two upper-case hexadecimal digits (`{:02X}`).
pub open spec fn upper_hex2(b: u8) -> Seq<char> {
    seq![upper_hex_char((b / 16) as nat), upper_hex_char((b % 16) as nat)]
}

/// A MAC address as six two-digit upper-case hexadecimal bytes between
/// colons.
pub open spec fn upper_mac_text(m: Seq<u8>) -> Seq<char> {
    upper_hex2(m[0]) + seq![':'] + upper_hex2(m[1]) + seq![':'] + upper_hex2(m[2]) + seq![':']
        + upper_hex2(m[3]) + seq![':'] + upper_hex2(m[4]) + seq![':'] + upper_hex2(m[5])
}

/// A hexadecimal digit carries its value in either case: `0`-`9` are 0 to
/// 9, and both `a`-`f` and `A`-`F` are 10 to 15.
pub proof fn lemma_hex_digit_either_case(d: nat)
    requires
        d < 16,
    ensures
        hex_digit_value(hex_char(d)) == Some(d),
        hex_digit_value(upper_hex_char(d)) == Some(d),
        hex_digit_value('A') == Some(10nat) && hex_digit_value('B') == Some(11nat),
        hex_digit_value('C') == Some(12nat) && hex_digit_value('D') == Some(13nat),
        hex_digit_value('E') == Some(14nat) && hex_digit_value('F') == Some(15nat),
        hex_digit_value('a') == Some(10nat) && hex_digit_value('f') == Some(15nat),
{
}

/// Two digits that carry the high and low half of `b` read back as `b`.
proof fn lemma_hex_pair_reads_back(h: Seq<char>, b: u8)
    requires
        h.len() == 2,
        hex_digit_value(h[0]) == Some((b / 16) as nat),
        hex_digit_value(h[1]) == Some((b % 16) as nat),
    ensures
        hex_byte_spec(h) == Some(b),
        forall|i: int| 0 <= i < h.len() ==> (#[trigger] h[i]) != ':',
{
    assert(hex_digits_of(h) == h);
    let first = seq![h[0]];
    assert(h.drop_last() =~= first);
    assert(first.drop_last() =~= Seq::<char>::empty());
    assert(hex_number(Seq::<char>::empty()) == Some(0nat));
    assert(first.last() == h[0]);
    assert(hex_number(first) == Some((b / 16) as nat));
    assert(hex_number(h) == Some(((b / 16) * 16 + b % 16) as nat));
}

/// Six two-digit parts that read back as the octets of `m`, joined by
/// colons, parse as `m`.
proof fn lemma_mac_parts_parse(p: Seq<Seq<char>>, m: Seq<u8>)
    requires
        p.len() == 6,
        m.len() == 6,
        forall|i: int| 0 <= i < 6 ==> (#[trigger] p[i]).len() == 2,
        forall|i: int| 0 <= i < 6 ==> hex_byte_spec(#[trigger] p[i]) == Some(m[i]),
        forall|i: int, j: int| 0 <= i < 6 && 0 <= j < 2 ==> (#[trigger] p[i][j]) != ':',
    ensures
        mac_parse_spec(p[0] + seq![':'] + p[1] + seq![':'] + p[2] + seq![':'] + p[3] + seq![':']
            + p[4] + seq![':'] + p[5]) == Some(m),
{
    let sep = ':';
    assert forall|i: int| 0 <= i < 6 implies split_on(#[trigger] p[i], sep) == seq![p[i]] by {
        assert forall|j: int| 0 <= j < p[i].len() implies p[i][j] != sep by {}
        lemma_split_on_single(p[i], sep);
    }
    let t1 = p[0];
    let t2 = t1 + seq![sep] + p[1];
    let t3 = t2 + seq![sep] + p[2];
    let t4 = t3 + seq![sep] + p[3];
    let t5 = t4 + seq![sep] + p[4];
    let t6 = t5 + seq![sep] + p[5];
    assert(split_on(p[0], sep) == seq![p[0]]);
    assert(split_on(p[1], sep) == seq![p[1]]);
    assert(split_on(p[2], sep) == seq![p[2]]);
    assert(split_on(p[3], sep) == seq![p[3]]);
    assert(split_on(p[4], sep) == seq![p[4]]);
    assert(split_on(p[5], sep) == seq![p[5]]);
    lemma_split_on_concat(t1, sep, p[1]);
    lemma_split_on_concat(t2, sep, p[2]);
    lemma_split_on_concat(t3, sep, p[3]);
    lemma_split_on_concat(t4, sep, p[4]);
    lemma_split_on_concat(t5, sep, p[5]);
    let parts = split_on(t6, sep);
    assert(parts =~= p);
    assert forall|i: int| 0 <= i < 6 implies (#[trigger] hex_byte_spec(parts[i])) == Some(m[i]) by {
        assert(parts[i] == p[i]);
    }
    assert(Seq::new(6, |i: int| hex_byte_spec(parts[i]).unwrap()) =~= m);
}

/// A MAC address written in upper-case hexadecimal parses as the same
/// address, as it does in lower case.
pub proof fn lemma_upper_mac_text_round_trip(m: Seq<u8>)
    requires
        m.len() == 6,
    ensures
        mac_parse_spec(upper_mac_text(m)) == Some(m),
        mac_parse_spec(upper_mac_text(m)) == mac_parse_spec(mac_text(m)),
{
    let p = seq![
        upper_hex2(m[0]),
        upper_hex2(m[1]),
        upper_hex2(m[2]),
        upper_hex2(m[3]),
        upper_hex2(m[4]),
        upper_hex2(m[5]),
    ];
    assert forall|i: int| 0 <= i < 6 implies hex_byte_spec(#[trigger] p[i]) == Some(m[i]) && (
    forall|j: int| 0 <= j < 2 ==> (#[trigger] p[i][j]) != ':') by {
        lemma_hex_digit_either_case((m[i] / 16) as nat);
        lemma_hex_digit_either_case((m[i] % 16) as nat);
        lemma_hex_pair_reads_back(p[i], m[i]);
    }
    lemma_mac_parts_parse(p, m);
    assert(p[0] + seq![':'] + p[1] + seq![':'] + p[2] + seq![':'] + p[3] + seq![':'] + p[4]
        + seq![':'] + p[5] =~= upper_mac_text(m));
    lemma_mac_text_round_trip(m);
}

} // verus!
