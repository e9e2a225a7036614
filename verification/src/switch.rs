//! The packet paths of the standalone SoftNpu switch: the sidecar header that
//! frames a packet from a scrimlet port, how a packet that the P4 pipeline
//! sends to the CPU port is turned back into an Ethernet frame, and where a
//! processed packet leaves the switch.

use vstd::prelude::*;
use crate::bytes::append_bytes;

verus! {

/// The length of an Ethernet header.
pub const ETHERNET_HEADER_LEN: usize = 14;

/// Where the L3 header starts after the Ethernet and sidecar headers.
pub const SIDECAR_L3_OFFSET: usize = 35;

/// The high byte of the sidecar header's ethertype, 0x0901.
pub const SIDECAR_ETHERTYPE_HI: u8 = 0x09;
/// The low byte of the sidecar header's ethertype, 0x0901.
pub const SIDECAR_ETHERTYPE_LO: u8 = 0x01;

/// The sidecar code of a packet forwarded from userspace.
pub const SC_FORWARD_FROM_USERSPACE: u8 = 0;

/// The sidecar port number of the switch port at `index`: ports count from
/// one, in a byte.
pub open spec fn sidecar_port_number(index: usize) -> u8 {
    ((index as u8) + 1) as u8
}

/// `n` zero bytes.
pub open spec fn zeros(n: nat) -> Seq<u8> {
    Seq::new(n, |i: int| 0u8)
}

/// The frame of a packet received on scrimlet port `index`: the Ethernet
/// addresses, the sidecar ethertype, the sidecar header (code, ingress and
/// egress port, the packet's own ethertype, then zeros up to the L3 offset),
/// the packet's L3 header and payload, and zeros up to the MTU.
pub open spec fn sidecar_frame_spec(msg: Seq<u8>, n: usize, index: usize, mtu: usize) -> Seq<u8> {
    let p = sidecar_port_number(index);
    let body = msg.subrange(ETHERNET_HEADER_LEN as int, n as int);
    msg.take(12) + seq![SIDECAR_ETHERTYPE_HI, SIDECAR_ETHERTYPE_LO] + seq![
        SC_FORWARD_FROM_USERSPACE,
        p,
        p,
        msg[12],
        msg[13],
    ] + zeros(16) + body + zeros((mtu - (SIDECAR_L3_OFFSET + body.len())) as nat)
}

fn push_zeros(v: &mut Vec<u8>, count: usize)
    ensures
        final(v)@ == old(v)@ + zeros(count as nat),
{
    let ghost start = v@;
    let mut i: usize = 0;
    while i < count
        invariant
            i <= count,
            v@ == start + zeros(i as nat),
        decreases count - i,
    {
        v.push(0);
        i = i + 1;
        assert(v@ =~= start + zeros(i as nat));
    }
}

/// Frames the first `n` bytes of `msg`, received on scrimlet port `index`,
/// with the sidecar header, in a frame of `mtu` bytes.
pub fn sidecar_frame(msg: &[u8], n: usize, index: usize, mtu: usize) -> (frame: Vec<u8>)
    requires
        ETHERNET_HEADER_LEN <= n <= msg@.len(),
        n - ETHERNET_HEADER_LEN + SIDECAR_L3_OFFSET <= mtu,
        (index as u8) < 255,
    ensures
        frame@ == sidecar_frame_spec(msg@, n, index, mtu),
        frame@.len() == mtu,
{
    let portnum: u8 = (index as u8) + 1;
    let mut frame: Vec<u8> = Vec::new();
    let mut i: usize = 0;
    while i < 12
        invariant
            i <= 12,
            12 <= msg@.len(),
            frame@ == msg@.take(i as int),
        decreases 12 - i,
    {
        frame.push(msg[i]);
        i = i + 1;
        assert(frame@ =~= msg@.take(i as int));
    }
    frame.push(SIDECAR_ETHERTYPE_HI);
    frame.push(SIDECAR_ETHERTYPE_LO);
    frame.push(SC_FORWARD_FROM_USERSPACE);
    frame.push(portnum);
    frame.push(portnum);
    frame.push(msg[12]);
    frame.push(msg[13]);
    push_zeros(&mut frame, 16);
    let ghost head = frame@;
    let mut j: usize = ETHERNET_HEADER_LEN;
    while j < n
        invariant
            ETHERNET_HEADER_LEN <= j <= n,
            n <= msg@.len(),
            frame@ == head + msg@.subrange(ETHERNET_HEADER_LEN as int, j as int),
        decreases n - j,
    {
        frame.push(msg[j]);
        j = j + 1;
        assert(frame@ =~= head + msg@.subrange(ETHERNET_HEADER_LEN as int, j as int));
    }
    let used = n - ETHERNET_HEADER_LEN + SIDECAR_L3_OFFSET;
    push_zeros(&mut frame, mtu - used);
    assert(frame@ =~= sidecar_frame_spec(msg@, n, index, mtu));
    frame
}

/// The sidecar header's egress port in a packet for the CPU port.
pub open spec fn cpu_egress_port(header: Seq<u8>) -> u8 {
    header[16]
}

/// The Ethernet frame of a packet that the pipeline sends to the CPU port:
/// the Ethernet addresses, the encapsulated packet's own ethertype, then
/// the packet without its sidecar header.
pub open spec fn cpu_port_frame_spec(header: Seq<u8>, payload: Seq<u8>) -> Seq<u8> {
    header.take(12) + seq![header[17], header[18]] + header.skip(SIDECAR_L3_OFFSET as int)
        + payload
}

/// What becomes of a packet for the CPU port.
#[derive(Debug)]
pub enum CpuPortOutput {
    /// The sidecar egress port is 0, which no scrimlet port has: the packet
    /// is dropped (a P4 program bug).
    Drop,
    /// Send `frame` on the scrimlet link of the switch port at `index`.
    Send { index: usize, frame: Vec<u8> },
}

/// Decides where a packet for the CPU port goes and frames it.
pub fn cpu_port_output(header: &[u8], payload: &[u8], port_count: usize) -> (out: CpuPortOutput)
    requires
        header@.len() >= SIDECAR_L3_OFFSET,
        cpu_egress_port(header@) <= port_count,
    ensures
        cpu_egress_port(header@) == 0 ==> out is Drop,
        cpu_egress_port(header@) != 0 ==> (out matches CpuPortOutput::Send { index, frame }
            && index == cpu_egress_port(header@) - 1 && frame@ == cpu_port_frame_spec(
            header@,
            payload@,
        )),
{
    let portnum = header[16] as usize;
    if portnum == 0 {
        return CpuPortOutput::Drop;
    }
    let mut frame: Vec<u8> = Vec::new();
    let mut i: usize = 0;
    while i < 12
        invariant
            i <= 12,
            12 <= header@.len(),
            frame@ == header@.take(i as int),
        decreases 12 - i,
    {
        frame.push(header[i]);
        i = i + 1;
        assert(frame@ =~= header@.take(i as int));
    }
    frame.push(header[17]);
    frame.push(header[18]);
    let ghost eth = frame@;
    let mut j: usize = SIDECAR_L3_OFFSET;
    while j < header.len()
        invariant
            SIDECAR_L3_OFFSET <= j <= header@.len(),
            frame@ == eth + header@.subrange(SIDECAR_L3_OFFSET as int, j as int),
        decreases header@.len() - j,
    {
        frame.push(header[j]);
        j = j + 1;
        assert(frame@ =~= eth + header@.subrange(SIDECAR_L3_OFFSET as int, j as int));
    }
    append_bytes(&mut frame, payload);
    assert(header@.subrange(SIDECAR_L3_OFFSET as int, header@.len() as int) =~= header@.skip(
        SIDECAR_L3_OFFSET as int,
    ));
    assert(frame@ =~= cpu_port_frame_spec(header@, payload@));
    CpuPortOutput::Send { index: portnum - 1, frame }
}

/// A packet framed with the sidecar header on scrimlet port `index` and
/// handed to the CPU port as it is comes back out on the scrimlet link of
/// the same port as the packet it was, followed by the frame's zero
/// padding: the CPU port undoes the sidecar framing.
pub proof fn lemma_cpu_port_undoes_sidecar_frame(msg: Seq<u8>, n: usize, index: usize, mtu: usize)
    requires
        ETHERNET_HEADER_LEN <= n <= msg.len(),
        n - ETHERNET_HEADER_LEN + SIDECAR_L3_OFFSET <= mtu,
        index < 255,
    ensures
        cpu_egress_port(sidecar_frame_spec(msg, n, index, mtu)) != 0,
        cpu_egress_port(sidecar_frame_spec(msg, n, index, mtu)) - 1 == index,
        cpu_port_frame_spec(sidecar_frame_spec(msg, n, index, mtu), Seq::empty()) == msg.take(
            n as int,
        ) + zeros((mtu - (n - ETHERNET_HEADER_LEN + SIDECAR_L3_OFFSET)) as nat),
{
    let f = sidecar_frame_spec(msg, n, index, mtu);
    let body = msg.subrange(ETHERNET_HEADER_LEN as int, n as int);
    let pad = zeros((mtu - (SIDECAR_L3_OFFSET + body.len())) as nat);
    assert((index as u8) == index) by (bit_vector)
        requires
            index < 255,
    ;
    assert(f.take(12) =~= msg.take(12));
    assert(f[16] == sidecar_port_number(index));
    assert(f[17] == msg[12] && f[18] == msg[13]);
    assert(f.skip(SIDECAR_L3_OFFSET as int) =~= body + pad);
    assert(msg.take(n as int) =~= msg.take(12) + seq![msg[12], msg[13]] + body);
    assert(cpu_port_frame_spec(f, Seq::empty()) =~= msg.take(12) + seq![msg[12], msg[13]] + (body
        + pad));
}

/// The frame of a packet that leaves by an external port: its headers,
/// then its payload.
pub fn external_port_frame(header: &[u8], payload: &[u8]) -> (frame: Vec<u8>)
    ensures
        frame@ == header@ + payload@,
{
    let mut frame: Vec<u8> = Vec::new();
    append_bytes(&mut frame, header);
    append_bytes(&mut frame, payload);
    assert(frame@ =~= header@ + payload@);
    frame
}

/// Where a packet that the pipeline emits leaves the switch.
#[derive(Debug, PartialEq, Eq, Structural)]
pub enum Egress {
    /// To the CPU port (pipeline port 0).
    CpuPort,
    /// To the sidecar link of the switch port at this index.
    External(usize),
}

/// Where a packet that came in on a sidecar link and that the pipeline
/// emits on `port` goes: port 0 is the CPU port, port `p` is the switch
/// port at index `p - 1`.
pub fn external_packet_egress(port: u16) -> (e: Egress)
    ensures
        port == 0 ==> e == Egress::CpuPort,
        port != 0 ==> e == Egress::External((port - 1) as usize),
{
    if port == 0 {
        Egress::CpuPort
    } else {
        Egress::External((port - 1) as usize)
    }
}

/// The switch port index of pipeline port `port`, for a packet that came in
/// from a scrimlet link: such a packet always leaves by a sidecar link.
pub fn internal_packet_egress(port: u16) -> (index: usize)
    requires
        port >= 1,
    ensures
        index == port - 1,
{
    (port - 1) as usize
}

/// The pipeline port of switch port `index`: pipeline ports count from one,
/// in 16 bits (the number wraps past 65535).
pub fn pipeline_port(index: usize) -> (port: u16)
    requires
        index < usize::MAX,
    ensures
        port == (index + 1) % 0x10000,
{
    ((index + 1) % 0x10000) as u16
}

} // verus!
