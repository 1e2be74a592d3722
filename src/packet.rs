//! Classification of a raw Ethernet frame: pass it on, drop it, or emit the
//! source address and port of an IPv4 TCP/UDP packet.
use vstd::prelude::*;
use crate::headers::{
    eth_hdr_len, eth_len, ipv4_hdr_len, ipv4_len, tcp_hdr_len, tcp_len, udp_hdr_len, udp_len,
};
use crate::record::SourceAddr;

verus! {

/// EtherType of an IPv4 payload, in host byte order.
pub const ETHER_TYPE_IPV4: u16 = 0x0800;

/// IANA protocol number of ICMP.
pub const IP_PROTO_ICMP: u8 = 1;

/// IANA protocol number of TCP.
pub const IP_PROTO_TCP: u8 = 6;

/// IANA protocol number of UDP.
pub const IP_PROTO_UDP: u8 = 17;

/// Offset of the EtherType field within the Ethernet header.
pub const ETHER_TYPE_OFFSET: usize = 12;

/// Offset of the protocol field within the IPv4 header.
pub const IPV4_PROTO_OFFSET: usize = 9;

/// Offset of the source address field within the IPv4 header.
pub const IPV4_SRC_OFFSET: usize = 12;

/// What the host should do with a packet that parsed without error.
#[derive(Debug, Clone, Copy, PartialEq, Eq, Structural)]
pub enum ClassifyOutcome {
    /// Not this system's concern: let the packet through, record nothing.
    Pass,
    /// An IPv4 TCP or UDP packet: let it through and hand off its origin.
    Emit(SourceAddr),
}

/// Why a packet could not be classified. The host drops such a packet.
#[derive(Debug, Clone, Copy, PartialEq, Eq, Structural)]
pub enum ClassifyError {
    /// The buffer ends before the header that is needed next.
    TruncatedPacket,
    /// An IPv4 protocol other than TCP, UDP and ICMP.
    UnsupportedProtocol,
}

/// A 16-bit big-endian value.
pub open spec fn be16(hi: u8, lo: u8) -> int {
    hi * 256 + lo
}

/// A 32-bit big-endian value.
pub open spec fn be32(b0: u8, b1: u8, b2: u8, b3: u8) -> int {
    b0 * 16777216 + b1 * 65536 + b2 * 256 + b3
}

/// The EtherType of a frame, in host byte order.
pub open spec fn frame_ether_type(p: Seq<u8>) -> int {
    be16(p[ETHER_TYPE_OFFSET as int], p[ETHER_TYPE_OFFSET + 1])
}

/// The IPv4 protocol field of a frame.
pub open spec fn frame_ip_proto(p: Seq<u8>) -> u8 {
    p[eth_len() + IPV4_PROTO_OFFSET]
}

/// The IPv4 source address of a frame, in host byte order.
pub open spec fn frame_src_addr(p: Seq<u8>) -> int {
    let o = eth_len() + IPV4_SRC_OFFSET;
    be32(p[o], p[o + 1], p[o + 2], p[o + 3])
}

/// The transport source port of a frame (first field of both TCP and UDP
/// headers), in host byte order.
pub open spec fn frame_src_port(p: Seq<u8>) -> int {
    let o = eth_len() + ipv4_len();
    be16(p[o], p[o + 1])
}

/// The record that a frame with a complete transport header yields.
pub open spec fn frame_source(p: Seq<u8>) -> SourceAddr {
    SourceAddr { addr: frame_src_addr(p) as u32, port: frame_src_port(p) as u16 }
}

/// Emit the frame's source if its transport header, of length `hdr_len`, is
/// complete; else the frame is truncated.
pub open spec fn emit_if_complete(p: Seq<u8>, hdr_len: int) -> Result<ClassifyOutcome, ClassifyError> {
    if p.len() < eth_len() + ipv4_len() + hdr_len {
        Err(ClassifyError::TruncatedPacket)
    } else {
        Ok(ClassifyOutcome::Emit(frame_source(p)))
    }
}

/// The classification of a frame, reading each header only once it is known
/// to lie within the frame.
pub open spec fn classify_spec(p: Seq<u8>) -> Result<ClassifyOutcome, ClassifyError> {
    if p.len() < eth_len() {
        Err(ClassifyError::TruncatedPacket)
    } else if frame_ether_type(p) != ETHER_TYPE_IPV4 {
        Ok(ClassifyOutcome::Pass)
    } else if p.len() < eth_len() + ipv4_len() {
        Err(ClassifyError::TruncatedPacket)
    } else if frame_ip_proto(p) == IP_PROTO_TCP {
        emit_if_complete(p, tcp_len())
    } else if frame_ip_proto(p) == IP_PROTO_UDP {
        emit_if_complete(p, udp_len())
    } else if frame_ip_proto(p) == IP_PROTO_ICMP {
        Ok(ClassifyOutcome::Pass)
    } else {
        Err(ClassifyError::UnsupportedProtocol)
    }
}

/// Whether `len` bytes starting at `offset` lie within the packet.
pub fn has_header_at(packet: &[u8], offset: usize, len: usize) -> (r: bool)
    ensures
        r == (offset + len <= packet@.len()),
{
    offset <= packet.len() && len <= packet.len() - offset
}

/// Reads a big-endian 16-bit value at `offset`.
pub fn read_be16(packet: &[u8], offset: usize) -> (r: u16)
    requires
        offset + 2 <= packet@.len(),
    ensures
        r == be16(packet@[offset as int], packet@[offset + 1]),
{
    (packet[offset] as u16) * 256 + (packet[offset + 1] as u16)
}

/// Reads a big-endian 32-bit value at `offset`.
pub fn read_be32(packet: &[u8], offset: usize) -> (r: u32)
    requires
        offset + 4 <= packet@.len(),
    ensures
        r == be32(
            packet@[offset as int],
            packet@[offset + 1],
            packet@[offset + 2],
            packet@[offset + 3],
        ),
{
    (packet[offset] as u32) * 16777216 + (packet[offset + 1] as u32) * 65536 + (packet[offset
        + 2] as u32) * 256 + (packet[offset + 3] as u32)
}

/// Classifies a raw Ethernet frame. Every read is preceded by a bounds check,
/// so no input, however short or malformed, is read past its end.
pub fn classify(packet: &[u8]) -> (r: Result<ClassifyOutcome, ClassifyError>)
    ensures
        r == classify_spec(packet@),
{
    let eth = eth_hdr_len();
    if !has_header_at(packet, 0, eth) {
        return Err(ClassifyError::TruncatedPacket);
    }
    if read_be16(packet, ETHER_TYPE_OFFSET) != ETHER_TYPE_IPV4 {
        return Ok(ClassifyOutcome::Pass);
    }
    let ip = ipv4_hdr_len();
    if !has_header_at(packet, eth, ip) {
        return Err(ClassifyError::TruncatedPacket);
    }
    let addr = read_be32(packet, eth + IPV4_SRC_OFFSET);
    let proto = packet[eth + IPV4_PROTO_OFFSET];
    let transport = if proto == IP_PROTO_TCP {
        tcp_hdr_len()
    } else if proto == IP_PROTO_UDP {
        udp_hdr_len()
    } else if proto == IP_PROTO_ICMP {
        return Ok(ClassifyOutcome::Pass);
    } else {
        return Err(ClassifyError::UnsupportedProtocol);
    };
    if !has_header_at(packet, eth + ip, transport) {
        return Err(ClassifyError::TruncatedPacket);
    }
    let port = read_be16(packet, eth + ip);
    Ok(ClassifyOutcome::Emit(SourceAddr { addr, port }))
}

/// A frame whose Ethernet header is complete and announces IPv4.
pub open spec fn is_ipv4_frame(p: Seq<u8>) -> bool {
    p.len() >= eth_len() && frame_ether_type(p) == ETHER_TYPE_IPV4
}

/// An IPv4/TCP frame with complete headers yields its IPv4 source address and
/// TCP source port, both in host byte order.
pub proof fn lemma_tcp_emits(p: Seq<u8>)
    requires
        is_ipv4_frame(p),
        p.len() >= eth_len() + ipv4_len() + tcp_len(),
        frame_ip_proto(p) == IP_PROTO_TCP,
    ensures
        classify_spec(p) == Ok::<ClassifyOutcome, ClassifyError>(
            ClassifyOutcome::Emit(
                SourceAddr { addr: frame_src_addr(p) as u32, port: frame_src_port(p) as u16 },
            ),
        ),
{
}

/// An IPv4/UDP frame with complete headers yields its IPv4 source address and
/// UDP source port, both in host byte order.
pub proof fn lemma_udp_emits(p: Seq<u8>)
    requires
        is_ipv4_frame(p),
        p.len() >= eth_len() + ipv4_len() + udp_len(),
        frame_ip_proto(p) == IP_PROTO_UDP,
    ensures
        classify_spec(p) == Ok::<ClassifyOutcome, ClassifyError>(
            ClassifyOutcome::Emit(
                SourceAddr { addr: frame_src_addr(p) as u32, port: frame_src_port(p) as u16 },
            ),
        ),
{
}

/// A frame whose EtherType is not IPv4 is passed, whatever follows it.
pub proof fn lemma_non_ipv4_passes(p: Seq<u8>)
    requires
        p.len() >= eth_len(),
        frame_ether_type(p) != ETHER_TYPE_IPV4,
    ensures
        classify_spec(p) == Ok::<ClassifyOutcome, ClassifyError>(ClassifyOutcome::Pass),
{
}

/// An IPv4/ICMP frame is passed.
pub proof fn lemma_icmp_passes(p: Seq<u8>)
    requires
        is_ipv4_frame(p),
        p.len() >= eth_len() + ipv4_len(),
        frame_ip_proto(p) == IP_PROTO_ICMP,
    ensures
        classify_spec(p) == Ok::<ClassifyOutcome, ClassifyError>(ClassifyOutcome::Pass),
{
}

/// A buffer shorter than an Ethernet header is truncated.
pub proof fn lemma_short_truncated(p: Seq<u8>)
    requires
        p.len() < eth_len(),
    ensures
        classify_spec(p) == Err::<ClassifyOutcome, ClassifyError>(ClassifyError::TruncatedPacket),
{
}

/// An IPv4 frame whose protocol is none of TCP, UDP and ICMP is unsupported.
pub proof fn lemma_other_protocol_unsupported(p: Seq<u8>)
    requires
        is_ipv4_frame(p),
        p.len() >= eth_len() + ipv4_len(),
        frame_ip_proto(p) != IP_PROTO_TCP,
        frame_ip_proto(p) != IP_PROTO_UDP,
        frame_ip_proto(p) != IP_PROTO_ICMP,
    ensures
        classify_spec(p) == Err::<ClassifyOutcome, ClassifyError>(
            ClassifyError::UnsupportedProtocol,
        ),
{
}

} // verus!
