//! Fixed header sizes, taken from the network-types header layouts.
use vstd::prelude::*;
use network_types::eth::EthHdr;
use network_types::ip::Ipv4Hdr;
use network_types::tcp::TcpHdr;
use network_types::udp::UdpHdr;

verus! {

/// Length of an Ethernet II header: two MAC addresses and the EtherType.
pub open spec fn eth_len() -> int {
    14
}

/// Length of an IPv4 header without options.
pub open spec fn ipv4_len() -> int {
    20
}

/// Length of a TCP header without options.
pub open spec fn tcp_len() -> int {
    20
}

/// Length of a UDP header.
pub open spec fn udp_len() -> int {
    8
}

/// Relies on network_types::eth::EthHdr::LEN, the size of the `repr(C)`
/// header struct (`[u8; 6]`, `[u8; 6]`, `u16`): 14 bytes.
#[verifier::external_body]
pub(crate) fn eth_hdr_len() -> (r: usize)
    ensures
        r == eth_len(),
{
    EthHdr::LEN
}

/// Relies on network_types::ip::Ipv4Hdr::LEN, the size of the `repr(C)`
/// header struct made of byte fields only: 20 bytes.
#[verifier::external_body]
pub(crate) fn ipv4_hdr_len() -> (r: usize)
    ensures
        r == ipv4_len(),
{
    Ipv4Hdr::LEN
}

/// Relies on network_types::tcp::TcpHdr::LEN, the size of the `repr(C)`
/// header struct made of byte arrays only: 20 bytes.
#[verifier::external_body]
pub(crate) fn tcp_hdr_len() -> (r: usize)
    ensures
        r == tcp_len(),
{
    TcpHdr::LEN
}

/// Relies on network_types::udp::UdpHdr::LEN, the size of the `repr(C)`
/// header struct of four `[u8; 2]` fields: 8 bytes.
#[verifier::external_body]
pub(crate) fn udp_hdr_len() -> (r: usize)
    ensures
        r == udp_len(),
{
    UdpHdr::LEN
}

} // verus!
