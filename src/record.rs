use vstd::prelude::*;

verus! {

/// An extracted packet origin: IPv4 source address and transport source port,
/// both in host byte order.
#[derive(Debug, Clone, Copy, PartialEq, Eq, Structural)]
pub struct SourceAddr {
    pub addr: u32,
    pub port: u16,
}

} // verus!
