//! Plain-value model of a UDP endpoint.
//!
//! The bridge never resolves or parses addresses; it only compares them
//! (client peer validation) and routes by them (server outbound). So an
//! address is modelled as the integers the OS reports: the IP as a single
//! wide integer, the port, and which IP family it belongs to. Two endpoints
//! are the same peer exactly when all three coincide.

use vstd::prelude::*;

verus! {

/// A UDP endpoint as plain integers: IP bits, port, and IP family.
///
/// For an IPv4 address the four octets are packed big-endian into the low
/// 32 bits of `ip` and `v6` is false; for IPv6 all 128 bits are used and
/// `v6` is true. Keeping the family separate means an IPv4 peer never
/// compares equal to an IPv6 peer with the same numeric bits.
#[derive(Clone, Copy, Debug, PartialEq, Eq, Structural, Hash)]
pub struct Addr {
    /// The IP address bits, big-endian packed.
    pub ip: u128,
    /// The UDP port.
    pub port: u16,
    /// True for an IPv6 endpoint, false for IPv4.
    pub v6: bool,
}

impl Addr {
    /// Build an IPv4 endpoint from its four dotted-quad octets and port.
    pub fn v4(a: u8, b: u8, c: u8, d: u8, port: u16) -> (r: Addr)
        ensures
            r.ip == a * 0x100_0000 + b * 0x1_0000 + c * 0x100 + d,
            r.port == port,
            !r.v6,
    {
        Addr {
            ip: (a as u128) * 0x100_0000 + (b as u128) * 0x1_0000 + (c as u128) * 0x100
                + (d as u128),
            port,
            v6: false,
        }
    }

    /// Build an IPv6 endpoint from its 128 address bits and port.
    pub fn v6(ip: u128, port: u16) -> (r: Addr)
        ensures
            r.ip == ip,
            r.port == port,
            r.v6,
    {
        Addr { ip, port, v6: true }
    }

    /// Whether `self` and `other` name the same UDP endpoint.
    pub fn same_endpoint(&self, other: &Addr) -> (r: bool)
        ensures
            r == (*self == *other),
    {
        self.ip == other.ip && self.port == other.port && self.v6 == other.v6
    }
}

} // verus!
