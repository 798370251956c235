//! Internet addresses, and which of them lie in a private network.

use vstd::prelude::*;

verus! {

/// An IPv4 address, octet by octet, the first one leftmost.
#[derive(Clone, Copy, Debug, PartialEq, Eq, Structural)]
pub struct Ipv4Addr {
    pub a: u8,
    pub b: u8,
    pub c: u8,
    pub d: u8,
}

/// An IPv6 address as one number, its first byte the most significant one.
#[derive(Clone, Copy, Debug, PartialEq, Eq, Structural)]
pub struct Ipv6Addr {
    pub bits: u128,
}

/// An address of either kind.
#[derive(Clone, Copy, Debug, PartialEq, Eq, Structural)]
pub enum IpAddr {
    V4(Ipv4Addr),
    V6(Ipv6Addr),
}

impl Ipv4Addr {
    /// Whether the address lies in one of the blocks set aside for private
    /// networks: 10.0.0.0/8, 172.16.0.0/12 and 192.168.0.0/16.
    pub open spec fn spec_is_private(self) -> bool {
        ||| self.a == 10
        ||| self.a == 172 && 16 <= self.b <= 31
        ||| self.a == 192 && self.b == 168
    }

    /// The address `a.b.c.d`.
    pub fn new(a: u8, b: u8, c: u8, d: u8) -> (addr: Ipv4Addr)
        ensures
            addr == (Ipv4Addr { a, b, c, d }),
    {
        Ipv4Addr { a, b, c, d }
    }

    /// Tells whether the address is a private one.
    #[verifier::when_used_as_spec(spec_is_private)]
    pub fn is_private(self) -> (private: bool)
        ensures
            private == self.spec_is_private(),
    {
        match self.a {
            10 => true,
            172 => 16 <= self.b && self.b <= 31,
            192 => self.b == 168,
            _ => false,
        }
    }
}

/// Whether `ip` is an IPv4 address of a private network.
pub open spec fn local_ipv4(ip: IpAddr) -> bool {
    ip matches IpAddr::V4(addr) && addr.is_private()
}

/// Tells whether `ip` is an IPv4 address of a private network. No IPv6
/// address is.
pub fn is_local_ipv4(ip: IpAddr) -> (local: bool)
    ensures
        local == local_ipv4(ip),
{
    if let IpAddr::V4(addr) = ip {
        return addr.is_private();
    }
    false
}

/// An IPv4 address is local exactly where, read as one number of 32 bits, it
/// starts with the 8 bits of 10, the 12 bits of 172.16 or the 16 bits of 192.168.
pub proof fn law_local_by_prefix(addr: Ipv4Addr)
    ensures
        ({
            let n = (addr.a as u32) << 24 | (addr.b as u32) << 16 | (addr.c as u32) << 8
                | addr.d as u32;
            local_ipv4(IpAddr::V4(addr)) <==> n >> 24 == 10 || n >> 20 == 0xAC1 || n >> 16
                == 0xC0A8
        }),
{
    let (a, b, c, d) = (addr.a, addr.b, addr.c, addr.d);
    let n = (a as u32) << 24 | (b as u32) << 16 | (c as u32) << 8 | d as u32;
    assert(n >> 24 == a && n >> 20 == a * 16 + b / 16 && n >> 16 == a * 256 + b) by (bit_vector)
        requires
            n == (a as u32) << 24 | (b as u32) << 16 | (c as u32) << 8 | d as u32,
    ;
}

/// Of two addresses that agree in their first 16 bits either both are local or
/// neither is, and with a first octet that is neither 10, 172 nor 192 none is.
pub proof fn law_local_rests_on_the_network(addr: Ipv4Addr, other: Ipv4Addr)
    ensures
        addr.a == other.a && addr.b == other.b ==> local_ipv4(IpAddr::V4(addr)) == local_ipv4(
            IpAddr::V4(other),
        ),
        addr.a != 10 && addr.a != 172 && addr.a != 192 ==> !local_ipv4(IpAddr::V4(addr)),
{
}

/// No IPv6 address is local.
pub proof fn law_no_ipv6_is_local(addr: Ipv6Addr)
    ensures
        !local_ipv4(IpAddr::V6(addr)),
{
}

} // verus!
