use vstd::prelude::*;

verus! {

/// An IPv4 address, held as its 32-bit big-endian value (`a.b.c.d` is
/// `a * 2^24 + b * 2^16 + c * 2^8 + d`).
#[derive(Clone, Copy, Debug, PartialEq, Eq)]
pub struct Ipv4Address {
    pub bits: u32,
}

/// An IPv6 address, held as its 128-bit big-endian value.
#[derive(Clone, Copy, Debug, PartialEq, Eq)]
pub struct Ipv6Address {
    pub bits: u128,
}

/// An address of either family, as a name lookup hands them back.
#[derive(Clone, Copy, Debug, PartialEq, Eq)]
pub enum IpAddress {
    V4(Ipv4Address),
    V6(Ipv6Address),
}

/// The 32-bit value of the dotted quad `a.b.c.d`.
pub open spec fn ipv4_value(a: u8, b: u8, c: u8, d: u8) -> int {
    a * 0x100_0000 + b * 0x1_0000 + c * 0x100 + d
}

impl Ipv4Address {
    /// The address `a.b.c.d`.
    pub fn new(a: u8, b: u8, c: u8, d: u8) -> (addr: Ipv4Address)
        ensures
            addr.bits == ipv4_value(a, b, c, d),
    {
        let bits: u32 = (a as u32) * 0x100_0000 + (b as u32) * 0x1_0000 + (c as u32) * 0x100
            + (d as u32);
        Ipv4Address { bits }
    }
}

} // verus!
