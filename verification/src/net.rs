use vstd::prelude::*;

verus! {

/// An IPv4 address given by its four octets, most significant first.
#[derive(Clone, Copy, PartialEq, Eq, Structural)]
pub struct Ipv4Address {
    pub o0: u8,
    pub o1: u8,
    pub o2: u8,
    pub o3: u8,
}

/// An IPv6 address given by its eight 16-bit segments, most significant first.
#[derive(Clone, Copy, PartialEq, Eq, Structural)]
pub struct Ipv6Address {
    pub s0: u16,
    pub s1: u16,
    pub s2: u16,
    pub s3: u16,
    pub s4: u16,
    pub s5: u16,
    pub s6: u16,
    pub s7: u16,
}

/// An IP address of either family.
#[derive(Clone, Copy, PartialEq, Eq, Structural)]
pub enum IpAddress {
    V4(Ipv4Address),
    V6(Ipv6Address),
}

impl Ipv4Address {
    /// The address `a.b.c.d`.
    pub fn new(a: u8, b: u8, c: u8, d: u8) -> (r: Ipv4Address)
        ensures
            r == (Ipv4Address { o0: a, o1: b, o2: c, o3: d }),
    {
        Ipv4Address { o0: a, o1: b, o2: c, o3: d }
    }

    pub open spec fn octets(self) -> Seq<u8> {
        seq![self.o0, self.o1, self.o2, self.o3]
    }
}

impl Ipv6Address {
    /// The address with the given eight segments.
    pub fn new(s0: u16, s1: u16, s2: u16, s3: u16, s4: u16, s5: u16, s6: u16, s7: u16) -> (r: Ipv6Address)
        ensures
            r == (Ipv6Address { s0, s1, s2, s3, s4, s5, s6, s7 }),
    {
        Ipv6Address { s0, s1, s2, s3, s4, s5, s6, s7 }
    }

    pub open spec fn segments(self) -> Seq<u16> {
        seq![self.s0, self.s1, self.s2, self.s3, self.s4, self.s5, self.s6, self.s7]
    }
}

impl IpAddress {
    pub open spec fn is_v4(self) -> bool {
        self is V4
    }
}

} // verus!
