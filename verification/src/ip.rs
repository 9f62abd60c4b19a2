//! A plain IPv4 address: four octets, compared structurally.

use vstd::prelude::*;

verus! {

/// An IPv4 address held as its four octets.
#[derive(Clone, Copy, PartialEq, Eq, Structural, PartialOrd, Ord, Debug, Hash)]
pub struct Ipv4 {
    pub a: u8,
    pub b: u8,
    pub c: u8,
    pub d: u8,
}

impl Ipv4 {
    pub fn new(a: u8, b: u8, c: u8, d: u8) -> (r: Ipv4)
        ensures
            r == (Ipv4 { a, b, c, d }),
    {
        Ipv4 { a, b, c, d }
    }

    /// The octets as a tuple, for contracts that speak of plain values.
    pub open spec fn octets(self) -> (u8, u8, u8, u8) {
        (self.a, self.b, self.c, self.d)
    }
}

} // verus!
