use vstd::prelude::*;

verus! {

/// A source address as the site sees it: an IPv4 address as its 32 bits, or an IPv6 address
/// as its 128 bits, both in network order.
#[derive(Clone, Copy, Debug, PartialEq, Eq, Structural)]
pub enum IpAddress {
    V4(u32),
    V6(u128),
}

impl IpAddress {
    /// The address `0.0.0.0`, recorded when no source address can be found.
    pub fn unspecified() -> (a: IpAddress)
        ensures
            a == IpAddress::V4(0),
    {
        IpAddress::V4(0)
    }

    /// Whether this is an IPv6 address.
    pub fn is_ipv6(&self) -> (r: bool)
        ensures
            r == (*self is V6),
    {
        match self {
            IpAddress::V4(_) => false,
            IpAddress::V6(_) => true,
        }
    }
}

} // verus!
