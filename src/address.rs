use vstd::prelude::*;

verus! {

/// An IP address, as the big-endian integer of its octets.
#[derive(Debug, Clone, Copy, PartialEq, Eq, Structural)]
pub enum IpAddress {
    V4(u32),
    V6(u128),
}

/// A local socket address to bind a transport to.
#[derive(Debug, Clone, Copy, PartialEq, Eq, Structural)]
pub struct LocalAddress {
    pub ip: IpAddress,
    pub port: u16,
}

/// The address a transport is bound to before it connects, so that its
/// traffic leaves from `ip`: the port is left for the system to assign.
pub fn bind_address(ip: IpAddress) -> (r: LocalAddress)
    ensures
        r.ip == ip,
        r.port == 0,
{
    LocalAddress { ip, port: 0 }
}

impl IpAddress {
    pub fn is_ipv4(&self) -> (r: bool)
        ensures
            r == (*self is V4),
    {
        match self {
            IpAddress::V4(_) => true,
            IpAddress::V6(_) => false,
        }
    }
}

} // verus!
