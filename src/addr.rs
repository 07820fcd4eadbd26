use vstd::prelude::*;

verus! {

/// An IPv4 address, as its four octets in network order.
#[derive(Clone, Copy, Debug, PartialEq, Eq, Structural)]
pub struct Ipv4Addr(pub u8, pub u8, pub u8, pub u8);

/// An IP address. Only IPv4 is supported.
#[derive(Clone, Copy, Debug, PartialEq, Eq, Structural)]
pub enum IpAddr {
    /// An IPv4 address.
    Ipv4(Ipv4Addr),
}

/// An endpoint: an IP address and a port.
#[derive(Clone, Copy, Debug, PartialEq, Eq, Structural)]
pub struct SocketAddr {
    /// The IP address.
    pub addr: IpAddr,
    /// The port.
    pub port: u16,
}

/// The sentinel endpoint `0.0.0.0:0` held by sockets whose endpoint is not set.
pub open spec fn unspecified() -> SocketAddr {
    SocketAddr { addr: IpAddr::Ipv4(Ipv4Addr(0u8, 0u8, 0u8, 0u8)), port: 0 }
}

impl SocketAddr {
    /// Creates an endpoint from an address and a port.
    pub fn new(addr: IpAddr, port: u16) -> (r: SocketAddr)
        ensures
            r == (SocketAddr { addr, port }),
    {
        SocketAddr { addr, port }
    }

    /// The endpoint `0.0.0.0:0`.
    pub fn unspecified() -> (r: SocketAddr)
        ensures
            r == unspecified(),
    {
        SocketAddr { addr: IpAddr::Ipv4(Ipv4Addr(0u8, 0u8, 0u8, 0u8)), port: 0 }
    }

    /// Whether this is the endpoint `0.0.0.0:0`.
    pub fn is_unspecified(&self) -> (r: bool)
        ensures
            r == (*self == unspecified()),
    {
        *self == SocketAddr::unspecified()
    }
}

} // verus!
