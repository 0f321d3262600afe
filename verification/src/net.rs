//! Network addresses as plain values.

use vstd::prelude::*;

verus! {

/// An IP address, version 4 as its four octets, version 6 as one number.
#[derive(Clone, Copy, Debug, PartialEq, Eq, Hash, Structural)]
pub enum IpAddr {
    V4(u8, u8, u8, u8),
    V6(u128),
}

/// An IP address together with a port.
#[derive(Clone, Copy, Debug, PartialEq, Eq, Hash, Structural)]
pub struct SocketAddr {
    pub ip: IpAddr,
    pub port: u16,
}

impl IpAddr {
    /// The wildcard address `0.0.0.0`.
    pub open spec fn spec_unspecified() -> IpAddr {
        IpAddr::V4(0, 0, 0, 0)
    }

    /// The wildcard address `0.0.0.0`: every local interface.
    #[verifier::when_used_as_spec(spec_unspecified)]
    pub fn unspecified() -> (ip: IpAddr)
        ensures
            ip == Self::spec_unspecified(),
    {
        IpAddr::V4(0, 0, 0, 0)
    }
}

impl SocketAddr {
    pub open spec fn spec_new(ip: IpAddr, port: u16) -> SocketAddr {
        SocketAddr { ip, port }
    }

    /// The address of `port` at `ip`.
    #[verifier::when_used_as_spec(spec_new)]
    pub fn new(ip: IpAddr, port: u16) -> (addr: SocketAddr)
        ensures
            addr == Self::spec_new(ip, port),
    {
        SocketAddr { ip, port }
    }

    /// The IP address of this socket address.
    pub fn ip(&self) -> (ip: IpAddr)
        ensures
            ip == self.ip,
    {
        self.ip
    }

    /// The port of this socket address.
    pub fn port(&self) -> (port: u16)
        ensures
            port == self.port,
    {
        self.port
    }
}

/// The addresses of a list of ports at one IP address, in the order of the
/// ports.
pub open spec fn spec_addresses(ip: IpAddr, ports: Seq<u16>) -> Seq<SocketAddr> {
    Seq::new(ports.len(), |i: int| SocketAddr { ip, port: ports[i] })
}

/// The addresses of a list of ports at one IP address, in the order of the
/// ports.
pub fn addresses<const N: usize>(ip: IpAddr, ports: &[u16; N]) -> (list: [SocketAddr; N])
    ensures
        list@ == spec_addresses(ip, ports@),
{
    let mut list: [SocketAddr; N] = [SocketAddr { ip, port: 0 }; N];
    let mut i: usize = 0;
    while i < N
        invariant
            i <= N,
            forall|j: int| 0 <= j < i ==> list@[j] == (SocketAddr { ip, port: ports@[j] }),
        decreases N - i,
    {
        list[i] = SocketAddr::new(ip, ports[i]);
        i += 1;
    }
    assert(list@ =~= spec_addresses(ip, ports@));
    list
}

} // verus!
