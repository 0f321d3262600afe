//! What a subscriber gets when a new node is discovered.

use super::Port;
use crate::net::{addresses, spec_addresses, IpAddr, SocketAddr};
use crate::Id;
use vstd::prelude::*;

verus! {

/// How many notifications are kept for a subscriber that has fallen
/// behind. One that falls behind further is told how many it missed.
pub const BUFFERED: usize = 256;

/// The notification of a discovery: a node was charted that was not known
/// before. It holds the node's id, the IP address it was heard from and
/// the payload it announced.
#[derive(Clone, Copy, Debug)]
pub struct Notify<const N: usize, T> {
    pub id: Id,
    pub ip: IpAddr,
    pub msg: [T; N],
}

impl<T: Copy> Notify<1, T> {
    /// The id, the IP address and the custom message of the new node.
    pub fn recv_one(self) -> (node: (Id, IpAddr, T))
        ensures
            node == (self.id, self.ip, self.msg@[0]),
    {
        (self.id, self.ip, self.msg[0])
    }
}

impl<const N: usize, T> Notify<N, T> {
    /// The id, the IP address and the payload of the new node.
    pub fn recv(self) -> (node: (Id, IpAddr, [T; N]))
        ensures
            node == (self.id, self.ip, self.msg),
    {
        (self.id, self.ip, self.msg)
    }
}

impl<const N: usize, T: Copy> Notify<N, T> {
    /// The id, the IP address and the part of the payload at `IDX`.
    pub fn recv_nth<const IDX: usize>(self) -> (node: (Id, IpAddr, T))
        requires
            IDX < N,
        ensures
            node == (self.id, self.ip, self.msg@[IDX as int]),
    {
        (self.id, self.ip, self.msg[IDX])
    }
}

impl Notify<1, Port> {
    /// The id and the service address of the new node.
    pub fn recv_addr(self) -> (node: (Id, SocketAddr))
        ensures
            node == (self.id, SocketAddr { ip: self.ip, port: self.msg@[0] }),
    {
        (self.id, SocketAddr::new(self.ip, self.msg[0]))
    }
}

impl<const N: usize> Notify<N, Port> {
    /// The id and the service addresses of the new node, one for each of
    /// its ports and in their order.
    pub fn recv_addresses(self) -> (node: (Id, [SocketAddr; N]))
        ensures
            node.0 == self.id,
            node.1@ == spec_addresses(self.ip, self.msg@),
    {
        (self.id, addresses(self.ip, &self.msg))
    }

    /// The id of the new node and the service address at its port `IDX`.
    pub fn recv_nth_addr<const IDX: usize>(self) -> (node: (Id, SocketAddr))
        requires
            IDX < N,
        ensures
            node == (self.id, SocketAddr { ip: self.ip, port: self.msg@[IDX as int] }),
    {
        (self.id, SocketAddr::new(self.ip, self.msg[IDX]))
    }
}

} // verus!
