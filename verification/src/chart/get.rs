//! Looking up the addresses of one node.
//!
//! The instance itself is not in its own chart: asking a chart for the
//! addresses of its own id is a mistake of the caller.

use super::to_vec::shows_addr_list;
use super::{Chart, Port};
use crate::net::{addresses, SocketAddr};
use crate::Id;
use vstd::prelude::*;
use vstd::std_specs::hash::*;

verus! {

impl<const N: usize> Chart<N, Port> {
    /// Get all the `SocketAddr`'s for a given node's `Id`, one for each of
    /// its service ports and in their order.
    ///
    /// Returns `None` if the node was not in the chart. Must not be called
    /// with the `Id` of the chart instance it is called on.
    ///
    /// If you need addresses for many nodes it is faster to get a vector of
    /// them at once with [`Self::addr_lists_vec()`].
    pub fn get_addr_list(&self, id: Id) -> (list: Option<[SocketAddr; N]>)
        requires
            id != self.spec_our_id(),
        ensures
            list is Some <==> self@.contains_key(id),
            list matches Some(l) ==> shows_addr_list(l, self@[id]),
    {
        broadcast use group_hash_axioms;
        match self.map.get(&id) {
            Some(entry) => Some(addresses(entry.ip, &entry.msg)),
            None => None,
        }
    }

    /// Get a node's nth `SocketAddr` given its `Id`: the one at its service
    /// port `IDX`, which must be the place of a port.
    ///
    /// Returns `None` if the node was not in the chart. Must not be called
    /// with the `Id` of the chart instance it is called on.
    pub fn get_nth_addr<const IDX: usize>(&self, id: Id) -> (addr: Option<SocketAddr>)
        requires
            id != self.spec_our_id(),
            IDX < N,
        ensures
            addr == if self@.contains_key(id) {
                Some(SocketAddr { ip: self@[id].ip, port: self@[id].msg@[IDX as int] })
            } else {
                None
            },
    {
        broadcast use group_hash_axioms;
        match self.map.get(&id) {
            Some(entry) => Some(SocketAddr::new(entry.ip, entry.msg[IDX])),
            None => None,
        }
    }
}

impl Chart<1, Port> {
    /// Get a node's `SocketAddr` given its `Id`.
    ///
    /// Returns `None` if the node was not in the chart. Must not be called
    /// with the `Id` of the chart instance it is called on.
    pub fn get_addr(&self, id: Id) -> (addr: Option<SocketAddr>)
        requires
            id != self.spec_our_id(),
        ensures
            addr == if self@.contains_key(id) {
                Some(SocketAddr { ip: self@[id].ip, port: self@[id].msg@[0] })
            } else {
                None
            },
    {
        broadcast use group_hash_axioms;
        match self.map.get(&id) {
            Some(entry) => Some(SocketAddr::new(entry.ip, entry.msg[0])),
            None => None,
        }
    }
}

} // verus!
