//! Walking over the addresses of the nodes known at one moment.
//!
//! Each walk is over a snapshot: nodes that are charted or forgotten after
//! it was taken do not show. The order of the nodes is not specified.

use super::to_vec::{lists_each_once, shows_addr, shows_addr_list, shows_nth_addr};
use super::{Chart, Entry, Port};
use crate::net::SocketAddr;
use crate::Id;
use vstd::prelude::*;

verus! {

/// What a snapshot lists, without the ids.
pub open spec fn without_ids<A>(items: Seq<(Id, A)>) -> Seq<A> {
    Seq::new(items.len(), |i: int| items[i].1)
}

/// Walk over arrays of socket addresses, one array for each node. Can only
/// be had of a chart configured with service ports.
#[derive(Debug)]
pub struct IterAddrLists<const N: usize> {
    inner: Vec<[SocketAddr; N]>,
}

/// Walk over the n-th socket address of each node, for a chart where each
/// instance has multiple service ports.
#[derive(Debug)]
pub struct IterNthAddr {
    inner: Vec<SocketAddr>,
}

/// Walk over the socket address of each node. Can only be had of a chart
/// configured with a single service port.
#[derive(Debug)]
pub struct IterAddr {
    inner: Vec<SocketAddr>,
}

impl<const N: usize> View for IterAddrLists<N> {
    type V = Seq<[SocketAddr; N]>;

    /// What is still to come. The last comes first.
    closed spec fn view(&self) -> Seq<[SocketAddr; N]> {
        self.inner@
    }
}

impl View for IterNthAddr {
    type V = Seq<SocketAddr>;

    /// What is still to come. The last comes first.
    closed spec fn view(&self) -> Seq<SocketAddr> {
        self.inner@
    }
}

impl View for IterAddr {
    type V = Seq<SocketAddr>;

    /// What is still to come. The last comes first.
    closed spec fn view(&self) -> Seq<SocketAddr> {
        self.inner@
    }
}

impl<const N: usize> IterAddrLists<N> {
    /// The addresses of the next node; `None` once every node was visited.
    pub fn next(&mut self) -> (item: Option<[SocketAddr; N]>)
        ensures
            item == if old(self)@.len() > 0 {
                Some(old(self)@.last())
            } else {
                None
            },
            final(self)@ == if old(self)@.len() > 0 {
                old(self)@.drop_last()
            } else {
                old(self)@
            },
    {
        self.inner.pop()
    }
}

impl IterNthAddr {
    /// The address of the next node; `None` once every node was visited.
    pub fn next(&mut self) -> (item: Option<SocketAddr>)
        ensures
            item == if old(self)@.len() > 0 {
                Some(old(self)@.last())
            } else {
                None
            },
            final(self)@ == if old(self)@.len() > 0 {
                old(self)@.drop_last()
            } else {
                old(self)@
            },
    {
        self.inner.pop()
    }
}

impl IterAddr {
    /// The address of the next node; `None` once every node was visited.
    pub fn next(&mut self) -> (item: Option<SocketAddr>)
        ensures
            item == if old(self)@.len() > 0 {
                Some(old(self)@.last())
            } else {
                None
            },
            final(self)@ == if old(self)@.len() > 0 {
                old(self)@.drop_last()
            } else {
                old(self)@
            },
    {
        self.inner.pop()
    }
}

impl<const N: usize> Chart<N, Port> {
    /// Returns a walk over each discovered node's socket addresses: what
    /// [`addr_lists_vec`](Self::addr_lists_vec) lists, without the ids.
    ///
    /// The order is random.
    pub fn iter_addr_lists(&self) -> (iter: IterAddrLists<N>)
        ensures
            exists|lists: Seq<(Id, [SocketAddr; N])>|
                #![trigger without_ids(lists)]
                lists_each_once(
                    lists,
                    self@,
                    |list: [SocketAddr; N], entry: Entry<[Port; N]>| shows_addr_list(list, entry),
                ) && iter@ == without_ids(lists),
    {
        let lists = self.addr_lists_vec();
        let mut inner: Vec<[SocketAddr; N]> = Vec::new();
        let mut i: usize = 0;
        while i < lists.len()
            invariant
                i <= lists@.len(),
                inner@.len() == i,
                forall|j: int| 0 <= j < i ==> inner@[j] == lists@[j].1,
            decreases lists@.len() - i,
        {
            inner.push(lists[i].1);
            i += 1;
        }
        assert(inner@ =~= without_ids(lists@));
        IterAddrLists { inner }
    }

    /// Returns a walk over each discovered node's nth socket address: what
    /// [`nth_addr_vec`](Self::nth_addr_vec) lists, without the ids. `IDX`
    /// must be the place of a service port.
    ///
    /// The order is random.
    pub fn iter_nth_addr<const IDX: usize>(&self) -> (iter: IterNthAddr)
        requires
            IDX < N,
        ensures
            exists|addrs: Seq<(Id, SocketAddr)>|
                #![trigger without_ids(addrs)]
                lists_each_once(addrs, self@, shows_nth_addr::<N>(IDX as int)) && iter@
                    == without_ids(addrs),
    {
        let addrs = self.nth_addr_vec::<IDX>();
        let mut inner: Vec<SocketAddr> = Vec::new();
        let mut i: usize = 0;
        while i < addrs.len()
            invariant
                i <= addrs@.len(),
                inner@.len() == i,
                forall|j: int| 0 <= j < i ==> inner@[j] == addrs@[j].1,
            decreases addrs@.len() - i,
        {
            inner.push(addrs[i].1);
            i += 1;
        }
        assert(inner@ =~= without_ids(addrs@));
        IterNthAddr { inner }
    }
}

impl Chart<1, Port> {
    /// Returns a walk over each discovered node's socket address: what
    /// [`addr_vec`](Self::addr_vec) lists, without the ids.
    ///
    /// The order is random.
    pub fn iter_addr(&self) -> (iter: IterAddr)
        ensures
            exists|addrs: Seq<(Id, SocketAddr)>|
                #![trigger without_ids(addrs)]
                lists_each_once(
                    addrs,
                    self@,
                    |addr: SocketAddr, entry: Entry<[Port; 1]>| shows_addr(addr, entry),
                ) && iter@ == without_ids(addrs),
    {
        let addrs = self.addr_vec();
        let mut inner: Vec<SocketAddr> = Vec::new();
        let mut i: usize = 0;
        while i < addrs.len()
            invariant
                i <= addrs@.len(),
                inner@.len() == i,
                forall|j: int| 0 <= j < i ==> inner@[j] == addrs@[j].1,
            decreases addrs@.len() - i,
        {
            inner.push(addrs[i].1);
            i += 1;
        }
        assert(inner@ =~= without_ids(addrs@));
        IterAddr { inner }
    }
}

} // verus!
