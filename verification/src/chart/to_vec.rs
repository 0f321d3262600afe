//! Snapshots of a chart: every node that is known at the moment, copied
//! out into a vector. The order of the nodes is not specified.

use super::{Chart, Entry, Port};
use crate::net::{addresses, spec_addresses, SocketAddr};
use crate::Id;
use vstd::prelude::*;
use vstd::std_specs::hash::*;
use vstd::std_specs::iter::IteratorSpec;

verus! {

/// `items` is a snapshot of `map`: it lists every key of the map exactly
/// once, in whatever order, each with something that `shows` its value.
pub open spec fn lists_each_once<V, A>(
    items: Seq<(Id, A)>,
    map: Map<Id, V>,
    shows: spec_fn(A, V) -> bool,
) -> bool {
    &&& items.len() == map.len()
    &&& forall|i: int|
        0 <= i < items.len() ==> map.contains_key((#[trigger] items[i]).0) && shows(
            items[i].1,
            map[items[i].0],
        )
    &&& forall|i: int, j: int|
        0 <= i < j < items.len() ==> (#[trigger] items[i]).0 != (#[trigger] items[j]).0
    &&& forall|id: Id| #[trigger]
        map.contains_key(id) ==> exists|i: int| 0 <= i < items.len() && (#[trigger] items[i]).0 == id
}

/// The address of a node with one service port.
pub open spec fn shows_addr(addr: SocketAddr, entry: Entry<[Port; 1]>) -> bool {
    addr == (SocketAddr { ip: entry.ip, port: entry.msg@[0] })
}

/// The address of a node at the service port at `idx`.
pub open spec fn shows_nth_addr<const N: usize>(idx: int) -> spec_fn(
    SocketAddr,
    Entry<[Port; N]>,
) -> bool {
    |addr: SocketAddr, entry: Entry<[Port; N]>|
        addr == (SocketAddr { ip: entry.ip, port: entry.msg@[idx] })
}

/// The addresses of a node, one for each service port and in their order.
pub open spec fn shows_addr_list<const N: usize>(list: [SocketAddr; N], entry: Entry<[Port; N]>) -> bool {
    list@ == spec_addresses(entry.ip, entry.msg@)
}

impl<const N: usize, T: Copy> Chart<N, T> {
    /// Returns a vector with each discovered node's id and entry.
    ///
    /// Vector order is random.
    pub fn to_vec(&self) -> (nodes: Vec<(Id, Entry<[T; N]>)>)
        ensures
            lists_each_once(nodes@, self@, |copy: Entry<[T; N]>, entry: Entry<[T; N]>| copy == entry),
    {
        broadcast use group_hash_axioms;
        broadcast use axiom_spec_hash_map_iter;

        let mut nodes: Vec<(Id, Entry<[T; N]>)> = Vec::new();
        let ghost walk = spec_hash_map_iter(&self.map).remaining();
        for (id, entry) in it: self.map.iter()
            invariant
                nodes@.len() == it.index(),
                it.seq() == walk,
                forall|j: int|
                    0 <= j < nodes@.len() ==> (#[trigger] nodes@[j]).0 == *walk[j].0 && nodes@[j].1
                        == *walk[j].1,
        {
            nodes.push((*id, Entry { ip: entry.ip, msg: entry.msg }));
        }
        proof {
            let map = self.map@;
            assert(walk.len() == map.dom().len());
            assert(walk.no_duplicates());
            assert forall|i: int| 0 <= i < nodes@.len() implies map.contains_key(
                (#[trigger] nodes@[i]).0,
            ) && nodes@[i].1 == map[nodes@[i].0] by {
                assert(map.contains_key(*walk[i].0));
            }
            assert forall|i: int, j: int| 0 <= i < j < nodes@.len() implies (#[trigger] nodes@[i]).0
                != (#[trigger] nodes@[j]).0 by {
                assert(map.contains_key(*walk[i].0));
                assert(map.contains_key(*walk[j].0));
                if nodes@[i].0 == nodes@[j].0 {
                    assert(*walk[i].1 == *walk[j].1);
                    assert(walk[i] == walk[j]);
                }
            }
            assert forall|id: Id| #[trigger] map.contains_key(id) implies exists|i: int|
                0 <= i < nodes@.len() && (#[trigger] nodes@[i]).0 == id by {
                assert(walk.contains((&id, &map[id])));
                let i = choose|i: int| 0 <= i < walk.len() && walk[i] == (&id, &map[id]);
                assert(nodes@[i].0 == id);
            }
        }
        nodes
    }
}

/// A snapshot of which each item shows what the item of another snapshot
/// at the same place holds is a snapshot too.
pub proof fn lemma_lists_each_once_through<V, A, B>(
    items: Seq<(Id, B)>,
    nodes: Seq<(Id, A)>,
    map: Map<Id, V>,
    holds: spec_fn(A, V) -> bool,
    shows: spec_fn(B, V) -> bool,
)
    requires
        lists_each_once(nodes, map, holds),
        items.len() == nodes.len(),
        forall|i: int| 0 <= i < items.len() ==> (#[trigger] items[i]).0 == nodes[i].0,
        forall|i: int, v: V|
            0 <= i < items.len() && #[trigger] holds(nodes[i].1, v) ==> shows(items[i].1, v),
    ensures
        lists_each_once(items, map, shows),
{
    assert forall|i: int| 0 <= i < items.len() implies map.contains_key((#[trigger] items[i]).0)
        && shows(items[i].1, map[items[i].0]) by {
        assert(map.contains_key(nodes[i].0));
        assert(holds(nodes[i].1, map[nodes[i].0]));
    }
    assert forall|i: int, j: int| 0 <= i < j < items.len() implies (#[trigger] items[i]).0 != (
    #[trigger] items[j]).0 by {
        assert(nodes[i].0 != nodes[j].0);
    }
    assert forall|id: Id| #[trigger] map.contains_key(id) implies exists|i: int|
        0 <= i < items.len() && (#[trigger] items[i]).0 == id by {
        let i = choose|i: int| 0 <= i < nodes.len() && (#[trigger] nodes[i]).0 == id;
        assert(items[i].0 == id);
    }
}

impl<const N: usize> Chart<N, Port> {
    /// Returns a vector with each discovered node's socket addresses.
    ///
    /// Vector order is random. Only available for a chart configured with
    /// service ports.
    pub fn addr_lists_vec(&self) -> (lists: Vec<(Id, [SocketAddr; N])>)
        ensures
            lists_each_once(
                lists@,
                self@,
                |list: [SocketAddr; N], entry: Entry<[Port; N]>| shows_addr_list(list, entry),
            ),
    {
        let nodes = self.to_vec();
        let mut lists: Vec<(Id, [SocketAddr; N])> = Vec::new();
        let mut i: usize = 0;
        while i < nodes.len()
            invariant
                i <= nodes@.len(),
                lists@.len() == i,
                forall|j: int|
                    0 <= j < i ==> (#[trigger] lists@[j]).0 == nodes@[j].0 && shows_addr_list(
                        lists@[j].1,
                        nodes@[j].1,
                    ),
            decreases nodes@.len() - i,
        {
            let (id, entry) = nodes[i];
            lists.push((id, addresses(entry.ip, &entry.msg)));
            i += 1;
        }
        proof {
            lemma_lists_each_once_through(
                lists@,
                nodes@,
                self@,
                |copy: Entry<[Port; N]>, entry: Entry<[Port; N]>| copy == entry,
                |list: [SocketAddr; N], entry: Entry<[Port; N]>| shows_addr_list(list, entry),
            );
        }
        lists
    }

    /// Returns a vector over each discovered node's nth socket address.
    ///
    /// Vector order is random. Only available for a chart configured with
    /// service ports; `IDX` must be the place of one of them.
    pub fn nth_addr_vec<const IDX: usize>(&self) -> (addrs: Vec<(Id, SocketAddr)>)
        requires
            IDX < N,
        ensures
            lists_each_once(addrs@, self@, shows_nth_addr::<N>(IDX as int)),
    {
        let nodes = self.to_vec();
        let mut addrs: Vec<(Id, SocketAddr)> = Vec::new();
        let mut i: usize = 0;
        while i < nodes.len()
            invariant
                IDX < N,
                i <= nodes@.len(),
                addrs@.len() == i,
                forall|j: int|
                    0 <= j < i ==> (#[trigger] addrs@[j]).0 == nodes@[j].0 && shows_nth_addr::<N>(
                        IDX as int,
                    )(addrs@[j].1, nodes@[j].1),
            decreases nodes@.len() - i,
        {
            let (id, entry) = nodes[i];
            addrs.push((id, SocketAddr::new(entry.ip, entry.msg[IDX])));
            i += 1;
        }
        proof {
            lemma_lists_each_once_through(
                addrs@,
                nodes@,
                self@,
                |copy: Entry<[Port; N]>, entry: Entry<[Port; N]>| copy == entry,
                shows_nth_addr::<N>(IDX as int),
            );
        }
        addrs
    }
}

impl Chart<1, Port> {
    /// Returns a vector over each discovered node's socket address.
    ///
    /// Vector order is random. Only available for a chart configured with a
    /// single service port.
    pub fn addr_vec(&self) -> (addrs: Vec<(Id, SocketAddr)>)
        ensures
            lists_each_once(
                addrs@,
                self@,
                |addr: SocketAddr, entry: Entry<[Port; 1]>| shows_addr(addr, entry),
            ),
    {
        let nodes = self.to_vec();
        let mut addrs: Vec<(Id, SocketAddr)> = Vec::new();
        let mut i: usize = 0;
        while i < nodes.len()
            invariant
                i <= nodes@.len(),
                addrs@.len() == i,
                forall|j: int|
                    0 <= j < i ==> (#[trigger] addrs@[j]).0 == nodes@[j].0 && shows_addr(
                        addrs@[j].1,
                        nodes@[j].1,
                    ),
            decreases nodes@.len() - i,
        {
            let (id, entry) = nodes[i];
            addrs.push((id, SocketAddr::new(entry.ip, entry.msg[0])));
            i += 1;
        }
        proof {
            lemma_lists_each_once_through(
                addrs@,
                nodes@,
                self@,
                |copy: Entry<[Port; 1]>, entry: Entry<[Port; 1]>| copy == entry,
                |addr: SocketAddr, entry: Entry<[Port; 1]>| shows_addr(addr, entry),
            );
        }
        addrs
    }
}

} // verus!
