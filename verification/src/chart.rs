//! The chart: the peers an instance has heard from, and what it does with
//! each announcement that arrives.

use crate::interval::{Interval, Millis};
use crate::net::{IpAddr, SocketAddr};
use crate::Id;
use std::collections::HashMap;
use vstd::prelude::*;
use vstd::std_specs::hash::*;

pub mod builder;
pub mod codec;
pub mod get;
pub mod iter;
pub mod laws;
pub mod notify;
pub mod tasks;
pub mod to_vec;

verus! {

/// A service port, the usual payload of an announcement.
pub type Port = u16;

/// A reply to a newly met peer is left out when the next broadcast is
/// closer than this: the broadcast will reach the peer soon enough.
pub const REPLY_GUARD: Millis = 100;

/// An announcement: who sends it, within which deployment, and the
/// sender's payload.
#[derive(Clone, Copy, Debug)]
pub struct DiscoveryMsg<const N: usize, T> {
    pub header: u64,
    pub id: Id,
    pub msg: [T; N],
}

/// A chart entry representing a discovered node: the address it was heard
/// from and the payload it announced last.
#[derive(Clone, Copy, Debug)]
pub struct Entry<Msg> {
    pub ip: IpAddr,
    pub msg: Msg,
}

/// The chart keeping track of the discovered nodes. That a node appears in
/// the chart is no guarantee that it is reachable at this moment: entries
/// never expire.
#[derive(Debug)]
pub struct Chart<const N: usize, T> {
    header: u64,
    service_id: Id,
    msg: [T; N],
    discovery_port: u16,
    interval: Interval,
    map: HashMap<Id, Entry<[T; N]>>,
}

/// Whether an instance with the given header and id takes an announcement
/// in: it must come from the same deployment and from another instance.
pub open spec fn accepts<const N: usize, T>(header: u64, own: Id, msg: DiscoveryMsg<N, T>) -> bool {
    msg.header == header && msg.id != own
}

/// The peers known after an announcement arrived from `ip`: the sender's
/// entry is written anew where the announcement is taken in, and nothing
/// changes where it is not.
pub open spec fn charted<const N: usize, T>(
    map: Map<Id, Entry<[T; N]>>,
    header: u64,
    own: Id,
    msg: DiscoveryMsg<N, T>,
    ip: IpAddr,
) -> Map<Id, Entry<[T; N]>> {
    if accepts(header, own, msg) {
        map.insert(msg.id, Entry { ip, msg: msg.msg })
    } else {
        map
    }
}

/// Whether an announcement makes a peer known that was not known before.
/// Subscribers are notified of exactly these.
pub open spec fn discovers<const N: usize, T>(
    map: Map<Id, Entry<[T; N]>>,
    header: u64,
    own: Id,
    msg: DiscoveryMsg<N, T>,
) -> bool {
    accepts(header, own, msg) && !map.contains_key(msg.id)
}

impl<const N: usize, T> View for Chart<N, T> {
    type V = Map<Id, Entry<[T; N]>>;

    /// The peers known, each with its entry. The instance itself is not
    /// among them.
    closed spec fn view(&self) -> Map<Id, Entry<[T; N]>> {
        self.map@
    }
}

impl<const N: usize, T> Chart<N, T> {
    #[verifier::type_invariant]
    spec fn inv(&self) -> bool {
        !self.map@.contains_key(self.service_id)
    }

    /// The id of this instance.
    pub closed spec fn spec_our_id(&self) -> Id {
        self.service_id
    }

    /// The header of the deployment that this instance belongs to.
    pub closed spec fn spec_header(&self) -> u64 {
        self.header
    }

    /// The payload that this instance announces.
    pub closed spec fn spec_our_msg(&self) -> [T; N] {
        self.msg
    }

    /// The port that this instance uses for discovery.
    pub closed spec fn spec_discovery_port(&self) -> u16 {
        self.discovery_port
    }

    /// The broadcast schedule of this instance.
    pub closed spec fn interval(&self) -> Interval {
        self.interval
    }

    /// Both charts belong to one instance at one point of its schedule:
    /// they differ at most in the peers known.
    pub open spec fn same_instance(&self, other: &Self) -> bool {
        &&& self.spec_our_id() == other.spec_our_id()
        &&& self.spec_header() == other.spec_header()
        &&& self.spec_our_msg() == other.spec_our_msg()
        &&& self.spec_discovery_port() == other.spec_discovery_port()
        &&& self.interval() == other.interval()
    }

    /// A chart that knows no peer yet.
    pub(crate) fn empty(
        header: u64,
        service_id: Id,
        msg: [T; N],
        discovery_port: u16,
        interval: Interval,
    ) -> (chart: Self)
        ensures
            chart@ == Map::<Id, Entry<[T; N]>>::empty(),
            chart.spec_header() == header,
            chart.spec_our_id() == service_id,
            chart.spec_our_msg() == msg,
            chart.spec_discovery_port() == discovery_port,
            chart.interval() == interval,
    {
        broadcast use group_hash_axioms;
        Chart { header, service_id, msg, discovery_port, interval, map: HashMap::new() }
    }

    /// Puts the entry of a peer; tells whether the peer was unknown.
    fn insert(&mut self, id: Id, entry: Entry<[T; N]>) -> (was_absent: bool)
        requires
            id != old(self).spec_our_id(),
        ensures
            final(self)@ == old(self)@.insert(id, entry),
            was_absent == !old(self)@.contains_key(id),
            final(self).same_instance(old(self)),
    {
        broadcast use group_hash_axioms;
        proof {
            use_type_invariant(&*self);
        }
        let mut map: HashMap<Id, Entry<[T; N]>> = HashMap::new();
        core::mem::swap(&mut self.map, &mut map);
        let old_entry = map.insert(id, entry);
        self.map = map;
        old_entry.is_none()
    }

    /// Takes in an announcement that arrived from `addr`.
    ///
    /// An announcement of another deployment, or one of this instance
    /// itself, is dropped. Any other is charted under its sender's id with
    /// the IP address it came from, in place of what was known of that
    /// sender. Returns whether the sender was unknown before; subscribers
    /// are to be notified of exactly these announcements.
    pub fn process_msg(&mut self, msg: DiscoveryMsg<N, T>, addr: SocketAddr) -> (was_uncharted: bool)
        ensures
            final(self)@ == charted(
                old(self)@,
                old(self).spec_header(),
                old(self).spec_our_id(),
                msg,
                addr.ip,
            ),
            was_uncharted == discovers(
                old(self)@,
                old(self).spec_header(),
                old(self).spec_our_id(),
                msg,
            ),
            final(self).same_instance(old(self)),
    {
        let DiscoveryMsg { header, id, msg } = msg;
        if header != self.header {
            return false;
        }
        if id == self.service_id {
            return false;
        }
        self.insert(id, Entry { ip: addr.ip(), msg })
    }

    /// Forget a node, removing it from the chart. If it is discovered again,
    /// subscribers will get a notification (again).
    ///
    /// This has no effect if the node has not yet been discovered.
    pub fn forget(&mut self, id: Id)
        ensures
            final(self)@ == old(self)@.remove(id),
            !old(self)@.contains_key(id) ==> final(self)@ == old(self)@,
            final(self).same_instance(old(self)),
    {
        broadcast use group_hash_axioms;
        proof {
            use_type_invariant(&*self);
        }
        let mut map: HashMap<Id, Entry<[T; N]>> = HashMap::new();
        core::mem::swap(&mut self.map, &mut map);
        map.remove(&id);
        self.map = map;
        assert(!old(self)@.contains_key(id) ==> old(self)@.remove(id) =~= old(self)@);
    }

    /// Number of instances discovered, including this one. It stops
    /// counting at the largest number that can be represented.
    pub fn size(&self) -> (size: usize)
        ensures
            size == if self@.len() < usize::MAX {
                self@.len() + 1
            } else {
                usize::MAX as nat
            },
    {
        broadcast use group_hash_axioms;
        let known: usize = self.map.len();
        if known < usize::MAX {
            known + 1
        } else {
            usize::MAX
        }
    }

    /// The id set for this chart instance. It is never charted itself.
    pub fn our_id(&self) -> (id: Id)
        ensures
            id == self.spec_our_id(),
            !self@.contains_key(id),
    {
        proof {
            use_type_invariant(self);
        }
        self.service_id
    }

    /// The header of the deployment that this instance belongs to.
    pub fn header(&self) -> (header: u64)
        ensures
            header == self.spec_header(),
    {
        self.header
    }

    /// The port this instance is using for discovery.
    pub fn discovery_port(&self) -> (port: u16)
        ensures
            port == self.spec_discovery_port(),
    {
        self.discovery_port
    }

    /// Whether the next broadcast is so close at `now` that a reply to a
    /// newly met peer is left out.
    pub fn broadcast_soon(&self, now: Millis) -> (soon: bool)
        ensures
            soon == (self.interval().spec_until(now) < REPLY_GUARD),
    {
        self.interval.until(now) < REPLY_GUARD
    }
}

impl<const N: usize> Chart<N, Port> {
    /// The array of ports set for this chart instance, set in
    /// `ChartBuilder::with_service_ports`.
    pub fn our_service_ports(&self) -> (ports: &[u16])
        ensures
            ports@ == self.spec_our_msg()@,
    {
        self.msg.as_slice()
    }
}

impl Chart<1, Port> {
    /// The port set for this chart instance, set in
    /// `ChartBuilder::with_service_port`.
    pub fn our_service_port(&self) -> (port: u16)
        ensures
            port == self.spec_our_msg()@[0],
    {
        self.msg[0]
    }
}

impl<T> Chart<1, T> {
    /// The message set for this chart instance, set in
    /// `ChartBuilder::custom_msg`.
    pub fn our_msg(&self) -> (msg: &T)
        ensures
            *msg == self.spec_our_msg()@[0],
    {
        &self.msg[0]
    }
}

} // verus!
