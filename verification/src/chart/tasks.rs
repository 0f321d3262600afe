//! The decisions of the two tasks that keep a chart up to date: what to do
//! with a datagram that arrived, and what to send next and when.
//!
//! The caller runs the tasks: it reads from the socket and the clock, asks
//! here what follows, and sends and sleeps as told.

use super::notify::Notify;
use super::{charted, discovers, Chart, DiscoveryMsg, Port, REPLY_GUARD};
use crate::error::{multicast_group, spec_multicast_group};
use crate::interval::Millis;
use crate::net::{IpAddr, SocketAddr};
use crate::Id;
use vstd::prelude::*;

verus! {

/// Bytes to send, and where to.
#[derive(Debug)]
pub struct Datagram {
    pub dest: SocketAddr,
    pub payload: Vec<u8>,
}

/// What follows from an announcement that arrived.
#[derive(Clone, Copy, Debug, PartialEq, Eq, Structural)]
pub struct Reaction {
    /// Whether the announcement made a node known: the subscribers are to
    /// be notified.
    pub discovered: bool,
    /// Whether the sender is to be sent this instance's announcement in
    /// reply.
    pub reply: bool,
}

/// What follows from a datagram that arrived.
#[derive(Debug)]
pub struct Incoming<const N: usize> {
    /// The notification to hand to every subscriber, where the datagram
    /// made a node known.
    pub discovered: Option<Notify<N, Port>>,
    /// The reply to send, where one is due.
    pub reply: Option<Datagram>,
}

/// The announcement to send to the multicast group, addressed to the
/// discovery port of its members.
pub fn broadcast(port: u16, msg: Vec<u8>) -> (datagram: Datagram)
    ensures
        datagram.dest == (SocketAddr { ip: spec_multicast_group(), port }),
        datagram.payload@ == msg@,
{
    Datagram { dest: SocketAddr::new(multicast_group(), port), payload: msg }
}

impl<const N: usize, T> Chart<N, T> {
    /// The schedule after the broadcasting task woke at `now`: moved on by
    /// one period where the broadcast that it named as next is due, and as
    /// it was where that is still to come.
    pub open spec fn spec_woken(&self, now: Millis) -> Millis {
        if now >= self.interval().spec_next() {
            self.interval().spec_following()
        } else {
            self.interval().spec_next()
        }
    }

    /// Decides what follows from an announcement that arrived from `addr`
    /// at `now`.
    ///
    /// The announcement is taken in as by [`process_msg`](Self::process_msg).
    /// Where it made a node known, the subscribers are to be notified, and
    /// the node is sent the announcement of this instance in reply, so that
    /// it need not wait for the next broadcast; but no reply is sent where
    /// the next broadcast is due within less than [`REPLY_GUARD`]
    /// milliseconds.
    pub fn handle_msg(&mut self, msg: DiscoveryMsg<N, T>, addr: SocketAddr, now: Millis) -> (reaction:
        Reaction)
        ensures
            final(self)@ == charted(
                old(self)@,
                old(self).spec_header(),
                old(self).spec_our_id(),
                msg,
                addr.ip,
            ),
            final(self).same_instance(old(self)),
            reaction.discovered == discovers(
                old(self)@,
                old(self).spec_header(),
                old(self).spec_our_id(),
                msg,
            ),
            reaction.reply == (reaction.discovered && old(self).interval().spec_until(now)
                >= REPLY_GUARD),
            old(self).interval().spec_until(now) < REPLY_GUARD ==> !reaction.reply,
    {
        let discovered = self.process_msg(msg, addr);
        let reply = discovered && !self.broadcast_soon(now);
        Reaction { discovered, reply }
    }

    /// Tells the broadcasting task, which has just sent its announcement at
    /// `now`, how long to sleep till the next one.
    ///
    /// Where the broadcast that the schedule named as next was due, the one
    /// just sent was it, and the schedule moves on by one period. The task
    /// is to sleep until the broadcast that is next now, and not at all
    /// where that is due already.
    pub fn sleep_till_next(&mut self, now: Millis) -> (sleep: Millis)
        ensures
            final(self)@ == old(self)@,
            final(self).spec_our_id() == old(self).spec_our_id(),
            final(self).spec_header() == old(self).spec_header(),
            final(self).spec_our_msg() == old(self).spec_our_msg(),
            final(self).spec_discovery_port() == old(self).spec_discovery_port(),
            final(self).interval().params() == old(self).interval().params(),
            final(self).interval().spec_next() == old(self).spec_woken(now),
            final(self).interval().spec_next() >= old(self).interval().spec_next(),
            sleep == final(self).interval().spec_until(now),
    {
        proof {
            use_type_invariant(&*self);
        }
        if now >= self.interval.next() {
            let mut interval = self.interval;
            interval.advance();
            self.interval = interval;
        }
        self.interval.until(now)
    }
}

impl<const N: usize, T: Copy> Chart<N, T> {
    /// The announcement of this instance.
    pub open spec fn spec_discovery_msg(&self) -> DiscoveryMsg<N, T> {
        DiscoveryMsg { header: self.spec_header(), id: self.spec_our_id(), msg: self.spec_our_msg() }
    }

    /// The announcement of this instance: its header, its id and its
    /// payload.
    pub fn discovery_msg(&self) -> (msg: DiscoveryMsg<N, T>)
        ensures
            msg == self.spec_discovery_msg(),
    {
        DiscoveryMsg { header: self.header, id: self.service_id, msg: self.msg }
    }

    /// The notification of the discovery of a charted node: its id, the IP
    /// address it was last heard from and its last payload. There is none
    /// for a node that is not charted.
    pub fn notify(&self, id: Id) -> (notification: Option<Notify<N, T>>)
        ensures
            notification == if self@.contains_key(id) {
                Some(Notify { id, ip: self@[id].ip, msg: self@[id].msg })
            } else {
                None
            },
    {
        broadcast use vstd::std_specs::hash::group_hash_axioms;
        match self.map.get(&id) {
            Some(entry) => Some(Notify { id, ip: entry.ip, msg: entry.msg }),
            None => None,
        }
    }
}

impl<const N: usize> Chart<N, Port> {
    /// The peers known after a datagram arrived from `ip`: as after the
    /// announcement that it holds, and as before where it holds none.
    pub open spec fn spec_process_buf(&self, buf: Seq<u8>, ip: IpAddr) -> Map<
        Id,
        super::Entry<[Port; N]>,
    > {
        match DiscoveryMsg::<N, Port>::spec_decode(buf) {
            Some(msg) => charted(self@, self.spec_header(), self.spec_our_id(), msg, ip),
            None => self@,
        }
    }

    /// The node that a datagram from `ip` makes known, if it does.
    pub open spec fn spec_discovered(&self, buf: Seq<u8>, ip: IpAddr) -> Option<Notify<N, Port>> {
        match DiscoveryMsg::<N, Port>::spec_decode(buf) {
            Some(msg) => if discovers(self@, self.spec_header(), self.spec_our_id(), msg) {
                Some(Notify { id: msg.id, ip, msg: msg.msg })
            } else {
                None
            },
            None => None,
        }
    }

    /// Whether a datagram that arrives at `now` is answered: it makes a
    /// node known, and the next broadcast is not close.
    pub open spec fn spec_replies(&self, buf: Seq<u8>, ip: IpAddr, now: Millis) -> bool {
        self.spec_discovered(buf, ip) is Some && self.interval().spec_until(now) >= REPLY_GUARD
    }

    /// The announcement of this instance as it goes over the wire.
    pub fn discovery_buf(&self) -> (buf: Vec<u8>)
        ensures
            buf@ == self.spec_discovery_msg().spec_encode(),
            buf@.len() == super::codec::ENVELOPE + 2 * N,
    {
        let msg = self.discovery_msg();
        msg.encode()
    }

    /// Takes in a datagram that arrived from `addr`.
    ///
    /// A datagram that holds no announcement is dropped, and so is an
    /// announcement of another deployment or of this instance itself. Any
    /// other is charted. Returns whether it made a node known.
    pub fn process_buf(&mut self, buf: &[u8], addr: SocketAddr) -> (was_uncharted: bool)
        ensures
            final(self)@ == old(self).spec_process_buf(buf@, addr.ip),
            was_uncharted == old(self).spec_discovered(buf@, addr.ip) is Some,
            final(self).same_instance(old(self)),
    {
        match DiscoveryMsg::<N, Port>::decode(buf) {
            Some(msg) => self.process_msg(msg, addr),
            None => false,
        }
    }

    /// Decides what follows from a datagram that arrived from `addr` at
    /// `now`.
    ///
    /// The datagram is taken in as by [`process_buf`](Self::process_buf).
    /// Where it made a node known, the subscribers are to be notified, and
    /// the node is sent the announcement of this instance in reply, so that
    /// it need not wait for the next broadcast; but no reply is sent where
    /// the next broadcast is due within less than [`REPLY_GUARD`]
    /// milliseconds.
    pub fn handle_incoming(&mut self, buf: &[u8], addr: SocketAddr, now: Millis) -> (incoming:
        Incoming<N>)
        ensures
            final(self)@ == old(self).spec_process_buf(buf@, addr.ip),
            final(self).same_instance(old(self)),
            incoming.discovered == old(self).spec_discovered(buf@, addr.ip),
            incoming.reply is Some <==> old(self).spec_replies(buf@, addr.ip, now),
            old(self).interval().spec_until(now) < REPLY_GUARD ==> incoming.reply is None,
            incoming.reply matches Some(reply) ==> reply.dest == addr && reply.payload@ == old(
                self,
            ).spec_discovery_msg().spec_encode(),
    {
        match DiscoveryMsg::<N, Port>::decode(buf) {
            Some(msg) => {
                let reaction = self.handle_msg(msg, addr, now);
                let discovered = if reaction.discovered {
                    Some(Notify { id: msg.id, ip: addr.ip(), msg: msg.msg })
                } else {
                    None
                };
                let reply = if reaction.reply {
                    Some(Datagram { dest: addr, payload: self.discovery_buf() })
                } else {
                    None
                };
                Incoming { discovered, reply }
            },
            None => Incoming { discovered: None, reply: None },
        }
    }

    /// Decides what the broadcasting task does at `now`: it has just
    /// started, or woken from the sleep that the previous call told.
    ///
    /// The announcement of this instance goes to the multicast group, at
    /// the discovery port. The task then sleeps for the time that is
    /// returned, as [`sleep_till_next`](Self::sleep_till_next) tells it.
    pub fn broadcast_periodically(&mut self, now: Millis) -> (next: (Datagram, Millis))
        ensures
            final(self)@ == old(self)@,
            final(self).spec_our_id() == old(self).spec_our_id(),
            final(self).spec_header() == old(self).spec_header(),
            final(self).spec_our_msg() == old(self).spec_our_msg(),
            final(self).spec_discovery_port() == old(self).spec_discovery_port(),
            final(self).interval().params() == old(self).interval().params(),
            final(self).interval().spec_next() == old(self).spec_woken(now),
            next.0.dest == (SocketAddr {
                ip: spec_multicast_group(),
                port: old(self).spec_discovery_port(),
            }),
            next.0.payload@ == old(self).spec_discovery_msg().spec_encode(),
            next.1 == final(self).interval().spec_until(now),
    {
        let datagram = broadcast(self.discovery_port, self.discovery_buf());
        let sleep = self.sleep_till_next(now);
        (datagram, sleep)
    }
}

/// A datagram that holds an announcement is taken in as that announcement,
/// whatever follows the announcement in it: the sender is charted and the
/// subscribers are notified exactly where the announcement says so.
pub proof fn lemma_datagram_is_its_announcement<const N: usize>(
    chart: Chart<N, Port>,
    msg: DiscoveryMsg<N, Port>,
    trailing: Seq<u8>,
    ip: IpAddr,
)
    ensures
        chart.spec_process_buf(msg.spec_encode() + trailing, ip) == charted(
            chart@,
            chart.spec_header(),
            chart.spec_our_id(),
            msg,
            ip,
        ),
        chart.spec_discovered(msg.spec_encode() + trailing, ip) is Some <==> discovers(
            chart@,
            chart.spec_header(),
            chart.spec_our_id(),
            msg,
        ),
        chart.spec_discovered(msg.spec_encode() + trailing, ip) matches Some(n) ==> n == (Notify {
            id: msg.id,
            ip,
            msg: msg.msg,
        }),
{
    super::codec::lemma_decode_encode(msg, trailing);
}

/// An instance's own announcement, as it comes back to it from the
/// multicast group, changes nothing: it is not charted, nobody is notified
/// and no reply goes out. A datagram too short to hold an announcement
/// changes nothing either.
pub proof fn lemma_echo_is_ignored<const N: usize>(
    chart: Chart<N, Port>,
    short: Seq<u8>,
    ip: IpAddr,
    now: Millis,
)
    requires
        !DiscoveryMsg::<N, Port>::decodable(short),
    ensures
        chart.spec_process_buf(chart.spec_discovery_msg().spec_encode(), ip) == chart@,
        chart.spec_discovered(chart.spec_discovery_msg().spec_encode(), ip) is None,
        !chart.spec_replies(chart.spec_discovery_msg().spec_encode(), ip, now),
        chart.spec_process_buf(short, ip) == chart@,
        chart.spec_discovered(short, ip) is None,
        !chart.spec_replies(short, ip, now),
{
    super::codec::lemma_decode_encode(chart.spec_discovery_msg(), Seq::empty());
    DiscoveryMsg::<N, Port>::lemma_undecodable(short);
}

} // verus!
