//! What holds of a chart over its whole life, stated over what happens to
//! it: announcements arrive and nodes are forgotten, in some order.

use super::{accepts, charted, discovers, DiscoveryMsg, Entry};
use crate::net::IpAddr;
use crate::Id;
use vstd::prelude::*;

verus! {

/// Something that happens to a chart.
pub enum Event<const N: usize, T> {
    /// An announcement arrives from an IP address.
    Receipt { msg: DiscoveryMsg<N, T>, ip: IpAddr },
    /// The node with this id is forgotten.
    Forget(Id),
}

/// The peers known after an event.
pub open spec fn step<const N: usize, T>(
    map: Map<Id, Entry<[T; N]>>,
    header: u64,
    own: Id,
    event: Event<N, T>,
) -> Map<Id, Entry<[T; N]>> {
    match event {
        Event::Receipt { msg, ip } => charted(map, header, own, msg, ip),
        Event::Forget(id) => map.remove(id),
    }
}

/// Whether an event makes subscribers hear of the node `id`.
pub open spec fn notifies<const N: usize, T>(
    map: Map<Id, Entry<[T; N]>>,
    header: u64,
    own: Id,
    event: Event<N, T>,
    id: Id,
) -> bool {
    match event {
        Event::Receipt { msg, ip } => msg.id == id && discovers(map, header, own, msg),
        Event::Forget(_) => false,
    }
}

/// The peers known after a run of events.
pub open spec fn run<const N: usize, T>(
    map: Map<Id, Entry<[T; N]>>,
    header: u64,
    own: Id,
    events: Seq<Event<N, T>>,
) -> Map<Id, Entry<[T; N]>>
    decreases events.len(),
{
    if events.len() == 0 {
        map
    } else {
        run(step(map, header, own, events[0]), header, own, events.drop_first())
    }
}

/// How often subscribers hear of the node `id` during a run of events.
pub open spec fn notifications<const N: usize, T>(
    map: Map<Id, Entry<[T; N]>>,
    header: u64,
    own: Id,
    events: Seq<Event<N, T>>,
    id: Id,
) -> nat
    decreases events.len(),
{
    if events.len() == 0 {
        0
    } else {
        let heard: nat = if notifies(map, header, own, events[0], id) {
            1
        } else {
            0
        };
        heard + notifications(
            step(map, header, own, events[0]),
            header,
            own,
            events.drop_first(),
            id,
        )
    }
}

/// Whether an announcement of the node `id` that is taken in is among the
/// events.
pub open spec fn hears_from<const N: usize, T>(
    header: u64,
    own: Id,
    events: Seq<Event<N, T>>,
    id: Id,
) -> bool {
    exists|i: int|
        0 <= i < events.len() && (#[trigger] events[i] matches Event::Receipt { msg, .. }
            && msg.id == id && accepts(header, own, msg))
}

/// Whether the node `id` is forgotten somewhere among the events.
pub open spec fn forgets<const N: usize, T>(events: Seq<Event<N, T>>, id: Id) -> bool {
    exists|i: int| 0 <= i < events.len() && #[trigger] events[i] == Event::<N, T>::Forget(id)
}

/// The instance itself is never charted, whatever arrives.
pub proof fn lemma_own_id_never_charted<const N: usize, T>(
    map: Map<Id, Entry<[T; N]>>,
    header: u64,
    own: Id,
    events: Seq<Event<N, T>>,
)
    requires
        !map.contains_key(own),
    ensures
        !run(map, header, own, events).contains_key(own),
        notifications(map, header, own, events, own) == 0,
    decreases events.len(),
{
    if events.len() > 0 {
        lemma_own_id_never_charted(
            step(map, header, own, events[0]),
            header,
            own,
            events.drop_first(),
        );
    }
}

/// An announcement of the same deployment and of another instance is
/// charted as it is: afterwards the sender's entry holds the payload of the
/// announcement and the IP address it came from, whatever was known of the
/// sender before. The entries of all other nodes stay as they are.
pub proof fn lemma_receipt_is_charted<const N: usize, T>(
    map: Map<Id, Entry<[T; N]>>,
    header: u64,
    own: Id,
    msg: DiscoveryMsg<N, T>,
    ip: IpAddr,
)
    requires
        msg.header == header,
        msg.id != own,
    ensures
        charted(map, header, own, msg, ip).contains_key(msg.id),
        charted(map, header, own, msg, ip)[msg.id].msg == msg.msg,
        charted(map, header, own, msg, ip)[msg.id].ip == ip,
        forall|other: Id|
            other != msg.id ==> (#[trigger] charted(map, header, own, msg, ip).contains_key(other)
                <==> map.contains_key(other)),
        forall|other: Id|
            other != msg.id && map.contains_key(other) ==> #[trigger] charted(
                map,
                header,
                own,
                msg,
                ip,
            )[other] == map[other],
{
}

/// The same announcement arriving again changes nothing and notifies
/// nobody.
pub proof fn lemma_repeated_receipt<const N: usize, T>(
    map: Map<Id, Entry<[T; N]>>,
    header: u64,
    own: Id,
    msg: DiscoveryMsg<N, T>,
    ip: IpAddr,
)
    ensures
        ({
            let once = charted(map, header, own, msg, ip);
            &&& charted(once, header, own, msg, ip) == once
            &&& !discovers(once, header, own, msg)
        }),
{
    let once = charted(map, header, own, msg, ip);
    assert(charted(once, header, own, msg, ip) =~= once);
}

/// An announcement with another header leaves the chart as it is and
/// notifies nobody: its sender does not get into the chart by it.
pub proof fn lemma_foreign_header_is_dropped<const N: usize, T>(
    map: Map<Id, Entry<[T; N]>>,
    header: u64,
    own: Id,
    msg: DiscoveryMsg<N, T>,
    ip: IpAddr,
)
    requires
        msg.header != header,
    ensures
        charted(map, header, own, msg, ip) == map,
        !discovers(map, header, own, msg),
{
}

/// An announcement that carries the instance's own id, as one that comes
/// back to its sender does, leaves the chart as it is and notifies nobody.
pub proof fn lemma_own_announcement_is_dropped<const N: usize, T>(
    map: Map<Id, Entry<[T; N]>>,
    header: u64,
    own: Id,
    msg: DiscoveryMsg<N, T>,
    ip: IpAddr,
)
    requires
        msg.id == own,
    ensures
        charted(map, header, own, msg, ip) == map,
        !discovers(map, header, own, msg),
{
}

/// Forgetting a node that is not known changes nothing, and forgetting a
/// node twice is forgetting it once.
pub proof fn lemma_forget_is_idempotent<V>(map: Map<Id, V>, id: Id)
    ensures
        !map.contains_key(id) ==> map.remove(id) == map,
        map.remove(id).remove(id) == map.remove(id),
        !map.remove(id).contains_key(id),
{
    if !map.contains_key(id) {
        assert(map.remove(id) =~= map);
    }
    assert(map.remove(id).remove(id) =~= map.remove(id));
}

/// As long as the node `id` is not forgotten, subscribers hear of it at
/// most once: exactly once where it was not known at first and an
/// announcement of it is taken in, and never otherwise. It is known at the
/// end exactly where it was known at first or was heard of.
pub proof fn lemma_one_notification_until_forgotten<const N: usize, T>(
    map: Map<Id, Entry<[T; N]>>,
    header: u64,
    own: Id,
    events: Seq<Event<N, T>>,
    id: Id,
)
    requires
        !forgets(events, id),
    ensures
        notifications(map, header, own, events, id) == if !map.contains_key(id) && hears_from(
            header,
            own,
            events,
            id,
        ) {
            1nat
        } else {
            0nat
        },
        run(map, header, own, events).contains_key(id) <==> map.contains_key(id) || hears_from(
            header,
            own,
            events,
            id,
        ),
    decreases events.len(),
{
    if events.len() > 0 {
        let first = events[0];
        let rest = events.drop_first();
        let next = step(map, header, own, first);
        assert(first != Event::<N, T>::Forget(id));
        assert forall|i: int| 0 <= i < rest.len() implies #[trigger] rest[i] != Event::<
            N,
            T,
        >::Forget(id) by {
            assert(rest[i] == events[i + 1]);
        }
        lemma_one_notification_until_forgotten(next, header, own, rest, id);
        let first_is_from = first matches Event::Receipt { msg, .. } && msg.id == id && accepts(
            header,
            own,
            msg,
        );
        if hears_from(header, own, rest, id) {
            let i = choose|i: int|
                0 <= i < rest.len() && (#[trigger] rest[i] matches Event::Receipt { msg, .. }
                    && msg.id == id && accepts(header, own, msg));
            assert(rest[i] == events[i + 1]);
            assert(hears_from(header, own, events, id));
        }
        if first_is_from {
            assert(hears_from(header, own, events, id));
        }
        if hears_from(header, own, events, id) {
            let i = choose|i: int|
                0 <= i < events.len() && (#[trigger] events[i] matches Event::Receipt { msg, .. }
                    && msg.id == id && accepts(header, own, msg));
            if i > 0 {
                assert(rest[i - 1] == events[i]);
                assert(hears_from(header, own, rest, id));
            }
        }
        assert(hears_from(header, own, events, id) <==> first_is_from || hears_from(
            header,
            own,
            rest,
            id,
        ));
        match first {
            Event::Receipt { msg, ip } => {
                assert(next.contains_key(id) <==> map.contains_key(id) || first_is_from);
            },
            Event::Forget(other) => {
                assert(other != id);
                assert(next.contains_key(id) <==> map.contains_key(id));
            },
        }
    }
}

/// After a node is forgotten, the next announcement of it that is taken in
/// notifies the subscribers once more, and until it is forgotten again no
/// further announcement of it does: whatever was known of it before.
pub proof fn lemma_forget_then_rediscover<const N: usize, T>(
    map: Map<Id, Entry<[T; N]>>,
    header: u64,
    own: Id,
    events: Seq<Event<N, T>>,
    id: Id,
)
    requires
        events.len() > 0,
        events[0] == Event::<N, T>::Forget(id),
        !forgets(events.drop_first(), id),
        hears_from(header, own, events.drop_first(), id),
    ensures
        notifications(map, header, own, events, id) == 1,
        run(map, header, own, events).contains_key(id),
{
    lemma_one_notification_until_forgotten(
        map.remove(id),
        header,
        own,
        events.drop_first(),
        id,
    );
}

/// The arrival of a list of announcements, one after the other, each from
/// its IP address.
pub open spec fn receipts<const N: usize, T>(
    msgs: Seq<DiscoveryMsg<N, T>>,
    ips: Seq<IpAddr>,
) -> Seq<Event<N, T>> {
    Seq::new(msgs.len(), |i: int| Event::Receipt { msg: msgs[i], ip: ips[i] })
}

/// An instance that takes in one announcement of each of its peers knows
/// all of them afterwards, and nobody else besides those it knew before:
/// with the peers of a whole cluster and a chart that was empty, its size
/// is the size of the cluster.
///
/// That the announcements arrive is the premise here, not the claim.
pub proof fn lemma_hearing_everyone_finds_everyone<const N: usize, T>(
    map: Map<Id, Entry<[T; N]>>,
    header: u64,
    own: Id,
    msgs: Seq<DiscoveryMsg<N, T>>,
    ips: Seq<IpAddr>,
)
    requires
        map.dom().finite(),
        ips.len() == msgs.len(),
        forall|i: int| 0 <= i < msgs.len() ==> accepts(header, own, #[trigger] msgs[i]),
        forall|i: int| 0 <= i < msgs.len() ==> !map.contains_key((#[trigger] msgs[i]).id),
        forall|i: int, j: int|
            0 <= i < j < msgs.len() ==> (#[trigger] msgs[i]).id != (#[trigger] msgs[j]).id,
    ensures
        ({
            let known = run(map, header, own, receipts(msgs, ips));
            &&& known.dom().finite()
            &&& known.len() == map.len() + msgs.len()
            &&& forall|id: Id|
                known.contains_key(id) <==> map.contains_key(id) || exists|i: int|
                    0 <= i < msgs.len() && (#[trigger] msgs[i]).id == id
            &&& forall|i: int|
                0 <= i < msgs.len() ==> known[(#[trigger] msgs[i]).id] == (Entry {
                    ip: ips[i],
                    msg: msgs[i].msg,
                })
        }),
    decreases msgs.len(),
{
    let events = receipts(msgs, ips);
    if msgs.len() > 0 {
        let next = step(map, header, own, events[0]);
        let later = msgs.drop_first();
        let later_ips = ips.drop_first();
        assert(events.drop_first() =~= receipts(later, later_ips));
        assert(next == map.insert(msgs[0].id, Entry { ip: ips[0], msg: msgs[0].msg }));
        assert forall|i: int| 0 <= i < later.len() implies accepts(header, own, #[trigger] later[i])
            && !next.contains_key(later[i].id) by {
            assert(later[i] == msgs[i + 1]);
            assert(msgs[0].id != msgs[i + 1].id);
        }
        assert forall|i: int, j: int| 0 <= i < j < later.len() implies (#[trigger] later[i]).id != (
        #[trigger] later[j]).id by {
            assert(later[i] == msgs[i + 1] && later[j] == msgs[j + 1]);
        }
        lemma_hearing_everyone_finds_everyone(next, header, own, later, later_ips);
        let known = run(map, header, own, events);
        assert(known == run(next, header, own, receipts(later, later_ips)));
        assert forall|id: Id|
            known.contains_key(id) <==> map.contains_key(id) || exists|i: int|
                0 <= i < msgs.len() && (#[trigger] msgs[i]).id == id by {
            if exists|i: int| 0 <= i < later.len() && (#[trigger] later[i]).id == id {
                let i = choose|i: int| 0 <= i < later.len() && (#[trigger] later[i]).id == id;
                assert(msgs[i + 1].id == id);
            }
            if exists|i: int| 0 <= i < msgs.len() && (#[trigger] msgs[i]).id == id {
                let i = choose|i: int| 0 <= i < msgs.len() && (#[trigger] msgs[i]).id == id;
                if i > 0 {
                    assert(later[i - 1].id == id);
                }
            }
        }
        assert forall|i: int| 0 <= i < msgs.len() implies known[(#[trigger] msgs[i]).id] == (Entry {
            ip: ips[i],
            msg: msgs[i].msg,
        }) by {
            if i > 0 {
                assert(later[i - 1] == msgs[i] && later_ips[i - 1] == ips[i]);
            } else {
                lemma_run_keeps_others(next, header, own, receipts(later, later_ips), msgs[0].id);
            }
        }
    }
}

/// Events that do not speak of a node leave what is known of it as it is.
pub proof fn lemma_run_keeps_others<const N: usize, T>(
    map: Map<Id, Entry<[T; N]>>,
    header: u64,
    own: Id,
    events: Seq<Event<N, T>>,
    id: Id,
)
    requires
        !forgets(events, id),
        !hears_from(header, own, events, id),
    ensures
        run(map, header, own, events).contains_key(id) <==> map.contains_key(id),
        map.contains_key(id) ==> run(map, header, own, events)[id] == map[id],
    decreases events.len(),
{
    if events.len() > 0 {
        let rest = events.drop_first();
        assert(events[0] != Event::<N, T>::Forget(id));
        assert(!(events[0] matches Event::Receipt { msg, .. } && msg.id == id && accepts(
            header,
            own,
            msg,
        )));
        assert forall|i: int| 0 <= i < rest.len() implies #[trigger] rest[i] != Event::<
            N,
            T,
        >::Forget(id) && !(rest[i] matches Event::Receipt { msg, .. } && msg.id == id && accepts(
            header,
            own,
            msg,
        )) by {
            assert(rest[i] == events[i + 1]);
        }
        lemma_run_keeps_others(step(map, header, own, events[0]), header, own, rest, id);
    }
}

} // verus!
