//! Configuring an instance and constructing its chart.

use super::codec::MAX_PORTS;
use super::{Chart, Entry, Port};
use crate::error::{open_socket, socket_plan, SocketStep};
use crate::interval::{Interval, Millis, Params};
use crate::Id;
use rand::RngCore;
use std::marker::PhantomData;
use vstd::prelude::*;

verus! {

/// Marks a setting of the builder as made.
#[derive(Debug, Default)]
pub struct Yes;

/// Marks a setting of the builder as not made.
#[derive(Debug, Default)]
pub struct No;

/// Either [`Yes`] or [`No`]: whether a setting of the builder was made.
pub trait ToAssign {
    /// Whether the setting was made.
    spec fn assigned() -> bool;
}

/// A setting that was made.
pub trait Assigned: ToAssign {}

/// A setting that was not made.
pub trait NotAssigned: ToAssign {}

impl ToAssign for Yes {
    open spec fn assigned() -> bool {
        true
    }
}

impl ToAssign for No {
    open spec fn assigned() -> bool {
        false
    }
}

impl Assigned for Yes {}

impl NotAssigned for No {}

/// The header of a deployment that sets none.
pub const DEFAULT_HEADER: u64 = 6_687_164_552_036_412_667;

/// The discovery port of a deployment that sets none.
pub const DEFAULT_PORT: u16 = 8080;

/// What a builder was told so far.
pub struct Settings {
    pub header: u64,
    pub service_id: Option<Id>,
    pub discovery_port: u16,
    pub service_port: Option<Port>,
    pub service_ports: Seq<Port>,
    pub rampdown: Params,
    pub local: bool,
}

/// Construct a Chart using a builder-like pattern. You must always set an
/// `id`. You also need to set a [`service port`](ChartBuilder::with_service_port)
/// or [`service ports`](ChartBuilder::with_service_ports). Now you can build
/// with [`finish`](ChartBuilder::finish), or with
/// [`custom_msg`](ChartBuilder::custom_msg), which allows you to set a custom
/// message to share with other instances when they discover you.
///
/// The three markers keep track of what was set: a chart cannot be built
/// without an id, nor without exactly one kind of payload.
pub struct ChartBuilder<const N: usize, IdSet: ToAssign, PortSet: ToAssign, PortsSet: ToAssign> {
    header: u64,
    service_id: Option<Id>,
    discovery_port: u16,
    service_port: Option<Port>,
    service_ports: [Port; N],
    rampdown: Params,
    local: bool,
    id_set: PhantomData<IdSet>,
    port_set: PhantomData<PortSet>,
    ports_set: PhantomData<PortsSet>,
}

/// A number from the operating system's source of randomness, read with
/// `OsRng::try_fill_bytes` of the crate `rand`. There is none where that
/// source fails. Nothing is claimed of the number.
#[verifier::external_body]
fn os_random() -> (number: Option<u64>) {
    let mut bytes = [0u8; 8];
    match rand::rngs::OsRng.try_fill_bytes(&mut bytes) {
        Ok(()) => Some(u64::from_le_bytes(bytes)),
        Err(_) => None,
    }
}

impl<const N: usize, IdSet: ToAssign, PortSet: ToAssign, PortsSet: ToAssign> View for ChartBuilder<
    N,
    IdSet,
    PortSet,
    PortsSet,
> {
    type V = Settings;

    closed spec fn view(&self) -> Settings {
        Settings {
            header: self.header,
            service_id: self.service_id,
            discovery_port: self.discovery_port,
            service_port: self.service_port,
            service_ports: self.service_ports@,
            rampdown: self.rampdown,
            local: self.local,
        }
    }
}

impl<const N: usize> ChartBuilder<N, No, No, No> {
    /// Create a new chart builder: no id and no payload yet, the default
    /// header, discovery port and broadcast schedule, and no discovery
    /// within this host.
    pub fn new() -> (builder: ChartBuilder<N, No, No, No>)
        ensures
            builder@ == (Settings {
                header: DEFAULT_HEADER,
                service_id: None,
                discovery_port: DEFAULT_PORT,
                service_port: None,
                service_ports: Seq::new(N as nat, |i: int| 0u16),
                rampdown: Params {
                    rampdown: crate::interval::DEFAULT_RAMPDOWN,
                    min: crate::interval::DEFAULT_MIN,
                    max: crate::interval::DEFAULT_MAX,
                },
                local: false,
            }),
    {
        let service_ports: [Port; N] = [0u16; N];
        assert(service_ports@ =~= Seq::new(N as nat, |i: int| 0u16));
        ChartBuilder {
            header: DEFAULT_HEADER,
            service_id: None,
            discovery_port: DEFAULT_PORT,
            service_ports,
            service_port: None,
            rampdown: Params::default(),
            local: false,
            id_set: PhantomData,
            port_set: PhantomData,
            ports_set: PhantomData,
        }
    }
}

impl<const N: usize, IdSet: ToAssign, PortSet: ToAssign, PortsSet: ToAssign> ChartBuilder<
    N,
    IdSet,
    PortSet,
    PortsSet,
> {
    #[verifier::type_invariant]
    spec fn inv(&self) -> bool {
        &&& IdSet::assigned() ==> self.service_id is Some
        &&& PortSet::assigned() ==> self.service_port is Some
        &&& self.rampdown.wf()
    }

    /// Set the [`Id`] for this node, the [`Id`] is the key for this node in
    /// the chart.
    ///
    /// Always needed, you can not build without an [`Id`] set. The [`Id`]
    /// must be __unique__.
    pub fn with_id(self, id: Id) -> (builder: ChartBuilder<N, Yes, PortSet, PortsSet>)
        ensures
            builder@ == (Settings { service_id: Some(id), ..self@ }),
    {
        proof {
            use_type_invariant(&self);
        }
        ChartBuilder {
            header: self.header,
            discovery_port: self.discovery_port,
            service_id: Some(id),
            service_port: self.service_port,
            service_ports: self.service_ports,
            rampdown: self.rampdown,
            local: self.local,
            id_set: PhantomData,
            port_set: PhantomData,
            ports_set: PhantomData,
        }
    }

    /// Use a number from the operating system's source of randomness as an
    /// [`Id`]. Nothing else changes. Returns `None` where that source fails,
    /// which is extremely unlikely.
    ///
    /// Set the [`Id`] in a deterministic way if possible, it makes debugging
    /// a lot easier. Two instances can draw the same number; the chance of
    /// this is unrealistically small.
    pub fn with_random_id(self) -> (builder: Option<ChartBuilder<N, Yes, PortSet, PortsSet>>)
        ensures
            builder matches Some(b) ==> b@.service_id is Some && b@ == (Settings {
                service_id: b@.service_id,
                ..self@
            }),
    {
        self.with_drawn_id(os_random())
    }

    /// Set as [`Id`] the number that was drawn from a source of randomness,
    /// if one was drawn. Nothing else changes. Where the source gave no
    /// number there is no builder: a chart is not built with an id that
    /// nobody chose.
    pub fn with_drawn_id(self, drawn: Option<Id>) -> (builder: Option<
        ChartBuilder<N, Yes, PortSet, PortsSet>,
    >)
        ensures
            builder is Some <==> drawn is Some,
            builder matches Some(b) ==> b@ == (Settings { service_id: drawn, ..self@ }),
    {
        match drawn {
            Some(id) => Some(self.with_id(id)),
            None => None,
        }
    }

    /// Set a `port` for use by your application. This will appear to the
    /// other nodes in the Chart. It takes the place of ports set before.
    ///
    /// You need to use this or [`with_service_ports`](Self::with_service_ports)
    /// if building with [`finish()`](Self::finish). Can not be used when
    /// building with [`custom_msg`](Self::custom_msg).
    pub fn with_service_port(self, port: Port) -> (builder: ChartBuilder<N, IdSet, Yes, No>)
        ensures
            builder@ == (Settings { service_port: Some(port), ..self@ }),
    {
        proof {
            use_type_invariant(&self);
        }
        ChartBuilder {
            header: self.header,
            discovery_port: self.discovery_port,
            service_id: self.service_id,
            service_port: Some(port),
            service_ports: self.service_ports,
            rampdown: self.rampdown,
            local: self.local,
            id_set: PhantomData,
            port_set: PhantomData,
            ports_set: PhantomData,
        }
    }

    /// Set multiple `ports` for use by your application. This will appear to
    /// the other nodes in the Chart. It takes the place of a port set
    /// before.
    ///
    /// You need to use this or [`with_service_port`](Self::with_service_port)
    /// if building with [`finish()`](Self::finish). Can not be used when
    /// building with [`custom_msg`](Self::custom_msg).
    pub fn with_service_ports(self, ports: [Port; N]) -> (builder: ChartBuilder<N, IdSet, No, Yes>)
        ensures
            builder@ == (Settings { service_port: None, service_ports: ports@, ..self@ }),
    {
        proof {
            use_type_invariant(&self);
        }
        ChartBuilder {
            header: self.header,
            discovery_port: self.discovery_port,
            service_id: self.service_id,
            service_port: None,
            service_ports: ports,
            rampdown: self.rampdown,
            local: self.local,
            id_set: PhantomData,
            port_set: PhantomData,
            ports_set: PhantomData,
        }
    }

    /// Set a custom header number. The header is used to tell your
    /// application's chart from other multicast traffic; when deployed you
    /// should set this to a random number.
    pub fn with_header(self, header: u64) -> (builder: ChartBuilder<N, IdSet, PortSet, PortsSet>)
        ensures
            builder@ == (Settings { header, ..self@ }),
    {
        proof {
            use_type_invariant(&self);
        }
        let mut builder = self;
        builder.header = header;
        builder
    }

    /// Set a custom port for discovery. With local discovery enabled this
    /// port needs to be free and unused on all nodes. The default port is
    /// 8080.
    ///
    /// Not all ports seem to pass multicast traffic, you might need to
    /// experiment a bit.
    pub fn with_discovery_port(self, port: u16) -> (builder: ChartBuilder<
        N,
        IdSet,
        PortSet,
        PortsSet,
    >)
        ensures
            builder@ == (Settings { discovery_port: port, ..self@ }),
    {
        proof {
            use_type_invariant(&self);
        }
        let mut builder = self;
        builder.discovery_port = port;
        builder
    }

    /// Set the duration between discovery broadcasts: it decreases linearly
    /// from `max` to `min` over the `rampdown` period. All three are in
    /// milliseconds. The minimum must not be larger than the maximum.
    pub fn with_rampdown(self, min: Millis, max: Millis, rampdown: Millis) -> (builder:
        ChartBuilder<N, IdSet, PortSet, PortsSet>)
        requires
            min <= max,
        ensures
            builder@ == (Settings { rampdown: Params { rampdown, min, max }, ..self@ }),
    {
        proof {
            use_type_invariant(&self);
        }
        let mut builder = self;
        builder.rampdown = Params { rampdown, min, max };
        builder
    }

    /// Set whether discovery is enabled within the same host. Defaults to
    /// false.
    ///
    /// When this is enabled you might not be warned if the discovery port is
    /// in use by another application. The other application will receive
    /// network traffic from this crate.
    pub fn local_discovery(self, is_enabled: bool) -> (builder: ChartBuilder<
        N,
        IdSet,
        PortSet,
        PortsSet,
    >)
        ensures
            builder@ == (Settings { local: is_enabled, ..self@ }),
    {
        proof {
            use_type_invariant(&self);
        }
        let mut builder = self;
        builder.local = is_enabled;
        builder
    }

    /// The port that the chart to be built will use for discovery.
    pub fn discovery_port(&self) -> (port: u16)
        ensures
            port == self@.discovery_port,
    {
        self.discovery_port
    }

    /// Lists the steps that set up the discovery socket of the chart to be
    /// built, in the order in which they are to be taken. The discovery
    /// port must not be zero.
    pub fn socket_steps(&self) -> (plan: Vec<SocketStep>)
        requires
            self@.discovery_port != 0,
        ensures
            plan@ == socket_plan(self@.discovery_port, self@.local),
    {
        open_socket(self.discovery_port, self.local)
    }
}

/// What is true of a chart fresh from a builder with the given settings:
/// it knows no peer, and it starts its broadcast schedule.
pub open spec fn built<const N: usize, T>(chart: Chart<N, T>, settings: Settings, msg: [T; N]) -> bool {
    &&& chart@ == Map::<Id, Entry<[T; N]>>::empty()
    &&& Some(chart.spec_our_id()) == settings.service_id
    &&& chart.spec_header() == settings.header
    &&& chart.spec_our_msg() == msg
    &&& chart.spec_discovery_port() == settings.discovery_port
    &&& chart.interval().params() == settings.rampdown
    &&& chart.interval().spec_next() == settings.rampdown.spec_period(0)
}

impl ChartBuilder<1, Yes, No, No> {
    /// Build a chart with a custom message instead of a service port. The
    /// discovery port must not be zero.
    pub fn custom_msg<Msg>(self, msg: Msg) -> (chart: Chart<1, Msg>)
        requires
            self@.discovery_port != 0,
        ensures
            built(chart, self@, chart.spec_our_msg()),
            chart.spec_our_msg()@ == seq![msg],
    {
        proof {
            use_type_invariant(&self);
        }
        let payload: [Msg; 1] = [msg];
        assert(payload@ =~= seq![msg]);
        Chart::empty(
            self.header,
            self.service_id.unwrap(),
            payload,
            self.discovery_port,
            Interval::new(self.rampdown),
        )
    }
}

impl ChartBuilder<1, Yes, Yes, No> {
    /// Build a chart that has a single service port set. The discovery port
    /// must not be zero.
    pub fn finish(self) -> (chart: Chart<1, Port>)
        requires
            self@.discovery_port != 0,
        ensures
            built(chart, self@, chart.spec_our_msg()),
            Some(chart.spec_our_msg()@[0]) == self@.service_port,
    {
        proof {
            use_type_invariant(&self);
        }
        let payload: [Port; 1] = [self.service_port.unwrap()];
        Chart::empty(
            self.header,
            self.service_id.unwrap(),
            payload,
            self.discovery_port,
            Interval::new(self.rampdown),
        )
    }
}

impl<const N: usize> ChartBuilder<N, Yes, No, Yes> {
    /// Build a chart that has multiple service ports set. The discovery
    /// port must not be zero, and the ports must be few enough for the
    /// announcement to fit a datagram.
    pub fn finish(self) -> (chart: Chart<N, Port>)
        requires
            self@.discovery_port != 0,
            N <= MAX_PORTS,
        ensures
            built(chart, self@, chart.spec_our_msg()),
            chart.spec_our_msg()@ == self@.service_ports,
    {
        proof {
            use_type_invariant(&self);
        }
        Chart::empty(
            self.header,
            self.service_id.unwrap(),
            self.service_ports,
            self.discovery_port,
            Interval::new(self.rampdown),
        )
    }
}

} // verus!
