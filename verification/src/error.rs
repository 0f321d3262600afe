//! Setting up the discovery socket: the steps to take, in order, and the
//! error that stands for the failure of each.

use crate::net::{IpAddr, SocketAddr};
use vstd::prelude::*;

verus! {

/// The operating system's I/O error, `std::io::Error`. It is carried
/// through unread.
#[verifier::external_type_specification]
#[verifier::external_body]
pub struct ExIoError(std::io::Error);

/// How many hops an announcement may travel: a few, so that it can cross a
/// small site and never leaves it.
pub const TTL: u32 = 4;

/// Errors that can occur while setting up the discovery socket, one for
/// each step. Except for [`Bind`](Error::Bind) these rarely occur.
#[derive(Debug)]
pub enum Error {
    /// Could not set up bare socket
    Construct(std::io::Error),
    /// Failed to set Reuse flag on the socket
    SetReuse(std::io::Error),
    /// Failed to set Broadcast flag on the socket
    SetBroadcast(std::io::Error),
    /// Failed to set Multicast flag on the socket
    SetMulticast(std::io::Error),
    /// Failed to set TTL flag on the socket
    SetTTL(std::io::Error),
    /// Failed to set NonBlocking flag on the socket
    SetNonBlocking(std::io::Error),
    /// Error binding to socket, you might want to try another discovery
    /// port and/or enable local discovery.
    Bind { error: std::io::Error, port: u16 },
    /// Failed joining multicast network
    JoinMulticast(std::io::Error),
    /// Failed to transform blocking to async socket
    ToAsync(std::io::Error),
}

/// One step of the socket setup, with what it is to be done with.
#[derive(Clone, Copy, Debug, PartialEq, Eq, Structural)]
pub enum SocketStep {
    /// Create an IPv4 UDP datagram socket.
    Construct,
    /// Allow other sockets of this host to bind the same port.
    SetReuse,
    /// Permit sending to broadcast addresses.
    SetBroadcast,
    /// Deliver outgoing multicast datagrams to this host too.
    SetMulticast,
    /// Set the time to live of outgoing datagrams.
    SetTTL(u32),
    /// Bind the socket to this local address.
    Bind(SocketAddr),
    /// Join the multicast group on the given interface.
    JoinMulticast { group: IpAddr, interface: IpAddr },
    /// Put the socket in non-blocking mode.
    SetNonBlocking,
    /// Hand the socket over to the asynchronous runtime.
    ToAsync,
}

/// The multicast group that announcements are sent to: `224.0.0.251`.
pub open spec fn spec_multicast_group() -> IpAddr {
    IpAddr::V4(224, 0, 0, 251)
}

/// The multicast group that announcements are sent to: `224.0.0.251`.
#[verifier::when_used_as_spec(spec_multicast_group)]
pub fn multicast_group() -> (group: IpAddr)
    ensures
        group == spec_multicast_group(),
{
    IpAddr::V4(224, 0, 0, 251)
}

/// The steps that set up the discovery socket for `port`, in order.
///
/// The port may be shared with other instances on this host only where
/// local discovery is on, and that is arranged before the socket is bound.
pub open spec fn socket_plan(port: u16, local_discovery: bool) -> Seq<SocketStep> {
    let create = if local_discovery {
        seq![SocketStep::Construct, SocketStep::SetReuse]
    } else {
        seq![SocketStep::Construct]
    };
    create + seq![
        SocketStep::SetBroadcast,
        SocketStep::SetMulticast,
        SocketStep::SetTTL(TTL),
        SocketStep::Bind(SocketAddr { ip: IpAddr::spec_unspecified(), port }),
        SocketStep::JoinMulticast {
            group: spec_multicast_group(),
            interface: IpAddr::spec_unspecified(),
        },
        SocketStep::SetNonBlocking,
        SocketStep::ToAsync,
    ]
}

/// Lists the steps that set up the discovery socket for `port`, in the
/// order in which they are to be taken. The first one that fails ends the
/// setup; [`SocketStep::failed`] gives the error to report.
pub fn open_socket(port: u16, local_discovery: bool) -> (plan: Vec<SocketStep>)
    requires
        port != 0,
    ensures
        plan@ == socket_plan(port, local_discovery),
{
    let interface = IpAddr::unspecified();
    let mut plan: Vec<SocketStep> = Vec::new();
    plan.push(SocketStep::Construct);
    if local_discovery {
        plan.push(SocketStep::SetReuse);
    }
    plan.push(SocketStep::SetBroadcast);
    plan.push(SocketStep::SetMulticast);
    plan.push(SocketStep::SetTTL(TTL));
    plan.push(SocketStep::Bind(SocketAddr::new(interface, port)));
    plan.push(SocketStep::JoinMulticast { group: multicast_group(), interface });
    plan.push(SocketStep::SetNonBlocking);
    plan.push(SocketStep::ToAsync);
    assert(plan@ =~= socket_plan(port, local_discovery));
    plan
}

impl SocketStep {
    /// The error that reports the failure of this step with `cause`.
    pub open spec fn spec_failed(self, cause: std::io::Error) -> Error {
        match self {
            SocketStep::Construct => Error::Construct(cause),
            SocketStep::SetReuse => Error::SetReuse(cause),
            SocketStep::SetBroadcast => Error::SetBroadcast(cause),
            SocketStep::SetMulticast => Error::SetMulticast(cause),
            SocketStep::SetTTL(_) => Error::SetTTL(cause),
            SocketStep::Bind(addr) => Error::Bind { error: cause, port: addr.port },
            SocketStep::JoinMulticast { .. } => Error::JoinMulticast(cause),
            SocketStep::SetNonBlocking => Error::SetNonBlocking(cause),
            SocketStep::ToAsync => Error::ToAsync(cause),
        }
    }

    /// The error that reports the failure of this step with `cause`. A
    /// failed bind names the port that could not be bound.
    pub fn failed(self, cause: std::io::Error) -> (error: Error)
        ensures
            error == self.spec_failed(cause),
    {
        match self {
            SocketStep::Construct => Error::Construct(cause),
            SocketStep::SetReuse => Error::SetReuse(cause),
            SocketStep::SetBroadcast => Error::SetBroadcast(cause),
            SocketStep::SetMulticast => Error::SetMulticast(cause),
            SocketStep::SetTTL(_) => Error::SetTTL(cause),
            SocketStep::Bind(addr) => Error::Bind { error: cause, port: addr.port },
            SocketStep::JoinMulticast { .. } => Error::JoinMulticast(cause),
            SocketStep::SetNonBlocking => Error::SetNonBlocking(cause),
            SocketStep::ToAsync => Error::ToAsync(cause),
        }
    }
}

impl Error {
    /// What went wrong, in words.
    pub open spec fn spec_message(&self) -> Seq<char> {
        match self {
            Error::Construct(_) => "Could not set up bare socket"@,
            Error::SetReuse(_) => "Failed to set Reuse flag on the socket"@,
            Error::SetBroadcast(_) => "Failed to set Broadcast flag on the socket"@,
            Error::SetMulticast(_) => "Failed to set Multicast flag on the socket"@,
            Error::SetTTL(_) => "Failed to set TTL flag on the socket"@,
            Error::SetNonBlocking(_) => "Failed to set NonBlocking flag on the socket"@,
            Error::Bind { .. } =>
                "Error binding to socket, you might want to try another discovery port and/or enable local_discovery."@,
            Error::JoinMulticast(_) => "Failed joining multicast network"@,
            Error::ToAsync(_) => "Failed to transform blocking to async socket"@,
        }
    }

    /// What went wrong, in words.
    pub fn message(&self) -> (text: &'static str)
        ensures
            text@ == self.spec_message(),
    {
        match self {
            Error::Construct(_) => "Could not set up bare socket",
            Error::SetReuse(_) => "Failed to set Reuse flag on the socket",
            Error::SetBroadcast(_) => "Failed to set Broadcast flag on the socket",
            Error::SetMulticast(_) => "Failed to set Multicast flag on the socket",
            Error::SetTTL(_) => "Failed to set TTL flag on the socket",
            Error::SetNonBlocking(_) => "Failed to set NonBlocking flag on the socket",
            Error::Bind { .. } =>
                "Error binding to socket, you might want to try another discovery port and/or enable local_discovery.",
            Error::JoinMulticast(_) => "Failed joining multicast network",
            Error::ToAsync(_) => "Failed to transform blocking to async socket",
        }
    }
}

/// Whatever the configuration, the setup binds exactly once, to the
/// requested port, and the error of a failed bind carries that port. Where
/// the port is to be shared, that is arranged before the bind, and only
/// there.
pub proof fn lemma_bind_error_carries_port(port: u16, local_discovery: bool, cause: std::io::Error)
    ensures
        ({
            let plan = socket_plan(port, local_discovery);
            let bind = if local_discovery { 5int } else { 4int };
            &&& plan.len() == bind + 4
            &&& plan[bind] == SocketStep::Bind(SocketAddr { ip: IpAddr::spec_unspecified(), port })
            &&& plan[bind].spec_failed(cause) == (Error::Bind { error: cause, port })
            &&& forall|i: int| 0 <= i < plan.len() && i != bind ==> !(plan[i] is Bind)
            &&& forall|i: int| 0 <= i < plan.len() && plan[i] is SetReuse ==> local_discovery && i < bind
            &&& local_discovery ==> plan[1] is SetReuse
        }),
{
}

} // verus!
