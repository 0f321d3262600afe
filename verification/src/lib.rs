//! Peer discovery for cooperating instances on one LAN or host.
//!
//! Every instance announces a numeric identifier and a small payload,
//! usually one or more service ports, to a multicast group, and keeps a
//! [`Chart`]: the instances it has heard from, each with the address it was
//! heard from and the payload it announced last. Entries never expire; this
//! is no liveness monitor.
//!
//! This crate holds the rules of the protocol and performs no I/O:
//! - [`error`]: the steps that set up the discovery socket, and the error
//!   of each;
//! - [`interval`]: the broadcast schedule, with its ramping period;
//! - [`chart`]: the chart itself, the wire format of announcements, what
//!   the receiving and the broadcasting task do next, the views on the
//!   chart, and the builder;
//! - [`discovery`]: when a cluster counts as found;
//! - [`net`]: addresses as plain values.
//!
//! The caller owns the socket and the clock. It hands datagrams and
//! instants in, and sends, sleeps and notifies as it is told.

use vstd::prelude::*;

pub mod chart;
pub mod discovery;
pub mod error;
pub mod interval;
pub mod net;

pub use chart::builder::ChartBuilder;
pub use chart::notify::Notify;
pub use chart::Chart;
pub use error::Error;

verus! {

/// Identifier for a single instance of `Chart`. Must be unique.
pub type Id = u64;

} // verus!
