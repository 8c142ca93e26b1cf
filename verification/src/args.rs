//! What the user asks for.

use crate::duration::Span;
use vstd::prelude::*;

verus! {

/// The program's options.
#[derive(Clone, Debug)]
pub struct Args {
    /// Turn debugging information on.
    pub debug: bool,
    /// How frequently to count network packets.
    pub rate: Span,
    /// How long to wait before suspending the container in case of
    /// insufficient network activity. Without it there is no wait.
    pub timeout: Option<Span>,
    /// Which port to monitor.
    pub port: Option<usize>,
    /// Minimum amount of packets received within an interval for the container
    /// to be considered active.
    pub threshold: usize,
    /// Should the threshold be ignored if there is an open connection to the
    /// network socket.
    pub preserve_connection: bool,
    /// Which container should be controlled.
    pub container: String,
}

impl Args {
    /// The container counts as active in an interval: it received at least the
    /// threshold's amount of packets, or the monitored port has an open
    /// connection and connections are to be preserved.
    pub open spec fn active(self, packets: int, connected: bool) -> bool {
        ||| packets >= self.threshold
        ||| self.port is Some && self.preserve_connection && connected
    }

    /// Without a connection the traffic alone decides, from the threshold on. A
    /// connection makes a difference only on a monitored port whose connections
    /// are to be preserved, and there it is enough. No other option matters.
    pub proof fn law_active(self, other: Args, packets: int)
        ensures
            self.active(packets, false) <==> packets >= self.threshold,
            !(self.port is Some && self.preserve_connection) ==> self.active(packets, true)
                == self.active(packets, false),
            self.port is Some && self.preserve_connection ==> self.active(packets, true),
            self.threshold == other.threshold && self.port == other.port
                && self.preserve_connection == other.preserve_connection ==> forall|c: bool| #[trigger]
                self.active(packets, c) == other.active(packets, c),
    {
    }

    /// Whether the container counts as active in an interval in which
    /// `packets` were received, with or without an open connection.
    pub fn is_active(&self, packets: u128, connected: bool) -> (active: bool)
        ensures
            active == self.active(packets as int, connected),
    {
        packets >= self.threshold as u128 || (self.port.is_some() && self.preserve_connection
            && connected)
    }
}

} // verus!
