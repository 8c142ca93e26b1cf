//! Whether a port has an open connection, by the table of the machine's
//! sockets.

use vstd::prelude::*;

verus! {

/// The state of a TCP connection.
#[derive(Clone, Copy, Debug, PartialEq, Eq, Structural)]
pub enum TcpState {
    Closed,
    Listen,
    SynSent,
    SynReceived,
    Established,
    FinWait1,
    FinWait2,
    CloseWait,
    Closing,
    LastAck,
    TimeWait,
    DeleteTcb,
    Unknown,
}

/// What counts of a TCP socket.
#[derive(Clone, Copy, Debug, PartialEq, Eq, Structural)]
pub struct TcpSocketInfo {
    pub local_port: u16,
    pub state: TcpState,
}

/// An entry of the socket table.
#[derive(Clone, Copy, Debug, PartialEq, Eq, Structural)]
pub enum SocketInfo {
    Tcp(TcpSocketInfo),
    Udp,
}

/// Which sockets the table is to hold.
#[derive(Clone, Copy, Debug, PartialEq, Eq, Structural)]
pub struct SocketRequest {
    pub ipv4: bool,
    pub ipv6: bool,
    pub tcp: bool,
    pub udp: bool,
}

impl SocketInfo {
    /// The socket is the local end of an established TCP connection on `port`.
    pub open spec fn is_connection_on(self, port: usize) -> bool {
        self matches SocketInfo::Tcp(tcp) && tcp.local_port == port && tcp.state
            == TcpState::Established
    }
}

/// Some socket of the table is the local end of an established TCP connection
/// on `port`.
pub open spec fn connected_on(infos: Seq<SocketInfo>, port: usize) -> bool {
    exists|i: int| 0 <= i < infos.len() && infos[i].is_connection_on(port)
}

/// A table with an established TCP socket says yes to that socket's own port,
/// whatever the port and whatever else the table holds.
pub proof fn law_established_socket_is_found(infos: Seq<SocketInfo>, i: int, local_port: u16)
    requires
        0 <= i < infos.len(),
        infos[i] == SocketInfo::Tcp(TcpSocketInfo { local_port, state: TcpState::Established }),
    ensures
        connected_on(infos, local_port as usize),
{
    assert(infos[i].is_connection_on(local_port as usize));
}

/// A table says no to a port that is not the local port of any established TCP
/// socket in it.
pub proof fn law_other_ports_are_unconnected(infos: Seq<SocketInfo>, port: usize)
    requires
        forall|i: int|
            0 <= i < infos.len() ==> match #[trigger] infos[i] {
                SocketInfo::Tcp(tcp) => tcp.local_port as int != port as int || tcp.state
                    != TcpState::Established,
                SocketInfo::Udp => true,
            },
    ensures
        !connected_on(infos, port),
{
}

/// A single socket says yes to at most one port: its own, and only if it is
/// established.
pub proof fn law_single_socket_has_one_port(tcp: TcpSocketInfo, port: usize)
    ensures
        connected_on(seq![SocketInfo::Tcp(tcp)], port) <==> tcp.local_port as int == port as int
            && tcp.state == TcpState::Established,
        !connected_on(seq![SocketInfo::Udp], port),
        !connected_on(seq![], port),
{
    let table = seq![SocketInfo::Tcp(tcp)];
    if tcp.local_port as int == port as int && tcp.state == TcpState::Established {
        law_established_socket_is_found(table, 0, tcp.local_port);
    }
}

/// A table says yes to exactly the ports that one of its parts says yes to: no
/// socket hides or moves another.
pub proof fn law_tables_join(left: Seq<SocketInfo>, right: Seq<SocketInfo>, port: usize)
    ensures
        connected_on(left + right, port) <==> connected_on(left, port) || connected_on(right, port),
{
    let all = left + right;
    if connected_on(left, port) {
        let i = choose|i: int| 0 <= i < left.len() && left[i].is_connection_on(port);
        assert(all[i].is_connection_on(port));
    }
    if connected_on(right, port) {
        let i = choose|i: int| 0 <= i < right.len() && right[i].is_connection_on(port);
        assert(all[left.len() + i].is_connection_on(port));
    }
    if connected_on(all, port) {
        let i = choose|i: int| 0 <= i < all.len() && all[i].is_connection_on(port);
        if i < left.len() {
            assert(left[i].is_connection_on(port));
        } else {
            assert(right[i - left.len()].is_connection_on(port));
        }
    }
}

/// Asks for the TCP sockets of both address families.
pub fn socket_request() -> (request: SocketRequest)
    ensures
        request == (SocketRequest { ipv4: true, ipv6: true, tcp: true, udp: false }),
{
    SocketRequest { ipv4: true, ipv6: true, tcp: true, udp: false }
}

/// Whether some socket of the table is the local end of an established TCP
/// connection on `port`.
pub fn has_socket_active_connection(infos: &[SocketInfo], port: usize) -> (active: bool)
    ensures
        active == connected_on(infos@, port),
        active <==> exists|i: int|
            0 <= i < infos@.len() && (#[trigger] infos@[i] matches SocketInfo::Tcp(tcp)
                && tcp.local_port as int == port as int && tcp.state == TcpState::Established),
{
    let mut i: usize = 0;
    while i < infos.len()
        invariant
            i <= infos@.len(),
            forall|j: int| 0 <= j < i ==> !infos@[j].is_connection_on(port),
        decreases infos@.len() - i,
    {
        match infos[i] {
            SocketInfo::Tcp(tcp) => {
                if tcp.local_port as usize == port && tcp.state == TcpState::Established {
                    assert(infos@[i as int].is_connection_on(port));
                    return true;
                }
            },
            SocketInfo::Udp => {},
        }
        i = i + 1;
    }
    false
}

} // verus!
