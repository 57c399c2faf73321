//! A conforming blocking backend over in-memory buffers, together with
//! recording delivery handlers. The backend shows that the socket capability
//! contract is satisfiable and serves as a test double: transmit capacity and
//! connection slots are explicit fields, so exhaustion and partial sends can
//! be staged deliberately.

use vstd::prelude::*;
use crate::socket::{Socket, SocketSendError, SocketReceiveError, SocketConnectionError};
use crate::socket::{TcpDataHandler, UdpDataHandler, SocketType};
use crate::packet::{SocketAddress, UdpPacket};

verus! {

/// A blocking socket backend whose network is a set of in-memory buffers.
///
/// Bytes accepted by a send land in an outbox; a test stages inbound traffic
/// with [`MemorySocket::deliver_tcp`] and [`MemorySocket::deliver_udp`] and
/// drains it through the receive operations. `connect_slots` is the number of
/// connection resources left (`tcp_connect` fails with `Exhausted` when it is
/// zero), and `send_capacity` is the number of bytes one send can accept
/// (excess bytes are declined as a partial send; a non-empty send fails with
/// `Exhausted` when it is zero).
pub struct MemorySocket {
    /// The behavioral class this instance reports itself as.
    pub kind: SocketType,
    /// Whether a TCP connection is established.
    pub connected: bool,
    /// Connection resources remaining; each successful connect consumes one.
    pub connect_slots: usize,
    /// Transmit-buffer bytes available to any single send operation.
    pub send_capacity: usize,
    /// Bytes accepted for transmission on the TCP connection, in order.
    pub tcp_outbox: Vec<u8>,
    /// Datagrams accepted for transmission, each with its destination.
    pub udp_outbox: Vec<(SocketAddress, Vec<u8>)>,
    /// Inbound TCP bytes not yet handed to a receive callback.
    pub tcp_inbox: Vec<u8>,
    /// Inbound datagrams not yet handed to a receive callback, oldest first.
    pub udp_inbox: Vec<UdpPacket>,
}

impl MemorySocket {
    /// The configuration fields that no send or receive operation touches.
    pub open spec fn same_config(a: &MemorySocket, b: &MemorySocket) -> bool {
        &&& a.kind == b.kind
        &&& a.connect_slots == b.connect_slots
        &&& a.send_capacity == b.send_capacity
    }

    /// An unconnected backend of the given class with the given resources and
    /// empty buffers.
    pub fn new(kind: SocketType, connect_slots: usize, send_capacity: usize) -> (s: MemorySocket)
        ensures
            s.kind == kind,
            !s.connected,
            s.connect_slots == connect_slots,
            s.send_capacity == send_capacity,
            s.tcp_outbox@.len() == 0,
            s.udp_outbox@.len() == 0,
            s.tcp_inbox@.len() == 0,
            s.udp_inbox@.len() == 0,
    {
        MemorySocket {
            kind,
            connected: false,
            connect_slots,
            send_capacity,
            tcp_outbox: Vec::new(),
            udp_outbox: Vec::new(),
            tcp_inbox: Vec::new(),
            udp_inbox: Vec::new(),
        }
    }

    /// Stages inbound TCP bytes, as if the peer had sent them: they are
    /// appended to the pending segment that `tcp_receive` will deliver.
    pub fn deliver_tcp(&mut self, data: &[u8])
        ensures
            final(self).tcp_inbox@ == old(self).tcp_inbox@ + data@,
            final(self).connected == old(self).connected,
            Self::same_config(final(self), old(self)),
            final(self).tcp_outbox@ == old(self).tcp_outbox@,
            final(self).udp_outbox@ == old(self).udp_outbox@,
            final(self).udp_inbox@ == old(self).udp_inbox@,
    {
        let mut i: usize = 0;
        while i < data.len()
            invariant
                i <= data@.len(),
                self.tcp_inbox@ == old(self).tcp_inbox@ + data@.subrange(0, i as int),
                self.connected == old(self).connected,
                Self::same_config(self, old(self)),
                self.tcp_outbox@ == old(self).tcp_outbox@,
                self.udp_outbox@ == old(self).udp_outbox@,
                self.udp_inbox@ == old(self).udp_inbox@,
            decreases data@.len() - i,
        {
            self.tcp_inbox.push(data[i]);
            proof {
                assert(data@.subrange(0, i + 1 as int) == data@.subrange(0, i as int).push(
                    data@[i as int],
                ));
            }
            i = i + 1;
        }
        proof {
            assert(data@.subrange(0, data@.len() as int) == data@);
        }
    }

    /// Stages one inbound datagram, as if the peer had sent it: it is queued
    /// behind any datagrams already pending.
    pub fn deliver_udp(&mut self, packet: UdpPacket)
        ensures
            final(self).udp_inbox@ == old(self).udp_inbox@.push(packet),
            final(self).connected == old(self).connected,
            Self::same_config(final(self), old(self)),
            final(self).tcp_outbox@ == old(self).tcp_outbox@,
            final(self).udp_outbox@ == old(self).udp_outbox@,
            final(self).tcp_inbox@ == old(self).tcp_inbox@,
    {
        self.udp_inbox.push(packet);
    }
}

/// Copies the first `n` bytes of `data` into a new vector.
fn prefix_of(data: &[u8], n: usize) -> (v: Vec<u8>)
    requires
        n <= data@.len(),
    ensures
        v@ == data@.subrange(0, n as int),
{
    let mut v: Vec<u8> = Vec::new();
    let mut i: usize = 0;
    while i < n
        invariant
            i <= n <= data@.len(),
            v@ == data@.subrange(0, i as int),
        decreases n - i,
    {
        v.push(data[i]);
        proof {
            assert(data@.subrange(0, i + 1 as int) == data@.subrange(0, i as int).push(
                data@[i as int],
            ));
        }
        i = i + 1;
    }
    v
}

impl Socket for MemorySocket {
    /// The backend is usable for TCP traffic exactly when a connect succeeded.
    open spec fn connected(&self) -> bool {
        self.connected
    }

    /// Accepts up to `send_capacity` bytes of `data` into the TCP outbox.
    /// An empty send on an established connection is a no-op that succeeds
    /// with zero bytes; a non-empty send with no capacity is `Exhausted`.
    fn tcp_socket_send(&mut self, data: &[u8]) -> (r: Result<usize, SocketSendError>)
        ensures
            !old(self).connected ==> r == Err::<usize, SocketSendError>(
                SocketSendError::SocketNotReady,
            ) && *final(self) == *old(self),
            old(self).connected && data@.len() == 0 ==> r == Ok::<usize, SocketSendError>(0)
                && *final(self) == *old(self),
            old(self).connected && data@.len() > 0 && old(self).send_capacity == 0 ==> r == Err::<
                usize,
                SocketSendError,
            >(SocketSendError::Exhausted) && *final(self) == *old(self),
            old(self).connected && data@.len() > 0 && old(self).send_capacity > 0 ==> {
                let n = if data@.len() <= old(self).send_capacity {
                    data@.len() as int
                } else {
                    old(self).send_capacity as int
                };
                &&& r == Ok::<usize, SocketSendError>(n as usize)
                &&& final(self).tcp_outbox@ == old(self).tcp_outbox@ + data@.subrange(0, n)
                &&& final(self).connected == old(self).connected
                &&& Self::same_config(final(self), old(self))
                &&& final(self).udp_outbox@ == old(self).udp_outbox@
                &&& final(self).tcp_inbox@ == old(self).tcp_inbox@
                &&& final(self).udp_inbox@ == old(self).udp_inbox@
            },
    {
        if !self.connected {
            return Err(SocketSendError::SocketNotReady);
        }
        if data.len() == 0 {
            return Ok(0);
        }
        if self.send_capacity == 0 {
            return Err(SocketSendError::Exhausted);
        }
        let n: usize = if data.len() <= self.send_capacity {
            data.len()
        } else {
            self.send_capacity
        };
        let accepted = prefix_of(data, n);
        let ghost before = self.tcp_outbox@;
        let mut i: usize = 0;
        while i < accepted.len()
            invariant
                i <= accepted@.len(),
                self.tcp_outbox@ == before + accepted@.subrange(0, i as int),
                self.connected == old(self).connected,
                Self::same_config(self, old(self)),
                self.udp_outbox@ == old(self).udp_outbox@,
                self.tcp_inbox@ == old(self).tcp_inbox@,
                self.udp_inbox@ == old(self).udp_inbox@,
            decreases accepted@.len() - i,
        {
            let b = accepted[i];
            self.tcp_outbox.push(b);
            proof {
                assert(accepted@.subrange(0, i + 1 as int) == accepted@.subrange(0, i as int).push(
                    accepted@[i as int],
                ));
            }
            i = i + 1;
        }
        proof {
            assert(accepted@.subrange(0, accepted@.len() as int) == accepted@);
        }
        Ok(n)
    }

    /// Accepts up to `send_capacity` bytes of one datagram for `addr` into
    /// the UDP outbox. UDP is connectionless, so no connection is required.
    fn udp_socket_send(&mut self, data: &[u8], addr: SocketAddress) -> (r: Result<
        usize,
        SocketSendError,
    >)
        ensures
            data@.len() == 0 ==> r == Ok::<usize, SocketSendError>(0)
                && *final(self) == *old(self),
            data@.len() > 0 && old(self).send_capacity == 0 ==> r == Err::<
                usize,
                SocketSendError,
            >(SocketSendError::Exhausted) && *final(self) == *old(self),
            data@.len() > 0 && old(self).send_capacity > 0 ==> {
                let n = if data@.len() <= old(self).send_capacity {
                    data@.len() as int
                } else {
                    old(self).send_capacity as int
                };
                &&& r == Ok::<usize, SocketSendError>(n as usize)
                &&& final(self).udp_outbox@.len() == old(self).udp_outbox@.len() + 1
                &&& final(self).udp_outbox@.last().0 == addr
                &&& final(self).udp_outbox@.last().1@ == data@.subrange(0, n)
                &&& final(self).udp_outbox@.subrange(0, old(self).udp_outbox@.len() as int) == old(
                    self,
                ).udp_outbox@
                &&& final(self).connected == old(self).connected
                &&& Self::same_config(final(self), old(self))
                &&& final(self).tcp_outbox@ == old(self).tcp_outbox@
                &&& final(self).tcp_inbox@ == old(self).tcp_inbox@
                &&& final(self).udp_inbox@ == old(self).udp_inbox@
            },
    {
        if data.len() == 0 {
            return Ok(0);
        }
        if self.send_capacity == 0 {
            return Err(SocketSendError::Exhausted);
        }
        let n: usize = if data.len() <= self.send_capacity {
            data.len()
        } else {
            self.send_capacity
        };
        let accepted = prefix_of(data, n);
        self.udp_outbox.push((addr, accepted));
        proof {
            assert(self.udp_outbox@.subrange(0, old(self).udp_outbox@.len() as int) == old(
                self,
            ).udp_outbox@);
        }
        Ok(n)
    }

    /// Consumes one connection slot and establishes the connection, or fails
    /// with `Exhausted` when no slot is left. A backend built with zero slots
    /// therefore reports `Exhausted` — that exact kind, never `Unknown` — on
    /// every attempt, however often a caller retries.
    fn tcp_connect(&mut self, addr: SocketAddress, port: u16) -> (r: Result<
        (),
        SocketConnectionError,
    >)
        ensures
            old(self).connect_slots == 0 ==> r == Err::<(), SocketConnectionError>(
                SocketConnectionError::Exhausted,
            ) && *final(self) == *old(self),
            old(self).connect_slots > 0 ==> ({
                &&& r == Ok::<(), SocketConnectionError>(())
                &&& final(self).connected
                &&& final(self).connect_slots == old(self).connect_slots - 1
                &&& final(self).kind == old(self).kind
                &&& final(self).send_capacity == old(self).send_capacity
                &&& final(self).tcp_outbox@ == old(self).tcp_outbox@
                &&& final(self).udp_outbox@ == old(self).udp_outbox@
                &&& final(self).tcp_inbox@ == old(self).tcp_inbox@
                &&& final(self).udp_inbox@ == old(self).udp_inbox@
            }),
    {
        if self.connect_slots == 0 {
            return Err(SocketConnectionError::Exhausted);
        }
        self.connect_slots = self.connect_slots - 1;
        self.connected = true;
        Ok(())
    }

    /// Hands the whole pending TCP segment to `f` — exactly one invocation,
    /// with an empty slice when nothing is pending — and reports its length.
    /// Fails with `SocketNotReady`, touching nothing, when unconnected.
    fn tcp_receive<H: TcpDataHandler>(&mut self, f: &mut H) -> (r: Result<
        usize,
        SocketReceiveError,
    >)
        ensures
            !old(self).connected ==> r == Err::<usize, SocketReceiveError>(
                SocketReceiveError::SocketNotReady,
            ) && *final(self) == *old(self),
            old(self).connected ==> ({
                &&& r == Ok::<usize, SocketReceiveError>(old(self).tcp_inbox@.len() as usize)
                &&& final(self).tcp_inbox@.len() == 0
                &&& final(self).connected == old(self).connected
                &&& Self::same_config(final(self), old(self))
                &&& final(self).tcp_outbox@ == old(self).tcp_outbox@
                &&& final(self).udp_outbox@ == old(self).udp_outbox@
                &&& final(self).udp_inbox@ == old(self).udp_inbox@
            }),
    {
        if !self.connected {
            return Err(SocketReceiveError::SocketNotReady);
        }
        let n: usize = self.tcp_inbox.len();
        f.on_tcp_data(self.tcp_inbox.as_slice());
        self.tcp_inbox.clear();
        Ok(n)
    }

    /// Hands the oldest pending datagram and its source addressing to `f` and
    /// reports its payload length. When no datagram is pending, succeeds with
    /// zero bytes without invoking `f`.
    fn udp_receive<H: UdpDataHandler>(&mut self, f: &mut H) -> (r: Result<
        usize,
        SocketReceiveError,
    >)
        ensures
            old(self).udp_inbox@.len() == 0 ==> r == Ok::<usize, SocketReceiveError>(0)
                && *final(self) == *old(self),
            old(self).udp_inbox@.len() > 0 ==> ({
                &&& r == Ok::<usize, SocketReceiveError>(old(self).udp_inbox@[0].data@.len() as usize)
                &&& final(self).udp_inbox@ == old(self).udp_inbox@.subrange(
                    1,
                    old(self).udp_inbox@.len() as int,
                )
                &&& final(self).connected == old(self).connected
                &&& Self::same_config(final(self), old(self))
                &&& final(self).tcp_outbox@ == old(self).tcp_outbox@
                &&& final(self).udp_outbox@ == old(self).udp_outbox@
                &&& final(self).tcp_inbox@ == old(self).tcp_inbox@
            }),
    {
        if self.udp_inbox.len() == 0 {
            return Ok(0);
        }
        let packet = self.udp_inbox.remove(0);
        let n: usize = packet.data.len();
        let from = SocketAddress { ip: packet.from_ip, port: packet.from_port };
        f.on_udp_data(packet.data.as_slice(), from, packet.from_port);
        Ok(n)
    }
}

/// A TCP delivery handler that appends every byte it is handed to `received`
/// and counts its invocations (saturating, so the count never overflows).
pub struct RecordingTcpHandler {
    pub received: Vec<u8>,
    pub invocations: usize,
}

impl RecordingTcpHandler {
    /// A handler that has recorded nothing yet.
    pub fn new() -> (h: RecordingTcpHandler)
        ensures
            h.received@.len() == 0,
            h.invocations == 0,
    {
        RecordingTcpHandler { received: Vec::new(), invocations: 0 }
    }
}

impl TcpDataHandler for RecordingTcpHandler {
    fn on_tcp_data(&mut self, data: &[u8])
        ensures
            final(self).received@ == old(self).received@ + data@,
    {
        let mut i: usize = 0;
        while i < data.len()
            invariant
                i <= data@.len(),
                self.received@ == old(self).received@ + data@.subrange(0, i as int),
                self.invocations == old(self).invocations,
            decreases data@.len() - i,
        {
            self.received.push(data[i]);
            proof {
                assert(data@.subrange(0, i + 1 as int) == data@.subrange(0, i as int).push(
                    data@[i as int],
                ));
            }
            i = i + 1;
        }
        proof {
            assert(data@.subrange(0, data@.len() as int) == data@);
        }
        if self.invocations < usize::MAX {
            self.invocations = self.invocations + 1;
        }
    }
}

/// A UDP delivery handler that appends every byte it is handed to `received`,
/// remembers the source addressing of the last datagram, and counts its
/// invocations (saturating, so the count never overflows).
pub struct RecordingUdpHandler {
    pub received: Vec<u8>,
    pub last_from: Option<SocketAddress>,
    pub last_from_port: Option<u16>,
    pub invocations: usize,
}

impl RecordingUdpHandler {
    /// A handler that has recorded nothing yet.
    pub fn new() -> (h: RecordingUdpHandler)
        ensures
            h.received@.len() == 0,
            h.last_from is None,
            h.last_from_port is None,
            h.invocations == 0,
    {
        RecordingUdpHandler {
            received: Vec::new(),
            last_from: None,
            last_from_port: None,
            invocations: 0,
        }
    }
}

impl UdpDataHandler for RecordingUdpHandler {
    fn on_udp_data(&mut self, data: &[u8], from: SocketAddress, from_port: u16)
        ensures
            final(self).received@ == old(self).received@ + data@,
            final(self).last_from == Some(from),
            final(self).last_from_port == Some(from_port),
    {
        let mut i: usize = 0;
        while i < data.len()
            invariant
                i <= data@.len(),
                self.received@ == old(self).received@ + data@.subrange(0, i as int),
                self.last_from == old(self).last_from,
                self.last_from_port == old(self).last_from_port,
                self.invocations == old(self).invocations,
            decreases data@.len() - i,
        {
            self.received.push(data[i]);
            proof {
                assert(data@.subrange(0, i + 1 as int) == data@.subrange(0, i as int).push(
                    data@[i as int],
                ));
            }
            i = i + 1;
        }
        proof {
            assert(data@.subrange(0, data@.len() as int) == data@);
        }
        self.last_from = Some(from);
        self.last_from_port = Some(from_port);
        if self.invocations < usize::MAX {
            self.invocations = self.invocations + 1;
        }
    }
}

} // verus!
