//! The socket capability contract: the behavioral classification of socket
//! instances, the error taxonomy for each operation family, the single-method
//! callback capabilities through which received data is delivered, and the
//! blocking contract that a conforming backend must satisfy.

use vstd::prelude::*;
use crate::packet::SocketAddress;

verus! {

/// The behavioral class of a socket instance. A pure classification tag:
/// collaborators compare it for equality when dispatching on socket kind.
#[derive(Clone, Copy, PartialEq, Eq, Structural, Debug)]
pub enum SocketType {
    RawIpv4,
    RawIpv6,
    ICMP,
    TCP,
    UDP,
}

/// Why a send operation failed. `Unknown`'s string is a human-readable
/// diagnostic only, never a stable error code.
#[derive(Clone, PartialEq, Debug)]
pub enum SocketSendError {
    /// The socket is not yet usable for sending.
    SocketNotReady,
    /// No transmit buffer or resource capacity is available now.
    Exhausted,
    /// A backend-specific failure with no dedicated variant.
    Unknown(String),
}

/// Why a receive operation failed.
#[derive(Clone, PartialEq, Debug)]
pub enum SocketReceiveError {
    /// The socket is not yet usable for receiving.
    SocketNotReady,
    /// A backend-specific failure with no dedicated variant.
    Unknown(String),
}

/// Why a connect operation failed.
#[derive(Clone, PartialEq, Debug)]
pub enum SocketConnectionError {
    /// No connection slot or ephemeral resource is available.
    Exhausted,
    /// A backend-specific failure with no dedicated variant.
    Unknown(String),
}

/// The single-method capability through which a backend delivers one newly
/// available TCP byte segment to the caller.
pub trait TcpDataHandler {
    fn on_tcp_data(&mut self, data: &[u8]);
}

/// The single-method capability through which a backend delivers one received
/// UDP datagram, with its per-packet source addressing, to the caller.
pub trait UdpDataHandler {
    fn on_udp_data(&mut self, data: &[u8], from: SocketAddress, from_port: u16);
}

/// The minimal operation set any blocking socket backend must expose.
///
/// Every operation executes to completion on the caller's thread before
/// returning (or returns a "not ready" error immediately); the contract has
/// no suspension point of its own. Each operation mutably borrows the socket,
/// so at most one logical operation is in flight per instance at the type
/// level. The contract binds every conforming backend to:
/// the partial-send invariant (a send never reports more bytes accepted than
/// were requested), success of zero-length TCP sends on an established
/// connection, and failure with `SocketNotReady` — never silent success —
/// when TCP is used before a connection is established.
pub trait Socket {
    /// Whether the instance holds an established TCP connection, making it
    /// usable for `tcp_socket_send` and `tcp_receive`.
    spec fn connected(&self) -> bool;

    /// Sends bytes on the established TCP connection, reporting how many were
    /// actually accepted. Partial sends are legal under backpressure. The
    /// backend must not assume `data` outlives the call.
    fn tcp_socket_send(&mut self, data: &[u8]) -> (r: Result<usize, SocketSendError>)
        ensures
            r matches Ok(n) ==> n <= data@.len(),
            !old(self).connected() ==> r matches Err(SocketSendError::SocketNotReady),
            old(self).connected() ==> !(r matches Err(SocketSendError::SocketNotReady)),
            old(self).connected() && data@.len() == 0 ==> (r matches Ok(n) && n == 0),
    ;

    /// Sends one datagram to `addr`, reporting how many bytes were actually
    /// accepted; addressed per call, since UDP is connectionless.
    fn udp_socket_send(&mut self, data: &[u8], addr: SocketAddress) -> (r: Result<
        usize,
        SocketSendError,
    >)
        ensures
            r matches Ok(n) ==> n <= data@.len(),
    ;

    /// Attempts to establish a TCP connection; on success the socket is
    /// thereafter usable for `tcp_socket_send` and `tcp_receive`. Does not
    /// itself retry: retry policy belongs to the caller.
    fn tcp_connect(&mut self, addr: SocketAddress, port: u16) -> (r: Result<
        (),
        SocketConnectionError,
    >)
        ensures
            r is Ok ==> final(self).connected(),
    ;

    /// Invokes `f` synchronously, at most once, with the newly available TCP
    /// byte segment, and reports how many bytes were delivered to it.
    fn tcp_receive<H: TcpDataHandler>(&mut self, f: &mut H) -> (r: Result<
        usize,
        SocketReceiveError,
    >)
        ensures
            !old(self).connected() ==> r matches Err(SocketReceiveError::SocketNotReady),
            old(self).connected() ==> !(r matches Err(SocketReceiveError::SocketNotReady)),
    ;

    /// Invokes `f` synchronously, at most once, with one pending datagram and
    /// its source addressing, and reports how many bytes were delivered.
    fn udp_receive<H: UdpDataHandler>(&mut self, f: &mut H) -> (r: Result<
        usize,
        SocketReceiveError,
    >)
    ;
}

} // verus!
