//! Packet model: the uniform, ownership-clear envelope for inbound data,
//! regardless of transport, together with the plain address types that the
//! envelope carries.

use vstd::prelude::*;

verus! {

/// A source address, IPv4 (four octets) or IPv6 (eight 16-bit segments).
#[derive(Clone, Copy, PartialEq, Eq, Structural, Debug)]
pub enum IpAddress {
    V4(u8, u8, u8, u8),
    V6(u16, u16, u16, u16, u16, u16, u16, u16),
}

/// An address/port pair identifying one endpoint.
#[derive(Clone, Copy, PartialEq, Eq, Structural, Debug)]
pub struct SocketAddress {
    pub ip: IpAddress,
    pub port: u16,
}

/// One received UDP datagram: its payload and its source addressing.
/// The payload may have any length, including zero; the source port is a
/// 16-bit value by construction.
#[derive(Clone, Debug)]
pub struct UdpPacket {
    pub data: Vec<u8>,
    pub from_ip: IpAddress,
    pub from_port: u16,
}

/// One received contiguous TCP byte segment. It carries no addressing:
/// TCP segments are delivered on an already-established connection, so the
/// endpoint identity is implicit in the socket instance.
#[derive(Clone, Debug)]
pub struct TcpPacket {
    pub data: Vec<u8>,
}

/// A tagged union over exactly one received TCP segment or one received UDP
/// datagram, for callers that handle mixed traffic through one value type.
/// The closed sum makes the "exactly one kind present" invariant structural:
/// no value of this type can hold both kinds or neither.
#[derive(Clone, Debug)]
pub enum Packet {
    Tcp(TcpPacket),
    Udp(UdpPacket),
}

impl Packet {
    /// Whether this packet holds a TCP segment.
    pub open spec fn is_tcp(&self) -> bool {
        self is Tcp
    }

    /// Whether this packet holds a UDP datagram.
    pub open spec fn is_udp(&self) -> bool {
        self is Udp
    }

    /// Wraps a received TCP segment; always succeeds, no side effects.
    pub fn new_tcp(tcp_packet: TcpPacket) -> (r: Packet)
        ensures
            r == Packet::Tcp(tcp_packet),
    {
        Packet::Tcp(tcp_packet)
    }

    /// Wraps a received UDP datagram; always succeeds, no side effects.
    pub fn new_udp(udp_packet: UdpPacket) -> (r: Packet)
        ensures
            r == Packet::Udp(udp_packet),
    {
        Packet::Udp(udp_packet)
    }
}

/// Law: every packet holds exactly one of the two kinds — it is a TCP packet
/// or a UDP packet, never both and never neither.
pub proof fn lemma_packet_exactly_one_kind(p: &Packet)
    ensures
        p.is_tcp() <==> !p.is_udp(),
{
}

/// Law: a UDP packet's source port is representable in 16 bits, and its
/// payload length is unconstrained from below (zero is allowed).
pub proof fn lemma_udp_packet_bounds(p: &UdpPacket)
    ensures
        0 <= p.from_port <= 0xFFFF,
        p.data@.len() >= 0,
{
}

} // verus!
