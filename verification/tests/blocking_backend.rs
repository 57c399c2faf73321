use sockets::memory::{MemorySocket, RecordingTcpHandler, RecordingUdpHandler};
use sockets::packet::{IpAddress, SocketAddress, UdpPacket};
use sockets::socket::{
    Socket, SocketConnectionError, SocketReceiveError, SocketSendError, SocketType,
};

fn peer() -> SocketAddress {
    SocketAddress { ip: IpAddress::V4(10, 0, 0, 1), port: 80 }
}

#[test]
fn empty_tcp_send_on_established_connection_is_a_successful_no_op() {
    let mut s = MemorySocket::new(SocketType::TCP, 1, 16);
    s.tcp_connect(peer(), 80).unwrap();
    let sent = s.tcp_socket_send(&[]).unwrap();
    assert_eq!(sent, 0);
    assert_eq!(s.tcp_outbox.len(), 0);
}

#[test]
fn send_never_reports_more_bytes_than_requested() {
    let mut s = MemorySocket::new(SocketType::TCP, 1, 3);
    s.tcp_connect(peer(), 80).unwrap();
    let data = [1u8, 2, 3, 4, 5];
    let sent = s.tcp_socket_send(&data).unwrap();
    assert!(sent <= data.len());
    assert_eq!(sent, 3);
    assert_eq!(s.tcp_outbox, vec![1, 2, 3]);

    let udp_sent = s.udp_socket_send(&data, peer()).unwrap();
    assert!(udp_sent <= data.len());
    assert_eq!(udp_sent, 3);
    assert_eq!(s.udp_outbox.len(), 1);
    assert_eq!(s.udp_outbox[0].0, peer());
    assert_eq!(s.udp_outbox[0].1, vec![1, 2, 3]);
}

#[test]
fn small_sends_are_accepted_whole() {
    let mut s = MemorySocket::new(SocketType::TCP, 1, 16);
    s.tcp_connect(peer(), 80).unwrap();
    assert_eq!(s.tcp_socket_send(&[7, 7]).unwrap(), 2);
    assert_eq!(s.tcp_socket_send(&[8]).unwrap(), 1);
    assert_eq!(s.tcp_outbox, vec![7, 7, 8]);
}

#[test]
fn unconnected_tcp_operations_fail_with_socket_not_ready() {
    let mut s = MemorySocket::new(SocketType::TCP, 1, 16);
    let send_err = s.tcp_socket_send(&[1, 2, 3]).unwrap_err();
    assert!(matches!(send_err, SocketSendError::SocketNotReady));

    let mut handler = RecordingTcpHandler::new();
    let recv_err = s.tcp_receive(&mut handler).unwrap_err();
    assert!(matches!(recv_err, SocketReceiveError::SocketNotReady));
    assert_eq!(handler.invocations, 0);
}

#[test]
fn exhausted_transmit_capacity_fails_nonempty_sends() {
    let mut s = MemorySocket::new(SocketType::TCP, 1, 0);
    s.tcp_connect(peer(), 80).unwrap();
    let err = s.tcp_socket_send(&[1]).unwrap_err();
    assert!(matches!(err, SocketSendError::Exhausted));
    let udp_err = s.udp_socket_send(&[1], peer()).unwrap_err();
    assert!(matches!(udp_err, SocketSendError::Exhausted));
    // A zero-length send stays a no-op even with no capacity.
    assert_eq!(s.tcp_socket_send(&[]).unwrap(), 0);
}

#[test]
fn exhausted_connect_mock_reports_that_exact_kind_on_every_retry() {
    let mut s = MemorySocket::new(SocketType::TCP, 0, 16);
    for _attempt in 0..5 {
        match s.tcp_connect(peer(), 80) {
            Ok(()) => panic!("a backend without connection slots must not connect"),
            Err(SocketConnectionError::Exhausted) => {}
            Err(SocketConnectionError::Unknown(reason)) => {
                panic!("expected Exhausted, got Unknown({reason})")
            }
        }
    }
}

#[test]
fn connect_consumes_one_slot_and_establishes_the_connection() {
    let mut s = MemorySocket::new(SocketType::TCP, 2, 16);
    assert!(!s.connected);
    s.tcp_connect(peer(), 80).unwrap();
    assert!(s.connected);
    assert_eq!(s.connect_slots, 1);
    assert_eq!(s.tcp_socket_send(&[5]).unwrap(), 1);
}

#[test]
fn tcp_receive_delivers_the_pending_segment_once_and_drains_it() {
    let mut s = MemorySocket::new(SocketType::TCP, 1, 16);
    s.tcp_connect(peer(), 80).unwrap();
    s.deliver_tcp(&[10, 20, 30]);
    s.deliver_tcp(&[40]);

    let mut handler = RecordingTcpHandler::new();
    let consumed = s.tcp_receive(&mut handler).unwrap();
    assert_eq!(consumed, 4);
    assert_eq!(handler.received, vec![10, 20, 30, 40]);
    assert_eq!(handler.invocations, 1);

    // The segment was drained: the next receive delivers an empty slice.
    let consumed_again = s.tcp_receive(&mut handler).unwrap();
    assert_eq!(consumed_again, 0);
    assert_eq!(handler.received, vec![10, 20, 30, 40]);
    assert_eq!(handler.invocations, 2);
}

#[test]
fn udp_receive_delivers_oldest_datagram_with_its_source_addressing() {
    let mut s = MemorySocket::new(SocketType::UDP, 0, 16);
    s.deliver_udp(UdpPacket {
        data: vec![1, 2, 3],
        from_ip: IpAddress::V4(10, 0, 0, 1),
        from_port: 5000,
    });
    s.deliver_udp(UdpPacket {
        data: vec![4],
        from_ip: IpAddress::V4(10, 0, 0, 2),
        from_port: 6000,
    });

    let mut handler = RecordingUdpHandler::new();
    let consumed = s.udp_receive(&mut handler).unwrap();
    assert_eq!(consumed, 3);
    assert_eq!(handler.received, vec![1, 2, 3]);
    assert_eq!(
        handler.last_from,
        Some(SocketAddress { ip: IpAddress::V4(10, 0, 0, 1), port: 5000 })
    );
    assert_eq!(handler.last_from_port, Some(5000));
    assert_eq!(handler.invocations, 1);

    let consumed = s.udp_receive(&mut handler).unwrap();
    assert_eq!(consumed, 1);
    assert_eq!(handler.received, vec![1, 2, 3, 4]);
    assert_eq!(handler.last_from_port, Some(6000));

    // Nothing pending: success with zero bytes, the handler is not invoked.
    let consumed = s.udp_receive(&mut handler).unwrap();
    assert_eq!(consumed, 0);
    assert_eq!(handler.invocations, 2);
}

#[test]
fn socket_type_is_compared_for_equality_when_dispatching() {
    let s = MemorySocket::new(SocketType::RawIpv6, 0, 0);
    assert_eq!(s.kind, SocketType::RawIpv6);
    assert_ne!(s.kind, SocketType::ICMP);
    let kinds = [
        SocketType::RawIpv4,
        SocketType::RawIpv6,
        SocketType::ICMP,
        SocketType::TCP,
        SocketType::UDP,
    ];
    for (i, a) in kinds.iter().enumerate() {
        for (j, b) in kinds.iter().enumerate() {
            assert_eq!(*a == *b, i == j);
        }
    }
}

#[test]
fn unknown_error_strings_are_diagnostics_only() {
    let e = SocketSendError::Unknown(String::from("backend-specific detail"));
    assert!(matches!(e, SocketSendError::Unknown(_)));
    let e = SocketReceiveError::Unknown(String::from("backend-specific detail"));
    assert!(matches!(e, SocketReceiveError::Unknown(_)));
    let e = SocketConnectionError::Unknown(String::from("backend-specific detail"));
    assert!(matches!(e, SocketConnectionError::Unknown(_)));
}
