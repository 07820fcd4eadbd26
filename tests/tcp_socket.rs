use arceos_core::addr::{IpAddr, Ipv4Addr, SocketAddr};
use arceos_core::error::AxError;
use arceos_core::listen_table::ListenTable;
use arceos_core::port::{PortAllocator, PORT_END, PORT_START};
use arceos_core::tcp::{
    transfer_result, ConnectError, ConnectRequest, PollState, Retry, SocketState, SocketStatus,
    StreamStep, TcpSocket, TcpState,
};

fn ep(a: u8, b: u8, c: u8, d: u8, port: u16) -> SocketAddr {
    SocketAddr::new(IpAddr::Ipv4(Ipv4Addr(a, b, c, d)), port)
}

fn status(state: TcpState) -> SocketStatus {
    SocketStatus {
        state,
        is_active: true,
        may_send: true,
        may_recv: true,
        can_send: true,
        can_recv: false,
        recv_queue: 0,
    }
}

/// A socket taken through connect until the engine reports it established.
fn connected(nonblocking: bool) -> (TcpSocket<u32>, PortAllocator, ListenTable<u32>) {
    let mut ports = PortAllocator::new();
    let table: ListenTable<u32> = ListenTable::new();
    let mut s: TcpSocket<u32> = TcpSocket::new();
    s.set_nonblocking(nonblocking);
    let remote = ep(10, 0, 2, 2, 80);
    let req = s.connect(remote, &mut ports, &table).unwrap();
    let local = ep(10, 0, 2, 15, req.local_port);
    assert_eq!(s.connect_done(7, Ok((local, remote))), Err(AxError::WouldBlock));
    assert_eq!(s.connect_poll(TcpState::Established), Ok(()));
    (s, ports, table)
}

#[test]
fn new_socket_is_closed() {
    let s: TcpSocket<u32> = TcpSocket::new();
    assert_eq!(s.state(), SocketState::Closed);
    assert_eq!(s.handle(), None);
    assert!(!s.is_nonblocking());
    assert_eq!(s.local_addr(), Err(AxError::NotConnected));
    assert_eq!(s.peer_addr(), Err(AxError::NotConnected));
}

#[test]
fn bind_then_listen_then_accept_round_trip() {
    let mut ports = PortAllocator::new();
    let mut table: ListenTable<u32> = ListenTable::new();
    let mut s: TcpSocket<u32> = TcpSocket::new();
    assert_eq!(s.bind(ep(0, 0, 0, 0, 0), &mut ports, &table), Ok(()));
    assert_eq!(s.listen(&mut ports, &mut table), Ok(()));
    let local = s.local_addr().unwrap();
    let p = local.port;
    assert!(p >= PORT_START && p <= PORT_END);
    assert_eq!(p, 0xc000);
    let remote = ep(10, 0, 2, 2, 40000);
    assert_eq!(table.push_incoming(p, 9, remote), Ok(()));
    let conn = match s.accept(&mut table) {
        Ok(c) => c,
        Err(e) => panic!("accept failed: {:?}", e),
    };
    assert_eq!(conn.state(), SocketState::Connected);
    assert_eq!(conn.peer_addr(), Ok(remote));
    assert_eq!(conn.local_addr(), Ok(local));
    assert_eq!(conn.handle(), Some(9));
}

#[test]
fn bind_twice_fails_and_keeps_address() {
    let mut ports = PortAllocator::new();
    let mut table: ListenTable<u32> = ListenTable::new();
    let mut s: TcpSocket<u32> = TcpSocket::new();
    let first = ep(10, 0, 2, 15, 5555);
    assert_eq!(s.bind(first, &mut ports, &table), Ok(()));
    assert_eq!(s.bind(ep(0, 0, 0, 0, 0), &mut ports, &table), Err(AxError::InvalidInput));
    assert_eq!(s.bind(ep(10, 0, 2, 15, 80), &mut ports, &table), Err(AxError::InvalidInput));
    assert_eq!(s.listen(&mut ports, &mut table), Ok(()));
    assert_eq!(s.local_addr(), Ok(first));
}

#[test]
fn bind_on_listening_socket_is_invalid() {
    let mut ports = PortAllocator::new();
    let mut table: ListenTable<u32> = ListenTable::new();
    let mut s: TcpSocket<u32> = TcpSocket::new();
    assert_eq!(s.listen(&mut ports, &mut table), Ok(()));
    assert_eq!(s.bind(ep(10, 0, 2, 15, 80), &mut ports, &table), Err(AxError::InvalidInput));
}

#[test]
fn listen_twice_succeeds_with_one_entry() {
    let mut ports = PortAllocator::new();
    let mut table: ListenTable<u32> = ListenTable::new();
    let mut s: TcpSocket<u32> = TcpSocket::new();
    assert_eq!(s.bind(ep(10, 0, 2, 15, 5555), &mut ports, &table), Ok(()));
    assert_eq!(s.listen(&mut ports, &mut table), Ok(()));
    assert_eq!(table.push_incoming(5555, 1, ep(10, 0, 2, 2, 1000)), Ok(()));
    assert_eq!(s.listen(&mut ports, &mut table), Ok(()));
    assert_eq!(s.state(), SocketState::Listening);
    assert!(!table.can_listen(5555));
    // the queue survived the second listen
    assert_eq!(table.can_accept(5555), Ok(true));
    assert_eq!(table.accept(5555), Ok((1, ep(10, 0, 2, 2, 1000))));
    assert_eq!(table.accept(5555), Err(AxError::WouldBlock));
}

#[test]
fn listen_without_bind_takes_ephemeral_port() {
    let mut ports = PortAllocator::new();
    let mut table: ListenTable<u32> = ListenTable::new();
    let mut other: TcpSocket<u32> = TcpSocket::new();
    assert_eq!(other.listen(&mut ports, &mut table), Ok(()));
    assert_eq!(other.local_addr().unwrap().port, 0xc000);
    let mut s: TcpSocket<u32> = TcpSocket::new();
    assert_eq!(s.listen(&mut ports, &mut table), Ok(()));
    assert_eq!(s.local_addr().unwrap().port, 0xc001);
}

#[test]
fn connect_on_connecting_or_connected_fails() {
    let mut ports = PortAllocator::new();
    let table: ListenTable<u32> = ListenTable::new();
    let mut s: TcpSocket<u32> = TcpSocket::new();
    s.set_nonblocking(true);
    let remote = ep(10, 0, 2, 2, 80);
    let req = s.connect(remote, &mut ports, &table).unwrap();
    assert_eq!(req, ConnectRequest { handle: None, remote, local_port: 0xc000 });
    assert_eq!(s.state(), SocketState::Busy);
    // a racing connect while the transition is in progress
    assert_eq!(
        s.connect(ep(1, 2, 3, 4, 5), &mut ports, &table),
        Err(AxError::AlreadyExists)
    );
    let local = ep(10, 0, 2, 15, 0xc000);
    assert_eq!(s.connect_done(3, Ok((local, remote))), Err(AxError::WouldBlock));
    assert_eq!(s.state(), SocketState::Connecting);
    assert_eq!(
        s.connect(ep(1, 2, 3, 4, 5), &mut ports, &table),
        Err(AxError::AlreadyExists)
    );
    assert_eq!(s.connect_poll(TcpState::Established), Ok(()));
    assert_eq!(
        s.connect(ep(1, 2, 3, 4, 5), &mut ports, &table),
        Err(AxError::AlreadyExists)
    );
    assert_eq!(s.local_addr(), Ok(local));
    assert_eq!(s.peer_addr(), Ok(remote));
    // no port was taken by the failed calls
    let mut fresh = TcpSocket::<u32>::new();
    assert_eq!(fresh.connect(remote, &mut ports, &table).unwrap().local_port, 0xc001);
}

#[test]
fn connect_uses_bound_port() {
    let mut ports = PortAllocator::new();
    let table: ListenTable<u32> = ListenTable::new();
    let mut s: TcpSocket<u32> = TcpSocket::new();
    assert_eq!(s.bind(ep(10, 0, 2, 15, 4242), &mut ports, &table), Ok(()));
    let req = s.connect(ep(10, 0, 2, 2, 80), &mut ports, &table).unwrap();
    assert_eq!(req.local_port, 4242);
}

#[test]
fn connect_refusals() {
    let mut ports = PortAllocator::new();
    let table: ListenTable<u32> = ListenTable::new();
    let remote = ep(10, 0, 2, 2, 80);
    let mut s: TcpSocket<u32> = TcpSocket::new();
    s.connect(remote, &mut ports, &table).unwrap();
    assert_eq!(s.connect_done(1, Err(ConnectError::InvalidState)), Err(AxError::BadState));
    assert_eq!(s.state(), SocketState::Closed);
    s.connect(remote, &mut ports, &table).unwrap();
    assert_eq!(
        s.connect_done(1, Err(ConnectError::Unaddressable)),
        Err(AxError::ConnectionRefused)
    );
    assert_eq!(s.state(), SocketState::Closed);
    // nothing to complete
    assert_eq!(s.connect_done(1, Ok((remote, remote))), Err(AxError::BadState));
    assert_eq!(s.state(), SocketState::Closed);
}

#[test]
fn blocking_connect_waits_then_fails_on_reset() {
    let mut ports = PortAllocator::new();
    let table: ListenTable<u32> = ListenTable::new();
    let remote = ep(10, 0, 2, 2, 80);
    let mut s: TcpSocket<u32> = TcpSocket::new();
    s.connect(remote, &mut ports, &table).unwrap();
    let r = s.connect_done(1, Ok((ep(10, 0, 2, 15, 0xc000), remote)));
    assert_eq!(s.retry_step(r), Retry::Again);
    let r = s.connect_poll(TcpState::SynSent);
    assert_eq!(r, Err(AxError::WouldBlock));
    assert_eq!(s.retry_step(r), Retry::Again);
    let r = s.connect_poll(TcpState::Closed);
    assert_eq!(s.retry_step(r), Retry::Done(Err(AxError::ConnectionRefused)));
    assert_eq!(s.state(), SocketState::Closed);
}

#[test]
fn nonblocking_connect_then_poll_until_writable() {
    let mut ports = PortAllocator::new();
    let table: ListenTable<u32> = ListenTable::new();
    let remote = ep(10, 0, 2, 2, 80);
    let mut s: TcpSocket<u32> = TcpSocket::new();
    s.set_nonblocking(true);
    assert!(s.is_nonblocking());
    let req = s.connect(remote, &mut ports, &table).unwrap();
    let r = s.connect_done(5, Ok((ep(10, 0, 2, 15, req.local_port), remote)));
    assert_eq!(s.retry_step(r), Retry::Done(Err(AxError::WouldBlock)));
    let st = status(TcpState::SynSent);
    assert_eq!(s.recv(&st), Err(AxError::WouldBlock));
    assert_eq!(s.send(&st), Err(AxError::WouldBlock));
    assert_eq!(s.poll(&table, &st), Ok(PollState { readable: false, writable: false }));
    assert_eq!(s.poll(&table, &st), Ok(PollState { readable: false, writable: false }));
    let st = status(TcpState::Established);
    assert_eq!(s.poll(&table, &st), Ok(PollState { readable: false, writable: true }));
    assert_eq!(s.state(), SocketState::Connected);
    assert_eq!(s.send(&st), Ok(5));
    assert_eq!(s.recv(&st), Err(AxError::WouldBlock));
    let data = SocketStatus { can_recv: true, recv_queue: 3, ..st };
    assert_eq!(s.recv(&data), Ok(StreamStep::Transfer(5)));
    assert_eq!(s.poll(&table, &data), Ok(PollState { readable: true, writable: true }));
}

#[test]
fn send_to_closed_peer_is_reset() {
    let (s, _, _) = connected(false);
    let peer_closed = SocketStatus { may_send: false, ..status(TcpState::LastAck) };
    assert_eq!(s.send(&peer_closed), Err(AxError::ConnectionReset));
    let inactive = SocketStatus { is_active: false, ..status(TcpState::Closed) };
    assert_eq!(s.send(&inactive), Err(AxError::ConnectionReset));
}

#[test]
fn send_with_full_buffer_would_block() {
    let (s, _, _) = connected(false);
    let full = SocketStatus { can_send: false, ..status(TcpState::Established) };
    let r = s.send(&full);
    assert_eq!(r, Err(AxError::WouldBlock));
    assert_eq!(s.retry_step(r), Retry::Again);
    let (mut nb, _, _) = connected(false);
    nb.set_nonblocking(true);
    assert_eq!(nb.retry_step(nb.send(&full)), Retry::Done(Err(AxError::WouldBlock)));
}

#[test]
fn recv_outcomes() {
    let (s, _, _) = connected(false);
    let open = status(TcpState::Established);
    assert_eq!(s.recv(&open), Err(AxError::WouldBlock));
    let eof = SocketStatus { may_recv: false, ..status(TcpState::CloseWait) };
    assert_eq!(s.recv(&eof), Ok(StreamStep::Done(0)));
    let dead = SocketStatus { is_active: false, ..status(TcpState::Closed) };
    assert_eq!(s.recv(&dead), Err(AxError::ConnectionRefused));
    let data = SocketStatus { recv_queue: 10, can_recv: true, ..open };
    assert_eq!(s.recv(&data), Ok(StreamStep::Transfer(7)));
    assert_eq!(transfer_result(Some(10)), Ok(10));
    assert_eq!(transfer_result(None), Err(AxError::BadState));
}

#[test]
fn io_on_unconnected_socket() {
    let s: TcpSocket<u32> = TcpSocket::new();
    let st = status(TcpState::Established);
    assert_eq!(s.recv(&st), Err(AxError::NotConnected));
    assert_eq!(s.send(&st), Err(AxError::NotConnected));
}

#[test]
fn shutdown_twice_in_every_state() {
    // closed
    let mut table: ListenTable<u32> = ListenTable::new();
    let mut ports = PortAllocator::new();
    let mut s: TcpSocket<u32> = TcpSocket::new();
    assert_eq!(s.shutdown(&mut table), Ok(None));
    assert_eq!(s.shutdown(&mut table), Ok(None));
    assert_eq!(s.state(), SocketState::Closed);
    // listening
    assert_eq!(s.listen(&mut ports, &mut table), Ok(()));
    let port = s.local_addr().unwrap().port;
    assert!(!table.can_listen(port));
    assert_eq!(s.shutdown(&mut table), Ok(None));
    assert!(table.can_listen(port));
    assert_eq!(s.shutdown(&mut table), Ok(None));
    assert_eq!(s.state(), SocketState::Closed);
    // connected
    let (mut c, _, mut t) = connected(false);
    assert_eq!(c.shutdown(&mut t), Ok(Some(7)));
    assert_eq!(c.state(), SocketState::Closed);
    assert_eq!(c.local_addr(), Err(AxError::NotConnected));
    assert_eq!(c.shutdown(&mut t), Ok(None));
    assert_eq!(c.state(), SocketState::Closed);
    assert_eq!(c.into_handle(), Some(7));
}

#[test]
fn shutdown_leaves_connecting_socket() {
    let mut ports = PortAllocator::new();
    let mut table: ListenTable<u32> = ListenTable::new();
    let remote = ep(10, 0, 2, 2, 80);
    let mut s: TcpSocket<u32> = TcpSocket::new();
    s.connect(remote, &mut ports, &table).unwrap();
    s.connect_done(1, Ok((ep(10, 0, 2, 15, 0xc000), remote))).unwrap_err();
    assert_eq!(s.shutdown(&mut table), Ok(None));
    assert_eq!(s.state(), SocketState::Connecting);
}

#[test]
fn accept_requires_listening() {
    let mut table: ListenTable<u32> = ListenTable::new();
    let s: TcpSocket<u32> = TcpSocket::new();
    assert!(matches!(s.accept(&mut table), Err(AxError::InvalidInput)));
}

#[test]
fn accept_would_block_and_fifo() {
    let mut ports = PortAllocator::new();
    let mut table: ListenTable<u32> = ListenTable::new();
    let mut s: TcpSocket<u32> = TcpSocket::new();
    assert_eq!(s.bind(ep(10, 0, 2, 15, 5555), &mut ports, &table), Ok(()));
    assert_eq!(s.listen(&mut ports, &mut table), Ok(()));
    assert!(matches!(s.accept(&mut table), Err(AxError::WouldBlock)));
    let st = status(TcpState::Listen);
    assert_eq!(s.poll(&table, &st), Ok(PollState { readable: false, writable: false }));
    for i in 0..3u32 {
        assert_eq!(table.push_incoming(5555, i, ep(10, 0, 2, 2, 1000 + i as u16)), Ok(()));
    }
    assert_eq!(s.poll(&table, &st), Ok(PollState { readable: true, writable: false }));
    for i in 0..3u32 {
        let c = s.accept(&mut table).ok().unwrap();
        assert_eq!(c.handle(), Some(i));
        assert_eq!(c.peer_addr(), Ok(ep(10, 0, 2, 2, 1000 + i as u16)));
    }
    assert!(matches!(s.accept(&mut table), Err(AxError::WouldBlock)));
}

#[test]
fn listener_whose_port_was_unlistened() {
    let mut ports = PortAllocator::new();
    let mut table: ListenTable<u32> = ListenTable::new();
    let mut s: TcpSocket<u32> = TcpSocket::new();
    assert_eq!(s.listen(&mut ports, &mut table), Ok(()));
    table.unlisten(s.local_addr().unwrap().port);
    let st = status(TcpState::Listen);
    assert_eq!(s.poll(&table, &st), Err(AxError::InvalidInput));
    assert!(matches!(s.accept(&mut table), Err(AxError::InvalidInput)));
}

#[test]
fn listening_socket_has_no_peer() {
    let mut ports = PortAllocator::new();
    let mut table: ListenTable<u32> = ListenTable::new();
    let mut s: TcpSocket<u32> = TcpSocket::new();
    assert_eq!(s.listen(&mut ports, &mut table), Ok(()));
    assert!(s.local_addr().is_ok());
    assert_eq!(s.peer_addr(), Err(AxError::NotConnected));
}

#[test]
fn closed_socket_polls_idle() {
    let table: ListenTable<u32> = ListenTable::new();
    let mut s: TcpSocket<u32> = TcpSocket::new();
    let st = status(TcpState::Established);
    assert_eq!(s.poll(&table, &st), Ok(PollState { readable: false, writable: false }));
    assert_eq!(s.state(), SocketState::Closed);
}

#[test]
fn retry_passes_results_through() {
    let s: TcpSocket<u32> = TcpSocket::new();
    assert_eq!(s.retry_step(Ok::<u8, AxError>(4)), Retry::Done(Ok(4)));
    assert_eq!(s.retry_step::<u8>(Err(AxError::NotConnected)), Retry::Done(Err(AxError::NotConnected)));
    assert_eq!(s.retry_step::<u8>(Err(AxError::WouldBlock)), Retry::Again);
}

#[test]
fn state_never_left_busy() {
    let mut ports = PortAllocator::new();
    let mut table: ListenTable<u32> = ListenTable::new();
    let mut s: TcpSocket<u32> = TcpSocket::new();
    let st = status(TcpState::Established);
    assert_eq!(s.bind(ep(10, 0, 2, 15, 7000), &mut ports, &table), Ok(()));
    assert_eq!(s.state(), SocketState::Closed);
    let _ = s.poll(&table, &st);
    assert_eq!(s.listen(&mut ports, &mut table), Ok(()));
    assert_eq!(s.state(), SocketState::Listening);
    let _ = s.connect(ep(1, 1, 1, 1, 1), &mut ports, &table);
    assert_eq!(s.state(), SocketState::Listening);
    assert_eq!(s.shutdown(&mut table), Ok(None));
    assert_eq!(s.state(), SocketState::Closed);
    let _ = s.connect(ep(1, 1, 1, 1, 1), &mut ports, &table).unwrap();
    let _ = s.connect_done(2, Ok((ep(10, 0, 2, 15, 7000), ep(1, 1, 1, 1, 1))));
    assert_eq!(s.state(), SocketState::Connecting);
    assert_eq!(s.poll(&table, &st), Ok(PollState { readable: false, writable: true }));
    assert_eq!(s.state(), SocketState::Connected);
}
