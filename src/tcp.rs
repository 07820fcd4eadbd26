use vstd::prelude::*;

use crate::addr::{unspecified, SocketAddr};
use crate::error::{AxError, AxResult};
use crate::listen_table::{ListenTable, Pending};
use crate::port::{ephemeral, PortAllocator};

verus! {

/// Where a socket stands in its life.
///
/// `Busy` marks a socket whose transition is in progress: between
/// [`TcpSocket::connect`] and [`TcpSocket::connect_done`], while the packet
/// engine starts the connection. No other operation leaves a socket busy.
#[derive(Clone, Copy, Debug, PartialEq, Eq, Structural)]
pub enum SocketState {
    /// Not connected and not listening; possibly bound.
    Closed,
    /// A transition is in progress.
    Busy,
    /// The engine is performing the handshake.
    Connecting,
    /// The connection is established.
    Connected,
    /// The local port is registered in the listen table.
    Listening,
}

/// The state of a TCP connection as the packet engine reports it.
#[derive(Clone, Copy, Debug, PartialEq, Eq, Structural)]
pub enum TcpState {
    Closed,
    Listen,
    SynSent,
    SynReceived,
    Established,
    FinWait1,
    FinWait2,
    CloseWait,
    Closing,
    LastAck,
    TimeWait,
}

/// Why the packet engine refused to start a connection.
#[derive(Clone, Copy, Debug, PartialEq, Eq, Structural)]
pub enum ConnectError {
    /// The protocol socket was not in a state to connect from.
    InvalidState,
    /// The remote endpoint cannot be addressed.
    Unaddressable,
}

/// What the packet engine reports of the protocol socket behind a handle.
#[derive(Clone, Copy, Debug, PartialEq, Eq, Structural)]
pub struct SocketStatus {
    /// The connection's state.
    pub state: TcpState,
    /// Whether the connection is open.
    pub is_active: bool,
    /// Whether the peer may still receive data.
    pub may_send: bool,
    /// Whether the peer may still send data.
    pub may_recv: bool,
    /// Whether the transmit buffer has room.
    pub can_send: bool,
    /// Whether the receive buffer holds data.
    pub can_recv: bool,
    /// How many bytes wait in the receive buffer.
    pub recv_queue: usize,
}

/// Whether a socket can be read or written without blocking.
#[derive(Clone, Copy, Debug, PartialEq, Eq, Structural)]
pub struct PollState {
    /// Data, or a connection to accept, is there.
    pub readable: bool,
    /// Data can be sent, or a pending connection has been resolved.
    pub writable: bool,
}

/// What [`TcpSocket::connect`] asks of the packet engine: start a connection
/// to `remote` from `local_port`, on `handle`, or on a new protocol socket
/// when `handle` is `None`.
#[derive(Debug, PartialEq, Eq)]
pub struct ConnectRequest<H> {
    /// The protocol socket to reuse, if the socket holds one.
    pub handle: Option<H>,
    /// Where to connect to.
    pub remote: SocketAddr,
    /// The local port to connect from.
    pub local_port: u16,
}

/// What a read or write on a connected socket does next.
#[derive(Debug, PartialEq, Eq)]
pub enum StreamStep<H> {
    /// The operation is over, with this many bytes.
    Done(usize),
    /// Bytes are to be moved through the protocol socket behind this handle.
    Transfer(H),
}

/// What the poll-retry loop does with the outcome of one attempt.
#[derive(Debug, PartialEq, Eq)]
pub enum Retry<T> {
    /// Return this to the caller.
    Done(AxResult<T>),
    /// Yield to the scheduler, drive the engine, and try again.
    Again,
}

/// The fields of a socket, as values.
pub struct SocketModel<H> {
    /// Where the socket stands.
    pub state: SocketState,
    /// The protocol socket it holds in the engine, if any.
    pub handle: Option<H>,
    /// The local endpoint; unspecified while unbound.
    pub local: SocketAddr,
    /// The remote endpoint; unspecified while not connected.
    pub peer: SocketAddr,
    /// Whether operations return `WouldBlock` instead of waiting.
    pub nonblocking: bool,
}

impl<H> SocketModel<H> {
    /// A socket that is connecting or connected has a handle.
    pub open spec fn wf(self) -> bool {
        (self.state == SocketState::Connecting || self.state == SocketState::Connected)
            ==> self.handle is Some
    }

    /// No transition is in progress.
    pub open spec fn settled(self) -> bool {
        self.state != SocketState::Busy
    }

    /// The same socket in state `state`.
    pub open spec fn with_state(self, state: SocketState) -> SocketModel<H> {
        SocketModel { state, ..self }
    }

    /// The same socket with local endpoint `local`.
    pub open spec fn with_local(self, local: SocketAddr) -> SocketModel<H> {
        SocketModel { local, ..self }
    }
}

/// The endpoint `addr` with its port replaced by `port`.
pub open spec fn with_port(addr: SocketAddr, port: u16) -> SocketAddr {
    SocketAddr { port, ..addr }
}

/// `table` with `port` registered as listening, if it was not already.
pub open spec fn listen_into<H>(table: Map<u16, Seq<Pending<H>>>, port: u16) -> Map<
    u16,
    Seq<Pending<H>>,
> {
    if table.contains_key(port) {
        table
    } else {
        table.insert(port, Seq::empty())
    }
}

/// What `bind(addr)` does to socket `s` and to the port counter `curr`
/// while the ports in `busy` are listening.
pub open spec fn bind_model<H>(s: SocketModel<H>, addr: SocketAddr, curr: u16, busy: Set<u16>) -> (
    SocketModel<H>,
    AxResult,
    u16,
) {
    if s.state != SocketState::Closed || s.local != unspecified() {
        (s, Err(AxError::InvalidInput), curr)
    } else if addr.port == 0 {
        match ephemeral(curr, busy).0 {
            Ok(port) => (s.with_local(with_port(addr, port)), Ok(()), ephemeral(curr, busy).1),
            Err(e) => (s, Err(e), ephemeral(curr, busy).1),
        }
    } else {
        (s.with_local(addr), Ok(()), curr)
    }
}

/// What `listen()` does to socket `s`, to the port counter `curr` and to
/// the listen table `table`.
pub open spec fn listen_model<H>(
    s: SocketModel<H>,
    curr: u16,
    table: Map<u16, Seq<Pending<H>>>,
) -> (SocketModel<H>, AxResult, u16, Map<u16, Seq<Pending<H>>>) {
    if s.state != SocketState::Closed {
        (s, Ok(()), curr, table)
    } else if s.local.port == 0 {
        match ephemeral(curr, table.dom()).0 {
            Ok(port) => (
                s.with_local(with_port(s.local, port)).with_state(SocketState::Listening),
                Ok(()),
                ephemeral(curr, table.dom()).1,
                listen_into(table, port),
            ),
            Err(e) => (s, Err(e), ephemeral(curr, table.dom()).1, table),
        }
    } else {
        (
            s.with_state(SocketState::Listening),
            Ok(()),
            curr,
            listen_into(table, s.local.port),
        )
    }
}

/// What `connect(addr)` does to socket `s` and to the port counter `curr`
/// while the ports in `busy` are listening.
pub open spec fn connect_model<H>(
    s: SocketModel<H>,
    addr: SocketAddr,
    curr: u16,
    busy: Set<u16>,
) -> (SocketModel<H>, AxResult<ConnectRequest<H>>, u16) {
    if s.state != SocketState::Closed {
        (s, Err(AxError::AlreadyExists), curr)
    } else if s.local.port != 0 {
        (
            s.with_state(SocketState::Busy),
            Ok(ConnectRequest { handle: s.handle, remote: addr, local_port: s.local.port }),
            curr,
        )
    } else {
        match ephemeral(curr, busy).0 {
            Ok(port) => (
                s.with_state(SocketState::Busy),
                Ok(ConnectRequest { handle: s.handle, remote: addr, local_port: port }),
                ephemeral(curr, busy).1,
            ),
            Err(e) => (s, Err(e), ephemeral(curr, busy).1),
        }
    }
}

/// What `connect_done(handle, outcome)` does to socket `s`.
pub open spec fn connect_done_model<H>(
    s: SocketModel<H>,
    handle: H,
    outcome: Result<(SocketAddr, SocketAddr), ConnectError>,
) -> (SocketModel<H>, AxResult) {
    if s.state != SocketState::Busy {
        (s, Err(AxError::BadState))
    } else {
        match outcome {
            Ok((local, peer)) => (
                SocketModel {
                    state: SocketState::Connecting,
                    handle: Some(handle),
                    local,
                    peer,
                    nonblocking: s.nonblocking,
                },
                Err(AxError::WouldBlock),
            ),
            Err(ConnectError::InvalidState) => (
                s.with_state(SocketState::Closed),
                Err(AxError::BadState),
            ),
            Err(ConnectError::Unaddressable) => (
                s.with_state(SocketState::Closed),
                Err(AxError::ConnectionRefused),
            ),
        }
    }
}

/// What `shutdown()` does to socket `s` and to the listen table `table`;
/// the result names the handle whose connection the engine is to close.
pub open spec fn shutdown_model<H>(s: SocketModel<H>, table: Map<u16, Seq<Pending<H>>>) -> (
    SocketModel<H>,
    AxResult<Option<H>>,
    Map<u16, Seq<Pending<H>>>,
) {
    if s.state == SocketState::Connected {
        (
            SocketModel {
                state: SocketState::Closed,
                handle: s.handle,
                local: unspecified(),
                peer: unspecified(),
                nonblocking: s.nonblocking,
            },
            Ok(s.handle),
            table,
        )
    } else if s.state == SocketState::Listening {
        (s.with_state(SocketState::Closed), Ok(None), table.remove(s.local.port))
    } else {
        (s, Ok(None), table)
    }
}

/// The state a connecting socket moves to when the engine reports `engine`.
pub open spec fn connect_progress(engine: TcpState) -> SocketState {
    match engine {
        TcpState::SynSent => SocketState::Connecting,
        TcpState::Established => SocketState::Connected,
        _ => SocketState::Closed,
    }
}

/// A TCP socket with POSIX-like operations.
///
/// - [`connect`](TcpSocket::connect) is for clients;
/// - [`bind`](TcpSocket::bind), [`listen`](TcpSocket::listen) and
///   [`accept`](TcpSocket::accept) are for servers;
/// - the other operations are for both.
///
/// The socket makes the decisions; the packet engine and the scheduler are
/// driven by its caller. An operation that needs the engine's view of the
/// connection takes it as a [`SocketStatus`]; one that would block returns
/// `WouldBlock`, which [`TcpSocket::retry_step`] turns into a retry for a
/// blocking socket. `H` is the engine's handle for a protocol socket.
///
/// Operations that change the socket take it by `&mut`, so one of them at a
/// time holds it: the handle and the endpoints change only under that
/// exclusive access, and an operation that finds the socket in another state
/// than it needs fails at once instead of waiting.
pub struct TcpSocket<H> {
    state: SocketState,
    handle: Option<H>,
    local_addr: SocketAddr,
    peer_addr: SocketAddr,
    nonblock: bool,
}

impl<H> View for TcpSocket<H> {
    type V = SocketModel<H>;

    closed spec fn view(&self) -> SocketModel<H> {
        SocketModel {
            state: self.state,
            handle: self.handle,
            local: self.local_addr,
            peer: self.peer_addr,
            nonblocking: self.nonblock,
        }
    }
}

impl<H: Copy> TcpSocket<H> {
    /// Creates a closed socket with no endpoints and no handle.
    pub fn new() -> (r: TcpSocket<H>)
        ensures
            r@ == (SocketModel::<H> {
                state: SocketState::Closed,
                handle: None,
                local: unspecified(),
                peer: unspecified(),
                nonblocking: false,
            }),
    {
        TcpSocket {
            state: SocketState::Closed,
            handle: None,
            local_addr: SocketAddr::unspecified(),
            peer_addr: SocketAddr::unspecified(),
            nonblock: false,
        }
    }

    /// Creates a socket that is already connected, with `handle` and its endpoints.
    fn new_connected(handle: H, local_addr: SocketAddr, peer_addr: SocketAddr) -> (r: TcpSocket<H>)
        ensures
            r@ == (SocketModel {
                state: SocketState::Connected,
                handle: Some(handle),
                local: local_addr,
                peer: peer_addr,
                nonblocking: false,
            }),
    {
        TcpSocket {
            state: SocketState::Connected,
            handle: Some(handle),
            local_addr,
            peer_addr,
            nonblock: false,
        }
    }

    /// Starts a connection to `addr`. A closed socket becomes busy and the
    /// result says what the packet engine is to do: connect from the bound
    /// port, or from an ephemeral one when the socket is not bound. The
    /// socket stays busy until [`TcpSocket::connect_done`] hands back the
    /// engine's answer. `AlreadyExists` if the socket is not closed;
    /// `NoMemory` if it needs an ephemeral port and none is free.
    pub fn connect(
        &mut self,
        addr: SocketAddr,
        ports: &mut PortAllocator,
        table: &ListenTable<H>,
    ) -> (r: AxResult<ConnectRequest<H>>)
        requires
            old(self)@.wf(),
            old(ports).wf(),
            table.wf(),
        ensures
            final(self)@.wf(),
            final(ports).wf(),
            (final(self)@, r, final(ports)@) == connect_model(
                old(self)@,
                addr,
                old(ports)@,
                table@.dom(),
            ),
    {
        if self.state != SocketState::Closed {
            return Err(AxError::AlreadyExists);
        }
        let local_port = if self.local_addr.port != 0 {
            self.local_addr.port
        } else {
            match ports.get_ephemeral_port(table) {
                Ok(port) => port,
                Err(e) => return Err(e),
            }
        };
        self.state = SocketState::Busy;
        Ok(ConnectRequest { handle: self.handle, remote: addr, local_port })
    }

    /// Completes the connection that [`TcpSocket::connect`] started, with
    /// the engine's `handle` and its answer: the local and remote endpoints,
    /// or why it refused. Once the engine has started the connection the
    /// socket is connecting and the result is `WouldBlock`: a blocking
    /// caller then waits with [`TcpSocket::connect_poll`]. A refusal closes
    /// the socket again, with `BadState` or `ConnectionRefused`. `BadState`
    /// too, and nothing changes, if no connection was started.
    pub fn connect_done(
        &mut self,
        handle: H,
        outcome: Result<(SocketAddr, SocketAddr), ConnectError>,
    ) -> (r: AxResult)
        requires
            old(self)@.wf(),
        ensures
            final(self)@.wf(),
            (final(self)@, r) == connect_done_model(old(self)@, handle, outcome),
    {
        if self.state != SocketState::Busy {
            return Err(AxError::BadState);
        }
        match outcome {
            Ok((local, peer)) => {
                self.local_addr = local;
                self.peer_addr = peer;
                self.handle = Some(handle);
                self.state = SocketState::Connecting;
                Err(AxError::WouldBlock)
            },
            Err(ConnectError::InvalidState) => {
                self.state = SocketState::Closed;
                Err(AxError::BadState)
            },
            Err(ConnectError::Unaddressable) => {
                self.state = SocketState::Closed;
                Err(AxError::ConnectionRefused)
            },
        }
    }

    /// Binds a closed, unbound socket to `addr`; port 0 asks for an
    /// ephemeral port. `InvalidInput` if the socket is not closed or is
    /// already bound; `NoMemory` if no ephemeral port is free.
    pub fn bind(&mut self, addr: SocketAddr, ports: &mut PortAllocator, table: &ListenTable<H>) -> (r:
        AxResult)
        requires
            old(self)@.wf(),
            old(ports).wf(),
            table.wf(),
        ensures
            final(self)@.wf(),
            final(ports).wf(),
            (final(self)@, r, final(ports)@) == bind_model(
                old(self)@,
                addr,
                old(ports)@,
                table@.dom(),
            ),
    {
        if self.state != SocketState::Closed || !self.local_addr.is_unspecified() {
            return Err(AxError::InvalidInput);
        }
        let mut addr = addr;
        if addr.port == 0 {
            match ports.get_ephemeral_port(table) {
                Ok(port) => addr.port = port,
                Err(e) => return Err(e),
            }
        }
        self.local_addr = addr;
        Ok(())
    }

    /// Starts listening on the bound port, or on an ephemeral port if the
    /// socket is not bound, and registers that port in `table`. A socket
    /// that is not closed is left as it is, and that is no error: a second
    /// `listen` succeeds. `NoMemory` if no ephemeral port is free.
    pub fn listen(&mut self, ports: &mut PortAllocator, table: &mut ListenTable<H>) -> (r: AxResult)
        requires
            old(self)@.wf(),
            old(ports).wf(),
            old(table).wf(),
        ensures
            final(self)@.wf(),
            final(ports).wf(),
            final(table).wf(),
            (final(self)@, r, final(ports)@, final(table)@) == listen_model(
                old(self)@,
                old(ports)@,
                old(table)@,
            ),
    {
        if self.state != SocketState::Closed {
            return Ok(());
        }
        if self.local_addr.port == 0 {
            match ports.get_ephemeral_port(table) {
                Ok(port) => self.local_addr.port = port,
                Err(e) => return Err(e),
            }
        }
        let res = table.listen(self.local_addr.port);
        proof {
            crate::port::lemma_ephemeral(old(ports)@, old(table)@.dom());
        }
        match res {
            Ok(()) => {
                self.state = SocketState::Listening;
                Ok(())
            },
            Err(e) => Err(e),
        }
    }
    /// Waits, one step at a time, for the connection that
    /// [`TcpSocket::connect_done`] started; `engine` is the connection's state
    /// as the engine now reports it. A connecting socket becomes connected
    /// once the engine reports it established (`Ok`), stays connecting while
    /// the handshake is under way (`WouldBlock`), and is closed on any other
    /// report (`ConnectionRefused`). A connected socket gives `Ok` and any
    /// other socket `ConnectionRefused`, both unchanged.
    pub fn connect_poll(&mut self, engine: TcpState) -> (r: AxResult)
        requires
            old(self)@.wf(),
        ensures
            final(self)@.wf(),
            old(self)@.state == SocketState::Connecting ==> final(self)@ == old(self)@.with_state(
                connect_progress(engine),
            ) && r == (match connect_progress(engine) {
                SocketState::Connecting => Err(AxError::WouldBlock),
                SocketState::Connected => Ok(()),
                _ => Err::<(), AxError>(AxError::ConnectionRefused),
            }),
            old(self)@.state != SocketState::Connecting ==> final(self)@ == old(self)@,
            old(self)@.state == SocketState::Connected ==> r is Ok,
            old(self)@.state != SocketState::Connecting && old(self)@.state
                != SocketState::Connected ==> r == Err::<(), AxError>(AxError::ConnectionRefused),
    {
        match self.state {
            SocketState::Connecting => {
                let writable = self.poll_connect(engine).writable;
                if !writable {
                    Err(AxError::WouldBlock)
                } else if self.state == SocketState::Connected {
                    Ok(())
                } else {
                    Err(AxError::ConnectionRefused)
                }
            },
            SocketState::Connected => Ok(()),
            _ => Err(AxError::ConnectionRefused),
        }
    }

    /// Moves a connecting socket on by the engine's report; writable once the
    /// handshake is resolved either way.
    fn poll_connect(&mut self, engine: TcpState) -> (r: PollState)
        requires
            old(self)@.wf(),
            old(self)@.state == SocketState::Connecting,
        ensures
            final(self)@.wf(),
            final(self)@ == old(self)@.with_state(connect_progress(engine)),
            r == (PollState { readable: false, writable: engine != TcpState::SynSent }),
    {
        let writable = match engine {
            TcpState::SynSent => false,
            TcpState::Established => {
                self.state = SocketState::Connected;
                true
            },
            _ => {
                self.state = SocketState::Closed;
                true
            },
        };
        PollState { readable: false, writable }
    }

    /// Takes the oldest connection that waits on this listening socket's
    /// port and returns it as a connected socket, with the listener's local
    /// endpoint. `InvalidInput` if the socket is not listening or its port
    /// is no longer registered; `WouldBlock` if nothing waits.
    pub fn accept(&self, table: &mut ListenTable<H>) -> (r: AxResult<TcpSocket<H>>)
        requires
            self@.wf(),
            old(table).wf(),
        ensures
            final(table).wf(),
            self@.state != SocketState::Listening ==> r is Err && r->Err_0 == AxError::InvalidInput
                && final(table)@ == old(table)@,
            self@.state == SocketState::Listening ==> {
                let port = self@.local.port;
                &&& !old(table).listening(port) ==> r is Err && r->Err_0 == AxError::InvalidInput
                    && final(table)@ == old(table)@
                &&& old(table).listening(port) && old(table)@[port].len() == 0 ==> r is Err
                    && r->Err_0 == AxError::WouldBlock && final(table)@ == old(table)@
                &&& old(table).listening(port) && old(table)@[port].len() > 0 ==> r is Ok
                    && r->Ok_0@ == (SocketModel {
                    state: SocketState::Connected,
                    handle: Some(old(table)@[port][0].0),
                    local: self@.local,
                    peer: old(table)@[port][0].1,
                    nonblocking: false,
                }) && final(table)@ == old(table)@.insert(port, old(table)@[port].drop_first())
            },
    {
        if self.state != SocketState::Listening {
            return Err(AxError::InvalidInput);
        }
        match table.accept(self.local_addr.port) {
            Ok((handle, peer_addr)) => Ok(TcpSocket::new_connected(handle, self.local_addr, peer_addr)),
            Err(e) => Err(e),
        }
    }

    /// Closes the socket. A connected socket becomes closed with its
    /// endpoints cleared, and the result names the handle whose connection
    /// the engine is to close; a listening socket becomes closed and its
    /// port leaves `table`. Any other socket is left as it is. Never fails.
    pub fn shutdown(&mut self, table: &mut ListenTable<H>) -> (r: AxResult<Option<H>>)
        requires
            old(self)@.wf(),
            old(table).wf(),
        ensures
            final(self)@.wf(),
            final(table).wf(),
            (final(self)@, r, final(table)@) == shutdown_model(old(self)@, old(table)@),
    {
        match self.state {
            SocketState::Connected => {
                self.state = SocketState::Closed;
                self.local_addr = SocketAddr::unspecified();
                self.peer_addr = SocketAddr::unspecified();
                Ok(self.handle)
            },
            SocketState::Listening => {
                table.unlisten(self.local_addr.port);
                self.state = SocketState::Closed;
                Ok(None)
            },
            _ => Ok(None),
        }
    }

    /// Decides a read from a connected socket, given the engine's `status`.
    /// `WouldBlock` while connecting, `NotConnected` unless connected;
    /// then `ConnectionRefused` if the connection is not open, zero bytes
    /// once the peer has closed, a transfer through the handle when data is
    /// queued, and `WouldBlock` when none is.
    pub fn recv(&self, status: &SocketStatus) -> (r: AxResult<StreamStep<H>>)
        requires
            self@.wf(),
        ensures
            r == (if self@.state == SocketState::Connecting {
                Err(AxError::WouldBlock)
            } else if self@.state != SocketState::Connected {
                Err(AxError::NotConnected)
            } else if !status.is_active {
                Err(AxError::ConnectionRefused)
            } else if !status.may_recv {
                Ok(StreamStep::Done(0))
            } else if status.recv_queue > 0 {
                Ok(StreamStep::Transfer(self@.handle->Some_0))
            } else {
                Err(AxError::WouldBlock)
            }),
    {
        if self.state == SocketState::Connecting {
            return Err(AxError::WouldBlock);
        } else if self.state != SocketState::Connected {
            return Err(AxError::NotConnected);
        }
        let handle = match self.handle {
            Some(h) => h,
            None => return Err(AxError::NotConnected),
        };
        if !status.is_active {
            Err(AxError::ConnectionRefused)
        } else if !status.may_recv {
            Ok(StreamStep::Done(0))
        } else if status.recv_queue > 0 {
            Ok(StreamStep::Transfer(handle))
        } else {
            Err(AxError::WouldBlock)
        }
    }

    /// Decides a write to a connected socket, given the engine's `status`,
    /// and names the handle to send through. `WouldBlock` while connecting,
    /// `NotConnected` unless connected; then `ConnectionReset` if the peer
    /// has closed, and `WouldBlock` while the transmit buffer is full.
    pub fn send(&self, status: &SocketStatus) -> (r: AxResult<H>)
        requires
            self@.wf(),
        ensures
            r == (if self@.state == SocketState::Connecting {
                Err(AxError::WouldBlock)
            } else if self@.state != SocketState::Connected {
                Err(AxError::NotConnected)
            } else if !status.is_active || !status.may_send {
                Err(AxError::ConnectionReset)
            } else if status.can_send {
                Ok(self@.handle->Some_0)
            } else {
                Err(AxError::WouldBlock)
            }),
    {
        if self.state == SocketState::Connecting {
            return Err(AxError::WouldBlock);
        } else if self.state != SocketState::Connected {
            return Err(AxError::NotConnected);
        }
        let handle = match self.handle {
            Some(h) => h,
            None => return Err(AxError::NotConnected),
        };
        if !status.is_active || !status.may_send {
            Err(AxError::ConnectionReset)
        } else if status.can_send {
            Ok(handle)
        } else {
            Err(AxError::WouldBlock)
        }
    }

    /// Whether the socket can be read or written, given the engine's
    /// `status`. A connecting socket is writable once the handshake is
    /// resolved, and moves on to connected or closed by the report; a
    /// connected one is readable when data is queued and writable when the
    /// transmit buffer has room; a listening one is readable when a
    /// connection waits in `table` (`InvalidInput` if its port is no longer
    /// registered); any other socket is neither.
    pub fn poll(&mut self, table: &ListenTable<H>, status: &SocketStatus) -> (r: AxResult<PollState>)
        requires
            old(self)@.wf(),
            table.wf(),
        ensures
            final(self)@.wf(),
            old(self)@.state == SocketState::Connecting ==> final(self)@ == old(self)@.with_state(
                connect_progress(status.state),
            ) && r == Ok::<PollState, AxError>(
                PollState { readable: false, writable: status.state != TcpState::SynSent },
            ),
            old(self)@.state != SocketState::Connecting ==> final(self)@ == old(self)@,
            old(self)@.state == SocketState::Connected ==> r == Ok::<PollState, AxError>(
                PollState { readable: status.can_recv, writable: status.can_send },
            ),
            old(self)@.state == SocketState::Listening ==> r == (if table.listening(
                old(self)@.local.port,
            ) {
                Ok(
                    PollState {
                        readable: table@[old(self)@.local.port].len() > 0,
                        writable: false,
                    },
                )
            } else {
                Err::<PollState, AxError>(AxError::InvalidInput)
            }),
            old(self)@.state == SocketState::Closed || old(self)@.state == SocketState::Busy ==> r
                == Ok::<PollState, AxError>(PollState { readable: false, writable: false }),
    {
        match self.state {
            SocketState::Connecting => Ok(self.poll_connect(status.state)),
            SocketState::Connected => Ok(
                PollState { readable: status.can_recv, writable: status.can_send },
            ),
            SocketState::Listening => match table.can_accept(self.local_addr.port) {
                Ok(readable) => Ok(PollState { readable, writable: false }),
                Err(e) => Err(e),
            },
            _ => Ok(PollState { readable: false, writable: false }),
        }
    }

    /// What the poll-retry loop does with the outcome of one attempt:
    /// `WouldBlock` on a blocking socket means try again; anything else, and
    /// `WouldBlock` on a non-blocking socket, goes back to the caller.
    pub fn retry_step<T>(&self, attempt: AxResult<T>) -> (r: Retry<T>)
        ensures
            attempt is Err && attempt->Err_0 == AxError::WouldBlock && !self@.nonblocking ==> r
                is Again,
            !(attempt is Err && attempt->Err_0 == AxError::WouldBlock && !self@.nonblocking) ==> r
                == Retry::Done(attempt),
    {
        let would_block = match &attempt {
            Err(e) => *e == AxError::WouldBlock,
            Ok(_) => false,
        };
        if would_block && !self.nonblock {
            Retry::Again
        } else {
            Retry::Done(attempt)
        }
    }

    /// The local endpoint of a connected or listening socket; `NotConnected`
    /// otherwise.
    pub fn local_addr(&self) -> (r: AxResult<SocketAddr>)
        ensures
            r == (if self@.state == SocketState::Connected || self@.state
                == SocketState::Listening {
                Ok(self@.local)
            } else {
                Err::<SocketAddr, AxError>(AxError::NotConnected)
            }),
    {
        match self.state {
            SocketState::Connected | SocketState::Listening => Ok(self.local_addr),
            _ => Err(AxError::NotConnected),
        }
    }

    /// The remote endpoint of a connected socket; `NotConnected` otherwise.
    pub fn peer_addr(&self) -> (r: AxResult<SocketAddr>)
        ensures
            r == (if self@.state == SocketState::Connected {
                Ok(self@.peer)
            } else {
                Err::<SocketAddr, AxError>(AxError::NotConnected)
            }),
    {
        match self.state {
            SocketState::Connected => Ok(self.peer_addr),
            _ => Err(AxError::NotConnected),
        }
    }

    /// Whether the socket is in non-blocking mode.
    pub fn is_nonblocking(&self) -> (r: bool)
        ensures
            r == self@.nonblocking,
    {
        self.nonblock
    }

    /// Moves the socket into or out of non-blocking mode: a non-blocking
    /// socket gets `WouldBlock` back where a blocking one would wait.
    pub fn set_nonblocking(&mut self, nonblocking: bool)
        ensures
            final(self)@ == (SocketModel { nonblocking, ..old(self)@ }),
    {
        self.nonblock = nonblocking;
    }

    /// Where the socket stands.
    pub fn state(&self) -> (r: SocketState)
        ensures
            r == self@.state,
    {
        self.state
    }

    /// The handle of the protocol socket that this socket holds, if any.
    pub fn handle(&self) -> (r: Option<H>)
        ensures
            r == self@.handle,
    {
        self.handle
    }

    /// Gives up the socket and hands back its handle, if it holds one, for
    /// the engine to release. The caller shuts the socket down first.
    pub fn into_handle(self) -> (r: Option<H>)
        ensures
            r == self@.handle,
    {
        self.handle
    }
}

/// The outcome of moving bytes through the engine: the count, or
/// `BadState` if the engine refused.
pub fn transfer_result(moved: Option<usize>) -> (r: AxResult<usize>)
    ensures
        r == (match moved {
            Some(n) => Ok(n),
            None => Err::<usize, AxError>(AxError::BadState),
        }),
{
    match moved {
        Some(n) => Ok(n),
        None => Err(AxError::BadState),
    }
}

} // verus!
