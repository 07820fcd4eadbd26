//! Properties that hold across sequences of socket and table operations.
use vstd::prelude::*;

use crate::addr::{unspecified, SocketAddr};
use crate::error::AxError;
use crate::listen_table::{accept_model, push_model, Pending};
use crate::port::{in_ephemeral_range, lemma_ephemeral};
use crate::tcp::{
    bind_model, connect_done_model, connect_model, connect_progress, listen_model, shutdown_model,
    ConnectError, ConnectRequest, SocketModel, SocketState, TcpState,
};

verus! {

/// The state of a socket follows the last operation that succeeded, and no
/// operation leaves a socket busy: `bind`, `listen`, `shutdown` and the
/// engine's progress reports keep a settled socket settled; `connect` makes
/// it busy only on success, and `connect_done` always settles it again.
pub proof fn lemma_state_follows_operations<H>(
    s: SocketModel<H>,
    addr: SocketAddr,
    curr: u16,
    table: Map<u16, Seq<Pending<H>>>,
    handle: H,
    outcome: Result<(SocketAddr, SocketAddr), ConnectError>,
    engine: TcpState,
)
    requires
        s.settled(),
    ensures
        bind_model(s, addr, curr, table.dom()).0.settled(),
        bind_model(s, addr, curr, table.dom()).1 is Ok ==> bind_model(
            s,
            addr,
            curr,
            table.dom(),
        ).0.state == SocketState::Closed,
        listen_model(s, curr, table).0.settled(),
        s.state == SocketState::Closed && listen_model(s, curr, table).1 is Ok ==> listen_model(
            s,
            curr,
            table,
        ).0.state == SocketState::Listening,
        shutdown_model(s, table).0.settled(),
        s.state == SocketState::Connected || s.state == SocketState::Listening ==> shutdown_model(
            s,
            table,
        ).0.state == SocketState::Closed,
        connect_progress(engine) != SocketState::Busy,
        connect_model(s, addr, curr, table.dom()).1 is Err ==> connect_model(
            s,
            addr,
            curr,
            table.dom(),
        ).0 == s,
        connect_model(s, addr, curr, table.dom()).1 is Ok ==> {
            let busy = connect_model(s, addr, curr, table.dom()).0;
            &&& busy.state == SocketState::Busy
            &&& connect_done_model(busy, handle, outcome).0.settled()
            &&& outcome is Ok ==> connect_done_model(busy, handle, outcome).0.state
                == SocketState::Connecting
            &&& outcome is Err ==> connect_done_model(busy, handle, outcome).0.state
                == SocketState::Closed
        },
{
}

/// Once a bind has succeeded, binding the socket again fails with
/// `InvalidInput`, whatever the address, and changes neither the socket (its
/// bound address stays) nor the port counter.
pub proof fn lemma_bind_twice<H>(
    s: SocketModel<H>,
    first: SocketAddr,
    second: SocketAddr,
    curr: u16,
    busy: Set<u16>,
    busy_later: Set<u16>,
)
    requires
        in_ephemeral_range(curr),
        bind_model(s, first, curr, busy).1 is Ok,
    ensures
        ({
            let (bound, _, next) = bind_model(s, first, curr, busy);
            bind_model(bound, second, next, busy_later) == (
                bound,
                Err::<(), AxError>(AxError::InvalidInput),
                next,
            )
        }),
{
    lemma_ephemeral(curr, busy);
    let bound = bind_model(s, first, curr, busy).0;
    assert(bound.local.port != 0);
    assert(bound.local != unspecified());
}

/// Listening twice on a closed socket succeeds both times: the first call
/// registers the socket's port in the table, and the second changes
/// nothing, so the table holds that port once, with the queue it had.
pub proof fn lemma_listen_twice<H>(s: SocketModel<H>, curr: u16, table: Map<u16, Seq<Pending<H>>>)
    requires
        in_ephemeral_range(curr),
        s.state == SocketState::Closed,
        listen_model(s, curr, table).1 is Ok,
    ensures
        ({
            let (listening, _, next, t) = listen_model(s, curr, table);
            &&& listening.state == SocketState::Listening
            &&& t.contains_key(listening.local.port)
            &&& t.dom() == table.dom().insert(listening.local.port)
            &&& listen_model(listening, next, t) == (
                listening,
                Ok::<(), AxError>(()),
                next,
                t,
            )
        }),
{
    let (listening, _, next, t) = listen_model(s, curr, table);
    assert(t.dom() =~= table.dom().insert(listening.local.port));
}

/// `connect` on a socket that is connecting or connected fails with
/// `AlreadyExists` and changes neither the socket nor the port counter; in
/// particular a second `connect` after one that got under way.
pub proof fn lemma_connect_when_connected<H>(
    s: SocketModel<H>,
    addr: SocketAddr,
    again: SocketAddr,
    curr: u16,
    busy: Set<u16>,
    handle: H,
    endpoints: (SocketAddr, SocketAddr),
)
    ensures
        s.state == SocketState::Connecting || s.state == SocketState::Connected ==> connect_model(
            s,
            addr,
            curr,
            busy,
        ) == (s, Err::<ConnectRequest<H>, AxError>(AxError::AlreadyExists), curr),
        connect_model(s, addr, curr, busy).1 is Ok ==> ({
            let (started, _, next) = connect_model(s, addr, curr, busy);
            let (connecting, _) = connect_done_model(started, handle, Ok(endpoints));
            &&& connecting.state == SocketState::Connecting
            &&& connect_model(connecting, again, next, busy) == (
                connecting,
                Err::<ConnectRequest<H>, AxError>(AxError::AlreadyExists),
                next,
            )
        }),
{
}

/// Connections are accepted in the order the engine queued them: on a
/// listening port with nothing waiting, queuing `first` then `second` and
/// accepting twice yields `first`, then `second`, and leaves the table as
/// it was.
pub proof fn lemma_accept_in_order<H>(
    t: Map<u16, Seq<Pending<H>>>,
    port: u16,
    first: Pending<H>,
    second: Pending<H>,
)
    requires
        t.contains_key(port),
        t[port].len() == 0,
    ensures
        ({
            let (r1, t1) = push_model(t, port, first);
            let (r2, t2) = push_model(t1, port, second);
            let (a1, t3) = accept_model(t2, port);
            let (a2, t4) = accept_model(t3, port);
            &&& r1 is Ok && r2 is Ok
            &&& a1 == Ok::<Pending<H>, AxError>(first)
            &&& a2 == Ok::<Pending<H>, AxError>(second)
            &&& t4 == t
        }),
{
    let (_, t1) = push_model(t, port, first);
    let (_, t2) = push_model(t1, port, second);
    assert(t2[port] =~= seq![first, second]);
    let (_, t3) = accept_model(t2, port);
    assert(t3[port] =~= seq![second]);
    let (_, t4) = accept_model(t3, port);
    assert(t4[port] =~= t[port]);
    assert(t4 =~= t);
}

/// `shutdown` never fails. On a closed, connected or listening socket,
/// calling it twice in a row leaves the socket closed, and the second call
/// changes nothing.
pub proof fn lemma_shutdown_twice<H>(s: SocketModel<H>, table: Map<u16, Seq<Pending<H>>>)
    ensures
        shutdown_model(s, table).1 is Ok,
        s.state == SocketState::Closed || s.state == SocketState::Connected || s.state
            == SocketState::Listening ==> ({
            let (closed, _, t) = shutdown_model(s, table);
            &&& closed.state == SocketState::Closed
            &&& shutdown_model(closed, t) == (closed, Ok::<Option<H>, AxError>(None), t)
        }),
{
}

} // verus!
