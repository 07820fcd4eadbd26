//! Core pieces of a unikernel: the TCP socket layer of the network stack,
//! its error codes, and a few plain data types shared with the rest of the
//! kernel.
//!
//! The socket layer is made of the socket state machine ([`tcp`]), the
//! registry of listening ports with their queues of pending connections
//! ([`listen_table`]) and the ephemeral port counter ([`port`]). The packet
//! engine and the scheduler stay outside: the caller reports the engine's
//! view of a connection to the socket, performs what the socket asks of the
//! engine, and runs the poll-retry loop that [`tcp::TcpSocket::retry_step`]
//! decides. [`laws`] states what holds across sequences of operations.

use vstd::prelude::*;

pub mod addr;
pub mod api;
pub mod base;
pub mod context;
pub mod error;
pub mod listen_table;
pub mod port;
pub mod tcp;
pub mod laws;

verus! {

} // verus!
