//! Plain data types and constants shared by the kernel's interfaces.
use vstd::prelude::*;

verus! {

/// Unspecified address family.
pub const AF_UNSPEC: i32 = 0;

/// IPv4 address family.
pub const AF_INET: i32 = 2;

/// Stream socket type.
pub const SOCK_STREAM: i32 = 1;

/// Datagram socket type.
pub const SOCK_DGRAM: i32 = 2;

/// Nanoseconds in a second.
pub const NSEC_PER_SEC: u64 = 1_000_000_000;

/// The wall clock.
pub const CLOCK_REALTIME: u64 = 1;

/// The monotonic clock.
pub const CLOCK_MONOTONIC: u64 = 4;

/// A point in time, as used by `clock_gettime`.
#[allow(non_camel_case_types)]
#[derive(Copy, Clone, Debug)]
pub struct timespec {
    /// Seconds.
    pub tv_sec: i64,
    /// Nanoseconds.
    pub tv_nsec: i64,
}

/// What a user-level handle refers to, with its index.
pub enum HandleType {
    File(usize),
    ReadDir(usize),
    Socket(usize),
    Thread(usize),
}

} // verus!
