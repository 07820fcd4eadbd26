//! Small decisions behind the kernel's console and futex calls.
use vstd::prelude::*;

verus! {

/// Normalizes a byte read from the console: a carriage return becomes a
/// line feed; other bytes, and the absence of a byte, pass unchanged.
pub fn ax_console_read_byte(byte: Option<u8>) -> (r: Option<u8>)
    ensures
        r == (match byte {
            Some(c) => Some(if c == 13u8 { 10u8 } else { c }),
            None => None,
        }),
{
    match byte {
        Some(c) => Some(if c == 13u8 { 10u8 } else { c }),
        None => None,
    }
}

/// Which waiters a futex wake-up releases.
#[derive(Clone, Copy, Debug, PartialEq, Eq, Structural)]
pub enum FutexWake {
    /// Every waiter.
    All,
    /// At most this many waiters, one at a time.
    Count(u32),
}

/// Which waiters a wake-up of `count` releases: `i32::MAX` means all of
/// them; otherwise `count` of them, and none for a count below one.
pub fn sys_futex_wake(count: i32) -> (r: FutexWake)
    ensures
        count == i32::MAX ==> r == FutexWake::All,
        count != i32::MAX && count > 0 ==> r == FutexWake::Count(count as u32),
        count <= 0 ==> r == FutexWake::Count(0),
{
    if count == i32::MAX {
        FutexWake::All
    } else if count > 0 {
        FutexWake::Count(count as u32)
    } else {
        FutexWake::Count(0)
    }
}

} // verus!
