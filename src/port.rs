use vstd::prelude::*;

use crate::error::{AxError, AxResult};
use crate::listen_table::ListenTable;

verus! {

/// The first port handed out automatically.
pub const PORT_START: u16 = 0xc000;

/// The last port handed out automatically.
pub const PORT_END: u16 = 0xffff;

/// How many ports lie in `PORT_START..=PORT_END`.
pub const NUM_EPHEMERAL: u32 = 0x4000;

/// Whether `p` lies in the range of ports handed out automatically.
pub open spec fn in_ephemeral_range(p: u16) -> bool {
    PORT_START <= p
}

/// The port `k` steps after `start`, going round the range from its end to its start.
pub open spec fn port_after(start: u16, k: int) -> u16 {
    if start as int + k <= PORT_END as int {
        (start as int + k) as u16
    } else {
        (start as int + k - NUM_EPHEMERAL as int) as u16
    }
}

/// The port that follows `p` in the range.
pub open spec fn next_port(p: u16) -> u16 {
    if p == PORT_END {
        PORT_START
    } else {
        (p + 1) as u16
    }
}

/// The number of steps, from the `k`-th step after `start` on, to the first
/// port outside `busy`, if one comes before the range has been gone round.
pub open spec fn first_free(start: u16, busy: Set<u16>, k: int) -> Option<int>
    decreases NUM_EPHEMERAL as int - k,
{
    if k < 0 || k >= NUM_EPHEMERAL as int {
        None
    } else if !busy.contains(port_after(start, k)) {
        Some(k)
    } else {
        first_free(start, busy, k + 1)
    }
}

/// What allocating from the counter `curr` yields while the ports in `busy`
/// are listening: the port, or `NoMemory`, and the new counter.
pub open spec fn ephemeral(curr: u16, busy: Set<u16>) -> (AxResult<u16>, u16) {
    match first_free(curr, busy, 0) {
        Some(k) => (Ok(port_after(curr, k)), next_port(port_after(curr, k))),
        None => (Err(AxError::NoMemory), curr),
    }
}

proof fn lemma_first_free_found(start: u16, busy: Set<u16>, k: int)
    requires
        0 <= k,
        first_free(start, busy, k) is Some,
    ensures
        k <= first_free(start, busy, k)->Some_0 < NUM_EPHEMERAL,
        !busy.contains(port_after(start, first_free(start, busy, k)->Some_0)),
    decreases NUM_EPHEMERAL as int - k,
{
    if k < NUM_EPHEMERAL && busy.contains(port_after(start, k)) {
        lemma_first_free_found(start, busy, k + 1);
    }
}

proof fn lemma_first_free_none(start: u16, busy: Set<u16>, k: int, j: int)
    requires
        0 <= k <= j < NUM_EPHEMERAL,
        first_free(start, busy, k) is None,
    ensures
        busy.contains(port_after(start, j)),
    decreases j - k,
{
    if k < j {
        lemma_first_free_none(start, busy, k + 1, j);
    }
}

/// Allocation hands out a port of the range that is not listening, and
/// fails with `NoMemory` exactly when every port of the range is listening.
pub proof fn lemma_ephemeral(curr: u16, busy: Set<u16>)
    requires
        in_ephemeral_range(curr),
    ensures
        ephemeral(curr, busy).0 is Ok ==> in_ephemeral_range(ephemeral(curr, busy).0->Ok_0)
            && !busy.contains(ephemeral(curr, busy).0->Ok_0),
        in_ephemeral_range(ephemeral(curr, busy).1),
        ephemeral(curr, busy).0 is Err <==> (forall|p: u16|
            in_ephemeral_range(p) ==> busy.contains(p)),
        ephemeral(curr, busy).0 is Err ==> ephemeral(curr, busy).0 == Err::<u16, AxError>(
            AxError::NoMemory,
        ),
{
    if first_free(curr, busy, 0) is Some {
        lemma_first_free_found(curr, busy, 0);
        let p = port_after(curr, first_free(curr, busy, 0)->Some_0);
        assert(in_ephemeral_range(p));
    } else {
        assert forall|p: u16| in_ephemeral_range(p) implies busy.contains(p) by {
            let j: int = if p >= curr {
                p - curr
            } else {
                p + NUM_EPHEMERAL - curr
            };
            lemma_first_free_none(curr, busy, 0, j);
            assert(port_after(curr, j) == p);
        }
    }
}

/// The counter from which ephemeral ports are handed out, scanning the range
/// `PORT_START..=PORT_END` round and round.
pub struct PortAllocator {
    curr: u16,
}

impl View for PortAllocator {
    /// The next port to try.
    type V = u16;

    closed spec fn view(&self) -> u16 {
        self.curr
    }
}

impl PortAllocator {
    /// The counter lies in the range.
    pub open spec fn wf(&self) -> bool {
        in_ephemeral_range(self@)
    }

    /// Creates a counter at the start of the range.
    pub fn new() -> (r: PortAllocator)
        ensures
            r.wf(),
            r@ == PORT_START,
    {
        PortAllocator { curr: PORT_START }
    }

    /// Hands out the first port from the counter on that `table` does not
    /// hold as listening, and moves the counter past it. When every port of
    /// the range is listening it fails with `NoMemory`.
    pub fn get_ephemeral_port<H>(&mut self, table: &ListenTable<H>) -> (r: AxResult<u16>)
        requires
            old(self).wf(),
            table.wf(),
        ensures
            final(self).wf(),
            (r, final(self)@) == ephemeral(old(self)@, table@.dom()),
            r is Ok ==> in_ephemeral_range(r->Ok_0) && table.can_listen_spec(r->Ok_0),
            r is Err <==> (forall|p: u16| in_ephemeral_range(p) ==> table.listening(p)),
            r is Err ==> r == Err::<u16, AxError>(AxError::NoMemory),
    {
        let ghost start = self.curr;
        let ghost busy = table@.dom();
        let mut tries: u32 = 0;
        while tries < NUM_EPHEMERAL
            invariant
                in_ephemeral_range(start),
                start == old(self)@,
                busy == table@.dom(),
                table.wf(),
                tries <= NUM_EPHEMERAL,
                self.curr == port_after(start, tries as int),
                first_free(start, busy, 0) == first_free(start, busy, tries as int),
            decreases NUM_EPHEMERAL - tries,
        {
            let port = self.curr;
            self.curr = if port == PORT_END {
                PORT_START
            } else {
                port + 1
            };
            if table.can_listen(port) {
                proof {
                    assert(!busy.contains(port));
                    assert(first_free(start, busy, tries as int) == Some(tries as int));
                    lemma_ephemeral(start, busy);
                }
                return Ok(port);
            }
            tries = tries + 1;
        }
        proof {
            lemma_ephemeral(start, busy);
        }
        Err(AxError::NoMemory)
    }
}

} // verus!
