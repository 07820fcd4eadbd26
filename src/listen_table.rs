use std::collections::VecDeque;
use vstd::prelude::*;

use crate::addr::SocketAddr;
use crate::error::{AxError, AxResult};

verus! {

/// The number of slots of a listen table: one for each port.
pub const NUM_SLOTS: usize = 65536;

/// The most connections that may wait to be accepted on one port.
pub const LISTEN_QUEUE_SIZE: usize = 512;

/// A connection that the packet engine has completed and that waits to be
/// accepted: the engine's handle and the remote endpoint.
pub type Pending<H> = (H, SocketAddr);

/// What taking the oldest connection waiting on `port` yields from a table
/// `t`: the connection or the error, and the table after.
pub open spec fn accept_model<H>(t: Map<u16, Seq<Pending<H>>>, port: u16) -> (
    AxResult<Pending<H>>,
    Map<u16, Seq<Pending<H>>>,
) {
    if !t.contains_key(port) {
        (Err(AxError::InvalidInput), t)
    } else if t[port].len() == 0 {
        (Err(AxError::WouldBlock), t)
    } else {
        (Ok(t[port][0]), t.insert(port, t[port].drop_first()))
    }
}

/// What queuing `entry` on `port` yields from a table `t`: success or the
/// error, and the table after.
pub open spec fn push_model<H>(t: Map<u16, Seq<Pending<H>>>, port: u16, entry: Pending<H>) -> (
    AxResult,
    Map<u16, Seq<Pending<H>>>,
) {
    if !t.contains_key(port) {
        (Err(AxError::InvalidInput), t)
    } else if t[port].len() >= LISTEN_QUEUE_SIZE {
        (Err(AxError::ResourceBusy), t)
    } else {
        (Ok(()), t.insert(port, t[port].push(entry)))
    }
}

/// The registry of listening ports. Each listening port holds the queue of
/// connections that wait to be accepted, oldest first.
pub struct ListenTable<H> {
    slots: Vec<Option<VecDeque<Pending<H>>>>,
}

impl<H> View for ListenTable<H> {
    /// The listening ports, each with its queue of pending connections.
    type V = Map<u16, Seq<Pending<H>>>;

    closed spec fn view(&self) -> Map<u16, Seq<Pending<H>>> {
        Map::new(
            |p: u16| self.slots@[p as int] is Some,
            |p: u16| self.slots@[p as int]->Some_0@,
        )
    }
}

impl<H> ListenTable<H> {
    /// The table holds a slot for each port, and no queue is over capacity.
    pub closed spec fn wf(&self) -> bool {
        &&& self.slots@.len() == NUM_SLOTS
        &&& forall|i: int|
            0 <= i < NUM_SLOTS && (#[trigger] self.slots@[i]) is Some
                ==> self.slots@[i]->Some_0@.len() <= LISTEN_QUEUE_SIZE
    }

    /// Whether `port` is registered as listening.
    pub open spec fn listening(&self, port: u16) -> bool {
        self@.contains_key(port)
    }

    /// Whether `port` is free for a new listener.
    pub open spec fn can_listen_spec(&self, port: u16) -> bool {
        !self.listening(port)
    }

    /// Creates a table with no listening port.
    pub fn new() -> (r: ListenTable<H>)
        ensures
            r.wf(),
            r@ == Map::<u16, Seq<Pending<H>>>::empty(),
    {
        let mut slots: Vec<Option<VecDeque<Pending<H>>>> = Vec::with_capacity(NUM_SLOTS);
        let mut i: usize = 0;
        while i < NUM_SLOTS
            invariant
                i <= NUM_SLOTS,
                slots@.len() == i,
                forall|j: int| 0 <= j < i ==> (#[trigger] slots@[j]) is None,
            decreases NUM_SLOTS - i,
        {
            slots.push(None);
            i = i + 1;
        }
        let r = ListenTable { slots };
        assert(r@ =~= Map::<u16, Seq<Pending<H>>>::empty());
        r
    }

    /// Whether `port` is free for a new listener, that is, not listening.
    pub fn can_listen(&self, port: u16) -> (r: bool)
        requires
            self.wf(),
        ensures
            r == self.can_listen_spec(port),
    {
        self.slots[port as usize].is_none()
    }

    /// Registers `port` as listening, with an empty queue. A port that is
    /// already listening is left as it is, and that is no error. Port 0 is
    /// refused with `InvalidInput`.
    pub fn listen(&mut self, port: u16) -> (r: AxResult)
        requires
            old(self).wf(),
        ensures
            final(self).wf(),
            port == 0 ==> r == Err::<(), AxError>(AxError::InvalidInput) && final(self)@ == old(self)@,
            port != 0 ==> r is Ok,
            port != 0 && old(self).listening(port) ==> final(self)@ == old(self)@,
            port != 0 && !old(self).listening(port) ==> final(self)@ == old(self)@.insert(
                port,
                Seq::empty(),
            ),
    {
        if port == 0 {
            return Err(AxError::InvalidInput);
        }
        if self.slots[port as usize].is_none() {
            self.slots.set(port as usize, Some(VecDeque::new()));
            assert(self@ =~= old(self)@.insert(port, Seq::empty()));
        }
        Ok(())
    }

    /// Unregisters `port`, dropping the connections that still wait on it.
    pub fn unlisten(&mut self, port: u16)
        requires
            old(self).wf(),
        ensures
            final(self).wf(),
            final(self)@ == old(self)@.remove(port),
    {
        self.slots.set(port as usize, None);
        assert(self@ =~= old(self)@.remove(port));
    }

    /// Whether a connection waits to be accepted on `port`; `InvalidInput`
    /// if `port` is not listening.
    pub fn can_accept(&self, port: u16) -> (r: AxResult<bool>)
        requires
            self.wf(),
        ensures
            !self.listening(port) ==> r == Err::<bool, AxError>(AxError::InvalidInput),
            self.listening(port) ==> r == Ok::<bool, AxError>(self@[port].len() > 0),
    {
        match &self.slots[port as usize] {
            Some(queue) => Ok(queue.len() > 0),
            None => Err(AxError::InvalidInput),
        }
    }

    /// Takes the oldest connection that waits on `port`. `InvalidInput` if
    /// `port` is not listening, `WouldBlock` if nothing waits.
    pub fn accept(&mut self, port: u16) -> (r: AxResult<Pending<H>>)
        requires
            old(self).wf(),
        ensures
            final(self).wf(),
            (r, final(self)@) == accept_model(old(self)@, port),
    {
        let ghost old_slots = self.slots@;
        match &mut self.slots[port as usize] {
            Some(queue) => match queue.pop_front() {
                Some(pending) => {
                    proof {
                        assert(self.slots@ == old_slots.update(port as int, self.slots@[port as int]));
                        assert(self@ =~= old(self)@.insert(port, old(self)@[port].drop_first()));
                    }
                    Ok(pending)
                },
                None => {
                    assert(self@ =~= old(self)@);
                    Err(AxError::WouldBlock)
                },
            },
            None => {
                assert(self@ =~= old(self)@);
                Err(AxError::InvalidInput)
            },
        }
    }
    /// Queues a connection that the packet engine completed on `port`, behind
    /// those already waiting. `InvalidInput` if `port` is not listening,
    /// `ResourceBusy` if its queue is full; the connection is then not queued.
    pub fn push_incoming(&mut self, port: u16, handle: H, peer: SocketAddr) -> (r: AxResult)
        requires
            old(self).wf(),
        ensures
            final(self).wf(),
            (r, final(self)@) == push_model(old(self)@, port, (handle, peer)),
    {
        let ghost old_slots = self.slots@;
        match &mut self.slots[port as usize] {
            Some(queue) => {
                if queue.len() >= LISTEN_QUEUE_SIZE {
                    assert(self@ =~= old(self)@);
                    Err(AxError::ResourceBusy)
                } else {
                    queue.push_back((handle, peer));
                    proof {
                        assert(self.slots@ == old_slots.update(port as int, self.slots@[port as int]));
                        assert(self@ =~= old(self)@.insert(port, old(self)@[port].push((handle, peer))));
                    }
                    Ok(())
                }
            },
            None => {
                assert(self@ =~= old(self)@);
                Err(AxError::InvalidInput)
            },
        }
    }
}

} // verus!
