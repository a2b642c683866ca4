//! The FIFO queue backing one direction of a supervision channel.

use vstd::prelude::*;
use crate::packet::Packet;
use crate::packet::PACKET_SIZE;

verus! {

/// An unbounded, ordered holder of pending packets.
///
/// `send` appends to the tail and never fails; `receive` removes and
/// returns the head. A receiver blocks until a packet is available; that
/// suspension is the scheduler's affair, so here `receive` simply demands
/// a nonempty queue — the state in which a blocked receiver is resumed.
///
/// The queue is viewed as the sequence of the byte contents of its
/// pending packets, oldest first.
pub struct WaitQueue {
    items: Vec<Packet>,
}

impl View for WaitQueue {
    type V = Seq<Seq<u8>>;

    closed spec fn view(&self) -> Seq<Seq<u8>> {
        self.items@.map_values(|p: Packet| p@)
    }
}

impl WaitQueue {
    /// Every pending packet holds exactly `PACKET_SIZE` bytes.
    pub open spec fn wf(self) -> bool {
        forall|i: int| 0 <= i < self@.len() ==> (#[trigger] self@[i]).len() == PACKET_SIZE
    }

    /// A fresh queue with nothing pending.
    pub fn new() -> (q: WaitQueue)
        ensures
            q@.len() == 0,
            q.wf(),
    {
        WaitQueue { items: Vec::new() }
    }

    /// How many packets are pending.
    pub fn len(&self) -> (n: usize)
        ensures
            n == self@.len(),
    {
        self.items.len()
    }

    /// Append one packet at the tail. Never blocks and never fails; a
    /// waiting receiver is simply handed the head once one exists.
    pub fn send(&mut self, p: Packet)
        requires
            p.wf(),
            old(self).wf(),
        ensures
            final(self)@ == old(self)@.push(p@),
            final(self).wf(),
    {
        self.items.push(p);
        proof {
            assert(self@ =~= old(self)@.push(p@));
        }
    }

    /// Remove and return the head packet, in the order `send` inserted
    /// them. The caller must have waited until the queue is nonempty.
    pub fn receive(&mut self) -> (p: Packet)
        requires
            old(self)@.len() > 0,
            old(self).wf(),
        ensures
            p@ == old(self)@[0],
            p.wf(),
            final(self)@ == old(self)@.drop_first(),
            final(self).wf(),
    {
        let p = self.items.remove(0);
        proof {
            assert(self@ =~= old(self)@.drop_first());
            assert(old(self)@[0].len() == PACKET_SIZE);
        }
        p
    }

    /// Discard every pending packet.
    pub fn clear(&mut self)
        ensures
            final(self)@.len() == 0,
            final(self).wf(),
    {
        self.items.clear();
    }
}

} // verus!
