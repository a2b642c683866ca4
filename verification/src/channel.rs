//! The channel pair: two FIFO queues arranged so that each endpoint owns
//! the queue it reads from and only checks liveness before writing to the
//! queue the peer reads from.
//!
//! The supervised side reads responses and writes requests; the
//! supervisor side reads requests and writes responses. A queue lives
//! exactly as long as its reading endpoint: closing an endpoint discards
//! the packets still pending for it, and every later write aimed at that
//! endpoint fails with a broken-pipe error instead of blocking or
//! leaking.

use vstd::prelude::*;
use crate::error::Error;
use crate::packet::Packet;
use crate::packet::PACKET_SIZE;
use crate::queue::WaitQueue;

verus! {

/// Which endpoint of a channel pair a handle stands for.
#[derive(Clone, Copy, PartialEq, Eq, Structural, Debug)]
pub enum Side {
    /// The endpoint installed into the supervised process's record: it
    /// reads responses and writes requests.
    Supervised,
    /// The endpoint handed to the attaching parent: it reads requests
    /// and writes responses.
    Supervisor,
}

/// The opposite endpoint of a channel pair.
pub open spec fn peer(side: Side) -> Side {
    match side {
        Side::Supervised => Side::Supervisor,
        Side::Supervisor => Side::Supervised,
    }
}

impl Side {
    /// The opposite endpoint of a channel pair.
    pub fn opposite(self) -> (s: Side)
        ensures
            s == peer(self),
    {
        match self {
            Side::Supervised => Side::Supervisor,
            Side::Supervisor => Side::Supervised,
        }
    }
}

/// The abstract state of a channel pair: the byte contents of the two
/// queues, oldest packet first, and whether each queue's reading endpoint
/// is still alive.
#[verifier::ext_equal]
pub struct ChannelView {
    /// Packets travelling from the supervised process to the supervisor.
    pub request: Seq<Seq<u8>>,
    /// Packets travelling from the supervisor to the supervised process.
    pub response: Seq<Seq<u8>>,
    /// Whether the supervisor endpoint, the reader of `request`, is alive.
    pub request_reader_alive: bool,
    /// Whether the supervised endpoint, the reader of `response`, is alive.
    pub response_reader_alive: bool,
}

impl ChannelView {
    /// The queue the given endpoint reads from.
    pub open spec fn recv_queue(self, side: Side) -> Seq<Seq<u8>> {
        match side {
            Side::Supervised => self.response,
            Side::Supervisor => self.request,
        }
    }

    /// The queue the given endpoint writes to: the one its peer reads.
    pub open spec fn send_queue(self, side: Side) -> Seq<Seq<u8>> {
        self.recv_queue(peer(side))
    }

    /// Whether the given endpoint, as the reader of its own queue, is
    /// still alive.
    pub open spec fn reader_alive(self, side: Side) -> bool {
        match side {
            Side::Supervised => self.response_reader_alive,
            Side::Supervisor => self.request_reader_alive,
        }
    }

    /// A channel is well formed when a dead reader's queue holds nothing
    /// (its packets were discarded with it) and every pending packet has
    /// exactly `PACKET_SIZE` bytes.
    pub open spec fn wf(self) -> bool {
        &&& !self.request_reader_alive ==> self.request.len() == 0
        &&& !self.response_reader_alive ==> self.response.len() == 0
        &&& forall|i: int| 0 <= i < self.request.len() ==> (#[trigger] self.request[i]).len() == PACKET_SIZE
        &&& forall|i: int| 0 <= i < self.response.len() ==> (#[trigger] self.response[i]).len() == PACKET_SIZE
    }

    /// The state of a freshly built pair: both queues empty, both
    /// endpoints alive.
    pub open spec fn is_fresh(self) -> bool {
        &&& self.request.len() == 0
        &&& self.response.len() == 0
        &&& self.request_reader_alive
        &&& self.response_reader_alive
    }

    /// Replace the queue the given endpoint writes to.
    pub open spec fn with_send_queue(self, side: Side, q: Seq<Seq<u8>>) -> ChannelView {
        match side {
            Side::Supervised => ChannelView { request: q, ..self },
            Side::Supervisor => ChannelView { response: q, ..self },
        }
    }

    /// Replace the queue the given endpoint reads from.
    pub open spec fn with_recv_queue(self, side: Side, q: Seq<Seq<u8>>) -> ChannelView {
        match side {
            Side::Supervised => ChannelView { response: q, ..self },
            Side::Supervisor => ChannelView { request: q, ..self },
        }
    }

    /// What a write of the buffer `b` on the given endpoint returns:
    /// the full packet size on success, `InvalidArgument` for a buffer of
    /// any other length, `BrokenPipe` once the peer endpoint is gone.
    pub open spec fn write_result(self, side: Side, b: Seq<u8>) -> Result<usize, Error> {
        if b.len() != PACKET_SIZE {
            Err(Error::InvalidArgument)
        } else if !self.reader_alive(peer(side)) {
            Err(Error::BrokenPipe)
        } else {
            Ok(PACKET_SIZE)
        }
    }

    /// The channel after a write of the buffer `b` on the given endpoint:
    /// on success the packet joins the tail of the queue the peer reads;
    /// on any failure nothing changes.
    pub open spec fn after_write(self, side: Side, b: Seq<u8>) -> ChannelView {
        if self.write_result(side, b) is Ok {
            self.with_send_queue(side, self.send_queue(side).push(b))
        } else {
            self
        }
    }

    /// What a read into a buffer of length `len` on the given endpoint
    /// returns: the full packet size, or `InvalidArgument` for a buffer
    /// of any other length.
    pub open spec fn read_result(self, side: Side, len: nat) -> Result<usize, Error> {
        if len != PACKET_SIZE {
            Err(Error::InvalidArgument)
        } else {
            Ok(PACKET_SIZE)
        }
    }

    /// The packet a read on the given endpoint receives: the head of the
    /// queue this endpoint owns.
    pub open spec fn received(self, side: Side) -> Seq<u8> {
        self.recv_queue(side)[0]
    }

    /// The channel after a read into a buffer of length `len` on the
    /// given endpoint: on success the head packet leaves the queue this
    /// endpoint owns; a rejected buffer leaves every queue untouched.
    pub open spec fn after_read(self, side: Side, len: nat) -> ChannelView {
        if len == PACKET_SIZE {
            self.with_recv_queue(side, self.recv_queue(side).drop_first())
        } else {
            self
        }
    }

    /// The channel after the given endpoint is dropped: the queue it was
    /// reading is discarded with everything still pending in it, and its
    /// peer's future writes fail.
    pub open spec fn after_close(self, side: Side) -> ChannelView {
        match side {
            Side::Supervised => ChannelView {
                response: Seq::empty(),
                response_reader_alive: false,
                ..self
            },
            Side::Supervisor => ChannelView {
                request: Seq::empty(),
                request_reader_alive: false,
                ..self
            },
        }
    }
}

/// A channel pair: the two queues together with the liveness of their
/// reading endpoints. The pair is the shared arena both endpoint handles
/// operate on; the handles themselves carry only their side.
pub struct Channel {
    request: WaitQueue,
    response: WaitQueue,
    request_reader_alive: bool,
    response_reader_alive: bool,
}

impl View for Channel {
    type V = ChannelView;

    closed spec fn view(&self) -> ChannelView {
        ChannelView {
            request: self.request@,
            response: self.response@,
            request_reader_alive: self.request_reader_alive,
            response_reader_alive: self.response_reader_alive,
        }
    }
}

impl Channel {
    /// A well-formed channel view makes both underlying queues well
    /// formed.
    proof fn lemma_queues_wf(&self)
        requires
            self@.wf(),
        ensures
            self.request.wf(),
            self.response.wf(),
    {
        let v = self@;
        assert forall|i: int| 0 <= i < self.request@.len() implies (#[trigger] self.request@[i]).len()
            == PACKET_SIZE by {
            assert(v.request[i].len() == PACKET_SIZE);
        }
        assert forall|i: int| 0 <= i < self.response@.len() implies (#[trigger] self.response@[i]).len()
            == PACKET_SIZE by {
            assert(v.response[i].len() == PACKET_SIZE);
        }
    }

    /// Allocate a fresh pair of queues with both endpoints alive and
    /// nothing pending in either direction.
    pub fn new() -> (c: Channel)
        ensures
            c@.is_fresh(),
            c@.wf(),
    {
        Channel {
            request: WaitQueue::new(),
            response: WaitQueue::new(),
            request_reader_alive: true,
            response_reader_alive: true,
        }
    }

    /// How many packets are pending for the given endpoint to read.
    pub fn pending(&self, side: Side) -> (n: usize)
        ensures
            n == self@.recv_queue(side).len(),
    {
        match side {
            Side::Supervised => self.response.len(),
            Side::Supervisor => self.request.len(),
        }
    }

    /// Whether the given endpoint is still alive as the reader of its
    /// own queue.
    pub fn reader_alive(&self, side: Side) -> (alive: bool)
        ensures
            alive == self@.reader_alive(side),
    {
        match side {
            Side::Supervised => self.response_reader_alive,
            Side::Supervisor => self.request_reader_alive,
        }
    }

    /// Append a packet to the queue the given endpoint writes to. The
    /// caller has already checked the buffer length and the peer's
    /// liveness; this is the committed half of a successful write.
    pub(crate) fn enqueue(&mut self, side: Side, p: Packet)
        requires
            old(self)@.wf(),
            old(self)@.reader_alive(peer(side)),
            p.wf(),
        ensures
            final(self)@ == old(self)@.with_send_queue(side, old(self)@.send_queue(side).push(p@)),
            final(self)@.wf(),
    {
        proof {
            self.lemma_queues_wf();
        }
        match side {
            Side::Supervised => self.request.send(p),
            Side::Supervisor => self.response.send(p),
        }
        proof {
            assert(self@ =~= old(self)@.with_send_queue(side, old(self)@.send_queue(side).push(p@)));
        }
    }

    /// Remove and return the head packet of the queue the given endpoint
    /// reads from. The caller blocks until one is pending.
    pub(crate) fn dequeue(&mut self, side: Side) -> (p: Packet)
        requires
            old(self)@.wf(),
            old(self)@.recv_queue(side).len() > 0,
        ensures
            p.wf(),
            p@ == old(self)@.received(side),
            final(self)@ == old(self)@.with_recv_queue(side, old(self)@.recv_queue(side).drop_first()),
            final(self)@.wf(),
    {
        proof {
            self.lemma_queues_wf();
        }
        let p = match side {
            Side::Supervised => self.response.receive(),
            Side::Supervisor => self.request.receive(),
        };
        proof {
            assert(self@ =~= old(self)@.with_recv_queue(side, old(self)@.recv_queue(side).drop_first()));
        }
        p
    }

    /// Mark the given endpoint dead and discard the packets still pending
    /// in the queue it was reading.
    pub(crate) fn drop_reader(&mut self, side: Side)
        requires
            old(self)@.wf(),
        ensures
            final(self)@ == old(self)@.after_close(side),
            final(self)@.wf(),
    {
        match side {
            Side::Supervised => {
                self.response.clear();
                self.response_reader_alive = false;
            },
            Side::Supervisor => {
                self.request.clear();
                self.request_reader_alive = false;
            },
        }
        proof {
            assert(self@ =~= old(self)@.after_close(side));
        }
    }
}

/// A buffer of any length other than `PACKET_SIZE` is rejected with
/// `InvalidArgument` by both `read` and `write`, on either endpoint, and
/// leaves every queue and liveness flag untouched.
pub proof fn lemma_wrong_size_rejected(v: ChannelView, side: Side, len: nat)
    requires
        len != PACKET_SIZE,
    ensures
        forall|b: Seq<u8>| b.len() == len ==> #[trigger] v.write_result(side, b) == Err::<usize, Error>(
            Error::InvalidArgument,
        ),
        forall|b: Seq<u8>| b.len() == len ==> #[trigger] v.after_write(side, b) == v,
        v.read_result(side, len) == Err::<usize, Error>(Error::InvalidArgument),
        v.after_read(side, len) == v,
{
}

/// Round trip: a packet written on one endpoint joins the tail of the
/// queue its peer reads, byte-identical; when nothing was pending ahead
/// of it, the peer's next read receives exactly those bytes and leaves
/// the queue as it began. Both directions are instances of this law.
pub proof fn lemma_round_trip(v: ChannelView, side: Side, b: Seq<u8>)
    requires
        v.wf(),
        b.len() == PACKET_SIZE,
        v.reader_alive(peer(side)),
    ensures
        v.write_result(side, b) == Ok::<usize, Error>(PACKET_SIZE),
        v.after_write(side, b).recv_queue(peer(side)) == v.send_queue(side).push(b),
        v.send_queue(side).len() == 0 ==> v.after_write(side, b).received(peer(side)) == b,
        v.send_queue(side).len() == 0 ==> v.after_write(side, b).after_read(
            peer(side),
            PACKET_SIZE as nat,
        ).recv_queue(peer(side)) =~= v.send_queue(side),
{
    assert(peer(peer(side)) == side);
}

/// Disconnection: once an endpoint is closed, every write its peer aims
/// at it fails with `BrokenPipe`, deterministically and without touching
/// any state — no matter what was pending and no matter how many writes
/// follow.
pub proof fn lemma_disconnected_write(v: ChannelView, side: Side, b: Seq<u8>)
    requires
        b.len() == PACKET_SIZE,
    ensures
        v.after_close(peer(side)).write_result(side, b) == Err::<usize, Error>(Error::BrokenPipe),
        v.after_close(peer(side)).after_write(side, b) == v.after_close(peer(side)),
{
}

/// FIFO ordering: two packets sent in turn on one direction stand in the
/// queue in sending order behind what was already pending; when the queue
/// began empty, the peer's reads return them first-in first-out.
pub proof fn lemma_fifo_order(v: ChannelView, side: Side, b1: Seq<u8>, b2: Seq<u8>)
    requires
        v.wf(),
        b1.len() == PACKET_SIZE,
        b2.len() == PACKET_SIZE,
        v.reader_alive(peer(side)),
    ensures
        v.after_write(side, b1).after_write(side, b2).send_queue(side) =~= v.send_queue(side) + seq![
            b1,
            b2,
        ],
        v.send_queue(side).len() == 0 ==> v.after_write(side, b1).after_write(side, b2).received(
            peer(side),
        ) == b1,
        v.send_queue(side).len() == 0 ==> v.after_write(side, b1).after_write(side, b2).after_read(
            peer(side),
            PACKET_SIZE as nat,
        ).received(peer(side)) == b2,
{
    assert(peer(peer(side)) == side);
    let w = v.after_write(side, b1).after_write(side, b2);
    assert(w.send_queue(side) =~= v.send_queue(side) + seq![b1, b2]);
    if v.send_queue(side).len() == 0 {
        assert(w.after_read(peer(side), PACKET_SIZE as nat).recv_queue(peer(side))
            =~= seq![b2]);
    }
}

} // verus!
