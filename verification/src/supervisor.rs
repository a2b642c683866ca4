//! The supervision resource: the file-like endpoint handle, the
//! permission-checked attach protocol that creates a channel pair, and
//! the byte-oriented read and write operations on an endpoint.

use vstd::prelude::*;
use crate::channel::Channel;
use crate::channel::Side;
use crate::context::Context;
use crate::context::ContextTable;
use crate::context::first_with;
use crate::context::lemma_first_with;
use crate::context::lemma_first_with_update;
use crate::error::Error;
use crate::packet::Packet;
use crate::packet::PACKET_SIZE;

verus! {

/// One endpoint of a supervision channel, exposed to its holder as a
/// byte-oriented resource. The handle names its side of the pair; the
/// pair itself is the arena both handles operate on.
pub struct SupervisorResource {
    /// Which endpoint of the pair this handle stands for.
    pub side: Side,
}

/// The error the attach protocol reports for the given table state and
/// target pid, or `None` when attaching succeeds. The checks run in
/// order under one critical section over the table: the caller must be
/// resolvable, the target present, opted in, a direct child of the
/// caller, and not yet supervised.
pub open spec fn attach_check(contexts: Seq<Context>, current: Option<usize>, pid: usize) -> Option<
    Error,
> {
    match current {
        None => Some(Error::NoSuchProcess),
        Some(cur_pid) => {
            let i = first_with(contexts, pid);
            if i < 0 {
                Some(Error::NoSuchProcess)
            } else if !contexts[i].supervised {
                Some(Error::OperationNotPermitted)
            } else if contexts[i].ppid != cur_pid {
                Some(Error::AccessDenied)
            } else if contexts[i].supervised_resource is Some {
                Some(Error::AlreadyExists)
            } else {
                None
            }
        },
    }
}

/// The table records after a successful attach: the target record gains
/// the supervised-side endpoint and every other field and record stays
/// as it was.
pub open spec fn contexts_after_attach(contexts: Seq<Context>, pid: usize) -> Seq<Context> {
    let i = first_with(contexts, pid);
    contexts.update(
        i,
        Context {
            pid: contexts[i].pid,
            ppid: contexts[i].ppid,
            supervised: contexts[i].supervised,
            supervised_resource: Some(SupervisorResource { side: Side::Supervised }),
        },
    )
}

impl SupervisorResource {
    /// Attach to the process `pid`, creating a supervision channel.
    ///
    /// Under one critical section over the process table this resolves
    /// the caller, validates the target, installs the supervised-side
    /// endpoint into the target's record and returns the supervisor-side
    /// endpoint together with the freshly allocated channel pair. Every
    /// failing branch reports exactly the error `attach_check` names and
    /// leaves the table untouched.
    pub fn new(contexts: &mut ContextTable, pid: usize) -> (r: Result<
        (SupervisorResource, Channel),
        Error,
    >)
        ensures
            final(contexts).current_pid == old(contexts).current_pid,
            match r {
                Ok(pair) => {
                    &&& attach_check(old(contexts).contexts@, old(contexts).current_pid, pid)
                        is None
                    &&& final(contexts).contexts@ == contexts_after_attach(
                        old(contexts).contexts@,
                        pid,
                    )
                    &&& pair.0.side == Side::Supervisor
                    &&& pair.1@.is_fresh()
                    &&& pair.1@.wf()
                },
                Err(e) => {
                    &&& attach_check(old(contexts).contexts@, old(contexts).current_pid, pid)
                        == Some(e)
                    &&& final(contexts).contexts@ == old(contexts).contexts@
                },
            },
    {
        let cur_pid = match contexts.current() {
            Ok(p) => p,
            Err(e) => {
                return Err(e);
            },
        };
        let i = match contexts.find_index(pid) {
            Some(i) => i,
            None => {
                return Err(Error::NoSuchProcess);
            },
        };
        proof {
            lemma_first_with(contexts.contexts@, pid);
        }
        let ctx = &contexts.contexts[i];
        if !ctx.supervised {
            return Err(Error::OperationNotPermitted);
        }
        if ctx.ppid != cur_pid {
            return Err(Error::AccessDenied);
        }
        if ctx.supervised_resource.is_some() {
            return Err(Error::AlreadyExists);
        }
        let channel = Channel::new();
        let slot = &mut contexts.contexts[i];
        slot.supervised_resource = Some(SupervisorResource { side: Side::Supervised });
        proof {
            assert(contexts.contexts@ =~= contexts_after_attach(old(contexts).contexts@, pid));
        }
        Ok((SupervisorResource { side: Side::Supervisor }, channel))
    }

    /// Read one packet from this endpoint's own queue into `buf`.
    ///
    /// A buffer of any length other than `PACKET_SIZE` is rejected with
    /// `InvalidArgument` before anything is copied or removed. Otherwise
    /// the caller blocks until a packet is pending — stated here as the
    /// precondition that one is — and receives the head packet whole,
    /// exactly `PACKET_SIZE` bytes.
    pub fn read(&self, chan: &mut Channel, buf: &mut Vec<u8>) -> (r: Result<usize, Error>)
        requires
            old(chan)@.wf(),
            old(buf)@.len() == PACKET_SIZE ==> old(chan)@.recv_queue(self.side).len() > 0,
        ensures
            final(chan)@.wf(),
            r == old(chan)@.read_result(self.side, old(buf)@.len()),
            final(chan)@ == old(chan)@.after_read(self.side, old(buf)@.len()),
            old(buf)@.len() == PACKET_SIZE ==> final(buf)@ == old(chan)@.received(self.side),
            old(buf)@.len() != PACKET_SIZE ==> final(buf)@ == old(buf)@,
    {
        if buf.len() != PACKET_SIZE {
            return Err(Error::InvalidArgument);
        }
        let p = chan.dequeue(self.side);
        let n = p.copy_to(buf);
        Ok(n)
    }

    /// Write one packet from `buf` onto the queue the peer endpoint
    /// reads.
    ///
    /// A buffer of any length other than `PACKET_SIZE` is rejected with
    /// `InvalidArgument`; a peer whose endpoint has been dropped makes
    /// the write fail with `BrokenPipe`, with no bytes considered
    /// written. The liveness check and the send are one attempt: on
    /// success the packet joins the peer's queue whole, and the call
    /// never blocks.
    pub fn write(&self, chan: &mut Channel, buf: &Vec<u8>) -> (r: Result<usize, Error>)
        requires
            old(chan)@.wf(),
        ensures
            final(chan)@.wf(),
            r == old(chan)@.write_result(self.side, buf@),
            final(chan)@ == old(chan)@.after_write(self.side, buf@),
    {
        if buf.len() != PACKET_SIZE {
            return Err(Error::InvalidArgument);
        }
        if !chan.reader_alive(self.side.opposite()) {
            return Err(Error::BrokenPipe);
        }
        let p = Packet::from_bytes(buf);
        chan.enqueue(self.side, p);
        Ok(PACKET_SIZE)
    }

    /// Drop this endpoint: its own queue dies with it, pending packets
    /// are discarded, and the peer's future writes fail with
    /// `BrokenPipe`.
    pub fn close(self, chan: &mut Channel)
        requires
            old(chan)@.wf(),
        ensures
            final(chan)@ == old(chan)@.after_close(self.side),
            final(chan)@.wf(),
    {
        chan.drop_reader(self.side);
    }

    /// Which side of the pair this handle stands for.
    pub fn side(&self) -> (s: Side)
        ensures
            s == self.side,
    {
        self.side
    }
}

/// A target that has not opted into supervision refuses attachment with
/// `OperationNotPermitted`, whatever the caller's identity.
pub proof fn lemma_unsupervised_refused(contexts: Seq<Context>, cur_pid: usize, pid: usize)
    requires
        first_with(contexts, pid) >= 0,
        !contexts[first_with(contexts, pid)].supervised,
    ensures
        attach_check(contexts, Some(cur_pid), pid) == Some(Error::OperationNotPermitted),
{
}

/// A caller that is not the target's direct parent is refused with
/// `AccessDenied`, even when the target has opted into supervision.
pub proof fn lemma_not_parent_refused(contexts: Seq<Context>, cur_pid: usize, pid: usize)
    requires
        first_with(contexts, pid) >= 0,
        contexts[first_with(contexts, pid)].supervised,
        contexts[first_with(contexts, pid)].ppid != cur_pid,
    ensures
        attach_check(contexts, Some(cur_pid), pid) == Some(Error::AccessDenied),
{
}

/// A successful attach commits exactly one change: the target record
/// gains the supervised-side endpoint, and every other record — and
/// every other field of the target — stays as it was.
pub proof fn lemma_attach_touches_only_target(
    contexts: Seq<Context>,
    current: Option<usize>,
    pid: usize,
)
    requires
        attach_check(contexts, current, pid) is None,
    ensures
        contexts_after_attach(contexts, pid).len() == contexts.len(),
        forall|j: int|
            0 <= j < contexts.len() && j != first_with(contexts, pid)
                ==> #[trigger] contexts_after_attach(contexts, pid)[j] == contexts[j],
        contexts_after_attach(contexts, pid)[first_with(contexts, pid)].pid == contexts[first_with(
            contexts,
            pid,
        )].pid,
        contexts_after_attach(contexts, pid)[first_with(contexts, pid)].ppid
            == contexts[first_with(contexts, pid)].ppid,
        contexts_after_attach(contexts, pid)[first_with(contexts, pid)].supervised
            == contexts[first_with(contexts, pid)].supervised,
        contexts_after_attach(contexts, pid)[first_with(contexts, pid)].supervised_resource
            == Some(SupervisorResource { side: Side::Supervised }),
{
    lemma_first_with(contexts, pid);
}

/// Attaching is exclusive: once an attach to `pid` has succeeded, a
/// second attempt on the resulting table is refused — with
/// `AlreadyExists` for the same caller, and with one of the protocol's
/// errors for any caller whatsoever. Two racing attempts serialized by
/// the table lock therefore never both succeed.
pub proof fn lemma_attach_exclusive(
    contexts: Seq<Context>,
    current: Option<usize>,
    other: Option<usize>,
    pid: usize,
)
    requires
        attach_check(contexts, current, pid) is None,
    ensures
        attach_check(contexts_after_attach(contexts, pid), current, pid) == Some(
            Error::AlreadyExists,
        ),
        attach_check(contexts_after_attach(contexts, pid), other, pid) is Some,
{
    let i = first_with(contexts, pid);
    lemma_first_with(contexts, pid);
    let updated = Context {
        pid: contexts[i].pid,
        ppid: contexts[i].ppid,
        supervised: contexts[i].supervised,
        supervised_resource: Some(SupervisorResource { side: Side::Supervised }),
    };
    lemma_first_with_update(contexts, pid, i, updated);
}

} // verus!
