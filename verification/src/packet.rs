//! The fixed-size message unit exchanged through a supervision channel.

use vstd::prelude::*;

verus! {

/// Byte length of every packet. Read and write buffers must match it
/// exactly; the channel never transfers a partial packet.
pub const PACKET_SIZE: usize = 64;

/// One trap or resume message: an opaque block of exactly `PACKET_SIZE`
/// bytes, copied by value between user buffers and the channel's queues.
pub struct Packet {
    bytes: Vec<u8>,
}

impl View for Packet {
    type V = Seq<u8>;

    closed spec fn view(&self) -> Seq<u8> {
        self.bytes@
    }
}

impl Packet {
    /// A packet is well formed when it holds exactly `PACKET_SIZE` bytes.
    pub open spec fn wf(self) -> bool {
        self@.len() == PACKET_SIZE
    }

    /// The all-zero packet, the default register snapshot.
    pub fn zeroed() -> (p: Packet)
        ensures
            p.wf(),
            forall|i: int| 0 <= i < PACKET_SIZE ==> p@[i] == 0u8,
    {
        let mut bytes: Vec<u8> = Vec::new();
        let mut i: usize = 0;
        while i < PACKET_SIZE
            invariant
                i <= PACKET_SIZE,
                bytes@.len() == i,
                forall|j: int| 0 <= j < i ==> bytes@[j] == 0u8,
            decreases PACKET_SIZE - i,
        {
            bytes.push(0u8);
            i = i + 1;
        }
        Packet { bytes }
    }

    /// Build a packet from a caller's buffer of exactly `PACKET_SIZE` bytes.
    pub fn from_bytes(buf: &Vec<u8>) -> (p: Packet)
        requires
            buf@.len() == PACKET_SIZE,
        ensures
            p.wf(),
            p@ == buf@,
    {
        let mut bytes: Vec<u8> = Vec::new();
        let mut i: usize = 0;
        while i < PACKET_SIZE
            invariant
                buf@.len() == PACKET_SIZE,
                i <= PACKET_SIZE,
                bytes@.len() == i,
                forall|j: int| 0 <= j < i ==> bytes@[j] == buf@[j],
            decreases PACKET_SIZE - i,
        {
            bytes.push(buf[i]);
            i = i + 1;
        }
        let p = Packet { bytes };
        proof {
            assert(p@ =~= buf@);
        }
        p
    }

    /// Copy this packet's bytes into a caller's buffer of exactly
    /// `PACKET_SIZE` bytes, replacing its previous contents.
    pub fn copy_to(&self, buf: &mut Vec<u8>) -> (n: usize)
        requires
            old(buf)@.len() == PACKET_SIZE,
            self.wf(),
        ensures
            n == PACKET_SIZE,
            final(buf)@ == self@,
    {
        let mut i: usize = 0;
        while i < PACKET_SIZE
            invariant
                self.wf(),
                buf@.len() == PACKET_SIZE,
                i <= PACKET_SIZE,
                forall|j: int| 0 <= j < i ==> buf@[j] == self@[j],
            decreases PACKET_SIZE - i,
        {
            let b = self.bytes[i];
            let slot = &mut buf[i];
            *slot = b;
            i = i + 1;
        }
        proof {
            assert(buf@ =~= self@);
        }
        PACKET_SIZE
    }
}

impl Default for Packet {
    /// The default packet is the all-zero packet.
    fn default() -> (p: Packet)
        ensures
            p.wf(),
            forall|i: int| 0 <= i < PACKET_SIZE ==> p@[i] == 0u8,
    {
        Packet::zeroed()
    }
}

} // verus!
