//! In-kernel process supervision channel.
//!
//! A privileged parent process may attach to a child that has opted into
//! supervision. Attaching installs one endpoint of a bidirectional,
//! packet-oriented channel into the child's process record and hands the
//! other endpoint back to the caller. Each direction of the channel is a
//! FIFO queue of fixed-size packets; a queue lives exactly as long as the
//! endpoint that reads from it, and a send to a queue whose reader is gone
//! fails with a broken-pipe error instead of leaking or blocking.

pub mod channel;
pub mod context;
pub mod error;
pub mod packet;
pub mod queue;
pub mod random;
pub mod supervisor;
