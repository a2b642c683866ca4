//! Error codes surfaced by the supervision channel.

use vstd::prelude::*;

verus! {

/// The failures a caller of this library can observe.
///
/// Every operation reports failure through one of these variants; none of
/// them aborts the kernel or leaves partial state behind.
#[derive(Clone, Copy, PartialEq, Eq, Structural, Debug)]
pub enum Error {
    /// The caller is not the direct parent of the target process.
    AccessDenied,
    /// The target process already has an active supervisor endpoint.
    AlreadyExists,
    /// The target process has not opted into supervision.
    OperationNotPermitted,
    /// A read or write buffer does not match the packet size exactly.
    InvalidArgument,
    /// The peer endpoint's queue has been dropped; the channel is dead.
    BrokenPipe,
    /// A process-table lookup (target pid or current context) failed.
    NoSuchProcess,
}

} // verus!
