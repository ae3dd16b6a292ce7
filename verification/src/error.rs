//! Why an operation of the runtime failed.
use vstd::prelude::*;

verus! {

/// What went wrong in the runtime itself.
#[derive(Debug, Clone, Copy, PartialEq, Eq, Structural)]
pub enum ErrorKind {
    /// The actor that would have to answer is gone.
    ActorGone,
    /// The request was handled, and what it was to do failed.
    ReplyErr,
    /// The operation needs the application netstack, which TUN transport mode does not have.
    UnsupportedInTunMode,
    /// TUN transport mode was requested of a build without it.
    TunUnavailable,
    /// The network monitor was requested of a build without it.
    NetworkMonitorUnavailable,
}

/// Why an operation failed: of itself, or because a request to an actor failed with `E`.
#[derive(Debug, PartialEq, Eq)]
pub enum Error<E> {
    /// The runtime itself refused or could not do it.
    Runtime(ErrorKind),
    /// A request to an actor failed.
    Ask(E),
}

} // verus!
