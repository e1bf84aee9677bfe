//! The capabilities the bridge consumes from its two collaborators: the
//! native resource and the reactor.
//!
//! None of the methods declared here carries a contract. What a collaborator
//! answers is decided outside the bridge, by the native library, the
//! operating system or the runtime, so the bridge assumes nothing of it and
//! is verified for every behaviour an implementation may show. What the
//! bridge asks, and what it makes of the answers, is stated over the
//! journals of [`crate::journal`].

use vstd::prelude::*;

verus! {

/// Identifier of one OS-level descriptor. The bridge only ever borrows these
/// numbers from the resource; it never opens or closes a descriptor.
pub type FdId = i32;

/// The native events pending on one descriptor, as an uninterpreted bit mask.
#[derive(Clone, Copy, Debug, PartialEq, Eq, Structural)]
pub struct EventMask(pub i16);

/// Answer of a non-blocking readiness query.
#[derive(Clone, Copy, Debug, PartialEq, Eq, Structural)]
pub enum Readiness {
    /// The registered interest is currently signaled.
    Ready,
    /// Nothing is signaled; the reactor will wake the owner later.
    NotReady,
}

/// A native handle that exposes a set of descriptors and a way to clear the
/// native events pending on them.
pub trait PollableResource {
    /// What the native library reports when one of its calls fails.
    type Error;

    /// The descriptors to watch, in the order the native library lists them.
    fn descriptors(&self) -> Result<Vec<FdId>, Self::Error>;

    /// Which of `fds` have native events pending right now. Called with a
    /// timeout of zero only, so it must not block.
    fn probe(&mut self, fds: &Vec<FdId>, timeout_ms: i32) -> Result<
        Vec<(FdId, EventMask)>,
        Self::Error,
    >;

    /// Clears the native events just probed, so that the next edge fires.
    fn drain(&mut self, events: &Vec<EventMask>) -> Result<(), Self::Error>;
}

/// The registration protocol of a reactor, one descriptor at a time. The
/// terms of a registration are `mio`'s own: a token, an interest mask and
/// options, none of which the bridge looks into.
pub trait Registry {
    /// Starts watching `fd` under `token`.
    fn register(
        &mut self,
        fd: FdId,
        token: mio::Token,
        interest: mio::Ready,
        opts: mio::PollOpt,
    ) -> Result<(), std::io::Error>;

    /// Replaces the terms under which `fd` is watched.
    fn reregister(
        &mut self,
        fd: FdId,
        token: mio::Token,
        interest: mio::Ready,
        opts: mio::PollOpt,
    ) -> Result<(), std::io::Error>;

    /// Stops watching `fd`.
    fn deregister(&mut self, fd: FdId) -> Result<(), std::io::Error>;
}

/// The wake-up side of a reactor, addressed by registration token.
pub trait ReadinessSource {
    /// Whether the interest registered under `token` is signaled. Never blocks.
    fn poll_readiness(&mut self, token: mio::Token) -> Readiness;

    /// Asks to be woken on the next readiness edge for `token`.
    fn rearm(&mut self, token: mio::Token);
}

} // verus!
