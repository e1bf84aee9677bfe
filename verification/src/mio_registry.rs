//! The registration protocol carried out on a real `mio::Poll`.

use crate::capability::{FdId, Registry};
use vstd::prelude::*;

verus! {

/// `mio::Poll`, the selector that descriptors are registered with. Nothing
/// inside it is visible to contracts.
#[verifier::external_type_specification]
#[verifier::external_body]
pub struct ExPoll(mio::Poll);

/// `mio::Token`, the number under which a registration is known. It is
/// carried through as it is.
#[verifier::external_type_specification]
#[verifier::external_body]
pub struct ExToken(mio::Token);

/// `mio::Ready`, the interest mask of a registration. It is carried through
/// as it is.
#[verifier::external_type_specification]
#[verifier::external_body]
pub struct ExReady(mio::Ready);

/// `mio::PollOpt`, the options of a registration. They are carried through
/// as they are.
#[verifier::external_type_specification]
#[verifier::external_body]
pub struct ExPollOpt(mio::PollOpt);

/// `std::io::Error`, what a refused registration reports. It is carried
/// through as it is.
#[verifier::external_type_specification]
#[verifier::external_body]
pub struct ExIoError(std::io::Error);

/// Calls `register` of `mio::unix::EventedFd` for `fd`, which adds the
/// descriptor to the selector of `poll`. Whether that succeeds is up to the
/// operating system, so nothing is claimed of the result.
#[verifier::external_body]
fn register_fd(
    poll: &mio::Poll,
    fd: FdId,
    token: mio::Token,
    interest: mio::Ready,
    opts: mio::PollOpt,
) -> (answer: Result<(), std::io::Error>) {
    mio::event::Evented::register(&mio::unix::EventedFd(&fd), poll, token, interest, opts)
}

/// Calls `reregister` of `mio::unix::EventedFd` for `fd`, which replaces the
/// terms under which the selector of `poll` watches the descriptor. Nothing is
/// claimed of the result.
#[verifier::external_body]
fn reregister_fd(
    poll: &mio::Poll,
    fd: FdId,
    token: mio::Token,
    interest: mio::Ready,
    opts: mio::PollOpt,
) -> (answer: Result<(), std::io::Error>) {
    mio::event::Evented::reregister(&mio::unix::EventedFd(&fd), poll, token, interest, opts)
}

/// Calls `deregister` of `mio::unix::EventedFd` for `fd`, which removes the
/// descriptor from the selector of `poll`. Nothing is claimed of the result.
#[verifier::external_body]
fn deregister_fd(poll: &mio::Poll, fd: FdId) -> (answer: Result<(), std::io::Error>) {
    mio::event::Evented::deregister(&mio::unix::EventedFd(&fd), poll)
}

/// A `mio::Poll` seen as a [`Registry`].
pub struct MioRegistry<'a> {
    poll: &'a mio::Poll,
}

impl<'a> MioRegistry<'a> {
    /// Wraps `poll` for the duration of the borrow.
    pub fn new(poll: &'a mio::Poll) -> (registry: Self)
        ensures
            registry.poll() == poll,
    {
        MioRegistry { poll }
    }

    /// The selector that this registry addresses.
    pub closed spec fn poll(&self) -> &mio::Poll {
        self.poll
    }
}

impl<'a> Registry for MioRegistry<'a> {
    fn register(
        &mut self,
        fd: FdId,
        token: mio::Token,
        interest: mio::Ready,
        opts: mio::PollOpt,
    ) -> Result<(), std::io::Error> {
        register_fd(self.poll, fd, token, interest, opts)
    }

    fn reregister(
        &mut self,
        fd: FdId,
        token: mio::Token,
        interest: mio::Ready,
        opts: mio::PollOpt,
    ) -> Result<(), std::io::Error> {
        reregister_fd(self.poll, fd, token, interest, opts)
    }

    fn deregister(&mut self, fd: FdId) -> Result<(), std::io::Error> {
        deregister_fd(self.poll, fd)
    }
}

} // verus!
