//! Collaborators with a memory.
//!
//! The capabilities that the bridge consumes carry no contract, so nothing
//! can be said of a collaborator by looking at it. A journaled collaborator
//! fixes that: it forwards every call to the collaborator it wraps and keeps,
//! as ghost data, the list of calls received and the answer given to each.
//! The journal grows only by a call, one entry per call, so a contract that
//! says how a journal grew says which calls were made, in which order and
//! with which arguments.

use crate::capability::{EventMask, FdId, PollableResource, Readiness, ReadinessSource, Registry};
use crate::error::{BridgeError, RegistryOp, ResourceOp};
use vstd::prelude::*;

verus! {

/// One call received by a resource, together with the answer it gave.
#[allow(inconsistent_fields)]
pub enum ResourceExchange<E> {
    Descriptors { answer: Result<Seq<FdId>, E> },
    Probe { fds: Seq<FdId>, timeout_ms: i32, answer: Result<Seq<(FdId, EventMask)>, E> },
    Drain { events: Seq<EventMask>, answer: Result<(), E> },
}

/// One call received by a reactor, together with the answer it gave.
#[allow(inconsistent_fields)]
pub enum ReactorExchange {
    Registration {
        operation: RegistryOp,
        fd: FdId,
        token: mio::Token,
        interest: mio::Ready,
        opts: mio::PollOpt,
        answer: Result<(), std::io::Error>,
    },
    Deregistration { fd: FdId, answer: Result<(), std::io::Error> },
    PollReadiness { token: mio::Token, answer: Readiness },
    Rearm { token: mio::Token },
}

impl<E> ResourceExchange<E> {
    /// Whether the resource reported a failure in this exchange.
    pub open spec fn failed(self) -> bool {
        match self {
            ResourceExchange::Descriptors { answer } => answer is Err,
            ResourceExchange::Probe { answer, .. } => answer is Err,
            ResourceExchange::Drain { answer, .. } => answer is Err,
        }
    }

    /// The error the bridge surfaces for this exchange if it failed: the
    /// operation and the cause the resource gave.
    pub open spec fn surfaced(self) -> BridgeError<E>
        recommends
            self.failed(),
    {
        match self {
            ResourceExchange::Descriptors { answer: Err(cause) } => BridgeError::Resource {
                operation: ResourceOp::Descriptors,
                cause,
            },
            ResourceExchange::Probe { answer: Err(cause), .. } => BridgeError::Resource {
                operation: ResourceOp::Probe,
                cause,
            },
            ResourceExchange::Drain { answer: Err(cause), .. } => BridgeError::Resource {
                operation: ResourceOp::Drain,
                cause,
            },
            _ => BridgeError::Terminated,
        }
    }
}

impl ReactorExchange {
    /// Whether the reactor reported a failure in this exchange.
    pub open spec fn failed(self) -> bool {
        match self {
            ReactorExchange::Registration { answer, .. } => answer is Err,
            ReactorExchange::Deregistration { answer, .. } => answer is Err,
            ReactorExchange::PollReadiness { .. } => false,
            ReactorExchange::Rearm { .. } => false,
        }
    }

    /// The error the bridge surfaces for this exchange if it failed: the
    /// operation, the descriptor and the cause the reactor gave.
    pub open spec fn surfaced<E>(self) -> BridgeError<E>
        recommends
            self.failed(),
    {
        match self {
            ReactorExchange::Registration {
                operation,
                fd,
                answer: Err(cause),
                ..
            } => BridgeError::Io { operation, fd, cause },
            ReactorExchange::Deregistration { fd, answer: Err(cause) } => BridgeError::Io {
                operation: RegistryOp::Deregister,
                fd,
                cause,
            },
            _ => BridgeError::Terminated,
        }
    }
}

/// Whether a journal that read `before` can have become `after`: entries are
/// only ever added at the end.
pub open spec fn extends<X>(before: Seq<X>, after: Seq<X>) -> bool {
    before.len() <= after.len() && after.subrange(0, before.len() as int) == before
}

/// The entries added to a journal that read `before` and now reads `after`.
pub open spec fn appended<X>(before: Seq<X>, after: Seq<X>) -> Seq<X> {
    after.skip(before.len() as int)
}

/// Whether `index` is the place of the earliest failed exchange in `journal`.
pub open spec fn first_failure_at(journal: Seq<ReactorExchange>, index: int) -> bool {
    &&& 0 <= index < journal.len()
    &&& journal[index].failed()
    &&& forall|i: int| 0 <= i < index ==> !(#[trigger] journal[i]).failed()
}

/// Whether no exchange in `journal` failed.
pub open spec fn all_succeeded(journal: Seq<ReactorExchange>) -> bool {
    forall|i: int| 0 <= i < journal.len() ==> !(#[trigger] journal[i]).failed()
}

/// A journal extends itself by nothing.
pub proof fn lemma_extends_by_nothing<X>(journal: Seq<X>)
    ensures
        extends(journal, journal),
        appended(journal, journal) == Seq::<X>::empty(),
{
    assert(journal.subrange(0, journal.len() as int) =~= journal);
    assert(appended(journal, journal) =~= Seq::<X>::empty());
}

/// One more entry at the end keeps what a journal extended and adds the
/// entry to what was appended.
pub proof fn lemma_extends_by_push<X>(before: Seq<X>, after: Seq<X>, entry: X)
    requires
        extends(before, after),
    ensures
        extends(before, after.push(entry)),
        appended(before, after.push(entry)) == appended(before, after).push(entry),
{
    assert(after.push(entry).subrange(0, before.len() as int) =~= after.subrange(
        0,
        before.len() as int,
    ));
    assert(appended(before, after.push(entry)) =~= appended(before, after).push(entry));
}

/// The descriptor list as a mathematical sequence, whatever the answer was.
pub open spec fn listed<E>(answer: Result<Vec<FdId>, E>) -> Result<Seq<FdId>, E> {
    match answer {
        Ok(fds) => Ok(fds@),
        Err(cause) => Err(cause),
    }
}

/// The pending set as a mathematical sequence, whatever the answer was.
pub open spec fn probed<E>(answer: Result<Vec<(FdId, EventMask)>, E>) -> Result<
    Seq<(FdId, EventMask)>,
    E,
> {
    match answer {
        Ok(pending) => Ok(pending@),
        Err(cause) => Err(cause),
    }
}

/// A resource that remembers the calls it received.
pub struct JournaledResource<R: PollableResource> {
    inner: R,
    served: Ghost<Seq<ResourceExchange<R::Error>>>,
}

impl<R: PollableResource> JournaledResource<R> {
    /// Wraps `inner` with an empty journal.
    pub fn new(inner: R) -> (journaled: Self)
        ensures
            journaled.served() == Seq::<ResourceExchange<R::Error>>::empty(),
            journaled.inner() == inner,
    {
        JournaledResource { inner, served: Ghost(Seq::empty()) }
    }

    /// The exchanges so far, oldest first.
    pub closed spec fn served(&self) -> Seq<ResourceExchange<R::Error>> {
        self.served@
    }

    /// The wrapped resource.
    pub closed spec fn inner(&self) -> R {
        self.inner
    }

    /// Borrows the wrapped resource.
    pub fn get_ref(&self) -> (inner: &R)
        ensures
            *inner == self.inner(),
    {
        &self.inner
    }

    /// Gives the wrapped resource back and forgets the journal.
    pub fn into_inner(self) -> (inner: R)
        ensures
            inner == self.inner(),
    {
        self.inner
    }

    /// Asks the resource for its descriptors, which leaves it as it was.
    pub fn descriptors(&mut self) -> (answer: Result<Vec<FdId>, R::Error>)
        ensures
            final(self).served() == old(self).served().push(
                ResourceExchange::Descriptors { answer: listed(answer) },
            ),
            final(self).inner() == old(self).inner(),
    {
        let answer = self.inner.descriptors();
        self.served = Ghost(
            self.served@.push(ResourceExchange::Descriptors { answer: listed(answer) }),
        );
        answer
    }

    /// Asks the resource which of `fds` have native events pending.
    pub fn probe(&mut self, fds: &Vec<FdId>, timeout_ms: i32) -> (answer: Result<
        Vec<(FdId, EventMask)>,
        R::Error,
    >)
        ensures
            final(self).served() == old(self).served().push(
                ResourceExchange::Probe { fds: fds@, timeout_ms, answer: probed(answer) },
            ),
    {
        let answer = self.inner.probe(fds, timeout_ms);
        self.served = Ghost(
            self.served@.push(
                ResourceExchange::Probe { fds: fds@, timeout_ms, answer: probed(answer) },
            ),
        );
        answer
    }

    /// Asks the resource to clear `events`.
    pub fn drain(&mut self, events: &Vec<EventMask>) -> (answer: Result<(), R::Error>)
        ensures
            final(self).served() == old(self).served().push(
                ResourceExchange::Drain { events: events@, answer },
            ),
    {
        let answer = self.inner.drain(events);
        self.served = Ghost(
            self.served@.push(ResourceExchange::Drain { events: events@, answer }),
        );
        answer
    }
}

/// A reactor, or one side of a reactor, that remembers the calls it received.
pub struct JournaledReactor<T> {
    inner: T,
    received: Ghost<Seq<ReactorExchange>>,
}

impl<T> JournaledReactor<T> {
    /// Wraps `inner` with an empty journal.
    pub fn new(inner: T) -> (journaled: Self)
        ensures
            journaled.received() == Seq::<ReactorExchange>::empty(),
            journaled.inner() == inner,
    {
        JournaledReactor { inner, received: Ghost(Seq::empty()) }
    }

    /// The exchanges so far, oldest first.
    pub closed spec fn received(&self) -> Seq<ReactorExchange> {
        self.received@
    }

    /// The wrapped reactor.
    pub closed spec fn inner(&self) -> T {
        self.inner
    }

    /// Borrows the wrapped reactor.
    pub fn get_ref(&self) -> (inner: &T)
        ensures
            *inner == self.inner(),
    {
        &self.inner
    }

    /// Gives the wrapped reactor back and forgets the journal.
    pub fn into_inner(self) -> (inner: T)
        ensures
            inner == self.inner(),
    {
        self.inner
    }
}

impl<G: Registry> JournaledReactor<G> {
    /// Asks the reactor to start watching `fd`.
    pub fn register(
        &mut self,
        fd: FdId,
        token: mio::Token,
        interest: mio::Ready,
        opts: mio::PollOpt,
    ) -> (answer: Result<(), std::io::Error>)
        ensures
            final(self).received() == old(self).received().push(
                ReactorExchange::Registration {
                    operation: RegistryOp::Register,
                    fd,
                    token,
                    interest,
                    opts,
                    answer,
                },
            ),
    {
        let answer = self.inner.register(fd, token, interest, opts);
        self.received = Ghost(
            self.received@.push(
                ReactorExchange::Registration {
                    operation: RegistryOp::Register,
                    fd,
                    token,
                    interest,
                    opts,
                    answer,
                },
            ),
        );
        answer
    }

    /// Asks the reactor to replace the terms under which `fd` is watched.
    pub fn reregister(
        &mut self,
        fd: FdId,
        token: mio::Token,
        interest: mio::Ready,
        opts: mio::PollOpt,
    ) -> (answer: Result<(), std::io::Error>)
        ensures
            final(self).received() == old(self).received().push(
                ReactorExchange::Registration {
                    operation: RegistryOp::Reregister,
                    fd,
                    token,
                    interest,
                    opts,
                    answer,
                },
            ),
    {
        let answer = self.inner.reregister(fd, token, interest, opts);
        self.received = Ghost(
            self.received@.push(
                ReactorExchange::Registration {
                    operation: RegistryOp::Reregister,
                    fd,
                    token,
                    interest,
                    opts,
                    answer,
                },
            ),
        );
        answer
    }

    /// Asks the reactor to stop watching `fd`.
    pub fn deregister(&mut self, fd: FdId) -> (answer: Result<(), std::io::Error>)
        ensures
            final(self).received() == old(self).received().push(
                ReactorExchange::Deregistration { fd, answer },
            ),
    {
        let answer = self.inner.deregister(fd);
        self.received = Ghost(self.received@.push(ReactorExchange::Deregistration { fd, answer }));
        answer
    }
}

impl<K: ReadinessSource> JournaledReactor<K> {
    /// Asks the reactor whether the interest under `token` is signaled.
    pub fn poll_readiness(&mut self, token: mio::Token) -> (answer: Readiness)
        ensures
            final(self).received() == old(self).received().push(
                ReactorExchange::PollReadiness { token, answer },
            ),
    {
        let answer = self.inner.poll_readiness(token);
        self.received = Ghost(self.received@.push(ReactorExchange::PollReadiness { token, answer }));
        answer
    }

    /// Asks the reactor for a wake-up on the next readiness edge.
    pub fn rearm(&mut self, token: mio::Token)
        ensures
            final(self).received() == old(self).received().push(ReactorExchange::Rearm { token }),
    {
        self.inner.rearm(token);
        self.received = Ghost(self.received@.push(ReactorExchange::Rearm { token }));
    }
}

} // verus!
