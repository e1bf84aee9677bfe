//! Adapts the descriptor set of a resource to a reactor's registration
//! protocol, which takes one descriptor at a time.

use crate::capability::{EventMask, FdId, PollableResource, Registry};
use crate::error::{BridgeError, RegistryOp, ResourceOp};
use crate::journal::{
    all_succeeded, appended, extends, first_failure_at, lemma_extends_by_nothing,
    lemma_extends_by_push, listed, probed, JournaledReactor, JournaledResource,
    ReactorExchange, ResourceExchange,
};
use vstd::prelude::*;

verus! {

/// Whether `exchange` is the call `operation(fd, token, interest, opts)`.
pub open spec fn is_registration(
    exchange: ReactorExchange,
    operation: RegistryOp,
    fd: FdId,
    token: mio::Token,
    interest: mio::Ready,
    opts: mio::PollOpt,
) -> bool {
    &&& exchange matches ReactorExchange::Registration {
        operation: asked,
        fd: target,
        token: t,
        interest: i,
        opts: o,
        ..
    }
    &&& asked == operation
    &&& target == fd
    &&& t == token
    &&& i == interest
    &&& o == opts
}

/// Whether `exchange` is the call `deregister(fd)`.
pub open spec fn is_deregistration(exchange: ReactorExchange, fd: FdId) -> bool {
    exchange matches ReactorExchange::Deregistration { fd: target, .. } && target == fd
}

/// A fail-fast pass over the descriptor set.
///
/// `served` is what the resource was asked during the pass and `received`
/// what the reactor was asked. The descriptors are listed once. Then
/// `operation` is attempted on them in set order, every attempt under the
/// same `token`, `interest` and `opts`. The pass stops right after the first
/// attempt that fails, which is surfaced; descriptors handled before it are
/// not rolled back. It succeeds when every descriptor was attempted and none
/// failed.
pub open spec fn fail_fast_pass<E>(
    operation: RegistryOp,
    token: mio::Token,
    interest: mio::Ready,
    opts: mio::PollOpt,
    served: Seq<ResourceExchange<E>>,
    received: Seq<ReactorExchange>,
    result: Result<(), BridgeError<E>>,
) -> bool {
    &&& served.len() == 1
    &&& served[0] matches ResourceExchange::Descriptors { answer }
    &&& match answer {
        Err(_) => received.len() == 0 && result == Err::<(), BridgeError<E>>(
            served[0].surfaced(),
        ),
        Ok(fds) => {
            &&& received.len() <= fds.len()
            &&& forall|i: int|
                0 <= i < received.len() ==> is_registration(
                    #[trigger] received[i],
                    operation,
                    fds[i],
                    token,
                    interest,
                    opts,
                )
            &&& match result {
                Ok(_) => received.len() == fds.len() && all_succeeded(received),
                Err(error) => first_failure_at(received, received.len() - 1) && error
                    == received.last().surfaced::<E>(),
            }
        },
    }
}

/// A best-effort pass over the descriptor set.
///
/// `served` is what the resource was asked during the pass and `received`
/// what the reactor was asked. The descriptors are listed once. Then
/// deregistration is attempted on every one of them in set order, whether or
/// not earlier attempts failed. The first failure, if there was one, is
/// surfaced after the last attempt.
pub open spec fn best_effort_pass<E>(
    served: Seq<ResourceExchange<E>>,
    received: Seq<ReactorExchange>,
    result: Result<(), BridgeError<E>>,
) -> bool {
    &&& served.len() == 1
    &&& served[0] matches ResourceExchange::Descriptors { answer }
    &&& match answer {
        Err(_) => received.len() == 0 && result == Err::<(), BridgeError<E>>(
            served[0].surfaced(),
        ),
        Ok(fds) => {
            &&& received.len() == fds.len()
            &&& forall|i: int|
                0 <= i < received.len() ==> is_deregistration(#[trigger] received[i], fds[i])
            &&& match result {
                Ok(_) => all_succeeded(received),
                Err(error) => exists|j: int|
                    first_failure_at(received, j) && error == (#[trigger] received[j]).surfaced::<
                        E,
                    >(),
            }
        },
    }
}

/// Wraps a resource and carries its descriptor set through a reactor's
/// registration protocol.
///
/// Every pass asks the resource for its descriptors anew, so a pass always
/// targets the set the resource reports at that moment.
pub struct DescriptorSetRegistrar<R: PollableResource> {
    resource: JournaledResource<R>,
}

impl<R: PollableResource> DescriptorSetRegistrar<R> {
    /// Wraps `resource`, which has been asked nothing yet.
    pub fn new(resource: R) -> (registrar: Self)
        ensures
            registrar.resource() == resource,
            registrar.served() == Seq::<ResourceExchange<R::Error>>::empty(),
    {
        DescriptorSetRegistrar { resource: JournaledResource::new(resource) }
    }

    /// The wrapped resource.
    pub closed spec fn resource(&self) -> R {
        self.resource.inner()
    }

    /// What the wrapped resource has been asked so far, oldest first.
    pub closed spec fn served(&self) -> Seq<ResourceExchange<R::Error>> {
        self.resource.served()
    }

    /// Borrows the wrapped resource.
    pub fn get_ref(&self) -> (resource: &R)
        ensures
            *resource == self.resource(),
    {
        self.resource.get_ref()
    }

    /// Gives the wrapped resource back.
    pub fn into_inner(self) -> (resource: R)
        ensures
            resource == self.resource(),
    {
        self.resource.into_inner()
    }

    /// Asks the resource for its descriptors, which leaves it as it was.
    pub(crate) fn descriptors(&mut self) -> (answer: Result<Vec<FdId>, R::Error>)
        ensures
            final(self).served() == old(self).served().push(
                ResourceExchange::Descriptors { answer: listed(answer) },
            ),
            final(self).resource() == old(self).resource(),
    {
        self.resource.descriptors()
    }

    /// Asks the resource which of `fds` have native events pending.
    pub(crate) fn probe(&mut self, fds: &Vec<FdId>, timeout_ms: i32) -> (answer: Result<
        Vec<(FdId, EventMask)>,
        R::Error,
    >)
        ensures
            final(self).served() == old(self).served().push(
                ResourceExchange::Probe { fds: fds@, timeout_ms, answer: probed(answer) },
            ),
    {
        self.resource.probe(fds, timeout_ms)
    }

    /// Asks the resource to clear `events`.
    pub(crate) fn drain(&mut self, events: &Vec<EventMask>) -> (answer: Result<(), R::Error>)
        ensures
            final(self).served() == old(self).served().push(
                ResourceExchange::Drain { events: events@, answer },
            ),
    {
        self.resource.drain(events)
    }

    /// Registers every descriptor of the resource with `reactor`, fail-fast.
    pub fn register<G: Registry>(
        &mut self,
        reactor: &mut JournaledReactor<G>,
        token: mio::Token,
        interest: mio::Ready,
        opts: mio::PollOpt,
    ) -> (result: Result<(), BridgeError<R::Error>>)
        ensures
            extends(old(self).served(), final(self).served()),
            extends(old(reactor).received(), final(reactor).received()),
            fail_fast_pass(
                RegistryOp::Register,
                token,
                interest,
                opts,
                appended(old(self).served(), final(self).served()),
                appended(old(reactor).received(), final(reactor).received()),
                result,
            ),
            final(self).resource() == old(self).resource(),
    {
        self.attempt_each(reactor, RegistryOp::Register, token, interest, opts)
    }

    /// Replaces the terms of every descriptor of the resource with `reactor`,
    /// fail-fast.
    pub fn reregister<G: Registry>(
        &mut self,
        reactor: &mut JournaledReactor<G>,
        token: mio::Token,
        interest: mio::Ready,
        opts: mio::PollOpt,
    ) -> (result: Result<(), BridgeError<R::Error>>)
        ensures
            extends(old(self).served(), final(self).served()),
            extends(old(reactor).received(), final(reactor).received()),
            fail_fast_pass(
                RegistryOp::Reregister,
                token,
                interest,
                opts,
                appended(old(self).served(), final(self).served()),
                appended(old(reactor).received(), final(reactor).received()),
                result,
            ),
            final(self).resource() == old(self).resource(),
    {
        self.attempt_each(reactor, RegistryOp::Reregister, token, interest, opts)
    }

    /// Deregisters every descriptor of the resource from `reactor`,
    /// best-effort.
    #[verifier::loop_isolation(false)]
    pub fn deregister<G: Registry>(&mut self, reactor: &mut JournaledReactor<G>) -> (result: Result<
        (),
        BridgeError<R::Error>,
    >)
        ensures
            extends(old(self).served(), final(self).served()),
            extends(old(reactor).received(), final(reactor).received()),
            best_effort_pass(
                appended(old(self).served(), final(self).served()),
                appended(old(reactor).received(), final(reactor).received()),
                result,
            ),
            final(self).resource() == old(self).resource(),
    {
        let ghost served_before = self.resource.served();
        let ghost received_before = reactor.received();
        proof {
            lemma_extends_by_nothing(served_before);
            lemma_extends_by_nothing(received_before);
        }
        let answer = self.resource.descriptors();
        proof {
            lemma_extends_by_push(served_before, served_before, self.resource.served().last());
        }
        let fds = match answer {
            Ok(fds) => fds,
            Err(cause) => {
                return Err(
                    BridgeError::Resource { operation: ResourceOp::Descriptors, cause },
                );
            },
        };
        let mut first: Option<BridgeError<R::Error>> = None;
        let ghost mut at: int = 0;
        let mut i: usize = 0;
        while i < fds.len()
            invariant
                i <= fds.len(),
                extends(received_before, reactor.received()),
                appended(received_before, reactor.received()).len() == i,
                forall|k: int|
                    0 <= k < i ==> is_deregistration(
                        #[trigger] appended(received_before, reactor.received())[k],
                        fds[k],
                    ),
                first is None ==> all_succeeded(appended(received_before, reactor.received())),
                first is Some ==> first_failure_at(
                    appended(received_before, reactor.received()),
                    at,
                ) && first->0 == appended(received_before, reactor.received())[at].surfaced::<
                    R::Error,
                >(),
            decreases fds.len() - i,
        {
            let fd = fds[i];
            let ghost so_far = reactor.received();
            let answer = reactor.deregister(fd);
            proof {
                lemma_extends_by_push(received_before, so_far, reactor.received().last());
            }
            match answer {
                Ok(_) => {},
                Err(cause) => {
                    if first.is_none() {
                        first =
                        Some(BridgeError::Io { operation: RegistryOp::Deregister, fd, cause });
                        proof {
                            at = i as int;
                        }
                    }
                },
            }
            i += 1;
        }
        match first {
            None => Ok(()),
            Some(error) => Err(error),
        }
    }

    #[verifier::loop_isolation(false)]
    fn attempt_each<G: Registry>(
        &mut self,
        reactor: &mut JournaledReactor<G>,
        operation: RegistryOp,
        token: mio::Token,
        interest: mio::Ready,
        opts: mio::PollOpt,
    ) -> (result: Result<(), BridgeError<R::Error>>)
        requires
            operation != RegistryOp::Deregister,
        ensures
            extends(old(self).served(), final(self).served()),
            extends(old(reactor).received(), final(reactor).received()),
            fail_fast_pass(
                operation,
                token,
                interest,
                opts,
                appended(old(self).served(), final(self).served()),
                appended(old(reactor).received(), final(reactor).received()),
                result,
            ),
            final(self).resource() == old(self).resource(),
    {
        let ghost served_before = self.resource.served();
        let ghost received_before = reactor.received();
        proof {
            lemma_extends_by_nothing(served_before);
            lemma_extends_by_nothing(received_before);
        }
        let answer = self.resource.descriptors();
        proof {
            lemma_extends_by_push(served_before, served_before, self.resource.served().last());
        }
        let fds = match answer {
            Ok(fds) => fds,
            Err(cause) => {
                return Err(
                    BridgeError::Resource { operation: ResourceOp::Descriptors, cause },
                );
            },
        };
        let mut i: usize = 0;
        while i < fds.len()
            invariant
                i <= fds.len(),
                operation != RegistryOp::Deregister,
                extends(received_before, reactor.received()),
                appended(received_before, reactor.received()).len() == i,
                forall|k: int|
                    0 <= k < i ==> is_registration(
                        #[trigger] appended(received_before, reactor.received())[k],
                        operation,
                        fds[k],
                        token,
                        interest,
                        opts,
                    ),
                all_succeeded(appended(received_before, reactor.received())),
            decreases fds.len() - i,
        {
            let fd = fds[i];
            let ghost so_far = reactor.received();
            let answer = match operation {
                RegistryOp::Register => reactor.register(fd, token, interest, opts),
                _ => reactor.reregister(fd, token, interest, opts),
            };
            proof {
                lemma_extends_by_push(received_before, so_far, reactor.received().last());
            }
            match answer {
                Ok(_) => {},
                Err(cause) => {
                    return Err(BridgeError::Io { operation, fd, cause });
                },
            }
            i += 1;
        }
        Ok(())
    }
}

} // verus!
