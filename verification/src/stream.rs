//! The state machine that turns reactor wake-ups into a coalesced sequence
//! of payload-free notifications.

use crate::capability::{EventMask, FdId, PollableResource, Readiness, ReadinessSource, Registry};
use crate::error::{BridgeError, RegistryOp, ResourceOp};
use crate::journal::{
    appended, extends, lemma_extends_by_nothing, lemma_extends_by_push, JournaledReactor,
    ReactorExchange, ResourceExchange,
};
use crate::registrar::{best_effort_pass, fail_fast_pass, DescriptorSetRegistrar};
use vstd::prelude::*;

verus! {

/// Where a stream stands between construction and steady operation.
///
/// A descriptor registered edge-triggered has an unknown readiness history,
/// so the first cycle drains without asking the reactor first. The step from
/// `InitialDrain` to `Steady` is taken once and never undone.
#[derive(Clone, Copy, Debug, PartialEq, Eq, Structural)]
pub enum StreamPhase {
    /// No drain cycle has completed yet.
    InitialDrain,
    /// At least one drain cycle has completed.
    Steady,
}

/// Whether a stream still produces notifications and still holds its
/// registration.
#[derive(Clone, Copy, Debug, PartialEq, Eq, Structural)]
pub enum Lifecycle {
    /// Registered and able to advance.
    Live,
    /// Terminated by a failure of the resource; still registered.
    Failed,
    /// Torn down: the registration has been given up.
    Released,
}

/// The signal that something changed. It says neither which descriptor fired
/// nor why: the consumer reads the authoritative state again.
#[derive(Clone, Copy, Debug, PartialEq, Eq, Structural)]
pub struct NotificationEvent;

/// What one call of `advance` produced.
#[derive(Clone, Copy, Debug, PartialEq, Eq, Structural)]
pub enum Progress {
    /// Nothing is signaled. The runtime calls again once the reactor reports
    /// readiness for the stream's token.
    Pending,
    /// Exactly one notification, however many native events were pending.
    Notified(NotificationEvent),
}

/// The state of a stream as contracts see it.
pub struct StreamView {
    pub token: mio::Token,
    pub phase: StreamPhase,
    pub lifecycle: Lifecycle,
}

/// The event masks of a pending set, in the order in which they were reported.
pub open spec fn masks_of(pending: Seq<(FdId, EventMask)>) -> Seq<EventMask> {
    Seq::new(pending.len(), |i: int| pending[i].1)
}

/// One drain cycle, from listing the descriptors to re-arming.
///
/// `served` is what the resource was asked during the cycle and `received`
/// what the reactor was asked. The resource lists its descriptors, is probed
/// on exactly those with a timeout of zero, and is asked to drain exactly the
/// masks the probe reported, even when there are none. Then interest is
/// re-armed under `token` and one notification results. The cycle stops at
/// the first failure, which is surfaced, and then asks nothing of the
/// reactor.
pub open spec fn drain_cycle<E>(
    token: mio::Token,
    served: Seq<ResourceExchange<E>>,
    received: Seq<ReactorExchange>,
    result: Result<Progress, BridgeError<E>>,
) -> bool {
    &&& served.len() >= 1
    &&& served[0] matches ResourceExchange::Descriptors { answer: listing }
    &&& match listing {
        Err(_) => {
            &&& served.len() == 1
            &&& received.len() == 0
            &&& result == Err::<Progress, BridgeError<E>>(served[0].surfaced())
        },
        Ok(fds) => {
            &&& served.len() >= 2
            &&& served[1] matches ResourceExchange::Probe { fds: asked, timeout_ms, answer: probing }
            &&& asked == fds
            &&& timeout_ms == 0
            &&& match probing {
                Err(_) => {
                    &&& served.len() == 2
                    &&& received.len() == 0
                    &&& result == Err::<Progress, BridgeError<E>>(served[1].surfaced())
                },
                Ok(pending) => {
                    &&& served.len() == 3
                    &&& served[2] matches ResourceExchange::Drain { events, answer: draining }
                    &&& events == masks_of(pending)
                    &&& match draining {
                        Err(_) => {
                            &&& received.len() == 0
                            &&& result == Err::<Progress, BridgeError<E>>(served[2].surfaced())
                        },
                        Ok(_) => {
                            &&& received == seq![ReactorExchange::Rearm { token }]
                            &&& result == Ok::<Progress, BridgeError<E>>(
                                Progress::Notified(NotificationEvent),
                            )
                        },
                    }
                },
            }
        },
    }
}

/// A drain cycle started from `pre`, and the state it leaves: `Steady` when
/// it completed, `Failed` when it did not.
pub open spec fn cycle_step<E>(
    pre: StreamView,
    served: Seq<ResourceExchange<E>>,
    received: Seq<ReactorExchange>,
    result: Result<Progress, BridgeError<E>>,
    post: StreamView,
) -> bool {
    &&& drain_cycle(pre.token, served, received, result)
    &&& post.token == pre.token
    &&& if result is Ok {
        post.phase == StreamPhase::Steady && post.lifecycle == Lifecycle::Live
    } else {
        post.phase == pre.phase && post.lifecycle == Lifecycle::Failed
    }
}

/// One call of `advance` on a stream in state `pre`.
///
/// `served` is what the resource was asked during the call and `received`
/// what the reactor was asked. A stream that is not live asks nothing and
/// reports `Terminated`. A live stream in `InitialDrain` runs a drain cycle
/// at once. A live stream in `Steady` first asks the reactor about its token:
/// when nothing is signaled it stops there with `Pending` and unchanged
/// state, otherwise the drain cycle follows.
pub open spec fn advance_step<E>(
    pre: StreamView,
    served: Seq<ResourceExchange<E>>,
    received: Seq<ReactorExchange>,
    result: Result<Progress, BridgeError<E>>,
    post: StreamView,
) -> bool {
    if pre.lifecycle != Lifecycle::Live {
        &&& served.len() == 0
        &&& received.len() == 0
        &&& result == Err::<Progress, BridgeError<E>>(BridgeError::Terminated)
        &&& post == pre
    } else {
        match pre.phase {
            StreamPhase::InitialDrain => cycle_step(pre, served, received, result, post),
            StreamPhase::Steady => {
                &&& received.len() >= 1
                &&& received[0] matches ReactorExchange::PollReadiness { token, answer }
                &&& token == pre.token
                &&& match answer {
                    Readiness::NotReady => {
                        &&& received.len() == 1
                        &&& served.len() == 0
                        &&& result == Ok::<Progress, BridgeError<E>>(Progress::Pending)
                        &&& post == pre
                    },
                    Readiness::Ready => cycle_step(pre, served, received.skip(1), result, post),
                }
            },
        }
    }
}

/// One call of `teardown` on a stream in state `pre`.
///
/// A stream that still holds its registration makes one best-effort
/// deregistration pass and is released whatever the pass reported. A
/// released stream asks nothing.
pub open spec fn teardown_step<E>(
    pre: StreamView,
    served: Seq<ResourceExchange<E>>,
    received: Seq<ReactorExchange>,
    result: Result<(), BridgeError<E>>,
    post: StreamView,
) -> bool {
    &&& post.token == pre.token
    &&& post.phase == pre.phase
    &&& post.lifecycle == Lifecycle::Released
    &&& if pre.lifecycle == Lifecycle::Released {
        served.len() == 0 && received.len() == 0 && result is Ok
    } else {
        best_effort_pass(served, received, result)
    }
}

/// Copies the masks out of a pending set, keeping their order.
pub fn pending_masks(pending: &Vec<(FdId, EventMask)>) -> (masks: Vec<EventMask>)
    ensures
        masks@ == masks_of(pending@),
{
    let mut masks: Vec<EventMask> = Vec::new();
    let mut i: usize = 0;
    while i < pending.len()
        invariant
            i <= pending.len(),
            masks.len() == i,
            forall|k: int| 0 <= k < i ==> masks[k] == pending[k].1,
        decreases pending.len() - i,
    {
        masks.push(pending[i].1);
        i += 1;
    }
    assert(masks@ =~= masks_of(pending@));
    masks
}

/// A construction that the reactor or the resource refused. The registrar
/// comes back with the resource in it, so that nothing is lost.
pub struct Rejected<R: PollableResource> {
    pub error: BridgeError<R::Error>,
    pub registrar: DescriptorSetRegistrar<R>,
}

/// An edge-triggered notification stream over one resource.
///
/// The stream owns the resource through its registrar and remembers the
/// token under which the descriptors are registered. The reactor stays
/// outside and is handed to each operation.
pub struct EdgeTriggeredNotificationStream<R: PollableResource> {
    registrar: DescriptorSetRegistrar<R>,
    token: mio::Token,
    phase: StreamPhase,
    lifecycle: Lifecycle,
}

impl<R: PollableResource> EdgeTriggeredNotificationStream<R> {
    /// The state of the stream as contracts see it.
    pub closed spec fn view(&self) -> StreamView {
        StreamView { token: self.token, phase: self.phase, lifecycle: self.lifecycle }
    }

    /// The resource the stream owns.
    pub closed spec fn resource(&self) -> R {
        self.registrar.resource()
    }

    /// What the resource has been asked so far, oldest first.
    pub closed spec fn served(&self) -> Seq<ResourceExchange<R::Error>> {
        self.registrar.served()
    }

    /// Registers the descriptors of `resource` with `reactor` under `token`
    /// and, when every registration succeeded, makes a live stream in
    /// `InitialDrain` around it.
    pub fn new<G: Registry>(
        resource: R,
        reactor: &mut JournaledReactor<G>,
        token: mio::Token,
        interest: mio::Ready,
        opts: mio::PollOpt,
    ) -> (made: Result<Self, Rejected<R>>)
        ensures
            extends(old(reactor).received(), final(reactor).received()),
            match made {
                Ok(stream) => {
                    &&& fail_fast_pass(
                        RegistryOp::Register,
                        token,
                        interest,
                        opts,
                        stream.served(),
                        appended(old(reactor).received(), final(reactor).received()),
                        Ok::<(), BridgeError<R::Error>>(()),
                    )
                    &&& stream@ == (StreamView {
                        token,
                        phase: StreamPhase::InitialDrain,
                        lifecycle: Lifecycle::Live,
                    })
                    &&& stream.resource() == resource
                },
                Err(rejected) => {
                    &&& fail_fast_pass(
                        RegistryOp::Register,
                        token,
                        interest,
                        opts,
                        rejected.registrar.served(),
                        appended(old(reactor).received(), final(reactor).received()),
                        Err::<(), BridgeError<R::Error>>(rejected.error),
                    )
                    &&& rejected.registrar.resource() == resource
                },
            },
    {
        let mut registrar = DescriptorSetRegistrar::new(resource);
        let registered = registrar.register(reactor, token, interest, opts);
        proof {
            assert(appended(Seq::<ResourceExchange<R::Error>>::empty(), registrar.served())
                =~= registrar.served());
        }
        match registered {
            Ok(_) => Ok(
                EdgeTriggeredNotificationStream {
                    registrar,
                    token,
                    phase: StreamPhase::InitialDrain,
                    lifecycle: Lifecycle::Live,
                },
            ),
            Err(error) => Err(Rejected { error, registrar }),
        }
    }

    /// Makes a live stream in `InitialDrain` around a resource whose
    /// descriptors the runtime registers under `token` itself, by driving a
    /// [`DescriptorSetRegistrar`] over the same resource.
    pub fn attach(resource: R, token: mio::Token) -> (stream: Self)
        ensures
            stream@ == (StreamView {
                token,
                phase: StreamPhase::InitialDrain,
                lifecycle: Lifecycle::Live,
            }),
            stream.resource() == resource,
            stream.served() == Seq::<ResourceExchange<R::Error>>::empty(),
    {
        EdgeTriggeredNotificationStream {
            registrar: DescriptorSetRegistrar::new(resource),
            token,
            phase: StreamPhase::InitialDrain,
            lifecycle: Lifecycle::Live,
        }
    }

    /// The phase the stream is in.
    pub fn phase(&self) -> (phase: StreamPhase)
        ensures
            phase == self@.phase,
    {
        self.phase
    }

    /// Whether the stream is live, failed or released.
    pub fn lifecycle(&self) -> (lifecycle: Lifecycle)
        ensures
            lifecycle == self@.lifecycle,
    {
        self.lifecycle
    }

    /// The token under which the descriptors are registered.
    pub fn token(&self) -> (token: mio::Token)
        ensures
            token == self@.token,
    {
        self.token
    }

    /// Borrows the resource the stream owns.
    pub fn get_ref(&self) -> (resource: &R)
        ensures
            *resource == self.resource(),
    {
        self.registrar.get_ref()
    }

    /// Gives the resource back without touching the reactor.
    pub fn into_inner(self) -> (resource: R)
        ensures
            resource == self.resource(),
    {
        self.registrar.into_inner()
    }

    /// Makes progress if the reactor allows it.
    ///
    /// Returns `Pending` when the stream is steady and nothing is signaled,
    /// and one notification after a completed drain cycle. A failure of the
    /// resource terminates the stream for good: this call surfaces the
    /// failure, every later call reports `Terminated`. The resource is left
    /// as it was unless it was probed.
    pub fn advance<K: ReadinessSource>(&mut self, reactor: &mut JournaledReactor<K>) -> (result:
        Result<Progress, BridgeError<R::Error>>)
        ensures
            extends(old(self).served(), final(self).served()),
            extends(old(reactor).received(), final(reactor).received()),
            advance_step(
                old(self)@,
                appended(old(self).served(), final(self).served()),
                appended(old(reactor).received(), final(reactor).received()),
                result,
                final(self)@,
            ),
            final(self).served().len() <= old(self).served().len() + 1 ==> final(self).resource()
                == old(self).resource(),
    {
        let ghost served_before = self.registrar.served();
        let ghost received_before = reactor.received();
        proof {
            lemma_extends_by_nothing(served_before);
            lemma_extends_by_nothing(received_before);
        }
        match self.lifecycle {
            Lifecycle::Live => {},
            _ => {
                return Err(BridgeError::Terminated);
            },
        }
        match self.phase {
            StreamPhase::InitialDrain => {},
            StreamPhase::Steady => {
                let answer = reactor.poll_readiness(self.token);
                proof {
                    lemma_extends_by_push(
                        received_before,
                        received_before,
                        reactor.received().last(),
                    );
                }
                match answer {
                    Readiness::NotReady => {
                        return Ok(Progress::Pending);
                    },
                    Readiness::Ready => {},
                }
            },
        }
        let ghost received_asked = reactor.received();
        proof {
            assert(appended(received_before, received_asked).skip(
                appended(received_before, received_asked).len() as int,
            ) =~= Seq::<ReactorExchange>::empty());
        }

        let listing = self.registrar.descriptors();
        proof {
            lemma_extends_by_push(served_before, served_before, self.registrar.served().last());
        }
        let fds = match listing {
            Ok(fds) => fds,
            Err(cause) => {
                self.lifecycle = Lifecycle::Failed;
                return Err(BridgeError::Resource { operation: ResourceOp::Descriptors, cause });
            },
        };

        let ghost served_listed = self.registrar.served();
        let probing = self.registrar.probe(&fds, 0);
        proof {
            lemma_extends_by_push(served_before, served_listed, self.registrar.served().last());
        }
        let pending = match probing {
            Ok(pending) => pending,
            Err(cause) => {
                self.lifecycle = Lifecycle::Failed;
                return Err(BridgeError::Resource { operation: ResourceOp::Probe, cause });
            },
        };

        let masks = pending_masks(&pending);
        let ghost served_probed = self.registrar.served();
        let draining = self.registrar.drain(&masks);
        proof {
            lemma_extends_by_push(served_before, served_probed, self.registrar.served().last());
        }
        match draining {
            Ok(_) => {},
            Err(cause) => {
                self.lifecycle = Lifecycle::Failed;
                return Err(BridgeError::Resource { operation: ResourceOp::Drain, cause });
            },
        }

        reactor.rearm(self.token);
        proof {
            lemma_extends_by_push(received_before, received_asked, reactor.received().last());
            assert(appended(received_before, reactor.received()).skip(
                appended(received_before, received_asked).len() as int,
            ) =~= seq![ReactorExchange::Rearm { token: self.token }]);
        }
        self.phase = StreamPhase::Steady;
        Ok(Progress::Notified(NotificationEvent))
    }

    /// Gives up the registration: one best-effort deregistration pass over
    /// the descriptors the resource lists now. A second call does nothing.
    pub fn teardown<G: Registry>(&mut self, reactor: &mut JournaledReactor<G>) -> (result: Result<
        (),
        BridgeError<R::Error>,
    >)
        ensures
            extends(old(self).served(), final(self).served()),
            extends(old(reactor).received(), final(reactor).received()),
            teardown_step(
                old(self)@,
                appended(old(self).served(), final(self).served()),
                appended(old(reactor).received(), final(reactor).received()),
                result,
                final(self)@,
            ),
            final(self).resource() == old(self).resource(),
    {
        match self.lifecycle {
            Lifecycle::Released => {
                proof {
                    lemma_extends_by_nothing(self.registrar.served());
                    lemma_extends_by_nothing(reactor.received());
                }
                Ok(())
            },
            _ => {
                self.lifecycle = Lifecycle::Released;
                self.registrar.deregister(reactor)
            },
        }
    }
}

} // verus!
