use std::cell::{Cell, RefCell};

use pollbridge::capability::{
    EventMask, FdId, PollableResource, Readiness, ReadinessSource, Registry,
};
use pollbridge::error::{BridgeError, RegistryOp, ResourceOp};
use pollbridge::journal::{JournaledReactor, JournaledResource};
use pollbridge::mio_registry::MioRegistry;
use pollbridge::registrar::DescriptorSetRegistrar;
use pollbridge::stream::{
    pending_masks, EdgeTriggeredNotificationStream, Lifecycle, NotificationEvent, Progress,
    StreamPhase,
};

#[derive(Clone, Debug, PartialEq)]
enum ResourceCall {
    Descriptors,
    Probe { fds: Vec<FdId>, timeout_ms: i32 },
    Drain { events: Vec<EventMask> },
}

/// A resource that answers from what the test has set and writes down what
/// it was asked.
struct FakeResource {
    fds: RefCell<Vec<FdId>>,
    pending: RefCell<Vec<(FdId, EventMask)>>,
    descriptors_error: Cell<Option<&'static str>>,
    probe_error: Cell<Option<&'static str>>,
    drain_error: Cell<Option<&'static str>>,
    calls: RefCell<Vec<ResourceCall>>,
}

impl FakeResource {
    fn with_descriptors(fds: &[FdId]) -> FakeResource {
        FakeResource {
            fds: RefCell::new(fds.to_vec()),
            pending: RefCell::new(Vec::new()),
            descriptors_error: Cell::new(None),
            probe_error: Cell::new(None),
            drain_error: Cell::new(None),
            calls: RefCell::new(Vec::new()),
        }
    }

    fn calls(&self) -> Vec<ResourceCall> {
        self.calls.borrow().clone()
    }

    fn drains(&self) -> Vec<Vec<EventMask>> {
        self.calls()
            .into_iter()
            .filter_map(|call| match call {
                ResourceCall::Drain { events } => Some(events),
                _ => None,
            })
            .collect()
    }
}

impl PollableResource for FakeResource {
    type Error = &'static str;

    fn descriptors(&self) -> Result<Vec<FdId>, &'static str> {
        self.calls.borrow_mut().push(ResourceCall::Descriptors);
        match self.descriptors_error.get() {
            Some(cause) => Err(cause),
            None => Ok(self.fds.borrow().clone()),
        }
    }

    fn probe(
        &mut self,
        fds: &Vec<FdId>,
        timeout_ms: i32,
    ) -> Result<Vec<(FdId, EventMask)>, &'static str> {
        self.calls.borrow_mut().push(ResourceCall::Probe { fds: fds.clone(), timeout_ms });
        match self.probe_error.get() {
            Some(cause) => Err(cause),
            None => Ok(self.pending.borrow().clone()),
        }
    }

    fn drain(&mut self, events: &Vec<EventMask>) -> Result<(), &'static str> {
        self.calls.borrow_mut().push(ResourceCall::Drain { events: events.clone() });
        match self.drain_error.get() {
            Some(cause) => Err(cause),
            None => {
                self.pending.borrow_mut().clear();
                Ok(())
            }
        }
    }
}

#[derive(Clone, Debug, PartialEq)]
enum ReactorCall {
    Register { fd: FdId, token: mio::Token, interest: mio::Ready, opts: mio::PollOpt },
    Reregister { fd: FdId, token: mio::Token, interest: mio::Ready, opts: mio::PollOpt },
    Deregister { fd: FdId },
    PollReadiness { token: mio::Token },
    Rearm { token: mio::Token },
}

/// A reactor that refuses the descriptors the test names, reports readiness
/// while wake signals are outstanding, and writes down what it was asked.
struct FakeReactor {
    refused: Vec<(FdId, i32)>,
    signals: usize,
    calls: Vec<ReactorCall>,
}

impl FakeReactor {
    fn new() -> FakeReactor {
        FakeReactor { refused: Vec::new(), signals: 0, calls: Vec::new() }
    }

    fn refusing(refused: &[(FdId, i32)]) -> FakeReactor {
        FakeReactor { refused: refused.to_vec(), signals: 0, calls: Vec::new() }
    }

    fn signaled(signals: usize) -> FakeReactor {
        FakeReactor { refused: Vec::new(), signals, calls: Vec::new() }
    }

    fn answer(&self, fd: FdId) -> Result<(), std::io::Error> {
        match self.refused.iter().find(|(refused, _)| *refused == fd) {
            Some((_, code)) => Err(std::io::Error::from_raw_os_error(*code)),
            None => Ok(()),
        }
    }

    fn count(&self, wanted: fn(&ReactorCall) -> bool) -> usize {
        self.calls.iter().filter(|call| wanted(call)).count()
    }
}

impl Registry for FakeReactor {
    fn register(
        &mut self,
        fd: FdId,
        token: mio::Token,
        interest: mio::Ready,
        opts: mio::PollOpt,
    ) -> Result<(), std::io::Error> {
        self.calls.push(ReactorCall::Register { fd, token, interest, opts });
        self.answer(fd)
    }

    fn reregister(
        &mut self,
        fd: FdId,
        token: mio::Token,
        interest: mio::Ready,
        opts: mio::PollOpt,
    ) -> Result<(), std::io::Error> {
        self.calls.push(ReactorCall::Reregister { fd, token, interest, opts });
        self.answer(fd)
    }

    fn deregister(&mut self, fd: FdId) -> Result<(), std::io::Error> {
        self.calls.push(ReactorCall::Deregister { fd });
        self.answer(fd)
    }
}

impl ReadinessSource for FakeReactor {
    fn poll_readiness(&mut self, token: mio::Token) -> Readiness {
        self.calls.push(ReactorCall::PollReadiness { token });
        if self.signals > 0 {
            self.signals = 0;
            Readiness::Ready
        } else {
            Readiness::NotReady
        }
    }

    fn rearm(&mut self, token: mio::Token) {
        self.calls.push(ReactorCall::Rearm { token });
    }
}

const TOKEN: mio::Token = mio::Token(7);

fn is_rearm(call: &ReactorCall) -> bool {
    matches!(call, ReactorCall::Rearm { .. })
}

fn is_poll(call: &ReactorCall) -> bool {
    matches!(call, ReactorCall::PollReadiness { .. })
}

fn is_deregister(call: &ReactorCall) -> bool {
    matches!(call, ReactorCall::Deregister { .. })
}

fn is_register(call: &ReactorCall) -> bool {
    matches!(call, ReactorCall::Register { .. })
}

fn notified() -> Progress {
    Progress::Notified(NotificationEvent)
}

fn fresh_stream(
    fds: &[FdId],
    reactor: &mut JournaledReactor<FakeReactor>,
) -> EdgeTriggeredNotificationStream<FakeResource> {
    match EdgeTriggeredNotificationStream::new(
        FakeResource::with_descriptors(fds),
        reactor,
        TOKEN,
        mio::Ready::readable(),
        mio::PollOpt::edge(),
    ) {
        Ok(stream) => stream,
        Err(rejected) => panic!("construction was rejected: {:?}", rejected.error),
    }
}

#[test]
fn first_advance_notifies_though_reactor_is_never_ready() {
    let mut reactor = JournaledReactor::new(FakeReactor::new());
    let mut stream = fresh_stream(&[4], &mut reactor);
    assert_eq!(stream.phase(), StreamPhase::InitialDrain);

    let progress = stream.advance(&mut reactor).unwrap();

    assert_eq!(progress, notified());
    assert_eq!(stream.phase(), StreamPhase::Steady);
    assert_eq!(reactor.get_ref().count(is_poll), 0);
    assert_eq!(
        stream.get_ref().calls(),
        vec![
            ResourceCall::Descriptors,
            ResourceCall::Descriptors,
            ResourceCall::Probe { fds: vec![4], timeout_ms: 0 },
            ResourceCall::Drain { events: vec![] },
        ]
    );
}

#[test]
fn steady_stream_is_pending_until_the_reactor_signals() {
    let mut reactor = JournaledReactor::new(FakeReactor::new());
    let mut stream = fresh_stream(&[4], &mut reactor);
    assert_eq!(stream.advance(&mut reactor).unwrap(), notified());
    let asked_before = stream.get_ref().calls().len();

    assert_eq!(stream.advance(&mut reactor).unwrap(), Progress::Pending);
    assert_eq!(stream.advance(&mut reactor).unwrap(), Progress::Pending);

    assert_eq!(stream.phase(), StreamPhase::Steady);
    assert_eq!(stream.lifecycle(), Lifecycle::Live);
    assert_eq!(stream.get_ref().calls().len(), asked_before);
    assert_eq!(reactor.get_ref().count(is_poll), 2);
    assert_eq!(reactor.get_ref().count(is_rearm), 1);
    assert_eq!(
        reactor.get_ref().calls.last(),
        Some(&ReactorCall::PollReadiness { token: TOKEN })
    );
}

#[test]
fn many_pending_descriptors_and_signals_coalesce_into_one_event() {
    let mut reactor = JournaledReactor::new(FakeReactor::new());
    let mut stream = fresh_stream(&[4, 5, 6], &mut reactor);
    assert_eq!(stream.advance(&mut reactor).unwrap(), notified());

    let mut reactor = JournaledReactor::new(FakeReactor::signaled(3));
    *stream.get_ref().pending.borrow_mut() =
        vec![(4, EventMask(1)), (5, EventMask(3)), (6, EventMask(1))];

    assert_eq!(stream.advance(&mut reactor).unwrap(), notified());
    assert_eq!(stream.advance(&mut reactor).unwrap(), Progress::Pending);

    assert_eq!(
        stream.get_ref().drains(),
        vec![vec![], vec![EventMask(1), EventMask(3), EventMask(1)]]
    );
    assert_eq!(reactor.get_ref().count(is_rearm), 1);
}

#[test]
fn every_notification_rearms_exactly_once_and_last() {
    let mut reactor = JournaledReactor::new(FakeReactor::new());
    let mut stream = fresh_stream(&[9], &mut reactor);

    assert_eq!(stream.advance(&mut reactor).unwrap(), notified());
    assert_eq!(reactor.get_ref().count(is_rearm), 1);
    assert_eq!(reactor.get_ref().calls.last(), Some(&ReactorCall::Rearm { token: TOKEN }));

    let mut reactor = JournaledReactor::new(FakeReactor::signaled(1));
    assert_eq!(stream.advance(&mut reactor).unwrap(), notified());
    assert_eq!(
        reactor.get_ref().calls,
        vec![ReactorCall::PollReadiness { token: TOKEN }, ReactorCall::Rearm { token: TOKEN }]
    );
}

#[test]
fn teardown_deregisters_each_descriptor_once_and_only_the_first_time() {
    let mut reactor = JournaledReactor::new(FakeReactor::new());
    let mut stream = fresh_stream(&[4, 5, 6], &mut reactor);

    assert!(stream.teardown(&mut reactor).is_ok());
    assert_eq!(stream.lifecycle(), Lifecycle::Released);
    assert!(stream.teardown(&mut reactor).is_ok());

    let deregistered: Vec<ReactorCall> =
        reactor.get_ref().calls.iter().filter(|call| is_deregister(call)).cloned().collect();
    assert_eq!(
        deregistered,
        vec![
            ReactorCall::Deregister { fd: 4 },
            ReactorCall::Deregister { fd: 5 },
            ReactorCall::Deregister { fd: 6 },
        ]
    );
}

#[test]
fn teardown_targets_the_descriptors_listed_at_that_moment() {
    let mut reactor = JournaledReactor::new(FakeReactor::new());
    let mut stream = fresh_stream(&[4, 5], &mut reactor);
    *stream.get_ref().fds.borrow_mut() = vec![8];

    assert!(stream.teardown(&mut reactor).is_ok());

    assert_eq!(reactor.get_ref().count(is_deregister), 1);
    assert_eq!(reactor.get_ref().calls.last(), Some(&ReactorCall::Deregister { fd: 8 }));
}

#[test]
fn teardown_goes_on_after_a_failure_and_reports_the_first() {
    let mut reactor = JournaledReactor::new(FakeReactor::new());
    let mut stream = fresh_stream(&[4, 5, 6], &mut reactor);
    let mut reactor = JournaledReactor::new(FakeReactor::refusing(&[(5, 9), (6, 2)]));

    let result = stream.teardown(&mut reactor);

    match result {
        Err(BridgeError::Io { operation, fd, cause }) => {
            assert_eq!(operation, RegistryOp::Deregister);
            assert_eq!(fd, 5);
            assert_eq!(cause.raw_os_error(), Some(9));
        }
        other => panic!("unexpected result: {:?}", other),
    }
    assert_eq!(reactor.get_ref().count(is_deregister), 3);
    assert_eq!(stream.lifecycle(), Lifecycle::Released);
}

#[test]
fn teardown_that_cannot_list_descriptors_still_releases() {
    let mut reactor = JournaledReactor::new(FakeReactor::new());
    let mut stream = fresh_stream(&[4], &mut reactor);
    stream.get_ref().descriptors_error.set(Some("gone"));

    let result = stream.teardown(&mut reactor);

    assert!(matches!(
        result,
        Err(BridgeError::Resource { operation: ResourceOp::Descriptors, cause: "gone" })
    ));
    assert_eq!(reactor.get_ref().count(is_deregister), 0);
    assert_eq!(stream.lifecycle(), Lifecycle::Released);
    assert!(stream.teardown(&mut reactor).is_ok());
}

#[test]
fn failed_probe_terminates_the_stream_for_good() {
    let mut reactor = JournaledReactor::new(FakeReactor::new());
    let mut stream = fresh_stream(&[4], &mut reactor);
    stream.get_ref().probe_error.set(Some("probe broke"));

    let first = stream.advance(&mut reactor);
    assert!(matches!(
        first,
        Err(BridgeError::Resource { operation: ResourceOp::Probe, cause: "probe broke" })
    ));
    assert_eq!(stream.lifecycle(), Lifecycle::Failed);
    assert_eq!(stream.phase(), StreamPhase::InitialDrain);
    assert_eq!(reactor.get_ref().count(is_rearm), 0);

    stream.get_ref().probe_error.set(None);
    let asked_before = stream.get_ref().calls().len();
    let mut reactor = JournaledReactor::new(FakeReactor::signaled(2));
    for _ in 0..3 {
        assert!(matches!(stream.advance(&mut reactor), Err(BridgeError::Terminated)));
    }
    assert_eq!(stream.get_ref().calls().len(), asked_before);
    assert!(reactor.get_ref().calls.is_empty());
}

#[test]
fn failed_drain_terminates_the_stream_without_rearming() {
    let mut reactor = JournaledReactor::new(FakeReactor::new());
    let mut stream = fresh_stream(&[4], &mut reactor);
    assert_eq!(stream.advance(&mut reactor).unwrap(), notified());

    let mut reactor = JournaledReactor::new(FakeReactor::signaled(1));
    *stream.get_ref().pending.borrow_mut() = vec![(4, EventMask(1))];
    stream.get_ref().drain_error.set(Some("drain broke"));

    let result = stream.advance(&mut reactor);
    assert!(matches!(
        result,
        Err(BridgeError::Resource { operation: ResourceOp::Drain, cause: "drain broke" })
    ));
    assert_eq!(reactor.get_ref().calls, vec![ReactorCall::PollReadiness { token: TOKEN }]);
    assert_eq!(stream.phase(), StreamPhase::Steady);
    assert_eq!(stream.lifecycle(), Lifecycle::Failed);
    assert!(matches!(stream.advance(&mut reactor), Err(BridgeError::Terminated)));
}

#[test]
fn failed_listing_terminates_the_stream_before_any_probe() {
    let mut reactor = JournaledReactor::new(FakeReactor::new());
    let mut stream = fresh_stream(&[4], &mut reactor);
    stream.get_ref().descriptors_error.set(Some("no descriptors"));

    let result = stream.advance(&mut reactor);

    assert!(matches!(
        result,
        Err(BridgeError::Resource { operation: ResourceOp::Descriptors, cause: "no descriptors" })
    ));
    assert_eq!(
        stream.get_ref().calls(),
        vec![ResourceCall::Descriptors, ResourceCall::Descriptors]
    );
    assert_eq!(stream.lifecycle(), Lifecycle::Failed);
}

#[test]
fn a_failed_stream_is_still_deregistered_by_teardown() {
    let mut reactor = JournaledReactor::new(FakeReactor::new());
    let mut stream = fresh_stream(&[4, 5], &mut reactor);
    stream.get_ref().probe_error.set(Some("probe broke"));
    assert!(stream.advance(&mut reactor).is_err());

    assert!(stream.teardown(&mut reactor).is_ok());

    assert_eq!(reactor.get_ref().count(is_deregister), 2);
    assert_eq!(stream.lifecycle(), Lifecycle::Released);
}

#[test]
fn a_released_stream_reports_terminated() {
    let mut reactor = JournaledReactor::new(FakeReactor::signaled(1));
    let mut stream = fresh_stream(&[4], &mut reactor);
    assert!(stream.teardown(&mut reactor).is_ok());
    let asked_before = reactor.get_ref().calls.len();

    assert!(matches!(stream.advance(&mut reactor), Err(BridgeError::Terminated)));

    assert_eq!(reactor.get_ref().calls.len(), asked_before);
}

#[test]
fn construction_registers_once_per_descriptor_on_the_same_terms() {
    let mut reactor = JournaledReactor::new(FakeReactor::new());
    let interest = mio::Ready::readable() | mio::Ready::writable();
    let opts = mio::PollOpt::edge() | mio::PollOpt::oneshot();

    let made = EdgeTriggeredNotificationStream::new(
        FakeResource::with_descriptors(&[10, 11, 12, 13]),
        &mut reactor,
        mio::Token(42),
        interest,
        opts,
    );

    let stream = made.ok().expect("every registration succeeds");
    assert_eq!(stream.token(), mio::Token(42));
    assert_eq!(stream.phase(), StreamPhase::InitialDrain);
    assert_eq!(stream.lifecycle(), Lifecycle::Live);
    let expected: Vec<ReactorCall> = [10, 11, 12, 13]
        .iter()
        .map(|fd| ReactorCall::Register { fd: *fd, token: mio::Token(42), interest, opts })
        .collect();
    assert_eq!(reactor.get_ref().calls, expected);
    assert_eq!(stream.get_ref().calls(), vec![ResourceCall::Descriptors]);
}

#[test]
fn construction_over_no_descriptors_asks_nothing_of_the_reactor() {
    let mut reactor = JournaledReactor::new(FakeReactor::new());
    let mut stream = fresh_stream(&[], &mut reactor);

    assert!(reactor.get_ref().calls.is_empty());
    assert_eq!(stream.advance(&mut reactor).unwrap(), notified());
    assert_eq!(
        stream.get_ref().calls().last(),
        Some(&ResourceCall::Drain { events: vec![] })
    );
}

#[test]
fn construction_stops_at_the_first_refused_descriptor() {
    let mut reactor = JournaledReactor::new(FakeReactor::refusing(&[(11, 17)]));

    let made = EdgeTriggeredNotificationStream::new(
        FakeResource::with_descriptors(&[10, 11, 12]),
        &mut reactor,
        TOKEN,
        mio::Ready::readable(),
        mio::PollOpt::edge(),
    );

    let rejected = made.err().expect("descriptor 11 is refused");
    match rejected.error {
        BridgeError::Io { operation, fd, cause } => {
            assert_eq!(operation, RegistryOp::Register);
            assert_eq!(fd, 11);
            assert_eq!(cause.raw_os_error(), Some(17));
        }
        other => panic!("unexpected error: {:?}", other),
    }
    assert_eq!(reactor.get_ref().count(is_register), 2);
    assert_eq!(reactor.get_ref().count(is_deregister), 0);
    assert_eq!(rejected.registrar.into_inner().fds.into_inner(), vec![10, 11, 12]);
}

#[test]
fn construction_fails_when_descriptors_cannot_be_listed() {
    let mut reactor = JournaledReactor::new(FakeReactor::new());
    let resource = FakeResource::with_descriptors(&[10]);
    resource.descriptors_error.set(Some("closed"));

    let made = EdgeTriggeredNotificationStream::new(
        resource,
        &mut reactor,
        TOKEN,
        mio::Ready::readable(),
        mio::PollOpt::edge(),
    );

    let rejected = made.err().expect("the resource cannot list its descriptors");
    assert!(matches!(
        rejected.error,
        BridgeError::Resource { operation: ResourceOp::Descriptors, cause: "closed" }
    ));
    assert!(reactor.get_ref().calls.is_empty());
}

#[test]
fn attached_stream_starts_in_initial_drain_and_asks_nothing() {
    let resource = FakeResource::with_descriptors(&[4]);
    let mut stream = EdgeTriggeredNotificationStream::attach(resource, TOKEN);
    assert_eq!(stream.phase(), StreamPhase::InitialDrain);
    assert_eq!(stream.lifecycle(), Lifecycle::Live);
    assert_eq!(stream.token(), TOKEN);
    assert!(stream.get_ref().calls().is_empty());

    let mut reactor = JournaledReactor::new(FakeReactor::new());
    assert_eq!(stream.advance(&mut reactor).unwrap(), notified());
    assert_eq!(reactor.get_ref().calls, vec![ReactorCall::Rearm { token: TOKEN }]);
    assert_eq!(stream.into_inner().calls().len(), 3);
}

#[test]
fn registrar_reregisters_every_descriptor_on_the_new_terms() {
    let mut reactor = JournaledReactor::new(FakeReactor::new());
    let mut registrar = DescriptorSetRegistrar::new(FakeResource::with_descriptors(&[1, 2]));

    let result =
        registrar.reregister(&mut reactor, TOKEN, mio::Ready::writable(), mio::PollOpt::level());

    assert!(result.is_ok());
    assert_eq!(
        reactor.into_inner().calls,
        vec![
            ReactorCall::Reregister {
                fd: 1,
                token: TOKEN,
                interest: mio::Ready::writable(),
                opts: mio::PollOpt::level(),
            },
            ReactorCall::Reregister {
                fd: 2,
                token: TOKEN,
                interest: mio::Ready::writable(),
                opts: mio::PollOpt::level(),
            },
        ]
    );
}

#[test]
fn registrar_reregister_stops_at_the_first_failure() {
    let mut reactor = JournaledReactor::new(FakeReactor::refusing(&[(1, 2)]));
    let mut registrar = DescriptorSetRegistrar::new(FakeResource::with_descriptors(&[1, 2, 3]));

    let result =
        registrar.reregister(&mut reactor, TOKEN, mio::Ready::readable(), mio::PollOpt::edge());

    match result {
        Err(BridgeError::Io { operation, fd, cause }) => {
            assert_eq!(operation, RegistryOp::Reregister);
            assert_eq!(fd, 1);
            assert_eq!(cause.raw_os_error(), Some(2));
        }
        other => panic!("unexpected result: {:?}", other),
    }
    assert_eq!(reactor.get_ref().calls.len(), 1);
}

#[test]
fn registrar_register_then_deregister_visit_descriptors_in_set_order() {
    let mut reactor = JournaledReactor::new(FakeReactor::new());
    let mut registrar = DescriptorSetRegistrar::new(FakeResource::with_descriptors(&[3, 1, 2]));

    assert!(registrar
        .register(&mut reactor, TOKEN, mio::Ready::readable(), mio::PollOpt::edge())
        .is_ok());
    assert!(registrar.deregister(&mut reactor).is_ok());

    let fds: Vec<FdId> = reactor
        .get_ref()
        .calls
        .iter()
        .map(|call| match call {
            ReactorCall::Register { fd, .. } => *fd,
            ReactorCall::Deregister { fd } => -*fd,
            _ => 0,
        })
        .collect();
    assert_eq!(fds, vec![3, 1, 2, -3, -1, -2]);
    assert_eq!(registrar.get_ref().calls().len(), 2);
}

#[test]
fn pending_masks_keeps_order_and_duplicates() {
    assert_eq!(pending_masks(&vec![]), Vec::<EventMask>::new());
    assert_eq!(
        pending_masks(&vec![(7, EventMask(1)), (3, EventMask(-1)), (7, EventMask(1))]),
        vec![EventMask(1), EventMask(-1), EventMask(1)]
    );
}

#[test]
fn mio_registry_refuses_a_descriptor_that_is_not_open() {
    let poll = mio::Poll::new().unwrap();
    let mut reactor = JournaledReactor::new(MioRegistry::new(&poll));
    let mut registrar = DescriptorSetRegistrar::new(FakeResource::with_descriptors(&[-1, -1]));

    let registered =
        registrar.register(&mut reactor, TOKEN, mio::Ready::readable(), mio::PollOpt::edge());
    assert!(matches!(
        registered,
        Err(BridgeError::Io { operation: RegistryOp::Register, fd: -1, .. })
    ));

    let reregistered =
        registrar.reregister(&mut reactor, TOKEN, mio::Ready::readable(), mio::PollOpt::edge());
    assert!(matches!(
        reregistered,
        Err(BridgeError::Io { operation: RegistryOp::Reregister, fd: -1, .. })
    ));

    let deregistered = registrar.deregister(&mut reactor);
    assert!(matches!(
        deregistered,
        Err(BridgeError::Io { operation: RegistryOp::Deregister, fd: -1, .. })
    ));
}

#[test]
fn mio_registry_accepts_an_empty_descriptor_set() {
    let poll = mio::Poll::new().unwrap();
    let mut reactor = JournaledReactor::new(MioRegistry::new(&poll));
    let mut registrar = DescriptorSetRegistrar::new(FakeResource::with_descriptors(&[]));

    assert!(registrar
        .register(&mut reactor, TOKEN, mio::Ready::readable(), mio::PollOpt::edge())
        .is_ok());
    assert!(registrar.deregister(&mut reactor).is_ok());
}

/// The number of some open descriptor that the selector of `poll` accepts,
/// left registered there.
fn accepted_descriptor(poll: &mio::Poll) -> FdId {
    let mut registry = MioRegistry::new(poll);
    for fd in 0..1024 {
        if registry.register(fd, TOKEN, mio::Ready::readable(), mio::PollOpt::edge()).is_ok() {
            return fd;
        }
    }
    panic!("no descriptor below 1024 can be watched");
}

#[test]
fn mio_registry_follows_the_selector_through_a_registration() {
    let _watched = mio::Poll::new().unwrap();
    let poll = mio::Poll::new().unwrap();
    let fd = accepted_descriptor(&poll);
    let mut reactor = JournaledReactor::new(MioRegistry::new(&poll));
    let mut registrar = DescriptorSetRegistrar::new(FakeResource::with_descriptors(&[fd]));
    let readable = mio::Ready::readable();

    assert!(registrar.register(&mut reactor, TOKEN, readable, mio::PollOpt::edge()).is_err());
    assert!(registrar.reregister(&mut reactor, TOKEN, readable, mio::PollOpt::level()).is_ok());
    assert!(registrar.deregister(&mut reactor).is_ok());
    assert!(registrar.deregister(&mut reactor).is_err());
    assert!(registrar.reregister(&mut reactor, TOKEN, readable, mio::PollOpt::edge()).is_err());
    assert!(registrar.register(&mut reactor, TOKEN, readable, mio::PollOpt::edge()).is_ok());
    assert!(registrar.deregister(&mut reactor).is_ok());
}

#[test]
fn journaled_resource_hands_every_answer_through() {
    let inner = FakeResource::with_descriptors(&[3, 8]);
    *inner.pending.borrow_mut() = vec![(8, EventMask(5))];
    let mut resource = JournaledResource::new(inner);

    assert_eq!(resource.descriptors(), Ok(vec![3, 8]));
    assert_eq!(resource.probe(&vec![3, 8], 0), Ok(vec![(8, EventMask(5))]));
    assert_eq!(resource.drain(&vec![EventMask(5)]), Ok(()));
    resource.get_ref().probe_error.set(Some("broken"));
    assert_eq!(resource.probe(&vec![3], 0), Err("broken"));

    assert_eq!(
        resource.into_inner().calls(),
        vec![
            ResourceCall::Descriptors,
            ResourceCall::Probe { fds: vec![3, 8], timeout_ms: 0 },
            ResourceCall::Drain { events: vec![EventMask(5)] },
            ResourceCall::Probe { fds: vec![3], timeout_ms: 0 },
        ]
    );
}

#[test]
fn journaled_reactor_hands_every_answer_through() {
    let mut reactor = JournaledReactor::new(FakeReactor::refusing(&[(2, 13)]));
    reactor = JournaledReactor::new(FakeReactor { signals: 1, ..reactor.into_inner() });
    let readable = mio::Ready::readable();

    assert!(reactor.register(1, TOKEN, readable, mio::PollOpt::edge()).is_ok());
    assert_eq!(
        reactor.register(2, TOKEN, readable, mio::PollOpt::edge()).unwrap_err().raw_os_error(),
        Some(13)
    );
    assert!(reactor.reregister(1, TOKEN, readable, mio::PollOpt::level()).is_ok());
    assert!(reactor.deregister(2).is_err());
    assert_eq!(reactor.poll_readiness(TOKEN), Readiness::Ready);
    assert_eq!(reactor.poll_readiness(TOKEN), Readiness::NotReady);
    reactor.rearm(TOKEN);

    assert_eq!(
        reactor.get_ref().calls,
        vec![
            ReactorCall::Register { fd: 1, token: TOKEN, interest: readable, opts: mio::PollOpt::edge() },
            ReactorCall::Register { fd: 2, token: TOKEN, interest: readable, opts: mio::PollOpt::edge() },
            ReactorCall::Reregister {
                fd: 1,
                token: TOKEN,
                interest: readable,
                opts: mio::PollOpt::level(),
            },
            ReactorCall::Deregister { fd: 2 },
            ReactorCall::PollReadiness { token: TOKEN },
            ReactorCall::PollReadiness { token: TOKEN },
            ReactorCall::Rearm { token: TOKEN },
        ]
    );
}
