//! What holds of every run of the bridge, whatever the collaborators answer.
//!
//! Each law is stated over the relations that the contracts of the
//! operations establish, so it holds of every call of the operation.

use crate::capability::{EventMask, FdId};
use crate::error::{BridgeError, RegistryOp};
use crate::journal::{ReactorExchange, ResourceExchange};
use crate::registrar::{fail_fast_pass, is_deregistration, is_registration};
use crate::stream::{
    advance_step, masks_of, teardown_step, Lifecycle, NotificationEvent, Progress, StreamPhase,
    StreamView,
};
use vstd::prelude::*;

verus! {

/// How many notifications a call of `advance` handed to the consumer.
pub open spec fn notifications<E>(result: Result<Progress, BridgeError<E>>) -> nat {
    match result {
        Ok(Progress::Notified(_)) => 1,
        _ => 0,
    }
}

/// Whether the reactor was asked to re-arm `token` exactly once in
/// `received`, as the last thing it was asked, and to re-arm nothing else.
pub open spec fn rearmed_once(received: Seq<ReactorExchange>, token: mio::Token) -> bool {
    &&& received.len() >= 1
    &&& received.last() == (ReactorExchange::Rearm { token })
    &&& forall|i: int| 0 <= i < received.len() - 1 ==> !(#[trigger] received[i] is Rearm)
}

/// Whether the reactor was never asked to re-arm in `received`.
pub open spec fn never_rearmed(received: Seq<ReactorExchange>) -> bool {
    forall|i: int| 0 <= i < received.len() ==> !(#[trigger] received[i] is Rearm)
}

/// Whether the resource reported no failure in `served`.
pub open spec fn resource_held<E>(served: Seq<ResourceExchange<E>>) -> bool {
    forall|i: int| 0 <= i < served.len() ==> !(#[trigger] served[i]).failed()
}

/// One call of `advance` as it went: what was asked and what came out.
pub struct AdvanceRecord<E> {
    pub served: Seq<ResourceExchange<E>>,
    pub received: Seq<ReactorExchange>,
    pub result: Result<Progress, BridgeError<E>>,
}

/// Whether `calls` are successive calls of `advance` on one stream that
/// passes through `states`, the first call starting from `states[0]`.
pub open spec fn successive_advances<E>(
    states: Seq<StreamView>,
    calls: Seq<AdvanceRecord<E>>,
) -> bool {
    &&& states.len() == calls.len() + 1
    &&& forall|i: int|
        0 <= i < calls.len() ==> advance_step(
            states[i],
            (#[trigger] calls[i]).served,
            calls[i].received,
            calls[i].result,
            states[i + 1],
        )
}

/// One way: no operation takes a stream back from `Steady` to
/// `InitialDrain`, and none revives a stream that is not live.
pub proof fn law_one_way<E>(
    pre: StreamView,
    served: Seq<ResourceExchange<E>>,
    received: Seq<ReactorExchange>,
    advanced: Result<Progress, BridgeError<E>>,
    torn_down: Result<(), BridgeError<E>>,
    post: StreamView,
)
    requires
        advance_step(pre, served, received, advanced, post) || teardown_step(
            pre,
            served,
            received,
            torn_down,
            post,
        ),
    ensures
        pre.phase == StreamPhase::Steady ==> post.phase == StreamPhase::Steady,
        pre.lifecycle != Lifecycle::Live ==> post.lifecycle != Lifecycle::Live,
        pre.lifecycle == Lifecycle::Released ==> post.lifecycle == Lifecycle::Released,
        post.token == pre.token,
{
}

/// Initial drain: the first call of `advance` on a fresh stream never asks
/// the reactor whether anything is signaled, never reports `Pending`, and
/// yields a notification unless the resource itself fails.
pub proof fn law_initial_drain<E>(
    pre: StreamView,
    served: Seq<ResourceExchange<E>>,
    received: Seq<ReactorExchange>,
    result: Result<Progress, BridgeError<E>>,
    post: StreamView,
)
    requires
        pre.lifecycle == Lifecycle::Live,
        pre.phase == StreamPhase::InitialDrain,
        advance_step(pre, served, received, result, post),
    ensures
        forall|i: int| 0 <= i < received.len() ==> !(#[trigger] received[i] is PollReadiness),
        result != Ok::<Progress, BridgeError<E>>(Progress::Pending),
        resource_held(served) <==> result == Ok::<Progress, BridgeError<E>>(
            Progress::Notified(NotificationEvent),
        ),
        resource_held(served) ==> post.phase == StreamPhase::Steady,
{
}

/// Whether the probe of a drain cycle recorded in `served` reported `pending`.
pub open spec fn probe_reported<E>(
    served: Seq<ResourceExchange<E>>,
    pending: Seq<(FdId, EventMask)>,
) -> bool {
    &&& served.len() >= 2
    &&& served[1] matches ResourceExchange::Probe { answer: Ok(reported), .. }
    &&& reported == pending
}

/// Coalescing: a call of `advance` hands over at most one notification and
/// asks the reactor about readiness at most once, however often the reactor
/// was signaled. When its probe reported `pending`, however many descriptors
/// that names, all their masks went to the resource in one single drain, and
/// exactly one notification results if that drain succeeded.
pub proof fn law_coalescing<E>(
    pre: StreamView,
    served: Seq<ResourceExchange<E>>,
    received: Seq<ReactorExchange>,
    result: Result<Progress, BridgeError<E>>,
    post: StreamView,
    pending: Seq<(FdId, EventMask)>,
)
    requires
        advance_step(pre, served, received, result, post),
        probe_reported(served, pending),
    ensures
        notifications(result) <= 1,
        forall|i: int| 1 <= i < received.len() ==> !(#[trigger] received[i] is PollReadiness),
        served.len() == 3,
        served[2] matches ResourceExchange::Drain { events, .. } && events == masks_of(pending),
        notifications(result) == 1 <==> !served[2].failed(),
{
    if pre.phase == StreamPhase::Steady {
        let cycle = received.skip(1);
        assert(cycle.len() == 0 || cycle == seq![ReactorExchange::Rearm { token: pre.token }]);
        assert forall|i: int| 1 <= i < received.len() implies !(#[trigger] received[i]
            is PollReadiness) by {
            assert(cycle.len() == 1);
            assert(received[i] == cycle[0]);
            assert(cycle[0] == (ReactorExchange::Rearm { token: pre.token }));
        }
    }
}

/// Re-arm: a call of `advance` that yields a notification has asked the
/// reactor to re-arm the stream's token exactly once, after everything else;
/// a call that yields none has not asked it to re-arm at all.
pub proof fn law_rearm<E>(
    pre: StreamView,
    served: Seq<ResourceExchange<E>>,
    received: Seq<ReactorExchange>,
    result: Result<Progress, BridgeError<E>>,
    post: StreamView,
)
    requires
        advance_step(pre, served, received, result, post),
    ensures
        notifications(result) == 1 ==> rearmed_once(received, pre.token),
        notifications(result) == 0 ==> never_rearmed(received),
{
    if pre.lifecycle == Lifecycle::Live && pre.phase == StreamPhase::Steady {
        let cycle = received.skip(1);
        if notifications(result) == 1 {
            assert(cycle.len() == 1);
            assert(received[1] == cycle[0]);
        }
    }
}

/// Teardown: a stream that still holds its registration attempts exactly
/// one deregistration per descriptor that the resource lists at that
/// moment, in set order.
pub proof fn law_teardown_covers_descriptors<E>(
    pre: StreamView,
    served: Seq<ResourceExchange<E>>,
    received: Seq<ReactorExchange>,
    result: Result<(), BridgeError<E>>,
    post: StreamView,
    fds: Seq<FdId>,
)
    requires
        pre.lifecycle != Lifecycle::Released,
        teardown_step(pre, served, received, result, post),
        served.len() >= 1,
        served[0] == (ResourceExchange::<E>::Descriptors { answer: Ok(fds) }),
    ensures
        received.len() == fds.len(),
        forall|i: int| 0 <= i < fds.len() ==> is_deregistration(#[trigger] received[i], fds[i]),
        post.lifecycle == Lifecycle::Released,
{
}

/// Teardown happens once: whatever the first teardown reported, a second
/// one asks nothing of the resource or the reactor.
pub proof fn law_teardown_once<E>(
    pre: StreamView,
    first_served: Seq<ResourceExchange<E>>,
    first_received: Seq<ReactorExchange>,
    first_result: Result<(), BridgeError<E>>,
    between: StreamView,
    second_served: Seq<ResourceExchange<E>>,
    second_received: Seq<ReactorExchange>,
    second_result: Result<(), BridgeError<E>>,
    post: StreamView,
)
    requires
        teardown_step(pre, first_served, first_received, first_result, between),
        teardown_step(between, second_served, second_received, second_result, post),
    ensures
        second_served.len() == 0,
        second_received.len() == 0,
        second_result is Ok,
        post == between,
{
}

/// Termination: once a call of `advance` has surfaced an error, no later
/// call on the same stream yields a notification. Every later call asks
/// nothing of the collaborators and reports `Terminated`.
pub proof fn law_termination<E>(
    states: Seq<StreamView>,
    calls: Seq<AdvanceRecord<E>>,
    failed: int,
    later: int,
)
    requires
        successive_advances(states, calls),
        0 <= failed < later < calls.len(),
        calls[failed].result is Err,
    ensures
        notifications(calls[later].result) == 0,
        calls[later].result == Err::<Progress, BridgeError<E>>(BridgeError::Terminated),
        calls[later].served.len() == 0,
        calls[later].received.len() == 0,
    decreases later - failed,
{
    assert(advance_step(
        states[failed],
        calls[failed].served,
        calls[failed].received,
        calls[failed].result,
        states[failed + 1],
    ));
    assert(states[failed + 1].lifecycle != Lifecycle::Live);
    assert(advance_step(
        states[failed + 1],
        calls[failed + 1].served,
        calls[failed + 1].received,
        calls[failed + 1].result,
        states[failed + 2],
    ));
    if failed + 1 < later {
        law_termination(states, calls, failed + 1, later);
    }
}

/// Descriptor count: a registration pass that succeeds over a resource that
/// listed `fds` has asked the reactor to register exactly once per
/// descriptor, in set order, each time under the same token, interest and
/// options, and every one of these calls succeeded.
pub proof fn law_descriptor_count<E>(
    token: mio::Token,
    interest: mio::Ready,
    opts: mio::PollOpt,
    served: Seq<ResourceExchange<E>>,
    received: Seq<ReactorExchange>,
    result: Result<(), BridgeError<E>>,
    fds: Seq<FdId>,
)
    requires
        fail_fast_pass(RegistryOp::Register, token, interest, opts, served, received, result),
        served[0] == (ResourceExchange::<E>::Descriptors { answer: Ok(fds) }),
        result is Ok,
    ensures
        received.len() == fds.len(),
        forall|i: int|
            0 <= i < fds.len() ==> is_registration(
                #[trigger] received[i],
                RegistryOp::Register,
                fds[i],
                token,
                interest,
                opts,
            ) && !received[i].failed(),
{
}

} // verus!
