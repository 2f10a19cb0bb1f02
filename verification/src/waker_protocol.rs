//! The server loop and the worker of a running waker, as one system whose steps
//! interleave freely, and what holds of it however they do.

use vstd::prelude::*;

use crate::client_accept_waker::{
    ClientAcceptWaker, Pending, PollReport, RearmAction, RearmEvent, ShutdownAction, ShutdownEvent,
    WakeAction, WakeEvent, WatchAction,
};
use crate::error_kind::ErrorKind;

verus! {

/// A running waker.
pub struct WakerSystem<L> {
    /// The shared slot.
    pub pending: Pending<L>,
    /// The listener that the worker watches.
    pub watched: Option<L>,
    /// What the worker is about to do. While this is `Poll`, it waits in a poll.
    pub worker: WatchAction,
    /// How many wakes the wake channel holds.
    pub queued: nat,
    /// How many wakes are due: their slot has been written, and they are not over.
    pub due: nat,
    /// Whether the wake channel ever failed, other than for being full.
    pub channel_failed: bool,
    /// The listener that was stored last.
    pub newest: Option<L>,
    /// Whether the listener that was stored last has been found ready.
    pub newest_fired: bool,
    /// How many listeners have been stored.
    pub stored: nat,
    /// How many of them the worker has taken out of the slot.
    pub taken: nat,
    /// How many notifications the worker has made.
    pub notified: nat,
    /// How many of them it made after it was told to end.
    pub notified_late: nat,
}

/// One step of the server loop or of the worker.
pub enum WakerStep<L> {
    /// The server loop stores a listener, as a rearm asks.
    Store(L),
    /// The server loop tells the worker to end, as a shutdown asks.
    StoreStop,
    /// The server loop tries to send a wake that is due.
    Send(Result<(), ErrorKind>),
    /// The worker begins a cycle.
    BeginCycle,
    /// The worker's poll returns.
    PollReturned(PollReport),
    /// The worker receives from the wake channel; the flag tells whether it got a wake.
    Receive(bool),
    /// The worker notifies the server loop.
    Notify,
}

impl<L> WakerStep<L> {
    /// Whether the worker takes this step.
    pub open spec fn of_worker(self) -> bool {
        self is BeginCycle || self is PollReturned || self is Receive || self is Notify
    }
}

/// A waker that was just started.
pub open spec fn started<L>() -> WakerSystem<L> {
    WakerSystem {
        pending: Pending { listener: None, stopping: false },
        watched: None,
        worker: crate::client_accept_waker::first_transition(),
        queued: 0,
        due: 0,
        channel_failed: false,
        newest: None,
        newest_fired: false,
        stored: 0,
        taken: 0,
        notified: 0,
        notified_late: 0,
    }
}

/// How many wakes fall due with the request for one.
pub open spec fn wakes_requested() -> nat {
    if crate::client_accept_waker::wake_transition(true, WakeEvent::Requested) is Send {
        1
    } else {
        0
    }
}

/// How many wakes fall due once a rearm has stored its listener.
pub open spec fn wakes_after_store<L>() -> nat {
    if crate::client_accept_waker::rearm_transition(true, RearmEvent::<L>::Stored) is Wake {
        wakes_requested()
    } else {
        0
    }
}

/// How many wakes fall due once a shutdown has stored its stop.
pub open spec fn wakes_after_stop() -> nat {
    if crate::client_accept_waker::shutdown_transition(
        None::<()>,
        ShutdownEvent::StopStored,
    ).1 is Wake {
        wakes_requested()
    } else {
        0
    }
}

impl<L> WakerSystem<L> {
    /// Whether `step` can come next. A channel is full only while it holds a wake,
    /// a wake can be received only while it holds one, and a poll reports nothing
    /// of a listener that it was not given.
    pub open spec fn allows(self, step: WakerStep<L>) -> bool {
        match step {
            WakerStep::Store(_) => true,
            WakerStep::StoreStop => true,
            WakerStep::Send(result) => self.due > 0 && (result == Err::<(), ErrorKind>(
                ErrorKind::WouldBlock,
            ) ==> self.queued > 0),
            WakerStep::BeginCycle => self.worker is Cycle,
            WakerStep::PollReturned(report) => self.worker is Poll && (report.listener_revents != 0
                ==> self.watched is Some),
            WakerStep::Receive(received) => self.worker is DrainWake && (received ==> self.queued
                > 0),
            WakerStep::Notify => self.worker is Notify,
        }
    }

    /// The system after `step`.
    pub open spec fn after(self, step: WakerStep<L>) -> Self {
        match step {
            WakerStep::Store(listener) => {
                match crate::client_accept_waker::rearm_transition(
                    true,
                    RearmEvent::Cloned(Ok(listener)),
                ) {
                    RearmAction::Store(duplicate) => WakerSystem {
                        pending: self.pending.with_listener(duplicate),
                        due: self.due + wakes_after_store::<L>(),
                        newest: Some(listener),
                        newest_fired: false,
                        stored: self.stored + 1,
                        ..self
                    },
                    _ => self,
                }
            },
            WakerStep::StoreStop => {
                match crate::client_accept_waker::shutdown_transition(
                    None::<()>,
                    ShutdownEvent::Requested,
                ).1 {
                    ShutdownAction::StoreStop => WakerSystem {
                        pending: self.pending.with_stop(),
                        due: self.due + wakes_after_stop(),
                        ..self
                    },
                    _ => self,
                }
            },
            WakerStep::Send(result) => {
                let queued = if result is Ok {
                    self.queued + 1
                } else {
                    self.queued
                };
                match crate::client_accept_waker::wake_transition(true, WakeEvent::Sent(result)) {
                    WakeAction::Send(_) => WakerSystem { queued, ..self },
                    WakeAction::ReportFailure(_) => WakerSystem {
                        queued,
                        due: (self.due - 1) as nat,
                        channel_failed: true,
                        ..self
                    },
                    WakeAction::Finish => WakerSystem {
                        queued,
                        due: (self.due - 1) as nat,
                        ..self
                    },
                }
            },
            WakerStep::BeginCycle => {
                let (watched, pending, worker) = crate::client_accept_waker::cycle_transition(
                    self.watched,
                    self.pending,
                );
                WakerSystem {
                    watched,
                    pending,
                    worker,
                    taken: if self.pending.listener is Some && pending.listener is None {
                        self.taken + 1
                    } else {
                        self.taken
                    },
                    ..self
                }
            },
            WakerStep::PollReturned(report) => {
                let (watched, worker) = crate::client_accept_waker::poll_transition(
                    self.watched,
                    report,
                );
                WakerSystem {
                    watched,
                    worker,
                    newest_fired: self.newest_fired || (worker is Notify
                        && self.pending.listener is None),
                    ..self
                }
            },
            WakerStep::Receive(received) => WakerSystem {
                worker: crate::client_accept_waker::drain_transition(received),
                queued: if received {
                    (self.queued - 1) as nat
                } else {
                    self.queued
                },
                ..self
            },
            WakerStep::Notify => WakerSystem {
                worker: crate::client_accept_waker::notified_transition(),
                notified: self.notified + 1,
                notified_late: if self.pending.stopping {
                    self.notified_late + 1
                } else {
                    self.notified_late
                },
                ..self
            },
        }
    }

    /// The system after `steps`.
    pub open spec fn after_all(self, steps: Seq<WakerStep<L>>) -> Self
        decreases steps.len(),
    {
        if steps.len() == 0 {
            self
        } else {
            self.after_all(steps.drop_last()).after(steps.last())
        }
    }

    /// Whether `steps` can come next, in this order.
    pub open spec fn allows_all(self, steps: Seq<WakerStep<L>>) -> bool
        decreases steps.len(),
    {
        steps.len() == 0 || (self.allows_all(steps.drop_last()) && self.after_all(
            steps.drop_last(),
        ).allows(steps.last()))
    }

    /// Whether the slot holds something that the worker has not taken up.
    pub open spec fn slot_waits(self) -> bool {
        self.pending.listener is Some || self.pending.stopping
    }

    /// A worker that waits in a poll while the slot waits for it has a wake coming.
    pub open spec fn poll_is_interrupted(self) -> bool {
        self.worker is Poll && self.slot_waits() ==> self.queued > 0 || self.due > 0
            || self.channel_failed
    }

    /// The listener that was stored last stands in the slot, or it is watched, until
    /// it is found ready, and then it is given up.
    pub open spec fn newest_is_kept(self) -> bool {
        &&& self.pending.listener is Some ==> self.pending.listener == self.newest
        &&& self.pending.listener is None && self.watched is Some ==> self.watched == self.newest
        &&& self.newest is Some ==> (self.newest_fired <==> self.pending.listener is None
            && self.watched is None)
        &&& self.worker is Notify ==> self.watched is None
    }

    /// Every notification is paid for by a listener of its own that was taken out of
    /// the slot, and every one of those by a store of its own. A listener that is
    /// still watched has not brought one.
    pub open spec fn notifications_are_paid(self) -> bool {
        &&& self.notified + (if self.worker is Notify {
            1nat
        } else {
            0
        }) + (if self.watched is Some {
            1nat
        } else {
            0
        }) <= self.taken
        &&& self.taken + (if self.pending.listener is Some {
            1nat
        } else {
            0
        }) <= self.stored
    }

    /// Once told to end, the worker makes at most the notification that the poll
    /// under way may still bring.
    pub open spec fn late_notifications_are_bounded(self) -> bool {
        if self.pending.stopping {
            self.notified_late + (if self.worker is Poll || self.worker is Notify {
                1nat
            } else {
                0
            }) <= 1
        } else {
            self.notified_late == 0
        }
    }

    /// What holds at every moment.
    pub open spec fn wf(self) -> bool {
        &&& self.poll_is_interrupted()
        &&& self.newest_is_kept()
        &&& self.notifications_are_paid()
        &&& self.late_notifications_are_bounded()
    }

    /// How many steps at most the worker takes until it has looked at the slot: until
    /// it has begun a cycle, or has ended.
    pub open spec fn cycle_distance(self) -> nat {
        match self.worker {
            WatchAction::Stop => 0,
            WatchAction::Cycle => 1,
            WatchAction::Notify => 2,
            WatchAction::DrainWake => 2 + self.queued + self.due,
            WatchAction::Poll => 3 + self.queued + self.due,
        }
    }

    /// Whether the listener that was stored last has yet to be found ready, by a
    /// worker that goes on.
    pub open spec fn watch_is_on(self) -> bool {
        &&& self.pending.listener is Some || self.watched is Some
        &&& !self.pending.stopping
        &&& !(self.worker is Stop)
    }

    /// Whether `step` is one of a system in which a connection is pending on the
    /// listener that was stored last: polls succeed, and report a wake exactly while
    /// one is queued and readiness while that listener is watched; a receive gets a
    /// wake exactly while one is queued; and the server loop neither rearms nor stops
    /// the waker. What is reported of an older listener is left open.
    pub open spec fn connection_pends(self, step: WakerStep<L>) -> bool {
        match step {
            WakerStep::Store(_) => false,
            WakerStep::StoreStop => false,
            WakerStep::PollReturned(report) => {
                &&& report.ready >= 0
                &&& report.wake_revents != 0 <==> self.queued > 0
                &&& self.pending.listener is None && self.watched is Some
                    ==> report.listener_revents != 0
            },
            WakerStep::Receive(received) => received <==> self.queued > 0,
            _ => true,
        }
    }

    /// Whether a connection is pending all through `steps`.
    pub open spec fn connection_pends_through(self, steps: Seq<WakerStep<L>>) -> bool
        decreases steps.len(),
    {
        steps.len() == 0 || (self.connection_pends_through(steps.drop_last()) && self.after_all(
            steps.drop_last(),
        ).connection_pends(steps.last()))
    }

    /// How many steps at most the worker takes until it has notified the server loop
    /// of a connection that is pending on the listener that was stored last.
    pub open spec fn notify_distance(self) -> nat {
        let wakes = 4 * (self.queued + self.due);
        match self.worker {
            WatchAction::Stop => 0,
            WatchAction::Cycle => wakes + 3,
            WatchAction::Notify => wakes + 4,
            WatchAction::DrainWake => if self.queued > 0 {
                wakes + 1
            } else {
                wakes + 4
            },
            WatchAction::Poll => if self.pending.listener is Some {
                wakes + 5
            } else {
                wakes + 2
            },
        }
    }
}

/// How many of `steps` the worker takes.
pub open spec fn worker_steps<L>(steps: Seq<WakerStep<L>>) -> nat
    decreases steps.len(),
{
    if steps.len() == 0 {
        0
    } else {
        worker_steps(steps.drop_last()) + if steps.last().of_worker() {
            1nat
        } else {
            0
        }
    }
}

/// Whether the server loop stores nothing in `steps`.
pub open spec fn slot_is_left_alone<L>(steps: Seq<WakerStep<L>>) -> bool {
    forall|i: int|
        0 <= i < steps.len() ==> !((#[trigger] steps[i]) is Store) && !(steps[i] is StoreStop)
}

/// Of steps that store nothing, neither the last nor any before it does.
proof fn slot_stays_left_alone<L>(steps: Seq<WakerStep<L>>)
    requires
        steps.len() > 0,
        slot_is_left_alone(steps),
    ensures
        slot_is_left_alone(steps.drop_last()),
        !(steps.last() is Store),
        !(steps.last() is StoreStop),
{
    assert forall|i: int| 0 <= i < steps.len() - 1 implies !((
    #[trigger] steps.drop_last()[i]) is Store) && !(steps.drop_last()[i] is StoreStop) by {
        assert(steps.drop_last()[i] == steps[i]);
    }
}

/// Every step keeps what [`WakerSystem::wf`] says.
pub proof fn step_keeps_wf<L>(system: WakerSystem<L>, step: WakerStep<L>)
    requires
        system.wf(),
        system.allows(step),
    ensures
        system.after(step).wf(),
{
}

/// What [`WakerSystem::wf`] says holds of a waker after any steps.
pub proof fn wf_holds<L>(steps: Seq<WakerStep<L>>)
    requires
        started::<L>().allows_all(steps),
    ensures
        started::<L>().after_all(steps).wf(),
    decreases steps.len(),
{
    if steps.len() > 0 {
        wf_holds(steps.drop_last());
        step_keeps_wf(started::<L>().after_all(steps.drop_last()), steps.last());
    }
}

/// No rearm is lost: however the steps interleave, the listener that was stored
/// last stands in the slot or is watched until it has been found ready. While it
/// stands in the slot, a worker that waits in a poll has a wake coming, unless the
/// wake channel failed, and then the poll's timeout bounds the wait.
pub proof fn no_rearm_is_lost<L>(steps: Seq<WakerStep<L>>)
    requires
        started::<L>().allows_all(steps),
    ensures
        started::<L>().after_all(steps).newest_is_kept(),
        started::<L>().after_all(steps).poll_is_interrupted(),
{
    wf_holds(steps);
}

/// A listener brings at most one notification, and only once it was taken out of
/// the slot: a rearm whose listener was replaced before that brings none, and a
/// listener that is still watched has brought none yet.
pub proof fn no_notification_without_rearm<L>(steps: Seq<WakerStep<L>>)
    requires
        started::<L>().allows_all(steps),
    ensures
        ({
            let system = started::<L>().after_all(steps);
            let announced = if system.worker is Notify {
                1nat
            } else {
                0
            };
            let watched = if system.watched is Some {
                1nat
            } else {
                0
            };
            let queued = if system.pending.listener is Some {
                1nat
            } else {
                0
            };
            &&& system.notified + announced + watched <= system.taken
            &&& system.taken + queued <= system.stored
        }),
{
    wf_holds(steps);
}

/// A pending connection wakes the server loop: while one is pending on the listener
/// that was stored last, the worker finds that listener ready and notifies the
/// server loop within [`WakerSystem::notify_distance`] steps, however the steps
/// interleave and whatever older listeners report.
pub proof fn pending_connection_is_notified<L>(system: WakerSystem<L>, steps: Seq<WakerStep<L>>)
    requires
        system.wf(),
        system.watch_is_on(),
        system.allows_all(steps),
        system.connection_pends_through(steps),
    ensures
        ({
            let after = system.after_all(steps);
            &&& worker_steps(steps) >= system.notify_distance() ==> after.newest_fired
                && after.notified > system.notified
            &&& after.newest == system.newest
        }),
{
    notification_comes_closer(system, steps);
}

/// Either the notification has been made, or it is the worker's next step, or every
/// step of the worker so far has brought it closer.
proof fn notification_comes_closer<L>(system: WakerSystem<L>, steps: Seq<WakerStep<L>>)
    requires
        system.wf(),
        system.watch_is_on(),
        system.allows_all(steps),
        system.connection_pends_through(steps),
    ensures
        ({
            let after = system.after_all(steps);
            &&& after.wf()
            &&& after.newest == system.newest
            &&& after.notified >= system.notified
            &&& {
                ||| after.newest_fired && after.notified > system.notified
                ||| after.newest_fired && after.worker is Notify && worker_steps(steps) + 1
                    <= system.notify_distance()
                ||| after.watch_is_on() && after.notify_distance() > 0 && worker_steps(steps)
                    + after.notify_distance() <= system.notify_distance()
            }
        }),
    decreases steps.len(),
{
    if steps.len() > 0 {
        notification_comes_closer(system, steps.drop_last());
        step_keeps_wf(system.after_all(steps.drop_last()), steps.last());
    }
}

/// The worker can always take a step that brings the notification closer, so a
/// pending connection is notified as soon as the worker has taken enough of them.
pub proof fn worker_goes_on_to_notify<L>(system: WakerSystem<L>, report: PollReport)
    requires
        system.wf(),
        system.watch_is_on(),
        report.ready >= 0,
        report.wake_revents != 0 <==> system.queued > 0,
        report.listener_revents != 0 <==> system.watched is Some,
    ensures
        exists|step: WakerStep<L>| #[trigger]
            system.allows(step) && system.connection_pends(step) && step.of_worker(),
{
    let received = system.queued > 0;
    let step = match system.worker {
        WatchAction::Cycle => WakerStep::BeginCycle,
        WatchAction::Poll => WakerStep::PollReturned(report),
        WatchAction::DrainWake => WakerStep::Receive(received),
        _ => WakerStep::Notify,
    };
    assert(system.allows(step) && system.connection_pends(step) && step.of_worker());
}

/// A waker that is armed again fires again: whatever it has notified before, a
/// connection that is pending on the listener stored now brings a further
/// notification.
pub proof fn rearmed_waker_fires_again<L>(
    system: WakerSystem<L>,
    listener: L,
    steps: Seq<WakerStep<L>>,
)
    requires
        system.wf(),
        !system.pending.stopping,
        !(system.worker is Stop),
        system.after(WakerStep::Store(listener)).allows_all(steps),
        system.after(WakerStep::Store(listener)).connection_pends_through(steps),
    ensures
        ({
            let armed = system.after(WakerStep::Store(listener));
            let after = armed.after_all(steps);
            &&& after.newest == Some(listener)
            &&& worker_steps(steps) >= armed.notify_distance() ==> after.newest_fired
                && after.notified > system.notified
        }),
{
    step_keeps_wf(system, WakerStep::Store(listener));
    pending_connection_is_notified(system.after(WakerStep::Store(listener)), steps);
}

/// A worker that was told to end makes at most one more notification.
pub proof fn at_most_one_late_notification<L>(steps: Seq<WakerStep<L>>)
    requires
        started::<L>().allows_all(steps),
    ensures
        started::<L>().after_all(steps).notified_late <= 1,
{
    wf_holds(steps);
}

/// Of several listeners stored before a cycle, the worker takes up the last, in
/// place of whatever it watched.
pub proof fn latest_listener_is_taken_up<L>(system: WakerSystem<L>, earlier: L, latest: L)
    requires
        system.worker is Cycle,
        !system.pending.stopping,
    ensures
        ({
            let stored = system.after(WakerStep::Store(earlier)).after(WakerStep::Store(latest));
            let polling = stored.after(WakerStep::BeginCycle);
            &&& polling.watched == Some(latest)
            &&& polling.pending.listener is None
            &&& polling.worker is Poll
        }),
{
}

/// A wake that the worker finds in its poll is acted on before the listener's
/// readiness: the listener stays watched, nobody is notified, and the next cycle
/// takes up the slot.
pub proof fn wake_comes_before_readiness<L>(system: WakerSystem<L>, report: PollReport)
    requires
        system.worker is Poll,
        report.ready >= 0,
        report.wake_revents != 0,
    ensures
        ({
            let drained = system.after(WakerStep::PollReturned(report)).after(
                WakerStep::Receive(false),
            );
            &&& drained.watched == system.watched
            &&& drained.notified == system.notified
            &&& drained.worker is Cycle
        }),
{
}

/// A worker that was told to end takes no other step at its next cycle, not even
/// to take up a listener.
pub proof fn stop_comes_before_a_new_listener<L>(system: WakerSystem<L>)
    requires
        system.worker is Cycle,
        system.pending.stopping,
    ensures
        system.after(WakerStep::BeginCycle).worker is Stop,
        system.after(WakerStep::BeginCycle).watched == system.watched,
        system.after(WakerStep::BeginCycle).pending == system.pending,
{
}

/// A worker that has not ended can always go on: a poll returns at its timeout at
/// the latest, and a receive never waits, since the worker was started on a channel
/// whose ends are both nonblocking.
pub proof fn worker_can_always_go_on<L>(system: WakerSystem<L>, report: PollReport)
    requires
        !(system.worker is Stop),
        report.listener_revents == 0,
    ensures
        ({
            ||| system.allows(WakerStep::BeginCycle)
            ||| system.allows(WakerStep::PollReturned(report))
            ||| system.allows(WakerStep::Receive(false))
            ||| system.allows(WakerStep::Notify)
        }),
{
}

/// A worker that was told to end does end, whatever its polls report and whether
/// or not a wake reaches it: it takes no more than
/// [`WakerSystem::cycle_distance`] steps, and with the last of them it has ended.
pub proof fn shutdown_is_bounded<L>(system: WakerSystem<L>, steps: Seq<WakerStep<L>>)
    requires
        system.pending.stopping,
        system.allows_all(steps),
        slot_is_left_alone(steps),
    ensures
        system.after_all(steps).pending.stopping,
        worker_steps(steps) + system.after_all(steps).cycle_distance() <= system.cycle_distance(),
        worker_steps(steps) == system.cycle_distance() ==> system.after_all(steps).worker is Stop,
    decreases steps.len(),
{
    if steps.len() > 0 {
        slot_stays_left_alone(steps);
        shutdown_is_bounded(system, steps.drop_last());
    }
}

/// A listener that was stored is taken up, whatever the worker's polls report and
/// whether or not a wake reaches it: by the time the worker has taken
/// [`WakerSystem::cycle_distance`] steps, the slot is empty, unless the worker's
/// poll failed and the worker has ended.
pub proof fn stored_listener_is_taken_up<L>(system: WakerSystem<L>, steps: Seq<WakerStep<L>>)
    requires
        system.pending.listener is Some,
        !system.pending.stopping,
        system.allows_all(steps),
        slot_is_left_alone(steps),
    ensures
        ({
            let after = system.after_all(steps);
            &&& !after.pending.stopping
            &&& after.pending.listener is Some ==> after.pending == system.pending
            &&& after.pending.listener is Some ==> worker_steps(steps) + after.cycle_distance()
                <= system.cycle_distance()
            &&& worker_steps(steps) >= system.cycle_distance() ==> after.pending.listener is None
                || after.worker is Stop
        }),
    decreases steps.len(),
{
    if steps.len() > 0 {
        slot_stays_left_alone(steps);
        stored_listener_is_taken_up(system, steps.drop_last());
    }
}

/// The action after the sends of one wake have brought `results`, and how many of
/// them were asked for.
pub open spec fn wake_run(results: Seq<Result<(), ErrorKind>>) -> (WakeAction, nat)
    decreases results.len(),
{
    if results.len() == 0 {
        (crate::client_accept_waker::wake_transition(true, WakeEvent::Requested), 0)
    } else {
        let (action, sends) = wake_run(results.drop_last());
        match action {
            WakeAction::Send(_) => (
                crate::client_accept_waker::wake_transition(true, WakeEvent::Sent(results.last())),
                sends + 1,
            ),
            _ => (action, sends),
        }
    }
}

/// A wake is sent again exactly as long as a signal interrupts it, and it is over
/// with the first other result. Only a failure that is not a full channel is
/// reported.
pub proof fn wake_retries_interruptions_only(results: Seq<Result<(), ErrorKind>>, count: nat)
    requires
        count < results.len(),
        forall|i: int|
            0 <= i < count ==> (#[trigger] results[i]) == Err::<(), ErrorKind>(
                ErrorKind::Interrupted,
            ),
        results[count as int] != Err::<(), ErrorKind>(ErrorKind::Interrupted),
    ensures
        wake_run(results).1 == count + 1,
        wake_run(results).0 == if results[count as int] == Err::<(), ErrorKind>(ErrorKind::Other) {
            WakeAction::ReportFailure(ErrorKind::Other)
        } else {
            WakeAction::Finish
        },
    decreases results.len(),
{
    if count < results.len() - 1 {
        wake_retries_interruptions_only(results.drop_last(), count);
    } else {
        wake_stays_open(results.drop_last());
    }
}

/// A wake that was only ever interrupted is still to be sent.
proof fn wake_stays_open(results: Seq<Result<(), ErrorKind>>)
    requires
        forall|i: int|
            0 <= i < results.len() ==> (#[trigger] results[i]) == Err::<(), ErrorKind>(
                ErrorKind::Interrupted,
            ),
    ensures
        wake_run(results).0 is Send,
        wake_run(results).1 == results.len(),
    decreases results.len(),
{
    if results.len() > 0 {
        wake_stays_open(results.drop_last());
    }
}

/// The actions of a shutdown that goes on with `event`, while `handle` is left.
pub open spec fn shutdown_run<J>(handle: Option<J>, event: ShutdownEvent) -> Seq<ShutdownAction<J>>
    decreases
            match event {
                ShutdownEvent::Requested => 3int,
                ShutdownEvent::StopStored => 2int,
                ShutdownEvent::Woken => 1int,
                ShutdownEvent::Joined => 0int,
            },
{
    let (left, action) = crate::client_accept_waker::shutdown_transition(handle, event);
    match action {
        ShutdownAction::StoreStop => seq![action] + shutdown_run(left, ShutdownEvent::StopStored),
        ShutdownAction::Wake => seq![action] + shutdown_run(left, ShutdownEvent::Woken),
        ShutdownAction::Join(_) => seq![action] + shutdown_run(left, ShutdownEvent::Joined),
        ShutdownAction::Finish => seq![action],
    }
}

/// A shutdown tells the worker to end and wakes it before it waits for it, and it
/// waits exactly where there is a worker.
pub proof fn shutdown_stops_before_it_joins<J>(handle: Option<J>)
    ensures
        shutdown_run(handle, ShutdownEvent::Requested) == match handle {
            Some(worker) => seq![
                ShutdownAction::StoreStop,
                ShutdownAction::Wake,
                ShutdownAction::Join(worker),
                ShutdownAction::Finish,
            ],
            None => seq![
                ShutdownAction::<J>::StoreStop,
                ShutdownAction::<J>::Wake,
                ShutdownAction::<J>::Finish,
            ],
        },
{
    reveal_with_fuel(shutdown_run, 4);
}

/// A waker whose worker could not be started does nothing: it watches no
/// listener, wakes nobody, and has nobody to wait for.
pub proof fn a_waker_without_worker_is_inert<W, J, L>(waker: ClientAcceptWaker<W, J>)
    requires
        waker.paired(),
        waker.handle() is None,
    ensures
        crate::client_accept_waker::rearm_transition(
            waker.handle() is Some,
            RearmEvent::<L>::Requested,
        ) is Ignore,
        crate::client_accept_waker::wake_transition(
            waker.channel() is Some,
            WakeEvent::Requested,
        ) is Finish,
        crate::client_accept_waker::shutdown_transition(waker.handle(), ShutdownEvent::Woken) == (
            None::<J>,
            ShutdownAction::<J>::Finish,
        ),
{
}

/// A waker with a worker watches the listener it is handed: the listener is
/// duplicated and stored, and the wake that follows is sent.
pub proof fn a_waker_with_worker_is_woken<W, J, L>(waker: ClientAcceptWaker<W, J>, listener: L)
    requires
        waker.paired(),
        waker.handle() is Some,
    ensures
        crate::client_accept_waker::rearm_transition(
            waker.handle() is Some,
            RearmEvent::<L>::Requested,
        ) is CloneListener,
        crate::client_accept_waker::rearm_transition(
            waker.handle() is Some,
            RearmEvent::Cloned(Ok(listener)),
        ) == RearmAction::Store(listener),
        crate::client_accept_waker::rearm_transition(
            waker.handle() is Some,
            RearmEvent::<L>::Stored,
        ) is Wake,
        crate::client_accept_waker::wake_transition(
            waker.channel() is Some,
            WakeEvent::Requested,
        ) is Send,
{
}

/// A notification is announced exactly after a poll that succeeded, found no wake and
/// reported events on the listener; the listener is then given up. After any other
/// poll it stays watched. Nothing else announces one.
pub proof fn notification_needs_a_reported_connection<L>(
    system: WakerSystem<L>,
    step: WakerStep<L>,
)
    requires
        system.allows(step),
    ensures
        ({
            let after = system.after(step);
            let reported = step matches WakerStep::PollReturned(report) && report.ready >= 0
                && report.wake_revents == 0 && report.listener_revents != 0;
            &&& step.of_worker() ==> (after.worker is Notify <==> reported)
            &&& !step.of_worker() ==> after.worker == system.worker
            &&& reported ==> after.watched is None
            &&& step is PollReturned && !reported ==> after.watched == system.watched
        }),
{
}

/// A poll that reports nothing leaves everything as it is, whatever error an earlier
/// call has left behind: nobody is notified, and the watch goes on with a new cycle.
pub proof fn idle_poll_keeps_the_watch<L>(system: WakerSystem<L>, report: PollReport)
    requires
        system.allows(WakerStep::PollReturned(report)),
        report.ready >= 0,
        report.wake_revents == 0,
        report.listener_revents == 0,
    ensures
        ({
            let after = system.after(WakerStep::PollReturned(report));
            &&& after.worker is Cycle
            &&& after.watched == system.watched
            &&& after.pending == system.pending
            &&& after.notified == system.notified
        }),
{
}

/// A poll that a signal interrupts loses nothing, whatever events it left behind: the
/// worker goes on with a new cycle and watches what it watched.
pub proof fn interrupted_poll_keeps_the_watch<L>(system: WakerSystem<L>, report: PollReport)
    requires
        system.allows(WakerStep::PollReturned(report)),
        report.ready < 0,
        report.error is Interrupted,
    ensures
        ({
            let after = system.after(WakerStep::PollReturned(report));
            &&& after.worker is Cycle
            &&& after.watched == system.watched
            &&& after.pending == system.pending
            &&& after.notified == system.notified
        }),
{
}

/// A worker ends for two reasons only: it finds at the start of a cycle that it was
/// told to, or its poll fails and no signal is to blame.
pub proof fn worker_ends_for_two_reasons<L>(system: WakerSystem<L>, step: WakerStep<L>)
    requires
        system.allows(step),
        !(system.worker is Stop),
    ensures
        system.after(step).worker is Stop <==> {
            ||| step is BeginCycle && system.pending.stopping
            ||| step matches WakerStep::PollReturned(report) && report.ready < 0
                && report.error != ErrorKind::Interrupted
        },
{
}

/// The worker looks into its wake channel exactly after a poll that found a wake
/// there, and as long as it receives one; the listener stays watched meanwhile.
pub proof fn wakes_are_drained_before_the_next_cycle<L>(
    system: WakerSystem<L>,
    step: WakerStep<L>,
)
    requires
        system.allows(step),
        step.of_worker(),
    ensures
        system.after(step).worker is DrainWake <==> {
            ||| step == WakerStep::<L>::Receive(true)
            ||| step matches WakerStep::PollReturned(report) && report.ready >= 0
                && report.wake_revents != 0
        },
        step is Receive ==> system.after(step).watched == system.watched
            && system.after(step).pending == system.pending,
        step == WakerStep::<L>::Receive(false) || step is Notify ==> system.after(step).worker is Cycle,
{
}

/// At the start of a cycle the worker takes up exactly what the slot holds: a queued
/// listener in place of the watched one, else the watched one stays; and the slot is
/// empty afterwards. It polls exactly if it was not told to end, and if it was, it
/// touches neither.
pub proof fn cycle_takes_up_what_the_slot_holds<L>(system: WakerSystem<L>)
    requires
        system.allows(WakerStep::BeginCycle),
    ensures
        ({
            let after = system.after(WakerStep::BeginCycle);
            &&& after.worker is Poll <==> !system.pending.stopping
            &&& after.worker is Stop <==> system.pending.stopping
            &&& after.pending.stopping == system.pending.stopping
            &&& system.pending.stopping ==> after.watched == system.watched
                && after.pending.listener == system.pending.listener
            &&& !system.pending.stopping ==> after.pending.listener is None
            &&& !system.pending.stopping && system.pending.listener is Some ==> after.watched
                == system.pending.listener
            &&& !system.pending.stopping && system.pending.listener is None ==> after.watched
                == system.watched
        }),
{
}

/// A rearm puts its listener into the slot in place of whatever was queued, changes
/// nothing else that the worker sees, and owes exactly one wake.
pub proof fn rearm_reaches_the_slot<L>(system: WakerSystem<L>, listener: L)
    ensures
        ({
            let after = system.after(WakerStep::Store(listener));
            &&& after.pending.listener == Some(listener)
            &&& after.pending.stopping == system.pending.stopping
            &&& after.watched == system.watched
            &&& after.worker == system.worker
            &&& after.due == system.due + 1
            &&& after.queued == system.queued
        }),
{
}

/// A shutdown reaches the slot whatever it holds: the stop is stored, a queued
/// listener stays queued, nothing else that the worker sees changes, and exactly one
/// wake is owed.
pub proof fn shutdown_reaches_the_slot<L>(system: WakerSystem<L>)
    ensures
        ({
            let after = system.after(WakerStep::StoreStop);
            &&& after.pending.stopping
            &&& after.pending.listener == system.pending.listener
            &&& after.watched == system.watched
            &&& after.worker == system.worker
            &&& after.due == system.due + 1
            &&& after.queued == system.queued
        }),
{
}

/// Whatever the waker is doing when it is shut down, the worker ends: once the stop is
/// stored, it takes no more than [`WakerSystem::cycle_distance`] steps, and with the
/// last of them it has ended, so that it can be joined.
pub proof fn shutdown_ends_the_worker<L>(system: WakerSystem<L>, steps: Seq<WakerStep<L>>)
    requires
        system.after(WakerStep::StoreStop).allows_all(steps),
        slot_is_left_alone(steps),
    ensures
        ({
            let stopped = system.after(WakerStep::StoreStop);
            &&& stopped.after_all(steps).pending.stopping
            &&& worker_steps(steps) <= 4 + system.queued + system.due
            &&& worker_steps(steps) == stopped.cycle_distance() ==> stopped.after_all(
                steps,
            ).worker is Stop
            &&& !(stopped.after_all(steps).worker is Stop) ==> worker_steps(steps) < 4
                + system.queued + system.due
        }),
{
    shutdown_is_bounded(system.after(WakerStep::StoreStop), steps);
}

/// A stop, once stored, is never taken back, whatever steps follow.
pub proof fn stop_is_never_taken_back<L>(system: WakerSystem<L>, steps: Seq<WakerStep<L>>)
    requires
        system.pending.stopping,
        system.allows_all(steps),
    ensures
        system.after_all(steps).pending.stopping,
    decreases steps.len(),
{
    if steps.len() > 0 {
        stop_is_never_taken_back(system, steps.drop_last());
    }
}

/// While a wake is owed, a send that the channel takes adds one wake to it, a send
/// that a signal interrupts leaves the wake owed, and any other result settles it.
pub proof fn owed_wake_is_sent_once<L>(system: WakerSystem<L>, result: Result<(), ErrorKind>)
    requires
        system.allows(WakerStep::Send(result)),
    ensures
        ({
            let after = system.after(WakerStep::Send(result));
            &&& after.queued == system.queued + if result is Ok {
                1nat
            } else {
                0
            }
            &&& after.due == if result == Err::<(), ErrorKind>(ErrorKind::Interrupted) {
                system.due as int
            } else {
                system.due - 1
            }
            &&& after.pending == system.pending
            &&& after.watched == system.watched
            &&& after.worker == system.worker
        }),
{
}

/// A new worker watches nothing and has nothing queued, and begins with a cycle.
pub proof fn new_worker_begins_with_a_cycle<L>()
    ensures
        started::<L>().worker is Cycle,
        started::<L>().watched is None,
        started::<L>().pending == (Pending::<L> { listener: None, stopping: false }),
{
}

} // verus!
