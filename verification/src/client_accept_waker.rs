//! Listener readiness with an interruptible, replaceable watch.
//!
//! A worker polls one listener and a wake channel. The server loop replaces the
//! listener, or stops the worker, through a [`Pending`] slot that both share, and
//! interrupts the worker's poll through the wake channel.

use vstd::prelude::*;

use crate::error_kind::ErrorKind;

verus! {

/// What the worker takes up at its next cycle. The slot is shared under a lock.
#[derive(Debug, PartialEq, Eq)]
pub struct Pending<L> {
    /// The listener to watch from the next cycle on, unless the watch stays as it is.
    pub listener: Option<L>,
    /// Whether the worker is to end.
    pub stopping: bool,
}

impl<L> Default for Pending<L> {
    fn default() -> (pending: Self)
        ensures
            pending == (Pending::<L> { listener: None, stopping: false }),
    {
        Pending { listener: None, stopping: false }
    }
}

impl<L> Pending<L> {
    /// The slot once `listener` has replaced whatever was queued.
    pub open spec fn with_listener(self, listener: L) -> Self {
        Pending { listener: Some(listener), stopping: self.stopping }
    }

    /// The slot once the worker has been told to end.
    pub open spec fn with_stop(self) -> Self {
        Pending { listener: self.listener, stopping: true }
    }

    /// Queues `listener` in place of whatever was queued.
    pub fn store(&mut self, listener: L)
        ensures
            *final(self) == old(self).with_listener(listener),
            final(self).listener == Some(listener),
            final(self).stopping == old(self).stopping,
    {
        self.listener = Some(listener);
    }

    /// Tells the worker to end at its next cycle.
    pub fn stop(&mut self)
        ensures
            *final(self) == old(self).with_stop(),
            final(self).stopping,
            final(self).listener == old(self).listener,
    {
        self.stopping = true;
    }
}

/// What the caller reports to [`ClientAcceptWaker::rearm`].
#[derive(Debug, PartialEq, Eq)]
pub enum RearmEvent<L> {
    /// The server loop wants its listener watched.
    Requested,
    /// The listener's descriptor was duplicated, or could not be.
    Cloned(Result<L, ErrorKind>),
    /// The duplicate stands in the slot.
    Stored,
}

/// What [`ClientAcceptWaker::rearm`] asks of the caller.
#[derive(Debug, PartialEq, Eq)]
pub enum RearmAction<L> {
    /// Nothing: there is no worker.
    Ignore,
    /// Duplicate the listener's descriptor.
    CloneListener,
    /// Lock the slot and [`Pending::store`] the duplicate.
    Store(L),
    /// Report that the listener cannot be watched.
    ReportFailure(ErrorKind),
    /// Interrupt the worker's poll, as [`ClientAcceptWaker::wake`] says.
    Wake,
}

/// The byte that a wake sends. The worker never looks at it.
pub const WAKE_BYTE: u8 = 1;

/// What the caller reports to [`ClientAcceptWaker::wake`].
#[derive(Clone, Copy, Debug, PartialEq, Eq)]
pub enum WakeEvent {
    /// The worker's poll is to be interrupted.
    Requested,
    /// The wake channel took the byte, or did not.
    Sent(Result<(), ErrorKind>),
}

/// What [`ClientAcceptWaker::wake`] asks of the caller.
#[derive(Clone, Copy, Debug, PartialEq, Eq)]
pub enum WakeAction {
    /// Send this byte on the wake channel without waiting.
    Send(u8),
    /// Report that the wake channel failed. The wake is over.
    ReportFailure(ErrorKind),
    /// The wake is over.
    Finish,
}

/// What the caller reports to [`ClientAcceptWaker::shut_down`].
#[derive(Clone, Copy, Debug, PartialEq, Eq)]
pub enum ShutdownEvent {
    /// The waker is being dropped.
    Requested,
    /// The slot says that the worker is to end.
    StopStored,
    /// The wake is over.
    Woken,
    /// The worker has ended.
    Joined,
}

/// What [`ClientAcceptWaker::shut_down`] asks of the caller.
#[derive(Debug, PartialEq, Eq)]
pub enum ShutdownAction<J> {
    /// Lock the slot and [`Pending::stop`] the worker.
    StoreStop,
    /// Interrupt the worker's poll, as [`ClientAcceptWaker::wake`] says.
    Wake,
    /// Wait for the worker to end, however it ends.
    Join(J),
    /// The waker is down.
    Finish,
}

/// The server loop's end of the waker: a wake channel `W` and the handle `J` of
/// the worker.
#[derive(Debug, PartialEq, Eq)]
pub struct ClientAcceptWaker<W, J> {
    wake: Option<W>,
    worker: Option<J>,
}

impl<W, J> ClientAcceptWaker<W, J> {
    /// The wake channel, where there is one.
    pub closed spec fn channel(self) -> Option<W> {
        self.wake
    }

    /// The handle of the running worker, where there is one.
    pub closed spec fn handle(self) -> Option<J> {
        self.worker
    }

    /// A worker never runs without a channel to wake it by, nor is there a channel
    /// without a worker, until the worker has been handed over to be joined.
    pub open spec fn paired(self) -> bool {
        self.channel() is Some <==> self.handle() is Some
    }

    /// The waker after an attempt to set up the wake channel and the worker, which
    /// [`crate::waker_setup`] leads through.
    ///
    /// Where that failed there is no worker, and the server loop falls back to
    /// polling its listener.
    pub fn spawn(started: Result<(W, J), ErrorKind>) -> (waker: Self)
        ensures
            waker.paired(),
            match started {
                Ok((wake, worker)) => waker.channel() == Some(wake) && waker.handle() == Some(
                    worker,
                ),
                Err(_) => waker.channel() is None && waker.handle() is None,
            },
    {
        match started {
            Ok((wake, worker)) => ClientAcceptWaker { wake: Some(wake), worker: Some(worker) },
            Err(_) => ClientAcceptWaker { wake: None, worker: None },
        }
    }

    /// The wake channel, to send on it.
    pub fn wake_channel(&self) -> (channel: Option<&W>)
        ensures
            match channel {
                Some(wake) => self.channel() == Some(*wake),
                None => self.channel() is None,
            },
    {
        self.wake.as_ref()
    }

    /// Replaces any queued watch with the latest listener and interrupts the poll,
    /// one event at a time.
    pub fn rearm<L>(&self, event: RearmEvent<L>) -> (action: RearmAction<L>)
        ensures
            action == rearm_transition(self.handle() is Some, event),
            match event {
                RearmEvent::Requested => (action is CloneListener <==> self.handle() is Some) && (
                action is Ignore <==> self.handle() is None),
                RearmEvent::Cloned(Ok(listener)) => action == RearmAction::Store(listener),
                RearmEvent::Cloned(Err(kind)) => action == RearmAction::<L>::ReportFailure(kind),
                RearmEvent::Stored => action is Wake,
            },
    {
        match event {
            RearmEvent::Requested => {
                if self.worker.is_none() {
                    RearmAction::Ignore
                } else {
                    RearmAction::CloneListener
                }
            },
            RearmEvent::Cloned(Ok(listener)) => RearmAction::Store(listener),
            RearmEvent::Cloned(Err(kind)) => RearmAction::ReportFailure(kind),
            RearmEvent::Stored => RearmAction::Wake,
        }
    }

    /// Interrupts the worker's poll, one event at a time.
    ///
    /// A channel that would block already holds a wake. The shared slot always
    /// contains the newest listener, so no rearm is lost by sending none.
    pub fn wake(&self, event: WakeEvent) -> (action: WakeAction)
        ensures
            action == wake_transition(self.channel() is Some, event),
            action is Send <==> (event is Requested && self.channel() is Some) || event
                == WakeEvent::Sent(Err(ErrorKind::Interrupted)),
            action is Send ==> action->Send_0 == 1,
            action is ReportFailure <==> event == WakeEvent::Sent(Err(ErrorKind::Other)),
    {
        match event {
            WakeEvent::Requested => {
                if self.wake.is_some() {
                    WakeAction::Send(WAKE_BYTE)
                } else {
                    WakeAction::Finish
                }
            },
            WakeEvent::Sent(Err(ErrorKind::Interrupted)) => WakeAction::Send(WAKE_BYTE),
            WakeEvent::Sent(Err(ErrorKind::Other)) => WakeAction::ReportFailure(ErrorKind::Other),
            WakeEvent::Sent(_) => WakeAction::Finish,
        }
    }

    /// Ends the worker and waits for it, one event at a time.
    pub fn shut_down(&mut self, event: ShutdownEvent) -> (action: ShutdownAction<J>)
        ensures
            (final(self).handle(), action) == shutdown_transition(old(self).handle(), event),
            final(self).channel() == old(self).channel(),
            event is Woken ==> final(self).handle() is None && match old(self).handle() {
                Some(worker) => action == ShutdownAction::Join(worker),
                None => action is Finish,
            },
            !(event is Woken) ==> final(self).handle() == old(self).handle(),
    {
        match event {
            ShutdownEvent::Requested => ShutdownAction::StoreStop,
            ShutdownEvent::StopStored => ShutdownAction::Wake,
            ShutdownEvent::Woken => {
                match self.worker.take() {
                    Some(worker) => ShutdownAction::Join(worker),
                    None => ShutdownAction::Finish,
                }
            },
            ShutdownEvent::Joined => ShutdownAction::Finish,
        }
    }
}

/// The action after `event`, where `running` tells whether there is a worker.
pub open spec fn rearm_transition<L>(running: bool, event: RearmEvent<L>) -> RearmAction<L> {
    match event {
        RearmEvent::Requested => if running {
            RearmAction::CloneListener
        } else {
            RearmAction::Ignore
        },
        RearmEvent::Cloned(Ok(listener)) => RearmAction::Store(listener),
        RearmEvent::Cloned(Err(kind)) => RearmAction::ReportFailure(kind),
        RearmEvent::Stored => RearmAction::Wake,
    }
}

/// The action after `event`, where `open` tells whether there is a wake channel.
pub open spec fn wake_transition(open: bool, event: WakeEvent) -> WakeAction {
    match event {
        WakeEvent::Requested => if open {
            WakeAction::Send(WAKE_BYTE)
        } else {
            WakeAction::Finish
        },
        WakeEvent::Sent(Ok(())) => WakeAction::Finish,
        WakeEvent::Sent(Err(ErrorKind::Interrupted)) => WakeAction::Send(WAKE_BYTE),
        WakeEvent::Sent(Err(ErrorKind::WouldBlock)) => WakeAction::Finish,
        WakeEvent::Sent(Err(kind)) => WakeAction::ReportFailure(kind),
    }
}

/// The handle that is left and the action after `event`.
pub open spec fn shutdown_transition<J>(handle: Option<J>, event: ShutdownEvent) -> (
    Option<J>,
    ShutdownAction<J>,
) {
    match event {
        ShutdownEvent::Requested => (handle, ShutdownAction::StoreStop),
        ShutdownEvent::StopStored => (handle, ShutdownAction::Wake),
        ShutdownEvent::Woken => match handle {
            Some(worker) => (None, ShutdownAction::Join(worker)),
            None => (None, ShutdownAction::Finish),
        },
        ShutdownEvent::Joined => (handle, ShutdownAction::Finish),
    }
}

/// One descriptor of a poll.
#[derive(Clone, Copy, Debug, PartialEq, Eq)]
pub struct PollEntry {
    pub fd: i32,
    pub events: i16,
    pub revents: i16,
}

/// The descriptor that a poll skips.
pub const NO_DESCRIPTOR: i32 = -1;

/// How long a poll waits at most, in milliseconds.
///
/// This bounds shutdown even if the wake channel fails. Readiness and rearming
/// are immediate all the same.
pub const POLL_TIMEOUT_MS: i32 = 1000;

/// What the worker polls.
#[derive(Clone, Copy, Debug, PartialEq, Eq)]
pub struct PollRequest {
    pub wake: PollEntry,
    pub listener: PollEntry,
    pub timeout_ms: i32,
}

/// Polls the wake channel and, while one is watched, the listener for `interest`.
pub fn poll_request(wake_fd: i32, listener_fd: Option<i32>, interest: i16) -> (request: PollRequest)
    ensures
        request.wake == (PollEntry { fd: wake_fd, events: interest, revents: 0 }),
        request.listener == (PollEntry {
            fd: match listener_fd {
                Some(fd) => fd,
                None => NO_DESCRIPTOR,
            },
            events: interest,
            revents: 0,
        }),
        request.timeout_ms == POLL_TIMEOUT_MS,
        listener_fd is None ==> request.listener.fd == -1,
        request.timeout_ms == 1000,
{
    let fd: i32 = match listener_fd {
        Some(fd) => fd,
        None => NO_DESCRIPTOR,
    };
    PollRequest {
        wake: PollEntry { fd: wake_fd, events: interest, revents: 0 },
        listener: PollEntry { fd, events: interest, revents: 0 },
        timeout_ms: POLL_TIMEOUT_MS,
    }
}

/// What a poll left behind.
#[derive(Clone, Copy, Debug, PartialEq, Eq)]
pub struct PollReport {
    /// The return value: negative where the poll failed.
    pub ready: i32,
    /// Why it failed, where it did.
    pub error: ErrorKind,
    /// The events on the wake channel.
    pub wake_revents: i16,
    /// The events on the listener.
    pub listener_revents: i16,
}

/// What the worker does next.
#[derive(Clone, Copy, Debug, PartialEq, Eq)]
pub enum WatchAction {
    /// Begin a new cycle.
    Cycle,
    /// Poll as [`poll_request`] says.
    Poll,
    /// Receive once from the wake channel without waiting.
    DrainWake,
    /// Notify the server loop of a pending connection.
    Notify,
    /// End.
    Stop,
}

/// The worker's first action.
pub open spec fn first_transition() -> WatchAction {
    WatchAction::Cycle
}

/// The watched listener, the slot and the action at the beginning of a cycle.
pub open spec fn cycle_transition<L>(listener: Option<L>, pending: Pending<L>) -> (
    Option<L>,
    Pending<L>,
    WatchAction,
) {
    if pending.stopping {
        (listener, pending, WatchAction::Stop)
    } else {
        (
            if pending.listener is Some {
                pending.listener
            } else {
                listener
            },
            Pending { listener: None, stopping: false },
            WatchAction::Poll,
        )
    }
}

/// The watched listener and the action after a poll.
pub open spec fn poll_transition<L>(listener: Option<L>, report: PollReport) -> (
    Option<L>,
    WatchAction,
) {
    if report.ready < 0 {
        (
            listener,
            if report.error is Interrupted {
                WatchAction::Cycle
            } else {
                WatchAction::Stop
            },
        )
    } else if report.wake_revents != 0 {
        (listener, WatchAction::DrainWake)
    } else if report.listener_revents != 0 {
        (None, WatchAction::Notify)
    } else {
        (listener, WatchAction::Cycle)
    }
}

/// The action after a receive on the wake channel.
pub open spec fn drain_transition(received: bool) -> WatchAction {
    if received {
        WatchAction::DrainWake
    } else {
        WatchAction::Cycle
    }
}

/// The action after the server loop was notified.
pub open spec fn notified_transition() -> WatchAction {
    WatchAction::Cycle
}

/// The worker's side of the waker. It owns the listener that it watches, so that
/// the descriptor stays valid for the whole of a poll.
#[derive(Debug, PartialEq, Eq)]
pub struct Watch<L> {
    listener: Option<L>,
}

impl<L> Watch<L> {
    /// The watched listener.
    pub closed spec fn watched(self) -> Option<L> {
        self.listener
    }

    /// A worker that watches nothing yet.
    pub fn new() -> (watch: Self)
        ensures
            watch.watched() is None,
    {
        Watch { listener: None }
    }

    /// Decides what a new worker does first: it looks at the slot before it polls.
    pub fn first_action(&self) -> (action: WatchAction)
        ensures
            action == first_transition(),
            action is Cycle,
    {
        WatchAction::Cycle
    }

    /// The watched listener, to poll it.
    pub fn listener(&self) -> (listener: Option<&L>)
        ensures
            match listener {
                Some(watched) => self.watched() == Some(*watched),
                None => self.watched() is None,
            },
    {
        self.listener.as_ref()
    }

    /// Begins a cycle with the slot locked: ends if told to, else takes up the
    /// queued listener if there is one.
    pub fn begin_cycle(&mut self, pending: &mut Pending<L>) -> (action: WatchAction)
        ensures
            (final(self).watched(), *final(pending), action) == cycle_transition(
                old(self).watched(),
                *old(pending),
            ),
            old(pending).stopping ==> action is Stop && final(self).watched() == old(self).watched()
                && final(pending).listener == old(pending).listener && final(pending).stopping,
            !old(pending).stopping ==> action is Poll && final(pending).listener is None
                && !final(pending).stopping && final(self).watched() == match old(
                pending,
            ).listener {
                Some(next) => Some(next),
                None => old(self).watched(),
            },
    {
        if pending.stopping {
            return WatchAction::Stop;
        }
        if let Some(next) = pending.listener.take() {
            self.listener = Some(next);
        }
        WatchAction::Poll
    }

    /// Decides after a poll. A wake comes before the listener's readiness, so that
    /// a replacement or a shutdown is applied before a listener that may be stale
    /// is considered. A listener that is ready is given up with the notification.
    pub fn poll_returned(&mut self, report: PollReport) -> (action: WatchAction)
        ensures
            (final(self).watched(), action) == poll_transition(old(self).watched(), report),
            action is Notify <==> report.ready >= 0 && report.wake_revents == 0
                && report.listener_revents != 0,
            action is DrainWake <==> report.ready >= 0 && report.wake_revents != 0,
            action is Stop <==> report.ready < 0 && report.error != ErrorKind::Interrupted,
            !(action is Poll),
            action is Notify ==> final(self).watched() is None,
            !(action is Notify) ==> final(self).watched() == old(self).watched(),
    {
        if report.ready < 0 {
            return match report.error {
                ErrorKind::Interrupted => WatchAction::Cycle,
                _ => WatchAction::Stop,
            };
        }
        if report.wake_revents != 0 {
            return WatchAction::DrainWake;
        }
        if report.listener_revents != 0 {
            self.listener = None;
            return WatchAction::Notify;
        }
        WatchAction::Cycle
    }

    /// Decides after a receive on the wake channel: goes on until nothing is left.
    pub fn wake_received(&self, received: bool) -> (action: WatchAction)
        ensures
            action == drain_transition(received),
            action is DrainWake <==> received,
            action is Cycle <==> !received,
    {
        if received {
            WatchAction::DrainWake
        } else {
            WatchAction::Cycle
        }
    }

    /// Decides after the server loop was notified: goes on with a new cycle.
    pub fn notified(&self) -> (action: WatchAction)
        ensures
            action == notified_transition(),
            action is Cycle,
    {
        WatchAction::Cycle
    }
}

/// The slot holds the listener stored last, and a stop that was once stored stays:
/// neither is lost to the other, in whichever order they come.
pub proof fn slot_keeps_listener_and_stop<L>(pending: Pending<L>, listener: L)
    ensures
        pending.with_listener(listener).listener == Some(listener),
        pending.with_listener(listener).stopping == pending.stopping,
        pending.with_stop().stopping,
        pending.with_stop().listener == pending.listener,
        pending.with_stop().with_listener(listener) == pending.with_listener(listener).with_stop(),
{
}

/// A rearm duplicates the listener exactly if there is a worker to watch it, stores
/// what was duplicated and nothing else, wakes only once that is stored, and passes on
/// why the listener cannot be duplicated. Only the request depends on the worker.
pub proof fn rearm_stores_the_duplicate<L>(running: bool, event: RearmEvent<L>)
    ensures
        ({
            let action = rearm_transition(running, event);
            &&& action is CloneListener <==> event is Requested && running
            &&& action is Ignore <==> event is Requested && !running
            &&& action is Wake <==> event is Stored
            &&& action is Store <==> (event is Cloned && event->Cloned_0 is Ok)
            &&& action is Store ==> action->Store_0 == event->Cloned_0->Ok_0
            &&& action is ReportFailure <==> (event is Cloned && event->Cloned_0 is Err)
            &&& action is ReportFailure ==> action->ReportFailure_0 == event->Cloned_0->Err_0
        }),
{
}

/// A wake is sent exactly if one is requested on a channel that is there, or a signal
/// interrupted the last send. A failure is reported exactly if the channel neither
/// took the byte nor would have had to wait, and anything else ends the wake quietly.
pub proof fn wake_is_sent_on_request_and_after_interruptions(open: bool, event: WakeEvent)
    ensures
        ({
            let action = wake_transition(open, event);
            &&& action is Send <==> (event is Requested && open) || event == WakeEvent::Sent(
                Err(ErrorKind::Interrupted),
            )
            &&& action is Send ==> action->Send_0 == 1
            &&& action is ReportFailure <==> event == WakeEvent::Sent(Err(ErrorKind::Other))
            &&& action is ReportFailure ==> action->ReportFailure_0 == ErrorKind::Other
        }),
{
}

/// A shutdown hands the worker over to be joined exactly once, after the wake, and
/// never before the stop was stored; no other step of it touches the handle.
pub proof fn shutdown_hands_the_worker_over_once<J>(handle: Option<J>, event: ShutdownEvent)
    ensures
        ({
            let (left, action) = shutdown_transition(handle, event);
            &&& action is StoreStop <==> event is Requested
            &&& action is Wake <==> event is StopStored
            &&& action is Join <==> event is Woken && handle is Some
            &&& action is Join ==> handle == Some(action->Join_0)
            &&& left == if event is Woken {
                None
            } else {
                handle
            }
            &&& !(shutdown_transition(left, event).1 is Join)
        }),
{
}

/// A new worker, and one that has just notified the server loop, looks at the slot
/// before it polls; and a worker polls only after it has looked at the slot.
pub proof fn worker_looks_at_the_slot_before_it_polls<L>(
    listener: Option<L>,
    report: PollReport,
    received: bool,
)
    ensures
        first_transition() is Cycle,
        notified_transition() is Cycle,
        !(poll_transition(listener, report).1 is Poll),
        !(drain_transition(received) is Poll),
{
}

/// The wake channel is received from exactly until nothing is left in it.
pub proof fn drain_ends_when_nothing_is_left(received: bool)
    ensures
        drain_transition(received) is DrainWake <==> received,
        drain_transition(received) is Cycle <==> !received,
{
}

/// What a worker decides after a poll that succeeded rests on the reported events
/// alone, and after one that failed on the error alone; a listener is given up exactly
/// with its notification, and which listener it is decides nothing.
pub proof fn poll_is_judged_by_what_it_reports<L>(
    one: Option<L>,
    other: Option<L>,
    report: PollReport,
    other_report: PollReport,
)
    requires
        report.ready < 0 <==> other_report.ready < 0,
        report.ready < 0 ==> report.error == other_report.error,
        report.ready >= 0 ==> (report.wake_revents != 0 <==> other_report.wake_revents != 0),
        report.ready >= 0 && report.wake_revents == 0 ==> (report.listener_revents != 0
            <==> other_report.listener_revents != 0),
    ensures
        poll_transition(one, report).1 == poll_transition(other, other_report).1,
        poll_transition(one, report).1 is Notify ==> poll_transition(one, report).0 is None,
        !(poll_transition(one, report).1 is Notify) ==> poll_transition(one, report).0 == one,
{
}

} // verus!
