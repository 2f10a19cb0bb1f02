use herdr::client_accept_waker::{
    poll_request, ClientAcceptWaker, Pending, PollEntry, PollReport, RearmAction, RearmEvent,
    ShutdownAction, ShutdownEvent, WakeAction, WakeEvent, Watch, WatchAction, NO_DESCRIPTOR,
    POLL_TIMEOUT_MS, WAKE_BYTE,
};
use herdr::error_kind::ErrorKind;

/// A waker whose channel, listeners and clock are plain values. A listener is a
/// number, and `backlog` says which listeners have a connection pending.
struct Bench {
    waker: ClientAcceptWaker<&'static str, u32>,
    pending: Pending<u32>,
    watch: Watch<u32>,
    worker: WatchAction,
    wakes: usize,
    capacity: usize,
    backlog: Vec<u32>,
    notified: usize,
}

impl Bench {
    fn new() -> Self {
        let watch = Watch::new();
        let worker = watch.first_action();
        Bench {
            waker: ClientAcceptWaker::spawn(Ok(("wake", 9))),
            pending: Pending::default(),
            watch,
            worker,
            wakes: 0,
            capacity: 1,
            backlog: Vec::new(),
            notified: 0,
        }
    }

    fn wake(&mut self) {
        let mut event = WakeEvent::Requested;
        loop {
            event = match self.waker.wake(event) {
                WakeAction::Send(byte) => {
                    assert_eq!(byte, WAKE_BYTE);
                    if self.wakes == self.capacity {
                        WakeEvent::Sent(Err(ErrorKind::WouldBlock))
                    } else {
                        self.wakes += 1;
                        WakeEvent::Sent(Ok(()))
                    }
                }
                WakeAction::ReportFailure(_) | WakeAction::Finish => return,
            };
        }
    }

    fn rearm(&mut self, listener: u32) {
        let mut event = RearmEvent::Requested;
        loop {
            event = match self.waker.rearm(event) {
                RearmAction::Ignore | RearmAction::ReportFailure(_) => return,
                RearmAction::CloneListener => RearmEvent::Cloned(Ok(listener)),
                RearmAction::Store(listener) => {
                    self.pending.store(listener);
                    RearmEvent::Stored
                }
                RearmAction::Wake => return self.wake(),
            };
        }
    }

    fn shut_down(&mut self) -> Option<u32> {
        let mut joined = None;
        let mut event = ShutdownEvent::Requested;
        loop {
            event = match self.waker.shut_down(event) {
                ShutdownAction::StoreStop => {
                    self.pending.stop();
                    ShutdownEvent::StopStored
                }
                ShutdownAction::Wake => {
                    self.wake();
                    ShutdownEvent::Woken
                }
                ShutdownAction::Join(worker) => {
                    joined = Some(worker);
                    ShutdownEvent::Joined
                }
                ShutdownAction::Finish => return joined,
            };
        }
    }

    /// Runs the worker until a poll would wait, and returns whether it is alive.
    fn settle(&mut self) -> bool {
        loop {
            self.worker = match self.worker {
                WatchAction::Cycle => self.watch.begin_cycle(&mut self.pending),
                WatchAction::Poll => {
                    let wake_revents = (self.wakes > 0) as i16;
                    let listener_revents = match self.watch.listener() {
                        Some(listener) => self.backlog.contains(listener) as i16,
                        None => 0,
                    };
                    let ready = (wake_revents + listener_revents) as i32;
                    if ready == 0 {
                        return true;
                    }
                    self.watch.poll_returned(PollReport {
                        ready,
                        error: ErrorKind::Other,
                        wake_revents,
                        listener_revents,
                    })
                }
                WatchAction::DrainWake => {
                    let received = self.wakes > 0;
                    self.wakes = self.wakes.saturating_sub(1);
                    self.watch.wake_received(received)
                }
                WatchAction::Notify => {
                    self.notified += 1;
                    self.watch.notified()
                }
                WatchAction::Stop => return false,
            };
        }
    }
}

fn report(ready: i32, error: ErrorKind, wake: i16, listener: i16) -> PollReport {
    PollReport {
        ready,
        error,
        wake_revents: wake,
        listener_revents: listener,
    }
}

#[test]
fn waker_notifies_when_a_connection_is_pending() {
    let mut bench = Bench::new();
    bench.rearm(3);
    assert!(bench.settle());
    assert_eq!(bench.notified, 0, "nothing is pending yet");

    bench.backlog.push(3);
    assert!(bench.settle());
    assert_eq!(bench.notified, 1, "pending connection must wake the loop");

    // The loop drains the backlog, then re-arms; a fresh connection wakes it again.
    bench.backlog.clear();
    bench.rearm(3);
    assert!(bench.settle());
    bench.backlog.push(3);
    assert!(bench.settle());
    assert_eq!(bench.notified, 2, "re-armed waker must fire again");
}

#[test]
fn waker_replaces_an_idle_listener_and_stops_without_a_connection() {
    let mut bench = Bench::new();
    bench.rearm(1);
    assert!(bench.settle());
    assert_eq!(bench.notified, 0);
    bench.rearm(2);
    bench.backlog.push(2);
    assert!(bench.settle());
    assert_eq!(bench.notified, 1);
    bench.backlog.clear();
    bench.rearm(2);
    assert!(bench.settle());
    assert_eq!(bench.shut_down(), Some(9));
    assert!(!bench.settle());
    assert_eq!(bench.notified, 1);
}

#[test]
fn one_rearm_brings_one_notification() {
    let mut bench = Bench::new();
    bench.rearm(3);
    bench.backlog.push(3);
    assert!(bench.settle());
    assert!(bench.settle());
    assert_eq!(bench.notified, 1);
    assert!(bench.watch.listener().is_none());
}

#[test]
fn the_newest_listener_survives_a_full_channel() {
    let mut bench = Bench::new();
    assert!(bench.settle());
    bench.rearm(1);
    bench.rearm(2);
    bench.rearm(3);
    assert_eq!(bench.wakes, 1);
    assert!(bench.settle());
    assert_eq!(bench.watch.listener(), Some(&3));
    assert_eq!(bench.pending.listener, None);
}

#[test]
fn a_wake_comes_before_stale_readiness() {
    let mut bench = Bench::new();
    bench.rearm(1);
    assert!(bench.settle());
    bench.rearm(2);
    bench.backlog.push(1);
    assert!(bench.settle());
    assert_eq!(bench.notified, 0);
    assert_eq!(bench.watch.listener(), Some(&2));
}

#[test]
fn a_stop_comes_before_a_queued_listener() {
    let mut watch: Watch<u32> = Watch::new();
    let mut pending = Pending {
        listener: Some(5),
        stopping: true,
    };
    assert_eq!(watch.begin_cycle(&mut pending), WatchAction::Stop);
    assert_eq!(watch.listener(), None);
    assert_eq!(pending.listener, Some(5));
}

#[test]
fn a_cycle_without_news_keeps_the_listener() {
    let mut watch: Watch<u32> = Watch::new();
    let mut pending = Pending::default();
    pending.store(5);
    assert_eq!(watch.begin_cycle(&mut pending), WatchAction::Poll);
    assert_eq!(watch.begin_cycle(&mut pending), WatchAction::Poll);
    assert_eq!(watch.listener(), Some(&5));
}

#[test]
fn poll_results_are_told_apart() {
    let mut watch: Watch<u32> = Watch::new();
    let mut pending = Pending::default();
    pending.store(5);
    watch.begin_cycle(&mut pending);
    assert_eq!(
        watch.poll_returned(report(-1, ErrorKind::Interrupted, 1, 1)),
        WatchAction::Cycle
    );
    assert_eq!(
        watch.poll_returned(report(-1, ErrorKind::Other, 1, 1)),
        WatchAction::Stop
    );
    assert_eq!(
        watch.poll_returned(report(-1, ErrorKind::WouldBlock, 1, 1)),
        WatchAction::Stop
    );
    assert_eq!(
        watch.poll_returned(report(0, ErrorKind::Other, 0, 0)),
        WatchAction::Cycle
    );
    assert_eq!(
        watch.poll_returned(report(2, ErrorKind::Other, 1, 1)),
        WatchAction::DrainWake
    );
    assert_eq!(watch.listener(), Some(&5));
    assert_eq!(
        watch.poll_returned(report(1, ErrorKind::Other, 0, 16)),
        WatchAction::Notify
    );
    assert_eq!(watch.listener(), None);
}

#[test]
fn a_poll_skips_a_missing_listener() {
    let request = poll_request(4, None, 1);
    assert_eq!(NO_DESCRIPTOR, -1);
    assert_eq!(POLL_TIMEOUT_MS, 1000);
    assert_eq!(
        request.wake,
        PollEntry {
            fd: 4,
            events: 1,
            revents: 0
        }
    );
    assert_eq!(
        request.listener,
        PollEntry {
            fd: -1,
            events: 1,
            revents: 0
        }
    );
    assert_eq!(request.timeout_ms, 1000);
    assert_eq!(poll_request(4, Some(6), 1).listener.fd, 6);
}

#[test]
fn a_wake_is_sent_again_only_after_an_interruption() {
    let waker: ClientAcceptWaker<u8, u8> = ClientAcceptWaker::spawn(Ok((0, 0)));
    assert_eq!(waker.wake(WakeEvent::Requested), WakeAction::Send(1));
    assert_eq!(
        waker.wake(WakeEvent::Sent(Err(ErrorKind::Interrupted))),
        WakeAction::Send(1)
    );
    assert_eq!(
        waker.wake(WakeEvent::Sent(Err(ErrorKind::WouldBlock))),
        WakeAction::Finish
    );
    assert_eq!(
        waker.wake(WakeEvent::Sent(Err(ErrorKind::Other))),
        WakeAction::ReportFailure(ErrorKind::Other)
    );
    assert_eq!(waker.wake(WakeEvent::Sent(Ok(()))), WakeAction::Finish);
}

#[test]
fn a_listener_that_cannot_be_duplicated_is_reported() {
    let waker: ClientAcceptWaker<u8, u8> = ClientAcceptWaker::spawn(Ok((0, 0)));
    assert_eq!(
        waker.rearm(RearmEvent::<u32>::Requested),
        RearmAction::CloneListener
    );
    assert_eq!(
        waker.rearm(RearmEvent::<u32>::Cloned(Err(ErrorKind::Other))),
        RearmAction::ReportFailure(ErrorKind::Other)
    );
}

#[test]
fn a_waker_that_could_not_start_does_nothing() {
    let mut waker: ClientAcceptWaker<u8, u8> = ClientAcceptWaker::spawn(Err(ErrorKind::Other));
    assert!(waker.wake_channel().is_none());
    assert_eq!(
        waker.rearm(RearmEvent::<u32>::Requested),
        RearmAction::Ignore
    );
    assert_eq!(waker.wake(WakeEvent::Requested), WakeAction::Finish);
    assert_eq!(
        waker.shut_down(ShutdownEvent::Requested),
        ShutdownAction::StoreStop
    );
    assert_eq!(
        waker.shut_down(ShutdownEvent::StopStored),
        ShutdownAction::Wake
    );
    assert_eq!(waker.shut_down(ShutdownEvent::Woken), ShutdownAction::Finish);
}

#[test]
fn a_worker_is_joined_once() {
    let mut waker: ClientAcceptWaker<u8, u8> = ClientAcceptWaker::spawn(Ok((1, 2)));
    assert_eq!(waker.wake_channel(), Some(&1));
    assert_eq!(waker.shut_down(ShutdownEvent::Woken), ShutdownAction::Join(2));
    assert_eq!(waker.shut_down(ShutdownEvent::Joined), ShutdownAction::Finish);
    assert_eq!(waker.shut_down(ShutdownEvent::Woken), ShutdownAction::Finish);
}

#[test]
fn a_stopping_worker_ends_at_the_timeout_without_a_wake() {
    let mut bench = Bench::new();
    bench.rearm(3);
    assert!(bench.settle());
    bench.pending.stop();
    assert_eq!(
        bench.watch.poll_returned(report(0, ErrorKind::Other, 0, 0)),
        WatchAction::Cycle
    );
    assert_eq!(
        bench.watch.begin_cycle(&mut bench.pending),
        WatchAction::Stop
    );
}

#[test]
fn a_stored_listener_is_taken_up_at_the_timeout_without_a_wake() {
    let mut bench = Bench::new();
    bench.rearm(3);
    assert!(bench.settle());
    bench.pending.store(4);
    assert_eq!(
        bench.watch.poll_returned(report(0, ErrorKind::Other, 0, 0)),
        WatchAction::Cycle
    );
    assert_eq!(
        bench.watch.begin_cycle(&mut bench.pending),
        WatchAction::Poll
    );
    assert_eq!(bench.watch.listener(), Some(&4));
}

#[test]
fn a_stopping_worker_notifies_at_most_once_more() {
    let mut bench = Bench::new();
    bench.rearm(3);
    assert!(bench.settle());
    bench.pending.stop();
    bench.backlog.push(3);
    assert!(!bench.settle());
    assert_eq!(bench.notified, 1);
}

#[test]
fn a_replaced_listener_brings_no_notification() {
    let mut bench = Bench::new();
    bench.rearm(1);
    bench.rearm(2);
    bench.backlog.push(1);
    bench.backlog.push(2);
    assert!(bench.settle());
    assert_eq!(bench.notified, 1);
}

#[test]
fn a_notified_worker_begins_a_cycle() {
    let watch: Watch<u32> = Watch::new();
    assert_eq!(watch.notified(), WatchAction::Cycle);
}

#[test]
fn a_new_worker_looks_at_the_slot_first() {
    let watch: Watch<u32> = Watch::new();
    assert_eq!(watch.first_action(), WatchAction::Cycle);
}
