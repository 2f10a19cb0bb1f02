use herdr::client_accept::{
    accept_pending_client_connections, reject_pending_client_connections, AcceptAction, AcceptEnd,
    AcceptEvent, RejectAction, RejectEvent,
};
use herdr::error_kind::ErrorKind;

/// What one round of a pass finds.
#[derive(Clone, Copy)]
enum Round {
    Quit,
    Connection { nonblocking: bool },
    Failure(ErrorKind),
}

struct Pass {
    started: Vec<u64>,
    dropped: Vec<u64>,
    accepts: usize,
    end: AcceptEnd,
}

fn run_pass(next_client_id: &mut u64, rounds: &[Round]) -> Pass {
    let mut started = Vec::new();
    let mut dropped = Vec::new();
    let mut accepts = 0;
    let mut round = 0;
    let mut event = AcceptEvent::NewRound;
    loop {
        event = match accept_pending_client_connections(next_client_id, event) {
            AcceptAction::ReadQuitFlag => {
                AcceptEvent::QuitFlag(matches!(rounds[round], Round::Quit))
            }
            AcceptAction::Accept => {
                accepts += 1;
                match rounds[round] {
                    Round::Failure(kind) => AcceptEvent::AcceptFailed(kind),
                    _ => AcceptEvent::Accepted,
                }
            }
            AcceptAction::SetNonblocking { client_id } => AcceptEvent::NonblockingSet {
                client_id,
                succeeded: matches!(rounds[round], Round::Connection { nonblocking: true }),
            },
            AcceptAction::StartHandshake { client_id } => {
                started.push(client_id);
                round += 1;
                AcceptEvent::NewRound
            }
            AcceptAction::DropStream { client_id } => {
                dropped.push(client_id);
                round += 1;
                AcceptEvent::NewRound
            }
            AcceptAction::Finish(end) => {
                return Pass {
                    started,
                    dropped,
                    accepts,
                    end,
                }
            }
        };
    }
}

const GOOD: Round = Round::Connection { nonblocking: true };
const BAD: Round = Round::Connection { nonblocking: false };

#[test]
fn a_pass_numbers_the_backlog_and_starts_its_readers() {
    let mut next = 7;
    let pass = run_pass(
        &mut next,
        &[GOOD, GOOD, GOOD, Round::Failure(ErrorKind::WouldBlock)],
    );
    assert_eq!(pass.started, vec![7, 8, 9]);
    assert!(pass.dropped.is_empty());
    assert_eq!(pass.accepts, 4);
    assert_eq!(pass.end, AcceptEnd::Drained);
    assert_eq!(next, 10);
}

#[test]
fn a_blocking_stream_is_dropped_and_its_number_is_spent() {
    let mut next = 1;
    let pass = run_pass(
        &mut next,
        &[GOOD, BAD, GOOD, Round::Failure(ErrorKind::WouldBlock)],
    );
    assert_eq!(pass.started, vec![1, 3]);
    assert_eq!(pass.dropped, vec![2]);
    assert_eq!(next, 4);
}

#[test]
fn a_quitting_server_accepts_nobody() {
    let mut next = 4;
    let pass = run_pass(&mut next, &[Round::Quit, GOOD]);
    assert_eq!(pass.accepts, 0);
    assert!(pass.started.is_empty());
    assert_eq!(pass.end, AcceptEnd::Quit);
    assert_eq!(next, 4);
}

#[test]
fn the_quit_flag_is_read_before_every_accept() {
    let mut next = 4;
    let pass = run_pass(&mut next, &[GOOD, Round::Quit, GOOD]);
    assert_eq!(pass.accepts, 1);
    assert_eq!(pass.started, vec![4]);
    assert_eq!(pass.end, AcceptEnd::Quit);
    assert_eq!(next, 5);
}

#[test]
fn a_failing_listener_ends_the_pass() {
    let mut next = 0;
    let pass = run_pass(&mut next, &[GOOD, Round::Failure(ErrorKind::Other), GOOD]);
    assert_eq!(pass.started, vec![0]);
    assert_eq!(pass.end, AcceptEnd::Failed(ErrorKind::Other));
    let pass = run_pass(&mut next, &[Round::Failure(ErrorKind::Interrupted)]);
    assert_eq!(pass.end, AcceptEnd::Failed(ErrorKind::Interrupted));
    assert_eq!(next, 1);
}

#[test]
fn identifiers_stop_at_the_largest_number() {
    let mut next = u64::MAX - 1;
    let pass = run_pass(
        &mut next,
        &[GOOD, GOOD, GOOD, Round::Failure(ErrorKind::WouldBlock)],
    );
    assert_eq!(pass.started, vec![u64::MAX - 1, u64::MAX, u64::MAX]);
    assert_eq!(next, u64::MAX);
}

#[test]
fn passes_in_a_row_share_no_identifier() {
    let mut next = 0;
    let end = Round::Failure(ErrorKind::WouldBlock);
    let first = run_pass(&mut next, &[GOOD, BAD, end]);
    let second = run_pass(&mut next, &[GOOD, GOOD, end]);
    assert_eq!(first.started, vec![0]);
    assert_eq!(first.dropped, vec![1]);
    assert_eq!(second.started, vec![2, 3]);
}

fn run_reject(rounds: &[Result<(), ErrorKind>]) -> (usize, AcceptEnd) {
    let mut closed = 0;
    let mut event = RejectEvent::NewRound;
    let mut rounds = rounds.iter();
    loop {
        event = match reject_pending_client_connections(event) {
            RejectAction::Accept => match rounds.next().unwrap() {
                Ok(()) => RejectEvent::Accepted,
                Err(kind) => RejectEvent::AcceptFailed(*kind),
            },
            RejectAction::DropStream => {
                closed += 1;
                RejectEvent::NewRound
            }
            RejectAction::Finish(end) => return (closed, end),
        };
    }
}

#[test]
fn rejecting_closes_the_whole_backlog() {
    assert_eq!(
        run_reject(&[Ok(()), Ok(()), Ok(()), Err(ErrorKind::WouldBlock), Ok(())]),
        (3, AcceptEnd::Drained)
    );
    assert_eq!(
        run_reject(&[Err(ErrorKind::WouldBlock)]),
        (0, AcceptEnd::Drained)
    );
}

#[test]
fn a_failing_listener_ends_the_rejection() {
    assert_eq!(
        run_reject(&[Ok(()), Err(ErrorKind::Other), Ok(())]),
        (1, AcceptEnd::Failed(ErrorKind::Other))
    );
    assert_eq!(
        run_reject(&[Err(ErrorKind::Interrupted)]),
        (0, AcceptEnd::Failed(ErrorKind::Interrupted))
    );
}
