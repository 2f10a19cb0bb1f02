//! Accepting and rejecting pending client connections.

use vstd::prelude::*;

use crate::error_kind::ErrorKind;

verus! {

/// What the caller reports to [`accept_pending_client_connections`].
#[derive(Clone, Copy, Debug, PartialEq, Eq)]
pub enum AcceptEvent {
    /// A pass begins, or the previous connection has been dealt with.
    NewRound,
    /// The value of the quit flag.
    QuitFlag(bool),
    /// The listener handed out a connection.
    Accepted,
    /// The listener handed out none.
    AcceptFailed(ErrorKind),
    /// The stream of `client_id` was switched to nonblocking mode, or could not be.
    NonblockingSet { client_id: u64, succeeded: bool },
}

/// What [`accept_pending_client_connections`] asks of the caller.
#[derive(Clone, Copy, Debug, PartialEq, Eq)]
pub enum AcceptAction {
    /// Read the quit flag.
    ReadQuitFlag,
    /// Accept one connection without waiting.
    Accept,
    /// Switch the accepted stream, now of `client_id`, to nonblocking mode.
    SetNonblocking { client_id: u64 },
    /// Start the handshake reader of `client_id` on the accepted stream.
    StartHandshake { client_id: u64 },
    /// Report that the stream of `client_id` stays blocking, and close it.
    DropStream { client_id: u64 },
    /// The pass is over. This is no failure of the caller, whatever ended it.
    Finish(AcceptEnd),
}

/// What ended a pass over the listener's backlog.
#[derive(Clone, Copy, Debug, PartialEq, Eq)]
pub enum AcceptEnd {
    /// The server is quitting.
    Quit,
    /// No connection is pending any more.
    Drained,
    /// The listener failed. This is worth a report.
    Failed(ErrorKind),
}

/// `id` plus `count`, stopping at the largest identifier.
pub open spec fn saturating_id(id: u64, count: nat) -> u64 {
    if id + count <= u64::MAX {
        (id + count) as u64
    } else {
        u64::MAX
    }
}

/// How a pass ends when the listener refuses a connection with `kind`.
pub open spec fn end_of(kind: ErrorKind) -> AcceptEnd {
    match kind {
        ErrorKind::WouldBlock => AcceptEnd::Drained,
        _ => AcceptEnd::Failed(kind),
    }
}

/// The next client identifier and the action after `event`.
pub open spec fn accept_transition(next_client_id: u64, event: AcceptEvent) -> (
    u64,
    AcceptAction,
) {
    match event {
        AcceptEvent::NewRound => (next_client_id, AcceptAction::ReadQuitFlag),
        AcceptEvent::QuitFlag(true) => (next_client_id, AcceptAction::Finish(AcceptEnd::Quit)),
        AcceptEvent::QuitFlag(false) => (next_client_id, AcceptAction::Accept),
        AcceptEvent::Accepted => (
            saturating_id(next_client_id, 1),
            AcceptAction::SetNonblocking { client_id: next_client_id },
        ),
        AcceptEvent::AcceptFailed(kind) => (next_client_id, AcceptAction::Finish(end_of(kind))),
        AcceptEvent::NonblockingSet { client_id, succeeded: true } => (
            next_client_id,
            AcceptAction::StartHandshake { client_id },
        ),
        AcceptEvent::NonblockingSet { client_id, succeeded: false } => (
            next_client_id,
            AcceptAction::DropStream { client_id },
        ),
    }
}

/// Accepts pending client connections and has their handshake readers started,
/// one event at a time.
///
/// A pass starts with [`AcceptEvent::NewRound`], and so does every round after a
/// connection was started or dropped. An identifier is spent on every accepted
/// connection, also on one that is dropped.
pub fn accept_pending_client_connections(next_client_id: &mut u64, event: AcceptEvent) -> (action:
    AcceptAction)
    ensures
        (*final(next_client_id), action) == accept_transition(*old(next_client_id), event),
        event is Accepted ==> action == (AcceptAction::SetNonblocking {
            client_id: *old(next_client_id),
        }),
        event is Accepted && *old(next_client_id) < u64::MAX ==> *final(next_client_id) == *old(
            next_client_id,
        ) + 1,
        !(event is Accepted) || *old(next_client_id) == u64::MAX ==> *final(next_client_id) == *old(
            next_client_id,
        ),
{
    match event {
        AcceptEvent::NewRound => AcceptAction::ReadQuitFlag,
        AcceptEvent::QuitFlag(should_quit) => {
            if should_quit {
                AcceptAction::Finish(AcceptEnd::Quit)
            } else {
                AcceptAction::Accept
            }
        },
        AcceptEvent::Accepted => {
            let client_id: u64 = *next_client_id;
            *next_client_id = client_id.saturating_add(1);
            AcceptAction::SetNonblocking { client_id }
        },
        AcceptEvent::AcceptFailed(kind) => AcceptAction::Finish(accept_end(kind)),
        AcceptEvent::NonblockingSet { client_id, succeeded } => {
            if succeeded {
                AcceptAction::StartHandshake { client_id }
            } else {
                AcceptAction::DropStream { client_id }
            }
        },
    }
}

fn accept_end(kind: ErrorKind) -> (end: AcceptEnd)
    ensures
        end == end_of(kind),
{
    match kind {
        ErrorKind::WouldBlock => AcceptEnd::Drained,
        _ => AcceptEnd::Failed(kind),
    }
}

/// What the caller reports to [`reject_pending_client_connections`].
#[derive(Clone, Copy, Debug, PartialEq, Eq)]
pub enum RejectEvent {
    /// A pass begins, or the previous connection has been closed.
    NewRound,
    /// The listener handed out a connection.
    Accepted,
    /// The listener handed out none.
    AcceptFailed(ErrorKind),
}

/// What [`reject_pending_client_connections`] asks of the caller.
#[derive(Clone, Copy, Debug, PartialEq, Eq)]
pub enum RejectAction {
    /// Accept one connection without waiting.
    Accept,
    /// Close the accepted stream.
    DropStream,
    /// The pass is over. This is no failure of the caller, whatever ended it.
    Finish(AcceptEnd),
}

/// The action after `event`.
pub open spec fn reject_transition(event: RejectEvent) -> RejectAction {
    match event {
        RejectEvent::NewRound => RejectAction::Accept,
        RejectEvent::Accepted => RejectAction::DropStream,
        RejectEvent::AcceptFailed(kind) => RejectAction::Finish(end_of(kind)),
    }
}

/// Drains pending client connections without starting handshakes, one event at
/// a time.
///
/// During live handoff the old server must not let clients sit in the listener's
/// backlog waiting for a welcome frame that will never be sent.
pub fn reject_pending_client_connections(event: RejectEvent) -> (action: RejectAction)
    ensures
        action == reject_transition(event),
{
    match event {
        RejectEvent::NewRound => RejectAction::Accept,
        RejectEvent::Accepted => RejectAction::DropStream,
        RejectEvent::AcceptFailed(kind) => RejectAction::Finish(accept_end(kind)),
    }
}

/// What the surroundings hold for one round of an accepting pass.
pub enum AcceptRound {
    /// The quit flag is set.
    Quit,
    /// A connection is pending; `nonblocking` tells whether its stream can be
    /// switched to nonblocking mode.
    Connection { nonblocking: bool },
    /// The listener hands out no connection.
    Failure(ErrorKind),
}

/// The event with which `round` answers `action`.
pub open spec fn accept_answer(round: AcceptRound, action: AcceptAction) -> AcceptEvent {
    match action {
        AcceptAction::ReadQuitFlag => AcceptEvent::QuitFlag(round is Quit),
        AcceptAction::Accept => match round {
            AcceptRound::Failure(kind) => AcceptEvent::AcceptFailed(kind),
            _ => AcceptEvent::Accepted,
        },
        AcceptAction::SetNonblocking { client_id } => AcceptEvent::NonblockingSet {
            client_id,
            succeeded: round is Connection && round->nonblocking,
        },
        _ => AcceptEvent::NewRound,
    }
}

/// Whether `action` closes a round.
pub open spec fn closes_round(action: AcceptAction) -> bool {
    action is StartHandshake || action is DropStream || action is Finish
}

/// The next client identifier and the last action of `round`, taken up after
/// `event`.
pub open spec fn play_round(next_client_id: u64, event: AcceptEvent, round: AcceptRound) -> (
    u64,
    AcceptAction,
)
    decreases
            match event {
                AcceptEvent::NewRound => 3int,
                AcceptEvent::QuitFlag(_) => 2int,
                AcceptEvent::Accepted => 1int,
                _ => 0int,
            },
{
    let (id, action) = accept_transition(next_client_id, event);
    if closes_round(action) {
        (id, action)
    } else {
        play_round(id, accept_answer(round, action), round)
    }
}

/// What a pass has done.
pub struct AcceptPass {
    /// For each accepted connection its identifier, and whether its handshake
    /// reader was started.
    pub clients: Seq<(u64, bool)>,
    /// The identifier for the connection after those.
    pub next_client_id: u64,
    /// What ended the pass, once it has ended.
    pub end: Option<AcceptEnd>,
}

/// The pass over `rounds`.
pub open spec fn accept_pass(next_client_id: u64, rounds: Seq<AcceptRound>) -> AcceptPass
    decreases rounds.len(),
{
    if rounds.len() == 0 {
        AcceptPass { clients: Seq::empty(), next_client_id, end: None }
    } else {
        let before = accept_pass(next_client_id, rounds.drop_last());
        if before.end is Some {
            before
        } else {
            let (id, action) = play_round(
                before.next_client_id,
                AcceptEvent::NewRound,
                rounds.last(),
            );
            match action {
                AcceptAction::StartHandshake { client_id } => AcceptPass {
                    clients: before.clients.push((client_id, true)),
                    next_client_id: id,
                    end: None,
                },
                AcceptAction::DropStream { client_id } => AcceptPass {
                    clients: before.clients.push((client_id, false)),
                    next_client_id: id,
                    end: None,
                },
                AcceptAction::Finish(end) => AcceptPass {
                    clients: before.clients,
                    next_client_id: id,
                    end: Some(end),
                },
                _ => before,
            }
        }
    }
}

/// How a pass ends in a round that holds no connection.
pub open spec fn round_end(round: AcceptRound) -> AcceptEnd
    recommends
        !(round is Connection),
{
    match round {
        AcceptRound::Failure(kind) => end_of(kind),
        _ => AcceptEnd::Quit,
    }
}

/// A pass accepts exactly the connections before the first round that holds none.
/// It numbers them in order from `next_client_id` on, and starts the handshake
/// reader of each one whose stream can be switched to nonblocking mode. A stream
/// that cannot be switched neither ends the pass nor gives its number back.
pub proof fn pass_numbers_the_backlog(next_client_id: u64, rounds: Seq<AcceptRound>, count: nat)
    requires
        count <= rounds.len(),
        forall|i: int| 0 <= i < count ==> (#[trigger] rounds[i]) is Connection,
        count < rounds.len() ==> !(rounds[count as int] is Connection),
    ensures
        ({
            let pass = accept_pass(next_client_id, rounds);
            &&& pass.clients.len() == count
            &&& forall|i: int|
                0 <= i < count ==> (#[trigger] pass.clients[i]).0 == if next_client_id + i
                    <= u64::MAX {
                    next_client_id + i
                } else {
                    u64::MAX as int
                } && pass.clients[i].1 == rounds[i]->nonblocking
            &&& pass.next_client_id == if next_client_id + count <= u64::MAX {
                next_client_id + count
            } else {
                u64::MAX as int
            }
            &&& pass.end == if count < rounds.len() {
                match rounds[count as int] {
                    AcceptRound::Failure(ErrorKind::WouldBlock) => Some(AcceptEnd::Drained),
                    AcceptRound::Failure(kind) => Some(AcceptEnd::Failed(kind)),
                    _ => Some(AcceptEnd::Quit),
                }
            } else {
                None
            }
            &&& count < rounds.len() ==> pass.end == Some(round_end(rounds[count as int]))
        }),
    decreases rounds.len(),
{
    reveal_with_fuel(play_round, 4);
    if rounds.len() > 0 {
        let shorter = rounds.drop_last();
        let shorter_count = if count < rounds.len() {
            count
        } else {
            (count - 1) as nat
        };
        pass_numbers_the_backlog(next_client_id, shorter, shorter_count);
        if shorter_count == shorter.len() {
            let before = accept_pass(next_client_id, shorter);
            assert(before.end is None);
        }
    }
}

/// Once a round holds no connection, nothing that comes later is looked at: a
/// server that is quitting accepts nobody any more.
pub proof fn pass_ignores_later_rounds(next_client_id: u64, rounds: Seq<AcceptRound>, k: int)
    requires
        0 <= k < rounds.len(),
        !(rounds[k] is Connection),
    ensures
        accept_pass(next_client_id, rounds) == accept_pass(next_client_id, rounds.take(k + 1)),
        accept_pass(next_client_id, rounds).end is Some,
    decreases rounds.len(),
{
    reveal_with_fuel(play_round, 4);
    if k + 1 == rounds.len() {
        assert(rounds.take(k + 1) =~= rounds);
    } else {
        assert(rounds.drop_last().take(k + 1) =~= rounds.take(k + 1));
        pass_ignores_later_rounds(next_client_id, rounds.drop_last(), k);
    }
}

/// A later connection never has a smaller identifier, and identifiers within a
/// pass are distinct unless the numbers run out.
pub proof fn pass_identifiers_increase(next_client_id: u64, rounds: Seq<AcceptRound>, i: int, j: int)
    requires
        0 <= i < j < accept_pass(next_client_id, rounds).clients.len(),
    ensures
        ({
            let clients = accept_pass(next_client_id, rounds).clients;
            &&& clients[i].0 <= clients[j].0
            &&& next_client_id + j <= u64::MAX ==> clients[i].0 < clients[j].0
        }),
{
    let count = backlog_length(rounds);
    pass_numbers_the_backlog(next_client_id, rounds, count);
}

/// Two passes in a row share no identifier unless the numbers run out.
pub proof fn passes_share_no_identifier(
    next_client_id: u64,
    first: Seq<AcceptRound>,
    second: Seq<AcceptRound>,
    i: int,
    j: int,
)
    requires
        0 <= i < accept_pass(next_client_id, first).clients.len(),
        ({
            let middle = accept_pass(next_client_id, first).next_client_id;
            0 <= j < accept_pass(middle, second).clients.len()
        }),
        next_client_id + accept_pass(next_client_id, first).clients.len() <= u64::MAX,
    ensures
        ({
            let before = accept_pass(next_client_id, first);
            let after = accept_pass(before.next_client_id, second);
            before.clients[i].0 < after.clients[j].0
        }),
{
    let middle = accept_pass(next_client_id, first).next_client_id;
    let first_count = backlog_length(first);
    let second_count = backlog_length(second);
    pass_numbers_the_backlog(next_client_id, first, first_count);
    pass_numbers_the_backlog(middle, second, second_count);
}

/// The number of connections before the first round that holds none.
proof fn backlog_length(rounds: Seq<AcceptRound>) -> (count: nat)
    ensures
        count <= rounds.len(),
        forall|i: int| 0 <= i < count ==> (#[trigger] rounds[i]) is Connection,
        count < rounds.len() ==> !(rounds[count as int] is Connection),
    decreases rounds.len(),
{
    if rounds.len() == 0 {
        0
    } else {
        let count = backlog_length(rounds.drop_last());
        assert(forall|i: int|
            0 <= i < rounds.len() - 1 ==> rounds.drop_last()[i] == #[trigger] rounds[i]);
        if count == rounds.len() - 1 && rounds.last() is Connection {
            count + 1
        } else {
            count
        }
    }
}

/// What the surroundings hold for one round of a rejecting pass.
pub enum RejectRound {
    /// A connection is pending.
    Connection,
    /// The listener hands out no connection.
    Failure(ErrorKind),
}

/// The last action of `round`.
pub open spec fn play_reject_round(round: RejectRound) -> RejectAction {
    match reject_transition(RejectEvent::NewRound) {
        RejectAction::Accept => match round {
            RejectRound::Connection => reject_transition(RejectEvent::Accepted),
            RejectRound::Failure(kind) => reject_transition(RejectEvent::AcceptFailed(kind)),
        },
        action => action,
    }
}

/// How many connections the pass over `rounds` closes, and what ends it.
pub open spec fn reject_pass(rounds: Seq<RejectRound>) -> (nat, Option<AcceptEnd>)
    decreases rounds.len(),
{
    if rounds.len() == 0 {
        (0, None)
    } else {
        let (closed, end) = reject_pass(rounds.drop_last());
        if end is Some {
            (closed, end)
        } else {
            match play_reject_round(rounds.last()) {
                RejectAction::DropStream => (closed + 1, None),
                RejectAction::Finish(end) => (closed, Some(end)),
                RejectAction::Accept => (closed, None),
            }
        }
    }
}

/// A rejecting pass closes every connection before the first failure of the
/// listener, and goes no further: none is left waiting in the backlog.
pub proof fn reject_empties_the_backlog(rounds: Seq<RejectRound>, count: nat)
    requires
        count <= rounds.len(),
        forall|i: int| 0 <= i < count ==> (#[trigger] rounds[i]) is Connection,
        count < rounds.len() ==> !(rounds[count as int] is Connection),
    ensures
        reject_pass(rounds) == (
            count,
            if count < rounds.len() {
                match rounds[count as int]->Failure_0 {
                    ErrorKind::WouldBlock => Some(AcceptEnd::Drained),
                    kind => Some(AcceptEnd::Failed(kind)),
                }
            } else {
                None
            },
        ),
    decreases rounds.len(),
{
    if rounds.len() > 0 {
        let shorter_count = if count < rounds.len() {
            count
        } else {
            (count - 1) as nat
        };
        reject_empties_the_backlog(rounds.drop_last(), shorter_count);
    }
}

/// An identifier is spent on every accepted connection and on nothing else: the
/// connection gets the next one, and the one after that is next, up to the largest.
pub proof fn only_accepting_spends_an_identifier(next_client_id: u64, event: AcceptEvent)
    ensures
        ({
            let (id, action) = accept_transition(next_client_id, event);
            &&& event is Accepted <==> action is SetNonblocking
            &&& action is SetNonblocking ==> action->SetNonblocking_client_id == next_client_id
            &&& event is Accepted && next_client_id < u64::MAX ==> id == next_client_id + 1
            &&& !(event is Accepted) || next_client_id == u64::MAX ==> id == next_client_id
        }),
{
}

/// A connection is accepted only right after the quit flag was found clear, and a
/// server that is quitting ends its pass: the flag is read at the start of every round.
pub proof fn accepting_follows_a_clear_quit_flag(next_client_id: u64, event: AcceptEvent)
    ensures
        ({
            let action = accept_transition(next_client_id, event).1;
            &&& action is ReadQuitFlag <==> event is NewRound
            &&& action is Accept <==> event == AcceptEvent::QuitFlag(false)
            &&& action == AcceptAction::Finish(AcceptEnd::Quit) <==> event == AcceptEvent::QuitFlag(
                true,
            )
        }),
{
}

/// A handshake reader starts exactly for the client whose stream was switched to
/// nonblocking mode, and a stream is closed exactly where that failed, under the
/// client's own identifier either way.
pub proof fn reader_starts_exactly_on_a_nonblocking_stream(
    next_client_id: u64,
    event: AcceptEvent,
    client_id: u64,
)
    ensures
        ({
            let action = accept_transition(next_client_id, event).1;
            &&& action == (AcceptAction::StartHandshake { client_id }) <==> event == (
            AcceptEvent::NonblockingSet { client_id, succeeded: true })
            &&& action == (AcceptAction::DropStream { client_id }) <==> event == (
            AcceptEvent::NonblockingSet { client_id, succeeded: false })
        }),
{
}

/// A pass has drained the backlog exactly if the listener would have to wait, and has
/// failed exactly if the listener failed in any other way, with that kind of failure.
/// An accepting and a rejecting pass end alike.
pub proof fn pass_ends_as_the_listener_says(next_client_id: u64, kind: ErrorKind)
    ensures
        ({
            let accepting = accept_transition(next_client_id, AcceptEvent::AcceptFailed(kind)).1;
            let rejecting = reject_transition(RejectEvent::AcceptFailed(kind));
            &&& accepting is Finish && rejecting is Finish
            &&& accepting->Finish_0 == rejecting->Finish_0
            &&& accepting->Finish_0 == AcceptEnd::Drained <==> kind == ErrorKind::WouldBlock
            &&& accepting->Finish_0 == AcceptEnd::Failed(kind) <==> kind != ErrorKind::WouldBlock
        }),
{
}

/// A rejecting pass accepts at the start of every round, closes every connection it
/// accepted, and ends exactly where the listener handed out none.
pub proof fn rejecting_closes_what_it_accepts(event: RejectEvent)
    ensures
        reject_transition(event) is Accept <==> event is NewRound,
        reject_transition(event) is DropStream <==> event is Accepted,
        reject_transition(event) is Finish <==> event is AcceptFailed,
{
}

} // verus!
