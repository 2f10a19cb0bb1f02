//! Setting up a waker's channel and worker.
//!
//! The channel's two ends are made, then both are switched to nonblocking mode, and
//! only then the worker starts. The set-up ends at the first failure. Each stage is
//! a value that says what the caller has to do, and that turns the result into the
//! next stage. A stage other than the first comes only from the one before it. What
//! the set-up comes to is for
//! [`crate::client_accept_waker::ClientAcceptWaker::spawn`].

use vstd::prelude::*;

use crate::error_kind::ErrorKind;

verus! {

/// Make the wake channel: an end to send on and an end to receive on.
#[derive(Debug, PartialEq, Eq)]
#[non_exhaustive]
pub struct CreatePair {}

/// Switch the sending end to nonblocking mode.
#[derive(Debug, PartialEq, Eq)]
#[non_exhaustive]
pub struct UnblockWake<W, R> {
    pub wake: W,
    pub receiver: R,
}

/// Switch the receiving end to nonblocking mode.
#[derive(Debug, PartialEq, Eq)]
#[non_exhaustive]
pub struct UnblockReceiver<W, R> {
    pub wake: W,
    pub receiver: R,
}

/// Start the worker on the receiving end.
#[derive(Debug, PartialEq, Eq)]
#[non_exhaustive]
pub struct StartWorker<W, R> {
    pub wake: W,
    pub receiver: R,
}

/// The worker is being started with the receiving end of [`StartWorker`].
#[derive(Debug, PartialEq, Eq)]
#[non_exhaustive]
pub struct Starting<W> {
    pub wake: W,
}

/// A stage of the set-up. `W` is the channel's sending end, `R` its receiving end,
/// and `J` the worker's handle.
#[derive(Debug, PartialEq, Eq)]
pub enum Setup<W, R, J> {
    CreatePair(CreatePair),
    UnblockWake(UnblockWake<W, R>),
    UnblockReceiver(UnblockReceiver<W, R>),
    StartWorker(StartWorker<W, R>),
    Finished(Result<(W, J), ErrorKind>),
}

/// The stage after the channel was made.
pub open spec fn after_create<W, R, J>(created: Result<(W, R), ErrorKind>) -> Setup<W, R, J> {
    match created {
        Ok((wake, receiver)) => Setup::UnblockWake(UnblockWake { wake, receiver }),
        Err(kind) => Setup::Finished(Err(kind)),
    }
}

/// The stage after the sending end was switched.
pub open spec fn after_unblock_wake<W, R, J>(
    stage: UnblockWake<W, R>,
    unblocked: Result<(), ErrorKind>,
) -> Setup<W, R, J> {
    match unblocked {
        Ok(()) => Setup::UnblockReceiver(
            UnblockReceiver { wake: stage.wake, receiver: stage.receiver },
        ),
        Err(kind) => Setup::Finished(Err(kind)),
    }
}

/// The stage after the receiving end was switched.
pub open spec fn after_unblock_receiver<W, R, J>(
    stage: UnblockReceiver<W, R>,
    unblocked: Result<(), ErrorKind>,
) -> Setup<W, R, J> {
    match unblocked {
        Ok(()) => Setup::StartWorker(StartWorker { wake: stage.wake, receiver: stage.receiver }),
        Err(kind) => Setup::Finished(Err(kind)),
    }
}

/// The stage after the worker was started beside the sending end `wake`.
pub open spec fn after_start<W, R, J>(wake: W, started: Result<J, ErrorKind>) -> Setup<W, R, J> {
    match started {
        Ok(worker) => Setup::Finished(Ok((wake, worker))),
        Err(kind) => Setup::Finished(Err(kind)),
    }
}

/// The first stage of a set-up.
pub fn set_up<W, R, J>() -> (first: Setup<W, R, J>)
    ensures
        first == Setup::<W, R, J>::CreatePair(CreatePair {  }),
{
    Setup::CreatePair(CreatePair {  })
}

impl CreatePair {
    /// Goes on with the channel's two ends.
    pub fn created<W, R, J>(self, created: Result<(W, R), ErrorKind>) -> (next: Setup<W, R, J>)
        ensures
            next == after_create::<W, R, J>(created),
    {
        match created {
            Ok((wake, receiver)) => Setup::UnblockWake(UnblockWake { wake, receiver }),
            Err(kind) => Setup::Finished(Err(kind)),
        }
    }
}

impl<W, R> UnblockWake<W, R> {
    /// Goes on once the sending end is nonblocking.
    pub fn unblocked<J>(self, unblocked: Result<(), ErrorKind>) -> (next: Setup<W, R, J>)
        ensures
            next == after_unblock_wake::<W, R, J>(self, unblocked),
    {
        match unblocked {
            Ok(()) => Setup::UnblockReceiver(
                UnblockReceiver { wake: self.wake, receiver: self.receiver },
            ),
            Err(kind) => Setup::Finished(Err(kind)),
        }
    }
}

impl<W, R> UnblockReceiver<W, R> {
    /// Goes on once the receiving end is nonblocking too.
    pub fn unblocked<J>(self, unblocked: Result<(), ErrorKind>) -> (next: Setup<W, R, J>)
        ensures
            next == after_unblock_receiver::<W, R, J>(self, unblocked),
    {
        match unblocked {
            Ok(()) => Setup::StartWorker(StartWorker { wake: self.wake, receiver: self.receiver }),
            Err(kind) => Setup::Finished(Err(kind)),
        }
    }
}

impl<W, R> StartWorker<W, R> {
    /// Gives the receiving end away, to start the worker with it.
    pub fn take_receiver(self) -> (taken: (Starting<W>, R))
        ensures
            taken.0 == (Starting { wake: self.wake }),
            taken.1 == self.receiver,
    {
        (Starting { wake: self.wake }, self.receiver)
    }
}

impl<W> Starting<W> {
    /// Ends the set-up with the sending end and the worker, or with why there is none.
    pub fn started<R, J>(self, started: Result<J, ErrorKind>) -> (next: Setup<W, R, J>)
        ensures
            next == after_start::<W, R, J>(self.wake, started),
    {
        match started {
            Ok(worker) => Setup::Finished(Ok((self.wake, worker))),
            Err(kind) => Setup::Finished(Err(kind)),
        }
    }
}

/// What the surroundings hold for a set-up.
pub struct SetupAnswers<W, R, J> {
    pub pair: Result<(W, R), ErrorKind>,
    pub wake_unblocked: Result<(), ErrorKind>,
    pub receiver_unblocked: Result<(), ErrorKind>,
    pub worker: Result<J, ErrorKind>,
}

impl<W, R, J> SetupAnswers<W, R, J> {
    /// The stage after `stage`.
    pub open spec fn next(self, stage: Setup<W, R, J>) -> Setup<W, R, J> {
        match stage {
            Setup::CreatePair(_) => after_create(self.pair),
            Setup::UnblockWake(stage) => after_unblock_wake(stage, self.wake_unblocked),
            Setup::UnblockReceiver(stage) => after_unblock_receiver(
                stage,
                self.receiver_unblocked,
            ),
            Setup::StartWorker(stage) => after_start(stage.wake, self.worker),
            Setup::Finished(_) => stage,
        }
    }

    /// The stage that a set-up has reached after `count` answers.
    pub open spec fn reached(self, count: nat) -> Setup<W, R, J>
        decreases count,
    {
        if count == 0 {
            Setup::CreatePair(CreatePair {  })
        } else {
            self.next(self.reached((count - 1) as nat))
        }
    }

    /// What the set-up comes to: the first failure, else the channel's sending end
    /// and the worker.
    pub open spec fn outcome(self) -> Result<(W, J), ErrorKind> {
        if self.pair is Err {
            Err(self.pair->Err_0)
        } else if self.wake_unblocked is Err {
            Err(self.wake_unblocked->Err_0)
        } else if self.receiver_unblocked is Err {
            Err(self.receiver_unblocked->Err_0)
        } else if self.worker is Err {
            Err(self.worker->Err_0)
        } else {
            Ok((self.pair->Ok_0.0, self.worker->Ok_0))
        }
    }
}

/// The worker is started only once both ends of its channel are nonblocking, and it
/// gets the receiving end of the very channel that the waker sends on. So neither a
/// wake nor a receive ever waits.
pub proof fn worker_starts_on_a_nonblocking_channel<W, R, J>(
    answers: SetupAnswers<W, R, J>,
    count: nat,
)
    ensures
        match answers.reached(count) {
            Setup::CreatePair(_) => true,
            Setup::UnblockWake(stage) => answers.pair == Ok::<(W, R), ErrorKind>(
                (stage.wake, stage.receiver),
            ),
            Setup::UnblockReceiver(stage) => {
                &&& answers.pair == Ok::<(W, R), ErrorKind>((stage.wake, stage.receiver))
                &&& answers.wake_unblocked is Ok
            },
            Setup::StartWorker(stage) => {
                &&& answers.pair == Ok::<(W, R), ErrorKind>((stage.wake, stage.receiver))
                &&& answers.wake_unblocked is Ok
                &&& answers.receiver_unblocked is Ok
            },
            Setup::Finished(result) => result == answers.outcome(),
        },
    decreases count,
{
    if count > 0 {
        worker_starts_on_a_nonblocking_channel(answers, (count - 1) as nat);
    }
}

/// A set-up always ends, with its first failure or else with the channel and the
/// worker.
pub proof fn setup_comes_to_its_outcome<W, R, J>(answers: SetupAnswers<W, R, J>, count: nat)
    requires
        count >= 4,
    ensures
        answers.reached(count) == Setup::<W, R, J>::Finished(answers.outcome()),
    decreases count,
{
    if count > 4 {
        setup_comes_to_its_outcome(answers, (count - 1) as nat);
    } else {
        reveal_with_fuel(SetupAnswers::reached, 5);
    }
}

/// A finished set-up tells its first failure, or holds the sending end of the channel
/// that was made and the worker that was started.
pub proof fn finished_setup_tells_its_first_failure<W, R, J>(
    answers: SetupAnswers<W, R, J>,
    count: nat,
)
    ensures
        answers.reached(count) matches Setup::Finished(result) ==> {
            &&& answers.pair is Err ==> result == Err::<(W, J), ErrorKind>(answers.pair->Err_0)
            &&& answers.pair is Ok && answers.wake_unblocked is Err ==> result == Err::<
                (W, J),
                ErrorKind,
            >(answers.wake_unblocked->Err_0)
            &&& answers.pair is Ok && answers.wake_unblocked is Ok
                && answers.receiver_unblocked is Err ==> result == Err::<(W, J), ErrorKind>(
                answers.receiver_unblocked->Err_0,
            )
            &&& answers.pair is Ok && answers.wake_unblocked is Ok && answers.receiver_unblocked is Ok
                ==> match answers.worker {
                Ok(worker) => result == Ok::<(W, J), ErrorKind>((answers.pair->Ok_0.0, worker)),
                Err(kind) => result == Err::<(W, J), ErrorKind>(kind),
            }
        },
{
    worker_starts_on_a_nonblocking_channel(answers, count);
}

/// The worker is started exactly if the channel was made and both its ends could be
/// switched to nonblocking mode, whatever comes of the start.
pub proof fn worker_starts_exactly_if_the_channel_is_ready<W, R, J>(answers: SetupAnswers<W, R, J>)
    ensures
        answers.reached(3) is StartWorker <==> answers.pair is Ok && answers.wake_unblocked is Ok
            && answers.receiver_unblocked is Ok,
{
    reveal_with_fuel(SetupAnswers::reached, 4);
}

} // verus!
