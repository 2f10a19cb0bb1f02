//! Preparing to move an attached client to another session.
//!
//! A preparation parses the target's name, resolves the requested directory,
//! starts the target's server and connects to it, and ends at the first failure.
//! Each stage is a value that says what the caller has to do, and that turns the
//! result into the next stage. A stage other than the first comes only from the one
//! before it.

use vstd::prelude::*;

use crate::text::joined;

verus! {

/// A finished preparation, ready to be committed or to be reported as failed.
///
/// Preparation owns no live endpoint state. Failed or stale preparations simply
/// drop their inactive connection `E`, leaving the source session usable.
#[derive(Debug, PartialEq, Eq)]
pub struct PreparedSwitch<E> {
    pub session: String,
    pub source_generation: u64,
    pub generation: u64,
    pub result: Result<E, String>,
}

/// What a preparation is for, while its stages run elsewhere.
#[derive(Debug, PartialEq, Eq)]
#[non_exhaustive]
pub struct SwitchTicket {
    pub session: String,
    pub source_generation: u64,
    pub generation: u64,
}

/// Parse `name` as the name of a target session, where the default session has
/// no name of its own.
#[derive(Debug, PartialEq, Eq)]
#[non_exhaustive]
pub struct ParseTarget<O> {
    pub name: String,
    pub cwd: Option<String>,
    pub options: O,
    pub generation: u64,
}

/// Expand a leading tilde in `cwd`, then make the path canonical.
#[derive(Debug, PartialEq, Eq)]
#[non_exhaustive]
pub struct Canonicalize<O> {
    pub target: Option<String>,
    pub cwd: String,
    pub options: O,
    pub generation: u64,
}

/// Look whether `path` is a directory.
#[derive(Debug, PartialEq, Eq)]
#[non_exhaustive]
pub struct CheckDirectory<P, O> {
    pub target: Option<String>,
    pub path: P,
    pub options: O,
    pub generation: u64,
}

/// Have the server of `target` running. A server that has to be started starts in
/// `cwd`, where there is one.
#[derive(Debug, PartialEq, Eq)]
#[non_exhaustive]
pub struct StartServer<P, O> {
    pub target: Option<String>,
    pub cwd: Option<P>,
    pub options: O,
    pub generation: u64,
}

/// Connect to the client socket of `target` as `generation` with `options`, without
/// activating the connection.
#[derive(Debug, PartialEq, Eq)]
#[non_exhaustive]
pub struct Connect<O> {
    pub target: Option<String>,
    pub options: O,
    pub generation: u64,
}

/// A connection that is being made with the options of [`Connect`].
#[derive(Debug, PartialEq, Eq)]
#[non_exhaustive]
pub struct Connecting {
    pub target: Option<String>,
    pub generation: u64,
}

/// A stage of a preparation. `P` is a canonical path, `O` are the options to connect
/// with and `E` is an inactive connection.
#[derive(Debug, PartialEq, Eq)]
pub enum Preparation<P, O, E> {
    ParseTarget(ParseTarget<O>),
    Canonicalize(Canonicalize<O>),
    CheckDirectory(CheckDirectory<P, O>),
    StartServer(StartServer<P, O>),
    Connect(Connect<O>),
    Finished(Result<E, String>),
}

/// A stage of a preparation with its texts as characters.
pub enum PreparationView<P, O, E> {
    ParseTarget { name: Seq<char>, requested: Option<Seq<char>>, options: O, generation: u64 },
    Canonicalize { target: Option<Seq<char>>, cwd: Seq<char>, options: O, generation: u64 },
    CheckDirectory { target: Option<Seq<char>>, path: P, options: O, generation: u64 },
    StartServer { target: Option<Seq<char>>, directory: Option<P>, options: O, generation: u64 },
    Connect { target: Option<Seq<char>>, options: O, generation: u64 },
    Finished(Result<E, Seq<char>>),
}

impl<P, O, E> View for Preparation<P, O, E> {
    type V = PreparationView<P, O, E>;

    open spec fn view(&self) -> PreparationView<P, O, E> {
        match *self {
            Preparation::ParseTarget(stage) => stage.stage(),
            Preparation::Canonicalize(stage) => stage.stage(),
            Preparation::CheckDirectory(stage) => stage.stage(),
            Preparation::StartServer(stage) => stage.stage(),
            Preparation::Connect(stage) => stage.stage(),
            Preparation::Finished(result) => PreparationView::Finished(
                crate::text::result_text(result),
            ),
        }
    }
}

/// A preparation that has ended with `message`.
pub open spec fn failed<P, O, E>(message: Seq<char>) -> PreparationView<P, O, E> {
    PreparationView::Finished(Err(message))
}

/// The message for a path, shown as `shown`, that is no directory.
pub open spec fn not_a_directory(shown: Seq<char>) -> Seq<char> {
    shown + " is not a directory"@
}

/// The message for a preparation that did not run to its end because of `error`.
pub open spec fn task_failed(error: Seq<char>) -> Seq<char> {
    "session preparation task failed: "@ + error
}

/// The stage after the target's name was parsed.
pub open spec fn after_parse<P, O, E>(
    cwd: Option<Seq<char>>,
    options: O,
    generation: u64,
    parsed: Result<Option<Seq<char>>, Seq<char>>,
) -> PreparationView<P, O, E> {
    match (parsed, cwd) {
        (Err(message), _) => failed(message),
        (Ok(target), Some(cwd)) => PreparationView::Canonicalize {
            target,
            cwd,
            options,
            generation,
        },
        (Ok(target), None) => PreparationView::StartServer {
            target,
            directory: None,
            options,
            generation,
        },
    }
}

/// The stage after the directory's path was made canonical.
pub open spec fn after_canonicalize<P, O, E>(
    target: Option<Seq<char>>,
    options: O,
    generation: u64,
    canonical: Result<P, Seq<char>>,
) -> PreparationView<P, O, E> {
    match canonical {
        Err(message) => failed(message),
        Ok(path) => PreparationView::CheckDirectory { target, path, options, generation },
    }
}

/// The stage after `path` was looked at.
pub open spec fn after_check<P, O, E>(
    target: Option<Seq<char>>,
    path: P,
    options: O,
    generation: u64,
    is_directory: bool,
    shown: Seq<char>,
) -> PreparationView<P, O, E> {
    if is_directory {
        PreparationView::StartServer { target, directory: Some(path), options, generation }
    } else {
        failed(not_a_directory(shown))
    }
}

/// The stage after the server was started.
pub open spec fn after_start<P, O, E>(
    target: Option<Seq<char>>,
    options: O,
    generation: u64,
    started: Result<(), Seq<char>>,
) -> PreparationView<P, O, E> {
    match started {
        Err(message) => failed(message),
        Ok(()) => PreparationView::Connect { target, options, generation },
    }
}

/// Prepares the switch of a client to `session`: what it is for, and its first
/// stage.
pub fn prepare<P, O, E>(
    session: String,
    cwd: Option<String>,
    source_generation: u64,
    generation: u64,
    options: O,
) -> (prepared: (SwitchTicket, Preparation<P, O, E>))
    ensures
        prepared.0 == (SwitchTicket { session, source_generation, generation }),
        prepared.1@ == (PreparationView::<P, O, E>::ParseTarget {
            name: session@,
            requested: crate::text::optional_text(cwd),
            options,
            generation,
        }),
        prepared.1 == Preparation::<P, O, E>::ParseTarget(
            ParseTarget { name: session, cwd, options, generation },
        ),
{
    let name = session.clone();
    (
        SwitchTicket { session, source_generation, generation },
        Preparation::ParseTarget(ParseTarget { name, cwd, options, generation }),
    )
}

impl<O> ParseTarget<O> {
    /// This stage with its texts as characters.
    pub open spec fn stage<P, E>(self) -> PreparationView<P, O, E> {
        PreparationView::ParseTarget {
            name: self.name@,
            requested: crate::text::optional_text(self.cwd),
            options: self.options,
            generation: self.generation,
        }
    }

    /// Goes on with the parsed name.
    pub fn parsed<P, E>(self, parsed: Result<Option<String>, String>) -> (next: Preparation<P, O, E>)
        ensures
            next@ == after_parse::<P, O, E>(
                crate::text::optional_text(self.cwd),
                self.options,
                self.generation,
                crate::text::optional_result_text(parsed),
            ),
            match (parsed, self.cwd) {
                (Err(message), _) => next == Preparation::<P, O, E>::Finished(Err(message)),
                (Ok(target), Some(cwd)) => next == Preparation::<P, O, E>::Canonicalize(
                    Canonicalize {
                        target,
                        cwd,
                        options: self.options,
                        generation: self.generation,
                    },
                ),
                (Ok(target), None) => next == Preparation::<P, O, E>::StartServer(
                    StartServer {
                        target,
                        cwd: None,
                        options: self.options,
                        generation: self.generation,
                    },
                ),
            },
    {
        match parsed {
            Err(message) => Preparation::Finished(Err(message)),
            Ok(target) => match self.cwd {
                Some(cwd) => Preparation::Canonicalize(
                    Canonicalize {
                        target,
                        cwd,
                        options: self.options,
                        generation: self.generation,
                    },
                ),
                None => Preparation::StartServer(
                    StartServer {
                        target,
                        cwd: None,
                        options: self.options,
                        generation: self.generation,
                    },
                ),
            },
        }
    }
}

impl<O> Canonicalize<O> {
    /// This stage with its texts as characters.
    pub open spec fn stage<P, E>(self) -> PreparationView<P, O, E> {
        PreparationView::Canonicalize {
            target: crate::text::optional_text(self.target),
            cwd: self.cwd@,
            options: self.options,
            generation: self.generation,
        }
    }

    /// Goes on with the canonical path.
    pub fn canonicalized<P, E>(self, canonical: Result<P, String>) -> (next: Preparation<P, O, E>)
        ensures
            next@ == after_canonicalize::<P, O, E>(
                crate::text::optional_text(self.target),
                self.options,
                self.generation,
                crate::text::result_text(canonical),
            ),
            match canonical {
                Err(message) => next == Preparation::<P, O, E>::Finished(Err(message)),
                Ok(path) => next == Preparation::<P, O, E>::CheckDirectory(
                    CheckDirectory {
                        target: self.target,
                        path,
                        options: self.options,
                        generation: self.generation,
                    },
                ),
            },
    {
        match canonical {
            Err(message) => Preparation::Finished(Err(message)),
            Ok(path) => Preparation::CheckDirectory(
                CheckDirectory {
                    target: self.target,
                    path,
                    options: self.options,
                    generation: self.generation,
                },
            ),
        }
    }
}

impl<P, O> CheckDirectory<P, O> {
    /// This stage with its texts as characters.
    pub open spec fn stage<E>(self) -> PreparationView<P, O, E> {
        PreparationView::CheckDirectory {
            target: crate::text::optional_text(self.target),
            path: self.path,
            options: self.options,
            generation: self.generation,
        }
    }

    /// Goes on only if the path, shown as `shown`, is a directory.
    pub fn checked<E>(self, is_directory: bool, shown: &str) -> (next: Preparation<P, O, E>)
        ensures
            next@ == after_check::<P, O, E>(
                crate::text::optional_text(self.target),
                self.path,
                self.options,
                self.generation,
                is_directory,
                shown@,
            ),
            is_directory ==> next == Preparation::<P, O, E>::StartServer(
                StartServer {
                    target: self.target,
                    cwd: Some(self.path),
                    options: self.options,
                    generation: self.generation,
                },
            ),
            !is_directory ==> (next matches Preparation::Finished(Err(message)) && message@
                == shown@ + " is not a directory"@),
    {
        if is_directory {
            Preparation::StartServer(
                StartServer {
                    target: self.target,
                    cwd: Some(self.path),
                    options: self.options,
                    generation: self.generation,
                },
            )
        } else {
            Preparation::Finished(Err(joined(shown, " is not a directory")))
        }
    }
}

impl<P, O> StartServer<P, O> {
    /// This stage with its texts as characters.
    pub open spec fn stage<E>(self) -> PreparationView<P, O, E> {
        PreparationView::StartServer {
            target: crate::text::optional_text(self.target),
            directory: self.cwd,
            options: self.options,
            generation: self.generation,
        }
    }

    /// Goes on once the server is running.
    pub fn started<E>(self, started: Result<(), String>) -> (next: Preparation<P, O, E>)
        ensures
            next@ == after_start::<P, O, E>(
                crate::text::optional_text(self.target),
                self.options,
                self.generation,
                crate::text::result_text(started),
            ),
            match started {
                Err(message) => next == Preparation::<P, O, E>::Finished(Err(message)),
                Ok(()) => next == Preparation::<P, O, E>::Connect(
                    Connect {
                        target: self.target,
                        options: self.options,
                        generation: self.generation,
                    },
                ),
            },
    {
        match started {
            Err(message) => Preparation::Finished(Err(message)),
            Ok(()) => Preparation::Connect(
                Connect { target: self.target, options: self.options, generation: self.generation },
            ),
        }
    }
}

impl<O> Connect<O> {
    /// This stage with its texts as characters.
    pub open spec fn stage<P, E>(self) -> PreparationView<P, O, E> {
        PreparationView::Connect {
            target: crate::text::optional_text(self.target),
            options: self.options,
            generation: self.generation,
        }
    }

    /// Gives the options away, to connect with them.
    pub fn take_options(self) -> (taken: (Connecting, O))
        ensures
            taken.0 == (Connecting { target: self.target, generation: self.generation }),
            taken.1 == self.options,
    {
        (Connecting { target: self.target, generation: self.generation }, self.options)
    }
}

impl Connecting {
    /// Ends the preparation with the connection, or with why there is none.
    pub fn connected<P, O, E>(self, connected: Result<E, String>) -> (next: Preparation<P, O, E>)
        ensures
            next == Preparation::<P, O, E>::Finished(connected),
    {
        Preparation::Finished(connected)
    }
}

impl SwitchTicket {
    /// The prepared switch, once the task that ran the stages has been joined. A
    /// task that did not run to its end is a failed preparation.
    pub fn finish<E>(self, task: Result<Result<E, String>, String>) -> (prepared: PreparedSwitch<E>)
        ensures
            prepared.session == self.session,
            prepared.source_generation == self.source_generation,
            prepared.generation == self.generation,
            match task {
                Ok(result) => prepared.result == result,
                Err(error) => crate::text::result_text(prepared.result) == Err::<E, Seq<char>>(
                    task_failed(error@),
                ),
            },
            task is Err ==> (prepared.result matches Err(message) && message@
                == "session preparation task failed: "@ + task->Err_0@),
    {
        let result = match task {
            Ok(result) => result,
            Err(error) => Err(joined("session preparation task failed: ", error.as_str())),
        };
        PreparedSwitch {
            session: self.session,
            source_generation: self.source_generation,
            generation: self.generation,
            result,
        }
    }
}

/// What the surroundings hold for a preparation.
pub struct PreparationAnswers<P, E> {
    pub target: Result<Option<Seq<char>>, Seq<char>>,
    pub canonical: Result<P, Seq<char>>,
    pub is_directory: bool,
    pub shown: Seq<char>,
    pub server: Result<(), Seq<char>>,
    pub connection: Result<E, Seq<char>>,
}

impl<P, E> PreparationAnswers<P, E> {
    /// The stage after `stage`.
    pub open spec fn next<O>(self, stage: PreparationView<P, O, E>) -> PreparationView<P, O, E> {
        match stage {
            PreparationView::ParseTarget { name, requested, options, generation } => after_parse(
                requested,
                options,
                generation,
                self.target,
            ),
            PreparationView::Canonicalize { target, cwd, options, generation } => after_canonicalize(
                target,
                options,
                generation,
                self.canonical,
            ),
            PreparationView::CheckDirectory { target, path, options, generation } => after_check(
                target,
                path,
                options,
                generation,
                self.is_directory,
                self.shown,
            ),
            PreparationView::StartServer { target, directory, options, generation } => after_start(
                target,
                options,
                generation,
                self.server,
            ),
            PreparationView::Connect { target, options, generation } => PreparationView::Finished(
                self.connection,
            ),
            PreparationView::Finished(result) => stage,
        }
    }

    /// The stage that the preparation of a switch to `name` has reached after
    /// `count` answers.
    pub open spec fn reached<O>(
        self,
        name: Seq<char>,
        cwd: Option<Seq<char>>,
        options: O,
        generation: u64,
        count: nat,
    ) -> PreparationView<P, O, E>
        decreases count,
    {
        if count == 0 {
            PreparationView::ParseTarget { name, requested: cwd, options, generation }
        } else {
            self.next(self.reached(name, cwd, options, generation, (count - 1) as nat))
        }
    }

    /// Why the requested directory cannot be used, if it cannot.
    pub open spec fn directory_failure(self) -> Option<Seq<char>> {
        match self.canonical {
            Err(message) => Some(message),
            Ok(_) => if self.is_directory {
                None
            } else {
                Some(not_a_directory(self.shown))
            },
        }
    }

    /// What the preparation comes to: the first failure, else the connection. The
    /// directory matters only where one was requested.
    pub open spec fn outcome(self, cwd: Option<Seq<char>>) -> Result<E, Seq<char>> {
        if self.target is Err {
            Err(self.target->Err_0)
        } else if cwd is Some && self.directory_failure() is Some {
            Err(self.directory_failure()->Some_0)
        } else if self.server is Err {
            Err(self.server->Err_0)
        } else {
            self.connection
        }
    }
}

/// A preparation always ends, with the first failure of its stages or else with
/// the connection.
pub proof fn preparation_comes_to_its_outcome<P, O, E>(
    answers: PreparationAnswers<P, E>,
    name: Seq<char>,
    cwd: Option<Seq<char>>,
    options: O,
    generation: u64,
    count: nat,
)
    requires
        count >= 5,
    ensures
        answers.reached(name, cwd, options, generation, count) == PreparationView::<
            P,
            O,
            E,
        >::Finished(answers.outcome(cwd)),
    decreases count,
{
    if count > 5 {
        preparation_comes_to_its_outcome(
            answers,
            name,
            cwd,
            options,
            generation,
            (count - 1) as nat,
        );
    } else {
        reveal_with_fuel(PreparationAnswers::reached, 6);
    }
}

/// A stage that does anything is reached only after every earlier stage did its
/// part: a server is started only for a target whose name is good, and only in a
/// directory that is there; a connection is made only to a server that was
/// started, with the options and under the generation that the switch was given.
pub proof fn stages_build_on_each_other<P, O, E>(
    answers: PreparationAnswers<P, E>,
    name: Seq<char>,
    cwd: Option<Seq<char>>,
    options: O,
    generation: u64,
    count: nat,
)
    ensures
        match answers.reached(name, cwd, options, generation, count) {
            PreparationView::ParseTarget { name: n, requested: c, options: o, generation: g } => {
                &&& n == name
                &&& c == cwd
                &&& g == generation
                &&& o == options
            },
            PreparationView::Canonicalize { target: t, cwd: c, options: o, generation: g } => {
                &&& answers.target == Ok::<Option<Seq<char>>, Seq<char>>(t)
                &&& cwd == Some(c)
                &&& g == generation
                &&& o == options
            },
            PreparationView::CheckDirectory { target: t, path, options: o, generation: g } => {
                &&& answers.target == Ok::<Option<Seq<char>>, Seq<char>>(t)
                &&& cwd is Some
                &&& answers.canonical == Ok::<P, Seq<char>>(path)
                &&& g == generation
                &&& o == options
            },
            PreparationView::StartServer { target: t, directory: c, options: o, generation: g } => {
                &&& answers.target == Ok::<Option<Seq<char>>, Seq<char>>(t)
                &&& c is Some <==> cwd is Some
                &&& c is Some ==> answers.canonical == Ok::<P, Seq<char>>(c->Some_0)
                    && answers.is_directory
                &&& g == generation
                &&& o == options
            },
            PreparationView::Connect { target: t, options: o, generation: g } => {
                &&& answers.target == Ok::<Option<Seq<char>>, Seq<char>>(t)
                &&& cwd is Some ==> answers.canonical is Ok && answers.is_directory
                &&& answers.server is Ok
                &&& g == generation
                &&& o == options
            },
            PreparationView::Finished(result) => result == answers.outcome(cwd),
        },
    decreases count,
{
    if count > 0 {
        stages_build_on_each_other(answers, name, cwd, options, generation, (count - 1) as nat);
    }
}

/// A finished preparation tells why it failed, or holds the connection: the message
/// is that of the first stage that failed, character by character, and the connection
/// is the one that was made.
pub proof fn finished_preparation_tells_its_first_failure<P, O, E>(
    answers: PreparationAnswers<P, E>,
    name: Seq<char>,
    cwd: Option<Seq<char>>,
    options: O,
    generation: u64,
    count: nat,
)
    ensures
        answers.reached(name, cwd, options, generation, count) matches PreparationView::Finished(
            result,
        ) ==> {
            let directory_good = cwd is None || (answers.canonical is Ok && answers.is_directory);
            &&& answers.target is Err ==> result == Err::<E, Seq<char>>(answers.target->Err_0)
            &&& answers.target is Ok && cwd is Some && answers.canonical is Err ==> result == Err::<
                E,
                Seq<char>,
            >(answers.canonical->Err_0)
            &&& answers.target is Ok && cwd is Some && answers.canonical is Ok
                && !answers.is_directory ==> result == Err::<E, Seq<char>>(
                answers.shown + " is not a directory"@,
            )
            &&& answers.target is Ok && directory_good && answers.server is Err ==> result == Err::<
                E,
                Seq<char>,
            >(answers.server->Err_0)
            &&& answers.target is Ok && directory_good && answers.server is Ok ==> result
                == answers.connection
        },
{
    stages_build_on_each_other(answers, name, cwd, options, generation, count);
}

/// A preparation connects if and only if its target has a good name, its directory,
/// where one was requested, is there, and its server runs.
pub proof fn preparation_connects_exactly_if_all_is_ready<P, O, E>(
    answers: PreparationAnswers<P, E>,
    name: Seq<char>,
    cwd: Option<Seq<char>>,
    options: O,
    generation: u64,
)
    ensures
        ({
            let last = if cwd is Some {
                4nat
            } else {
                2nat
            };
            answers.reached(name, cwd, options, generation, last) is Connect <==> {
                &&& answers.target is Ok
                &&& cwd is Some ==> answers.canonical is Ok && answers.is_directory
                &&& answers.server is Ok
            }
        }),
{
    reveal_with_fuel(PreparationAnswers::reached, 5);
}

/// The message for a path that is no directory is the path as it is shown, then the
/// same words for every path; so it names the path.
pub proof fn directory_message_names_the_path(shown: Seq<char>)
    ensures
        not_a_directory(shown) == shown + " is not a directory"@,
        not_a_directory(shown).take(shown.len() as int) == shown,
{
    assert(not_a_directory(shown).take(shown.len() as int) =~= shown);
}

/// The message for a lost task ends with the whole error.
pub proof fn task_message_holds_the_error(error: Seq<char>)
    ensures
        task_failed(error) == "session preparation task failed: "@ + error,
        task_failed(error).skip("session preparation task failed: "@.len() as int) == error,
{
    assert(task_failed(error).skip("session preparation task failed: "@.len() as int) =~= error);
}

/// Stages that look alike are alike: the view of a stage leaves out nothing but how
/// its texts are held.
pub proof fn preparation_view_tells_stages_apart<P, O, E>(
    one: Preparation<P, O, E>,
    other: Preparation<P, O, E>,
)
    requires
        one@ == other@,
    ensures
        match (one, other) {
            (Preparation::ParseTarget(a), Preparation::ParseTarget(b)) => a.name@ == b.name@
                && crate::text::same_text(a.cwd, b.cwd) && a.options == b.options && a.generation
                == b.generation,
            (Preparation::Canonicalize(a), Preparation::Canonicalize(b)) => crate::text::same_text(
                a.target,
                b.target,
            ) && a.cwd@ == b.cwd@ && a.options == b.options && a.generation == b.generation,
            (Preparation::CheckDirectory(a), Preparation::CheckDirectory(b)) => crate::text::same_text(
                a.target,
                b.target,
            ) && a.path == b.path && a.options == b.options && a.generation == b.generation,
            (Preparation::StartServer(a), Preparation::StartServer(b)) => crate::text::same_text(
                a.target,
                b.target,
            ) && a.cwd == b.cwd && a.options == b.options && a.generation == b.generation,
            (Preparation::Connect(a), Preparation::Connect(b)) => crate::text::same_text(a.target, b.target)
                && a.options == b.options && a.generation == b.generation,
            (Preparation::Finished(Ok(a)), Preparation::Finished(Ok(b))) => a == b,
            (Preparation::Finished(Err(a)), Preparation::Finished(Err(b))) => a@ == b@,
            _ => false,
        },
{
}

} // verus!
