//! Committing a prepared session switch.
//!
//! A commit first makes sure that the source connection is still the one that the
//! preparation started from, then makes the target the active session, and only
//! then lets go of the source and takes up the target. Each stage is a value that
//! says what the caller has to do, and that turns the result into the next stage. A
//! stage other than the first comes only from the one before it.

use vstd::prelude::*;

use crate::session_switch::PreparationAnswers;
use crate::text::joined;

verus! {

/// Look whether the local endpoint still accepts `source_generation`, and whether
/// an endpoint activation is pending.
#[derive(Debug, PartialEq, Eq)]
#[non_exhaustive]
pub struct CheckSource {
    pub session: String,
    pub source_generation: u64,
    pub generation: u64,
}

/// Make `session` the active session.
#[derive(Debug, PartialEq, Eq)]
#[non_exhaustive]
pub struct ActivateSession {
    pub session: String,
    pub source_generation: u64,
    pub generation: u64,
}

/// Detach the local endpoint in the background.
#[derive(Debug, PartialEq, Eq)]
#[non_exhaustive]
pub struct DetachLocal<T> {
    pub session: String,
    pub target: Option<String>,
    pub source_generation: u64,
    pub generation: u64,
    pub now: T,
}

/// Handle the disconnect of `source_generation` from the local endpoint at `now`,
/// for `reason`.
#[derive(Debug, PartialEq, Eq)]
#[non_exhaustive]
pub struct DisconnectLocal<T> {
    pub reason: String,
    pub target: Option<String>,
    pub source_generation: u64,
    pub generation: u64,
    pub now: T,
}

/// Supervise the client socket of `target` as the local endpoint from `now` on,
/// with the connection of `generation`.
#[derive(Debug, PartialEq, Eq)]
#[non_exhaustive]
pub struct SuperviseLocal<T> {
    pub target: Option<String>,
    pub generation: Option<u64>,
    pub now: T,
    pub local_was_active: bool,
}

/// Show the local endpoint as `label` in the shell.
#[derive(Debug, PartialEq, Eq)]
#[non_exhaustive]
pub struct LabelLocal {
    pub label: String,
    pub local_was_active: bool,
}

/// Show the local endpoint as connecting in the shell.
#[derive(Debug, PartialEq, Eq)]
#[non_exhaustive]
pub struct ShowConnecting {
    pub local_was_active: bool,
}

/// A stage of a commit. `T` is a moment in time.
///
/// A finished commit tells whether the local endpoint was the active one, or why
/// nothing was switched.
#[derive(Debug, PartialEq, Eq)]
pub enum Commit<T> {
    CheckSource(CheckSource),
    ActivateSession(ActivateSession),
    DetachLocal(DetachLocal<T>),
    DisconnectLocal(DisconnectLocal<T>),
    SuperviseLocal(SuperviseLocal<T>),
    LabelLocal(LabelLocal),
    ShowConnecting(ShowConnecting),
    Finished(Result<bool, String>),
}

/// A stage of a commit with its texts as characters.
pub enum CommitView<T> {
    CheckSource { session: Seq<char>, source_generation: u64, generation: u64 },
    ActivateSession { session: Seq<char>, source_generation: u64, generation: u64 },
    DetachLocal {
        session: Seq<char>,
        target: Option<Seq<char>>,
        source_generation: u64,
        generation: u64,
        now: T,
    },
    DisconnectLocal {
        reason: Seq<char>,
        target: Option<Seq<char>>,
        source_generation: u64,
        generation: u64,
        now: T,
    },
    SuperviseLocal {
        target: Option<Seq<char>>,
        connection: Option<u64>,
        now: T,
        local_was_active: bool,
    },
    LabelLocal { label: Seq<char>, local_was_active: bool },
    ShowConnecting { local_was_active: bool },
    Finished(Result<bool, Seq<char>>),
}

impl<T> View for Commit<T> {
    type V = CommitView<T>;

    open spec fn view(&self) -> CommitView<T> {
        match *self {
            Commit::CheckSource(stage) => CommitView::CheckSource {
                session: stage.session@,
                source_generation: stage.source_generation,
                generation: stage.generation,
            },
            Commit::ActivateSession(stage) => CommitView::ActivateSession {
                session: stage.session@,
                source_generation: stage.source_generation,
                generation: stage.generation,
            },
            Commit::DetachLocal(stage) => CommitView::DetachLocal {
                session: stage.session@,
                target: crate::text::optional_text(stage.target),
                source_generation: stage.source_generation,
                generation: stage.generation,
                now: stage.now,
            },
            Commit::DisconnectLocal(stage) => CommitView::DisconnectLocal {
                reason: stage.reason@,
                target: crate::text::optional_text(stage.target),
                source_generation: stage.source_generation,
                generation: stage.generation,
                now: stage.now,
            },
            Commit::SuperviseLocal(stage) => CommitView::SuperviseLocal {
                target: crate::text::optional_text(stage.target),
                connection: stage.generation,
                now: stage.now,
                local_was_active: stage.local_was_active,
            },
            Commit::LabelLocal(stage) => CommitView::LabelLocal {
                label: stage.label@,
                local_was_active: stage.local_was_active,
            },
            Commit::ShowConnecting(stage) => CommitView::ShowConnecting {
                local_was_active: stage.local_was_active,
            },
            Commit::Finished(result) => CommitView::Finished(crate::text::result_text(result)),
        }
    }
}

/// The message for a commit whose source is not what it was.
pub open spec fn source_changed() -> Seq<char> {
    "source connection changed while preparing the session; try again"@
}

/// Why the source is disconnected.
pub open spec fn switching_reason(session: Seq<char>) -> Seq<char> {
    "is switching to session "@ + session
}

/// How the local endpoint is shown when it is connected to `target`.
pub open spec fn local_label(target: Option<Seq<char>>) -> Seq<char> {
    match target {
        Some(name) => name,
        None => "Local"@,
    }
}

/// The stage after the source was looked at.
pub open spec fn after_check<T>(
    session: Seq<char>,
    source_generation: u64,
    generation: u64,
    accepts: bool,
    activation_pending: bool,
) -> CommitView<T> {
    if !accepts || activation_pending {
        CommitView::Finished(Err(source_changed()))
    } else {
        CommitView::ActivateSession { session, source_generation, generation }
    }
}

/// The stage after the attempt to make the target the active session.
pub open spec fn after_activation<T>(
    session: Seq<char>,
    source_generation: u64,
    generation: u64,
    activated: Result<(Option<Seq<char>>, T), Seq<char>>,
) -> CommitView<T> {
    match activated {
        Ok((target, now)) => CommitView::DetachLocal {
            session,
            target,
            source_generation,
            generation,
            now,
        },
        Err(message) => CommitView::Finished(Err(message)),
    }
}

/// The stage after the local endpoint was detached.
pub open spec fn after_detach<T>(
    session: Seq<char>,
    target: Option<Seq<char>>,
    source_generation: u64,
    generation: u64,
    now: T,
) -> CommitView<T> {
    CommitView::DisconnectLocal {
        reason: switching_reason(session),
        target,
        source_generation,
        generation,
        now,
    }
}

/// The stage after the disconnect was handled.
pub open spec fn after_disconnect<T>(
    target: Option<Seq<char>>,
    generation: u64,
    now: T,
    local_was_active: bool,
) -> CommitView<T> {
    CommitView::SuperviseLocal { target, connection: Some(generation), now, local_was_active }
}

/// The stage after the target's socket came under supervision.
pub open spec fn after_supervise<T>(
    target: Option<Seq<char>>,
    local_was_active: bool,
    has_shell: bool,
) -> CommitView<T> {
    if has_shell {
        CommitView::LabelLocal { label: local_label(target), local_was_active }
    } else {
        CommitView::Finished(Ok(local_was_active))
    }
}

/// The target and the moment with the target's characters, or the message's.
pub open spec fn activation_text<T>(activated: Result<(Option<String>, T), String>) -> Result<
    (Option<Seq<char>>, T),
    Seq<char>,
> {
    match activated {
        Ok((target, now)) => Ok((crate::text::optional_text(target), now)),
        Err(message) => Err(message@),
    }
}

/// Commits the switch to `session`: its first stage.
///
/// This is for a switch whose target has accepted an inactive shell handshake.
pub fn commit<T>(session: &str, source_generation: u64, generation: u64) -> (first: Commit<T>)
    ensures
        first@ == (CommitView::<T>::CheckSource {
            session: session@,
            source_generation,
            generation,
        }),
        first matches Commit::CheckSource(stage) && stage.session@ == session@
            && stage.source_generation == source_generation && stage.generation == generation,
{
    Commit::CheckSource(
        CheckSource { session: session.to_owned(), source_generation, generation },
    )
}

impl CheckSource {
    /// Goes on only if the source is what it was and no activation is pending.
    pub fn checked<T>(self, accepts: bool, activation_pending: bool) -> (next: Commit<T>)
        ensures
            next@ == after_check::<T>(
                self.session@,
                self.source_generation,
                self.generation,
                accepts,
                activation_pending,
            ),
            accepts && !activation_pending ==> next == Commit::<T>::ActivateSession(
                ActivateSession {
                    session: self.session,
                    source_generation: self.source_generation,
                    generation: self.generation,
                },
            ),
            !accepts || activation_pending ==> (next matches Commit::Finished(Err(message))
                && message@
                == "source connection changed while preparing the session; try again"@),
    {
        if !accepts || activation_pending {
            let message = "source connection changed while preparing the session; try again";
            Commit::Finished(Err(message.to_owned()))
        } else {
            Commit::ActivateSession(
                ActivateSession {
                    session: self.session,
                    source_generation: self.source_generation,
                    generation: self.generation,
                },
            )
        }
    }
}

impl ActivateSession {
    /// Goes on with the target that became the active session, and the moment
    /// after that. Where none did, nothing has been touched.
    pub fn activated<T>(self, activated: Result<(Option<String>, T), String>) -> (next: Commit<T>)
        ensures
            next@ == after_activation(
                self.session@,
                self.source_generation,
                self.generation,
                activation_text(activated),
            ),
            match activated {
                Ok((target, now)) => next == Commit::DetachLocal(
                    DetachLocal {
                        session: self.session,
                        target,
                        source_generation: self.source_generation,
                        generation: self.generation,
                        now,
                    },
                ),
                Err(message) => next == Commit::<T>::Finished(Err(message)),
            },
    {
        match activated {
            Ok((target, now)) => Commit::DetachLocal(
                DetachLocal {
                    session: self.session,
                    target,
                    source_generation: self.source_generation,
                    generation: self.generation,
                    now,
                },
            ),
            Err(message) => Commit::Finished(Err(message)),
        }
    }
}

impl<T> DetachLocal<T> {
    /// Goes on to the disconnect.
    pub fn detached(self) -> (next: Commit<T>)
        ensures
            next@ == after_detach(
                self.session@,
                crate::text::optional_text(self.target),
                self.source_generation,
                self.generation,
                self.now,
            ),
            next matches Commit::DisconnectLocal(stage) && stage.reason@
                == "is switching to session "@ + self.session@ && stage.target == self.target
                && stage.source_generation == self.source_generation && stage.generation
                == self.generation && stage.now == self.now,
    {
        Commit::DisconnectLocal(
            DisconnectLocal {
                reason: joined("is switching to session ", self.session.as_str()),
                target: self.target,
                source_generation: self.source_generation,
                generation: self.generation,
                now: self.now,
            },
        )
    }
}

impl<T> DisconnectLocal<T> {
    /// Goes on with whether the local endpoint was the active one.
    pub fn disconnected(self, local_was_active: bool) -> (next: Commit<T>)
        ensures
            next@ == after_disconnect(
                crate::text::optional_text(self.target),
                self.generation,
                self.now,
                local_was_active,
            ),
            next == Commit::SuperviseLocal(
                SuperviseLocal {
                    target: self.target,
                    generation: Some(self.generation),
                    now: self.now,
                    local_was_active,
                },
            ),
    {
        Commit::SuperviseLocal(
            SuperviseLocal {
                target: self.target,
                generation: Some(self.generation),
                now: self.now,
                local_was_active,
            },
        )
    }
}

impl<T> SuperviseLocal<T> {
    /// Goes on to the shell, where the client has one.
    pub fn supervised(self, has_shell: bool) -> (next: Commit<T>)
        ensures
            next@ == after_supervise::<T>(
                crate::text::optional_text(self.target),
                self.local_was_active,
                has_shell,
            ),
            has_shell ==> (next matches Commit::LabelLocal(stage) && stage.local_was_active
                == self.local_was_active && match self.target {
                Some(name) => stage.label == name,
                None => stage.label@ == "Local"@,
            }),
            !has_shell ==> next == Commit::<T>::Finished(Ok(self.local_was_active)),
    {
        if has_shell {
            let label = match self.target {
                Some(name) => name,
                None => "Local".to_owned(),
            };
            Commit::LabelLocal(LabelLocal { label, local_was_active: self.local_was_active })
        } else {
            Commit::Finished(Ok(self.local_was_active))
        }
    }
}

impl LabelLocal {
    /// Goes on to the endpoint's status.
    pub fn labelled<T>(self) -> (next: Commit<T>)
        ensures
            next@ == (CommitView::<T>::ShowConnecting { local_was_active: self.local_was_active }),
            next == Commit::<T>::ShowConnecting(
                ShowConnecting { local_was_active: self.local_was_active },
            ),
    {
        Commit::ShowConnecting(ShowConnecting { local_was_active: self.local_was_active })
    }
}

impl ShowConnecting {
    /// Ends the commit.
    pub fn shown<T>(self) -> (next: Commit<T>)
        ensures
            next@ == CommitView::<T>::Finished(Ok(self.local_was_active)),
            next == Commit::<T>::Finished(Ok(self.local_was_active)),
    {
        Commit::Finished(Ok(self.local_was_active))
    }
}

/// What the surroundings hold for a commit.
pub struct CommitAnswers<T> {
    /// Whether the local endpoint still accepts the source generation.
    pub accepts: bool,
    /// Whether an endpoint activation is pending.
    pub activation_pending: bool,
    /// The target that became the active session and the moment after that, or why
    /// none did.
    pub activated: Result<(Option<Seq<char>>, T), Seq<char>>,
    /// Whether the local endpoint was the active one.
    pub local_was_active: bool,
    /// Whether the client has a shell.
    pub has_shell: bool,
}

impl<T> CommitAnswers<T> {
    /// The stage after `stage`.
    pub open spec fn next(self, stage: CommitView<T>) -> CommitView<T> {
        match stage {
            CommitView::CheckSource { session, source_generation, generation } => after_check(
                session,
                source_generation,
                generation,
                self.accepts,
                self.activation_pending,
            ),
            CommitView::ActivateSession { session, source_generation, generation } => {
                after_activation(session, source_generation, generation, self.activated)
            },
            CommitView::DetachLocal { session, target, source_generation, generation, now } => {
                after_detach(session, target, source_generation, generation, now)
            },
            CommitView::DisconnectLocal { reason, target, source_generation, generation, now } => {
                after_disconnect(target, generation, now, self.local_was_active)
            },
            CommitView::SuperviseLocal { target, connection, now, local_was_active } => {
                after_supervise(target, local_was_active, self.has_shell)
            },
            CommitView::LabelLocal { label, local_was_active } => CommitView::ShowConnecting {
                local_was_active,
            },
            CommitView::ShowConnecting { local_was_active } => CommitView::Finished(
                Ok(local_was_active),
            ),
            CommitView::Finished(result) => stage,
        }
    }

    /// The stages of a commit that starts with `first`, `first` among them.
    pub open spec fn stages(self, first: CommitView<T>) -> Seq<CommitView<T>>
        decreases stages_left(first),
    {
        if first is Finished {
            seq![first]
        } else {
            seq![first] + self.stages(self.next(first))
        }
    }
}

/// How many stages at most follow `stage`.
pub open spec fn stages_left<T>(stage: CommitView<T>) -> nat {
    match stage {
        CommitView::CheckSource { .. } => 7,
        CommitView::ActivateSession { .. } => 6,
        CommitView::DetachLocal { .. } => 5,
        CommitView::DisconnectLocal { .. } => 4,
        CommitView::SuperviseLocal { .. } => 3,
        CommitView::LabelLocal { .. } => 2,
        CommitView::ShowConnecting { .. } => 1,
        CommitView::Finished(_) => 0,
    }
}

/// A stale switch is refused before anything is done: if the source connection has
/// changed, or an activation is pending, the source is looked at and left as it is.
pub proof fn stale_switch_touches_nothing<T>(
    answers: CommitAnswers<T>,
    session: Seq<char>,
    source_generation: u64,
    generation: u64,
)
    requires
        !answers.accepts || answers.activation_pending,
    ensures
        ({
            let first = CommitView::<T>::CheckSource { session, source_generation, generation };
            answers.stages(first) == seq![
                first,
                CommitView::<T>::Finished(
                    Err("source connection changed while preparing the session; try again"@),
                ),
            ]
        }),
{
    reveal_with_fuel(CommitAnswers::stages, 2);
}

/// A target that cannot become the active session leaves the source as it is, and
/// the commit comes to the reason.
pub proof fn failed_activation_keeps_the_source<T>(
    answers: CommitAnswers<T>,
    session: Seq<char>,
    source_generation: u64,
    generation: u64,
)
    requires
        answers.accepts,
        !answers.activation_pending,
        answers.activated is Err,
    ensures
        ({
            let first = CommitView::<T>::CheckSource { session, source_generation, generation };
            answers.stages(first) == seq![
                first,
                CommitView::<T>::ActivateSession { session, source_generation, generation },
                CommitView::<T>::Finished(Err(answers.activated->Err_0)),
            ]
        }),
{
    reveal_with_fuel(CommitAnswers::stages, 3);
}

/// A commit whose target became the active session lets go of the generation that
/// the switch started from, takes up the generation that was prepared, at the same
/// moment, and then tells the shell, where there is one. It always succeeds.
pub proof fn committed_switch_replaces_the_source<T>(
    answers: CommitAnswers<T>,
    session: Seq<char>,
    source_generation: u64,
    generation: u64,
    target: Option<Seq<char>>,
    now: T,
)
    requires
        answers.accepts,
        !answers.activation_pending,
        answers.activated == Ok::<(Option<Seq<char>>, T), Seq<char>>((target, now)),
    ensures
        ({
            let first = CommitView::<T>::CheckSource { session, source_generation, generation };
            let local_was_active = answers.local_was_active;
            let replaced = seq![
                first,
                CommitView::<T>::ActivateSession { session, source_generation, generation },
                CommitView::<T>::DetachLocal {
                    session,
                    target,
                    source_generation,
                    generation,
                    now,
                },
                CommitView::<T>::DisconnectLocal {
                    reason: "is switching to session "@ + session,
                    target,
                    source_generation,
                    generation,
                    now,
                },
                CommitView::<T>::SuperviseLocal {
                    target,
                    connection: Some(generation),
                    now,
                    local_was_active,
                },
            ];
            let shell = if answers.has_shell {
                seq![
                    CommitView::<T>::LabelLocal {
                        label: match target {
                            Some(name) => name,
                            None => "Local"@,
                        },
                        local_was_active,
                    },
                    CommitView::<T>::ShowConnecting { local_was_active },
                ]
            } else {
                Seq::empty()
            };
            answers.stages(first) == replaced + shell + seq![
                CommitView::<T>::Finished(Ok(local_was_active)),
            ]
        }),
{
    reveal_with_fuel(CommitAnswers::stages, 8);
}

/// The connection that a commit puts under supervision carries the generation
/// under which the preparation of the same switch made it.
pub proof fn supervised_connection_is_the_prepared_one<P, O, E, T>(
    preparation: PreparationAnswers<P, E>,
    answers: CommitAnswers<T>,
    session: Seq<char>,
    cwd: Option<Seq<char>>,
    options: O,
    source_generation: u64,
    generation: u64,
    count: nat,
    i: int,
)
    requires
        preparation.reached(session, cwd, options, generation, count) is Connect,
        ({
            let first = CommitView::<T>::CheckSource { session, source_generation, generation };
            0 <= i < answers.stages(first).len() && answers.stages(first)[i] is SuperviseLocal
        }),
    ensures
        ({
            let first = CommitView::<T>::CheckSource { session, source_generation, generation };
            answers.stages(first)[i]->connection == Some(
                preparation.reached(session, cwd, options, generation, count)->Connect_generation,
            )
        }),
{
    crate::session_switch::stages_build_on_each_other(
        preparation,
        session,
        cwd,
        options,
        generation,
        count,
    );
    if !answers.accepts || answers.activation_pending {
        stale_switch_touches_nothing(answers, session, source_generation, generation);
    } else if answers.activated is Err {
        failed_activation_keeps_the_source(answers, session, source_generation, generation);
    } else {
        let (target, now) = answers.activated->Ok_0;
        committed_switch_replaces_the_source(
            answers,
            session,
            source_generation,
            generation,
            target,
            now,
        );
    }
}

/// The shell shows the local endpoint under the very name of the session that the
/// client was switched to, whatever the name is.
pub proof fn named_target_is_shown_by_its_name<T>(
    answers: CommitAnswers<T>,
    session: Seq<char>,
    source_generation: u64,
    generation: u64,
    name: Seq<char>,
    now: T,
)
    requires
        answers.accepts,
        !answers.activation_pending,
        answers.activated == Ok::<(Option<Seq<char>>, T), Seq<char>>((Some(name), now)),
        answers.has_shell,
    ensures
        ({
            let first = CommitView::<T>::CheckSource { session, source_generation, generation };
            let stages = answers.stages(first);
            &&& stages.len() == 8
            &&& stages[5] is LabelLocal
            &&& stages[5]->label == name
        }),
{
    committed_switch_replaces_the_source(
        answers,
        session,
        source_generation,
        generation,
        Some(name),
        now,
    );
}

/// Two switches are shown alike only if they lead to the same session, unless one of
/// them leads to the default session, which is shown as local.
pub proof fn labels_tell_targets_apart<T>(
    one: Option<Seq<char>>,
    other: Option<Seq<char>>,
    one_was_active: bool,
    other_was_active: bool,
)
    ensures
        ({
            let shown = after_supervise::<T>(one, one_was_active, true);
            let shown_other = after_supervise::<T>(other, other_was_active, true);
            &&& shown is LabelLocal && shown_other is LabelLocal
            &&& one is Some && other is Some ==> (shown->label == shown_other->label <==> one
                == other)
            &&& one is None ==> shown->label == "Local"@
            &&& shown->LabelLocal_local_was_active == one_was_active
        }),
{
}

/// A client without a shell is shown nothing: the commit is over once the target's
/// socket is under supervision.
pub proof fn nothing_is_shown_without_a_shell<T>(target: Option<Seq<char>>, was_active: bool)
    ensures
        after_supervise::<T>(target, was_active, false) == CommitView::<T>::Finished(Ok(was_active)),
{
}

/// What a commit comes to, told by what its surroundings hold: it succeeds exactly if
/// the source is what it was, no activation is pending and the target became the
/// active session, and then it tells whether the local endpoint was the active one.
pub proof fn commit_succeeds_exactly_if_the_target_became_active<T>(
    answers: CommitAnswers<T>,
    session: Seq<char>,
    source_generation: u64,
    generation: u64,
)
    ensures
        ({
            let first = CommitView::<T>::CheckSource { session, source_generation, generation };
            let last = answers.stages(first).last();
            &&& last is Finished
            &&& last == CommitView::<T>::Finished(Ok(answers.local_was_active)) <==> answers.accepts
                && !answers.activation_pending && answers.activated is Ok
            &&& last is Finished && last->Finished_0 is Ok <==> answers.accepts
                && !answers.activation_pending && answers.activated is Ok
        }),
{
    if !answers.accepts || answers.activation_pending {
        stale_switch_touches_nothing(answers, session, source_generation, generation);
    } else if answers.activated is Err {
        failed_activation_keeps_the_source(answers, session, source_generation, generation);
    } else {
        let (target, now) = answers.activated->Ok_0;
        committed_switch_replaces_the_source(
            answers,
            session,
            source_generation,
            generation,
            target,
            now,
        );
    }
}

/// Stages that look alike are alike: the view of a stage leaves out nothing but how
/// its texts are held.
pub proof fn commit_view_tells_stages_apart<T>(one: Commit<T>, other: Commit<T>)
    requires
        one@ == other@,
    ensures
        match (one, other) {
            (Commit::CheckSource(a), Commit::CheckSource(b)) => a.session@ == b.session@
                && a.source_generation == b.source_generation && a.generation == b.generation,
            (Commit::ActivateSession(a), Commit::ActivateSession(b)) => a.session@ == b.session@
                && a.source_generation == b.source_generation && a.generation == b.generation,
            (Commit::DetachLocal(a), Commit::DetachLocal(b)) => a.session@ == b.session@
                && crate::text::same_text(a.target, b.target) && a.source_generation == b.source_generation
                && a.generation == b.generation && a.now == b.now,
            (Commit::DisconnectLocal(a), Commit::DisconnectLocal(b)) => a.reason@ == b.reason@
                && crate::text::same_text(a.target, b.target) && a.source_generation == b.source_generation
                && a.generation == b.generation && a.now == b.now,
            (Commit::SuperviseLocal(a), Commit::SuperviseLocal(b)) => crate::text::same_text(
                a.target,
                b.target,
            ) && a.generation == b.generation && a.now == b.now && a.local_was_active
                == b.local_was_active,
            (Commit::LabelLocal(a), Commit::LabelLocal(b)) => a.label@ == b.label@
                && a.local_was_active == b.local_was_active,
            (Commit::ShowConnecting(a), Commit::ShowConnecting(b)) => a.local_was_active
                == b.local_was_active,
            (Commit::Finished(Ok(a)), Commit::Finished(Ok(b))) => a == b,
            (Commit::Finished(Err(a)), Commit::Finished(Err(b))) => a@ == b@,
            _ => false,
        },
{
}

/// An activation is handed on as it is: its target by the target's characters, its
/// moment unchanged, and a failure by the message's characters.
pub proof fn activation_text_keeps_its_parts<T>(activated: Result<(Option<String>, T), String>)
    ensures
        activated is Ok <==> activation_text(activated) is Ok,
        activated is Ok ==> activation_text(activated)->Ok_0.1 == activated->Ok_0.1,
        activated is Ok ==> (activation_text(activated)->Ok_0.0 is Some
            <==> activated->Ok_0.0 is Some),
        activated is Ok && activated->Ok_0.0 is Some ==> activation_text(
            activated,
        )->Ok_0.0->Some_0 == activated->Ok_0.0->Some_0@,
        activated is Err ==> activation_text(activated)->Err_0 == activated->Err_0@,
{
}

} // verus!
