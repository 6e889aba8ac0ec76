//! One job from its start to its end, as a conversation: the session asks
//! for one action at a time, and the caller answers with what came of it.
//!
//! The session decides; the caller performs. Nothing in here waits, spawns
//! or writes.
//!
//! A streamed job says `New`, launches the process with its output
//! captured, and watches it. Every line is logged. A cancellation asks for
//! the kill and counts as a normal end. An exit is logged too; a bad one
//! ends the job with `Fail`. A good end is `Adv` and `Succ`. A launch that
//! fails ends the job with `Fail`.
//!
//! A blocking job takes the permit of the blocker, hands the terminal over,
//! launches the process and waits for it. A launch that fails and a bad
//! exit are shown as warnings; the job still ends with `Succ`. Before that,
//! on every path, the terminal is taken back and the permit is given back,
//! in that order.
//!
//! An orphan job launches the process and says `Succ`. Where the launch
//! fails it says `New` and `Fail`.
//!
//! A message that the channel does not take ends any job at once.

use crate::op::{ExitStatus, Mode, ProcessOpOpen, ProcessOpOpenView, ShellOpt, ShellOptView};
use crate::prog::{TaskProg, TaskProgView};
use crate::text::{
    exit_line, exit_line_text, exit_warning, exit_warning_text, process_failed,
    process_failed_text, spawn_failure, spawn_failure_text,
};
use vstd::prelude::*;

verus! {

/// Why a job ended without its work reported.
#[derive(Debug, Clone, PartialEq, Eq)]
pub enum ProcessError {
    /// The consumer of the progress channel is gone.
    Closed,
    /// Waiting for the process failed, for the given reason.
    Wait(String),
}

/// A [`ProcessError`] as a mathematical value.
pub enum ProcessErrorView {
    Closed,
    Wait(Seq<char>),
}

impl View for ProcessError {
    type V = ProcessErrorView;

    open spec fn view(&self) -> ProcessErrorView {
        match self {
            ProcessError::Closed => ProcessErrorView::Closed,
            ProcessError::Wait(reason) => ProcessErrorView::Wait(reason@),
        }
    }
}

impl ProcessErrorView {
    /// The error in words.
    pub open spec fn message(self) -> Seq<char> {
        match self {
            ProcessErrorView::Closed => "channel closed"@,
            ProcessErrorView::Wait(reason) => reason,
        }
    }
}

impl ProcessError {
    /// The error in words: the reason of a failed wait as it was given, and
    /// a fixed notice for a closed channel.
    pub fn message(&self) -> (text: String)
        ensures
            text@ == self@.message(),
    {
        match self {
            ProcessError::Closed => String::from_str("channel closed"),
            ProcessError::Wait(reason) => reason.clone(),
        }
    }
}

/// What the session asks its caller to do next.
#[derive(Debug, PartialEq, Eq)]
pub enum Action {
    /// Put the message on the progress channel.
    Send(TaskProg),
    /// Launch the process.
    Spawn(ShellOpt),
    /// Wait for whichever comes first: the cancellation, a line of output,
    /// or the exit of the process.
    Watch,
    /// Ask the process to die. Best effort: the answer does not matter.
    Kill,
    /// Take the permit of the blocker.
    Acquire,
    /// Hand the terminal to the process.
    Suspend,
    /// Wait for the process to exit.
    Wait,
    /// Show a warning with this title and this body.
    Warn(String, String),
    /// Take the terminal back.
    Resume,
    /// Give the permit back.
    Release,
    /// The job is over, with this result.
    Finish(Result<(), ProcessError>),
}

/// An [`Action`] as a mathematical value.
pub enum ActionView {
    Send(TaskProgView),
    Spawn(ShellOptView),
    Watch,
    Kill,
    Acquire,
    Suspend,
    Wait,
    Warn(Seq<char>, Seq<char>),
    Resume,
    Release,
    Finish(Result<(), ProcessErrorView>),
}

impl View for Action {
    type V = ActionView;

    open spec fn view(&self) -> ActionView {
        match self {
            Action::Send(msg) => ActionView::Send(msg@),
            Action::Spawn(opt) => ActionView::Spawn(opt@),
            Action::Watch => ActionView::Watch,
            Action::Kill => ActionView::Kill,
            Action::Acquire => ActionView::Acquire,
            Action::Suspend => ActionView::Suspend,
            Action::Wait => ActionView::Wait,
            Action::Warn(title, body) => ActionView::Warn(title@, body@),
            Action::Resume => ActionView::Resume,
            Action::Release => ActionView::Release,
            Action::Finish(Ok(())) => ActionView::Finish(Ok(())),
            Action::Finish(Err(e)) => ActionView::Finish(Err(e@)),
        }
    }
}

/// What came of the action that the session asked for.
#[derive(Debug, Clone, PartialEq, Eq)]
pub enum Event {
    /// The action was carried out.
    Done,
    /// The action failed, for the given reason.
    Failed(String),
    /// While watching: the job was cancelled.
    Cancelled,
    /// While watching: the process wrote a line.
    Line(String),
    /// While watching or waiting: the process exited.
    Exited(ExitStatus),
}

/// An [`Event`] as a mathematical value.
pub enum EventView {
    Done,
    Failed(Seq<char>),
    Cancelled,
    Line(Seq<char>),
    Exited(ExitStatus),
}

impl View for Event {
    type V = EventView;

    open spec fn view(&self) -> EventView {
        match self {
            Event::Done => EventView::Done,
            Event::Failed(reason) => EventView::Failed(reason@),
            Event::Cancelled => EventView::Cancelled,
            Event::Line(line) => EventView::Line(line@),
            Event::Exited(status) => EventView::Exited(*status),
        }
    }
}

/// Where a session stands: each phase but the last awaits the answer to one
/// action.
#[derive(Debug, Clone, Copy, PartialEq, Eq)]
pub enum Phase {
    /// Streamed: `New` is on its way.
    Announcing,
    /// The launch was asked for.
    Spawning,
    /// Streamed: waiting for a line, the exit or the cancellation.
    Watching,
    /// Streamed: a line of output is on its way.
    Logging,
    /// Streamed, cancelled: the kill was asked for.
    Killing,
    /// Streamed: the line about the exit is on its way.
    Reporting { success: bool },
    /// Streamed: `Adv` is on its way.
    Advancing,
    /// `Succ` is on its way.
    Succeeding,
    /// Orphan, not launched: `New` is on its way, `Fail` comes next.
    Blaming,
    /// `Fail` is on its way.
    Failing,
    /// Blocking: the permit was asked for.
    Acquiring,
    /// Blocking: the terminal is being handed over.
    Suspending,
    /// Blocking: waiting for the exit.
    Waiting,
    /// Blocking: a warning is being shown.
    Warning,
    /// Blocking: the terminal is being taken back.
    Resuming { failed: bool },
    /// Blocking: the permit is being given back.
    Releasing { failed: bool },
    /// The job is over.
    Finished,
}

impl Phase {
    /// The most messages that can still follow one another from here
    /// without anything else in between.
    pub open spec fn sends_left(self) -> nat {
        match self {
            Phase::Reporting { .. } => 3,
            Phase::Advancing => 2,
            Phase::Blaming => 2,
            Phase::Announcing => 1,
            Phase::Logging => 1,
            Phase::Succeeding => 1,
            Phase::Failing => 1,
            _ => 0,
        }
    }
}

/// A session as a mathematical value.
pub struct SessionView {
    /// The job, which never changes.
    pub job: ProcessOpOpenView,
    pub phase: Phase,
    /// The reason of a failure that is still to be reported.
    pub reason: Seq<char>,
}

impl SessionView {
    /// The session with another phase.
    pub open spec fn at(self, phase: Phase) -> SessionView {
        SessionView { phase, ..self }
    }

    /// The session with another phase, and a reason kept for later.
    pub open spec fn blamed(self, phase: Phase, reason: Seq<char>) -> SessionView {
        SessionView { phase, reason, ..self }
    }

    /// The session waits for the blocker: only the blocker can answer.
    pub open spec fn at_blocker(self) -> bool {
        self.phase is Acquiring || self.phase is Releasing
    }

    /// The session holds the permit of the blocker.
    pub open spec fn holds_permit(self) -> bool {
        self.job.mode() == Mode::Block && (self.phase is Suspending || self.phase is Spawning
            || self.phase is Waiting || self.phase is Warning || self.phase is Resuming
            || self.phase is Releasing)
    }

    /// The terminal is with the process of this session: the handover was
    /// asked for, and the terminal has not been taken back yet.
    pub open spec fn on_terminal(self) -> bool {
        self.job.mode() == Mode::Block && (self.phase is Suspending || self.phase is Spawning
            || self.phase is Waiting || self.phase is Warning || self.phase is Resuming)
    }

    /// The answer to a message that could not be delivered: the job ends
    /// at once.
    pub open spec fn closed(self) -> (SessionView, ActionView) {
        (self.at(Phase::Finished), ActionView::Finish(Err(ProcessErrorView::Closed)))
    }

    /// The message that ends the job well.
    pub open spec fn succ(self) -> (SessionView, ActionView) {
        (self.at(Phase::Succeeding), ActionView::Send(TaskProgView::Succ(self.job.id)))
    }

    /// The message that ends the job badly.
    pub open spec fn fail(self, reason: Seq<char>) -> (SessionView, ActionView) {
        (self.at(Phase::Failing), ActionView::Send(TaskProgView::Fail(self.job.id, reason)))
    }

    /// The one unit of work of a process job is done.
    pub open spec fn adv(self) -> (SessionView, ActionView) {
        (self.at(Phase::Advancing), ActionView::Send(TaskProgView::Adv(self.job.id, 1, 0)))
    }

    /// The first step of a job, by its mode.
    pub open spec fn opened(job: ProcessOpOpenView) -> (SessionView, ActionView) {
        let fresh = SessionView { job, phase: Phase::Finished, reason: Seq::empty() };
        match job.mode() {
            Mode::Block => (fresh.at(Phase::Acquiring), ActionView::Acquire),
            Mode::Orphan => (fresh.at(Phase::Spawning), ActionView::Spawn(job.shell())),
            Mode::Stream => (
                fresh.at(Phase::Announcing),
                ActionView::Send(TaskProgView::New(job.id, 0)),
            ),
        }
    }

    /// What follows the launch, by the mode of the job.
    pub open spec fn spawned(self) -> (SessionView, ActionView) {
        match self.job.mode() {
            Mode::Block => (self.at(Phase::Waiting), ActionView::Wait),
            Mode::Orphan => self.succ(),
            Mode::Stream => (self.at(Phase::Watching), ActionView::Watch),
        }
    }

    /// What follows a launch that failed, by the mode of the job. A
    /// blocking job only warns. An orphan job has not announced itself yet,
    /// so `New` goes first and the reason is kept for the `Fail` after it.
    pub open spec fn not_spawned(self, reason: Seq<char>) -> (SessionView, ActionView) {
        match self.job.mode() {
            Mode::Block => (
                self.at(Phase::Warning),
                ActionView::Warn(self.job.cmd, spawn_failure(reason)),
            ),
            Mode::Orphan => (
                self.blamed(Phase::Blaming, reason),
                ActionView::Send(TaskProgView::New(self.job.id, 0)),
            ),
            Mode::Stream => self.fail(spawn_failure(reason)),
        }
    }

    /// The next state and the next action, where the event answers what the
    /// session is waiting for; `None` where it does not.
    pub open spec fn next(self, event: EventView) -> Option<(SessionView, ActionView)> {
        match (self.phase, event) {
            (Phase::Announcing, EventView::Done) => Some(
                (self.at(Phase::Spawning), ActionView::Spawn(self.job.shell())),
            ),
            (Phase::Announcing, EventView::Failed(_)) => Some(self.closed()),
            (Phase::Spawning, EventView::Done) => Some(self.spawned()),
            (Phase::Spawning, EventView::Failed(reason)) => Some(self.not_spawned(reason)),
            (Phase::Watching, EventView::Cancelled) => Some(
                (self.at(Phase::Killing), ActionView::Kill),
            ),
            (Phase::Watching, EventView::Line(line)) => Some(
                (self.at(Phase::Logging), ActionView::Send(TaskProgView::Log(self.job.id, line))),
            ),
            (Phase::Watching, EventView::Exited(status)) => Some(
                (
                    self.at(Phase::Reporting { success: status.success }),
                    ActionView::Send(TaskProgView::Log(self.job.id, exit_line(status.code))),
                ),
            ),
            (Phase::Logging, EventView::Done) => Some((self.at(Phase::Watching), ActionView::Watch)),
            (Phase::Logging, EventView::Failed(_)) => Some(self.closed()),
            (Phase::Killing, EventView::Done) => Some(self.adv()),
            (Phase::Killing, EventView::Failed(_)) => Some(self.adv()),
            (Phase::Reporting { success }, EventView::Done) => Some(
                if success {
                    self.adv()
                } else {
                    self.fail(process_failed())
                },
            ),
            (Phase::Reporting { .. }, EventView::Failed(_)) => Some(self.closed()),
            (Phase::Advancing, EventView::Done) => Some(self.succ()),
            (Phase::Advancing, EventView::Failed(_)) => Some(self.closed()),
            (Phase::Succeeding, EventView::Done) => Some(
                (self.at(Phase::Finished), ActionView::Finish(Ok(()))),
            ),
            (Phase::Succeeding, EventView::Failed(_)) => Some(self.closed()),
            (Phase::Blaming, EventView::Done) => Some(self.fail(spawn_failure(self.reason))),
            (Phase::Blaming, EventView::Failed(_)) => Some(self.closed()),
            (Phase::Failing, EventView::Done) => Some(
                (self.at(Phase::Finished), ActionView::Finish(Ok(()))),
            ),
            (Phase::Failing, EventView::Failed(_)) => Some(self.closed()),
            (Phase::Acquiring, EventView::Done) => Some(
                (self.at(Phase::Suspending), ActionView::Suspend),
            ),
            (Phase::Suspending, EventView::Done) => Some(
                (self.at(Phase::Spawning), ActionView::Spawn(self.job.shell())),
            ),
            (Phase::Waiting, EventView::Exited(status)) => Some(
                if status.success {
                    (self.at(Phase::Resuming { failed: false }), ActionView::Resume)
                } else {
                    (
                        self.at(Phase::Warning),
                        ActionView::Warn(self.job.cmd, exit_warning(status.code)),
                    )
                },
            ),
            (Phase::Waiting, EventView::Failed(reason)) => Some(
                (self.blamed(Phase::Resuming { failed: true }, reason), ActionView::Resume),
            ),
            (Phase::Warning, EventView::Done) => Some(
                (self.at(Phase::Resuming { failed: false }), ActionView::Resume),
            ),
            (Phase::Resuming { failed }, EventView::Done) => Some(
                (self.at(Phase::Releasing { failed }), ActionView::Release),
            ),
            (Phase::Releasing { failed }, EventView::Done) => Some(
                if failed {
                    (
                        self.at(Phase::Finished),
                        ActionView::Finish(Err(ProcessErrorView::Wait(self.reason))),
                    )
                } else {
                    self.succ()
                },
            ),
            _ => None,
        }
    }

    /// The action is the one that the session waits the answer for. The
    /// text of a line, of a reason or of a warning is left open.
    pub open spec fn awaits(self, action: ActionView) -> bool {
        match self.phase {
            Phase::Announcing => action == ActionView::Send(TaskProgView::New(self.job.id, 0)),
            Phase::Spawning => action == ActionView::Spawn(self.job.shell()),
            Phase::Watching => action is Watch,
            Phase::Logging => action matches ActionView::Send(TaskProgView::Log(id, _))
                && id == self.job.id,
            Phase::Killing => action is Kill,
            Phase::Reporting { .. } => action matches ActionView::Send(TaskProgView::Log(id, _))
                && id == self.job.id,
            Phase::Advancing => action == ActionView::Send(TaskProgView::Adv(self.job.id, 1, 0)),
            Phase::Succeeding => action == ActionView::Send(TaskProgView::Succ(self.job.id)),
            Phase::Blaming => action == ActionView::Send(TaskProgView::New(self.job.id, 0)),
            Phase::Failing => action matches ActionView::Send(TaskProgView::Fail(id, _))
                && id == self.job.id,
            Phase::Acquiring => action is Acquire,
            Phase::Suspending => action is Suspend,
            Phase::Waiting => action is Wait,
            Phase::Warning => action matches ActionView::Warn(title, _) && title == self.job.cmd,
            Phase::Resuming { .. } => action is Resume,
            Phase::Releasing { .. } => action is Release,
            Phase::Finished => action is Finish,
        }
    }

    /// The event answers what the session is waiting for.
    pub open spec fn accepts(self, event: EventView) -> bool {
        self.next(event) is Some
    }
}

/// Every action that a session hands out is the one that its new phase
/// waits the answer for.
pub proof fn lemma_next_awaits(s: SessionView, event: EventView)
    requires
        s.accepts(event),
    ensures
        s.next(event).unwrap().0.awaits(s.next(event).unwrap().1),
{
}

/// One job in progress.
pub struct Session {
    job: ProcessOpOpen,
    phase: Phase,
    reason: String,
}

impl View for Session {
    type V = SessionView;

    closed spec fn view(&self) -> SessionView {
        SessionView { job: self.job@, phase: self.phase, reason: self.reason@ }
    }
}

impl Session {
    /// Starts a job: the session, and the first action that it asks for.
    pub fn open(job: ProcessOpOpen) -> (started: (Session, Action))
        ensures
            (started.0@, started.1@) == SessionView::opened(job@),
    {
        let mode = job.mode();
        match mode {
            Mode::Block => (
                Session { job, phase: Phase::Acquiring, reason: String::new() },
                Action::Acquire,
            ),
            Mode::Orphan => {
                let opt = job.shell();
                (Session { job, phase: Phase::Spawning, reason: String::new() }, Action::Spawn(opt))
            },
            Mode::Stream => {
                let id = job.id;
                (
                    Session { job, phase: Phase::Announcing, reason: String::new() },
                    Action::Send(TaskProg::New(id, 0)),
                )
            },
        }
    }

    /// The task identifier of the job.
    pub fn id(&self) -> (id: usize)
        ensures
            id == self@.job.id,
    {
        self.job.id
    }

    /// The job that this session runs.
    pub fn job(&self) -> (job: &ProcessOpOpen)
        ensures
            job@ == self@.job,
    {
        &self.job
    }

    /// Where the session stands.
    pub fn phase(&self) -> (phase: Phase)
        ensures
            phase == self@.phase,
    {
        self.phase
    }

    /// Whether the job is over.
    pub fn is_finished(&self) -> (finished: bool)
        ensures
            finished == (self@.phase is Finished),
    {
        match self.phase {
            Phase::Finished => true,
            _ => false,
        }
    }

    /// Whether the session holds the permit of the blocker.
    pub fn holds_permit(&self) -> (holds: bool)
        ensures
            holds == self@.holds_permit(),
    {
        self.job.block && match self.phase {
            Phase::Suspending => true,
            Phase::Spawning => true,
            Phase::Waiting => true,
            Phase::Warning => true,
            Phase::Resuming { .. } => true,
            Phase::Releasing { .. } => true,
            _ => false,
        }
    }

    /// Whether the terminal is with the process of this session.
    pub fn on_terminal(&self) -> (on: bool)
        ensures
            on == self@.on_terminal(),
    {
        self.job.block && match self.phase {
            Phase::Suspending => true,
            Phase::Spawning => true,
            Phase::Waiting => true,
            Phase::Warning => true,
            Phase::Resuming { .. } => true,
            _ => false,
        }
    }

    /// Whether the session asks for the permit of the blocker.
    pub fn is_acquiring(&self) -> (acquiring: bool)
        ensures
            acquiring == (self@.phase is Acquiring),
    {
        match self.phase {
            Phase::Acquiring => true,
            _ => false,
        }
    }

    /// Whether the session asks to give the permit back.
    pub fn is_releasing(&self) -> (releasing: bool)
        ensures
            releasing == (self@.phase is Releasing),
    {
        match self.phase {
            Phase::Releasing { .. } => true,
            _ => false,
        }
    }

    fn closed(&mut self) -> (action: Action)
        ensures
            (final(self)@, action@) == old(self)@.closed(),
    {
        self.phase = Phase::Finished;
        Action::Finish(Err(ProcessError::Closed))
    }

    fn succ(&mut self) -> (action: Action)
        ensures
            (final(self)@, action@) == old(self)@.succ(),
    {
        self.phase = Phase::Succeeding;
        Action::Send(TaskProg::Succ(self.job.id))
    }

    fn fail(&mut self, reason: String) -> (action: Action)
        ensures
            (final(self)@, action@) == old(self)@.fail(reason@),
    {
        self.phase = Phase::Failing;
        Action::Send(TaskProg::Fail(self.job.id, reason))
    }

    fn adv(&mut self) -> (action: Action)
        ensures
            (final(self)@, action@) == old(self)@.adv(),
    {
        self.phase = Phase::Advancing;
        Action::Send(TaskProg::Adv(self.job.id, 1, 0))
    }

    fn spawned(&mut self) -> (action: Action)
        ensures
            (final(self)@, action@) == old(self)@.spawned(),
    {
        match self.job.mode() {
            Mode::Block => {
                self.phase = Phase::Waiting;
                Action::Wait
            },
            Mode::Orphan => self.succ(),
            Mode::Stream => {
                self.phase = Phase::Watching;
                Action::Watch
            },
        }
    }

    fn not_spawned(&mut self, reason: String) -> (action: Action)
        ensures
            (final(self)@, action@) == old(self)@.not_spawned(reason@),
    {
        match self.job.mode() {
            Mode::Block => {
                self.phase = Phase::Warning;
                Action::Warn(self.job.cmd.clone(), spawn_failure_text(reason.as_str()))
            },
            Mode::Orphan => {
                self.phase = Phase::Blaming;
                self.reason = reason;
                Action::Send(TaskProg::New(self.job.id, 0))
            },
            Mode::Stream => self.fail(spawn_failure_text(reason.as_str())),
        }
    }

    /// Takes the answer to the action that the session asked for last, and
    /// returns the next action. An event that does not answer that action
    /// is refused: the session stays as it is and `None` comes back. The
    /// two actions on the blocker are answered by the blocker alone, so here
    /// every event is refused while one of them is pending.
    pub fn step(&mut self, event: Event) -> (action: Option<Action>)
        ensures
            action is Some <==> old(self)@.accepts(event@) && !old(self)@.at_blocker(),
            action matches Some(a) ==> old(self)@.next(event@) == Some((final(self)@, a@)),
            action is None ==> final(self)@ == old(self)@,
    {
        match self.phase {
            Phase::Announcing => match event {
                Event::Done => {
                    self.phase = Phase::Spawning;
                    Some(Action::Spawn(self.job.shell()))
                },
                Event::Failed(_) => Some(self.closed()),
                _ => None,
            },
            Phase::Spawning => match event {
                Event::Done => Some(self.spawned()),
                Event::Failed(reason) => Some(self.not_spawned(reason)),
                _ => None,
            },
            Phase::Watching => match event {
                Event::Cancelled => {
                    self.phase = Phase::Killing;
                    Some(Action::Kill)
                },
                Event::Line(line) => {
                    self.phase = Phase::Logging;
                    Some(Action::Send(TaskProg::Log(self.job.id, line)))
                },
                Event::Exited(status) => {
                    self.phase = Phase::Reporting { success: status.success };
                    Some(Action::Send(TaskProg::Log(self.job.id, exit_line_text(status.code))))
                },
                _ => None,
            },
            Phase::Logging => match event {
                Event::Done => {
                    self.phase = Phase::Watching;
                    Some(Action::Watch)
                },
                Event::Failed(_) => Some(self.closed()),
                _ => None,
            },
            Phase::Killing => match event {
                Event::Done => Some(self.adv()),
                Event::Failed(_) => Some(self.adv()),
                _ => None,
            },
            Phase::Reporting { success } => match event {
                Event::Done => {
                    if success {
                        Some(self.adv())
                    } else {
                        Some(self.fail(process_failed_text()))
                    }
                },
                Event::Failed(_) => Some(self.closed()),
                _ => None,
            },
            Phase::Advancing => match event {
                Event::Done => Some(self.succ()),
                Event::Failed(_) => Some(self.closed()),
                _ => None,
            },
            Phase::Succeeding => match event {
                Event::Done => {
                    self.phase = Phase::Finished;
                    Some(Action::Finish(Ok(())))
                },
                Event::Failed(_) => Some(self.closed()),
                _ => None,
            },
            Phase::Blaming => match event {
                Event::Done => {
                    let text = spawn_failure_text(self.reason.as_str());
                    Some(self.fail(text))
                },
                Event::Failed(_) => Some(self.closed()),
                _ => None,
            },
            Phase::Failing => match event {
                Event::Done => {
                    self.phase = Phase::Finished;
                    Some(Action::Finish(Ok(())))
                },
                Event::Failed(_) => Some(self.closed()),
                _ => None,
            },
            Phase::Acquiring => None,
            Phase::Suspending => match event {
                Event::Done => {
                    self.phase = Phase::Spawning;
                    Some(Action::Spawn(self.job.shell()))
                },
                _ => None,
            },
            Phase::Waiting => match event {
                Event::Exited(status) => {
                    if status.success {
                        self.phase = Phase::Resuming { failed: false };
                        Some(Action::Resume)
                    } else {
                        self.phase = Phase::Warning;
                        Some(Action::Warn(self.job.cmd.clone(), exit_warning_text(status.code)))
                    }
                },
                Event::Failed(reason) => {
                    self.phase = Phase::Resuming { failed: true };
                    self.reason = reason;
                    Some(Action::Resume)
                },
                _ => None,
            },
            Phase::Warning => match event {
                Event::Done => {
                    self.phase = Phase::Resuming { failed: false };
                    Some(Action::Resume)
                },
                _ => None,
            },
            Phase::Resuming { failed } => match event {
                Event::Done => {
                    self.phase = Phase::Releasing { failed };
                    Some(Action::Release)
                },
                _ => None,
            },
            Phase::Releasing { .. } => None,
            Phase::Finished => None,
        }
    }

    /// The job is given up where it stands.
    pub(crate) fn abort(&mut self)
        ensures
            final(self)@ == old(self)@.at(Phase::Finished),
    {
        self.phase = Phase::Finished;
    }

    /// The blocker has granted its permit: the terminal is handed over next.
    pub(crate) fn granted(&mut self) -> (action: Action)
        requires
            old(self)@.phase is Acquiring,
        ensures
            old(self)@.next(EventView::Done) == Some((final(self)@, action@)),
    {
        self.phase = Phase::Suspending;
        Action::Suspend
    }

    /// The blocker has taken its permit back: the job reports and ends.
    pub(crate) fn released(&mut self) -> (action: Action)
        requires
            old(self)@.phase is Releasing,
        ensures
            old(self)@.next(EventView::Done) == Some((final(self)@, action@)),
    {
        let failed = match self.phase {
            Phase::Releasing { failed } => failed,
            _ => false,
        };
        if failed {
            self.phase = Phase::Finished;
            Action::Finish(Err(ProcessError::Wait(self.reason.clone())))
        } else {
            self.succ()
        }
    }
}

} // verus!
