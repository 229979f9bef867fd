//! What the machines ask of the outside world, and what it answers.

use vstd::prelude::*;
use crate::invocation::{Invocation, InvocationModel};
use crate::location::{Location, LocationModel};
use crate::text::opt_text;

verus! {

/// How an attempt to run a program ended.
#[derive(Clone, Copy, Debug, PartialEq, Eq, Structural)]
pub enum ProcessOutcome {
    /// The program could not be started.
    SpawnFailed,
    /// The program ran and ended, with or without success.
    Exited { success: bool },
}

impl ProcessOutcome {
    /// Whether the program ran and reported success.
    pub open spec fn succeeded(self) -> bool {
        self == (ProcessOutcome::Exited { success: true })
    }

    /// Whether the program could be run at all. An exit that reports
    /// failure still shows that it could.
    pub open spec fn started(self) -> bool {
        self != ProcessOutcome::SpawnFailed
    }

    /// Tells whether the program ran and reported success.
    pub fn is_success(self) -> (yes: bool)
        ensures
            yes == self.succeeded(),
    {
        match self {
            ProcessOutcome::Exited { success } => success,
            ProcessOutcome::SpawnFailed => false,
        }
    }
}

/// Judges a probe: a command exists if and only if starting it gave any
/// exit status at all, whatever that status was.
pub fn tool_available(probe: ProcessOutcome) -> (available: bool)
    ensures
        available == probe.started(),
{
    match probe {
        ProcessOutcome::Exited { .. } => true,
        ProcessOutcome::SpawnFailed => false,
    }
}

/// The next thing to do in the outside world.
#[derive(Debug, PartialEq, Eq)]
pub enum Action {
    /// Find out whether the place exists. Answered by [`Event::Exists`].
    CheckExists(Location),
    /// Read the environment variable. Answered by [`Event::Env`].
    ReadEnv(String),
    /// Make the directory, with every directory above it that is missing.
    /// Answered by [`Event::Finished`].
    CreateDir(Location),
    /// Make the file anew and write `contents` to it. If `required` is
    /// set, a failure to write is fatal; a file that cannot be made always
    /// is. Answered by [`Event::Finished`].
    WriteFile { place: Location, contents: String, required: bool },
    /// Run the command with what it prints discarded and wait for it.
    /// Answered by [`Event::Exit`].
    RunQuiet(Invocation),
    /// Run the command and collect what it prints. Answered by
    /// [`Event::Captured`].
    Capture(Invocation),
    /// Run the command in the foreground and wait for it. Answered by
    /// [`Event::Exit`].
    Run(Invocation),
    /// Run the command in the foreground, write `script` to its input,
    /// close the input and wait. Answered by [`Event::Exit`].
    Attach { invocation: Invocation, script: String },
    /// Nothing is left to do.
    Halt,
}

/// What an [`Action`] says, as plain sequences.
pub ghost enum ActionModel {
    CheckExists(LocationModel),
    ReadEnv(Seq<char>),
    CreateDir(LocationModel),
    WriteFile { place: LocationModel, contents: Seq<char>, required: bool },
    RunQuiet(InvocationModel),
    Capture(InvocationModel),
    Run(InvocationModel),
    Attach { invocation: InvocationModel, script: Seq<char> },
    Halt,
}

impl ActionModel {
    /// Whether doing this starts a program.
    pub open spec fn spawns(self) -> bool {
        self is RunQuiet || self is Capture || self is Run || self is Attach
    }

    /// Whether `event` is of the kind that answers this.
    pub open spec fn answered_by(self, event: EventModel) -> bool {
        match self {
            ActionModel::CheckExists(_) => event is Exists,
            ActionModel::ReadEnv(_) => event is Env,
            ActionModel::CreateDir(_) => event is Finished,
            ActionModel::WriteFile { .. } => event is Finished,
            ActionModel::RunQuiet(_) => event is Exit,
            ActionModel::Capture(_) => event is Captured,
            ActionModel::Run(_) => event is Exit,
            ActionModel::Attach { .. } => event is Exit,
            ActionModel::Halt => false,
        }
    }
}

impl View for Action {
    type V = ActionModel;

    open spec fn view(&self) -> ActionModel {
        match self {
            Action::CheckExists(place) => ActionModel::CheckExists(place@),
            Action::ReadEnv(name) => ActionModel::ReadEnv(name@),
            Action::CreateDir(place) => ActionModel::CreateDir(place@),
            Action::WriteFile { place, contents, required } => ActionModel::WriteFile {
                place: place@,
                contents: contents@,
                required: *required,
            },
            Action::RunQuiet(invocation) => ActionModel::RunQuiet(invocation@),
            Action::Capture(invocation) => ActionModel::Capture(invocation@),
            Action::Run(invocation) => ActionModel::Run(invocation@),
            Action::Attach { invocation, script } => ActionModel::Attach {
                invocation: invocation@,
                script: script@,
            },
            Action::Halt => ActionModel::Halt,
        }
    }
}

impl Action {
    /// Tells whether `event` is of the kind that answers this. Nothing
    /// answers [`Action::Halt`].
    pub fn is_answered_by(&self, event: &Event) -> (yes: bool)
        ensures
            yes == self@.answered_by(event@),
    {
        match self {
            Action::CheckExists(_) => matches!(event, Event::Exists(_)),
            Action::ReadEnv(_) => matches!(event, Event::Env(_)),
            Action::CreateDir(_) => matches!(event, Event::Finished),
            Action::WriteFile { .. } => matches!(event, Event::Finished),
            Action::RunQuiet(_) => matches!(event, Event::Exit(_)),
            Action::Capture(_) => matches!(event, Event::Captured { .. }),
            Action::Run(_) => matches!(event, Event::Exit(_)),
            Action::Attach { .. } => matches!(event, Event::Exit(_)),
            Action::Halt => false,
        }
    }

    /// Tells whether doing this starts a program.
    pub fn starts_process(&self) -> (yes: bool)
        ensures
            yes == self@.spawns(),
    {
        match self {
            Action::RunQuiet(_) | Action::Capture(_) | Action::Run(_) | Action::Attach { .. } => true,
            Action::CheckExists(_)
            | Action::ReadEnv(_)
            | Action::CreateDir(_)
            | Action::WriteFile { .. }
            | Action::Halt => false,
        }
    }
}

/// What the outside world answered.
#[derive(Debug, PartialEq, Eq)]
pub enum Event {
    /// Whether the place asked about exists.
    Exists(bool),
    /// The value of the variable asked about, if it is set.
    Env(Option<String>),
    /// How the command ended.
    Exit(ProcessOutcome),
    /// How the command ended and what it printed.
    Captured { outcome: ProcessOutcome, output: String },
    /// The directory or the file was made.
    Finished,
}

/// What an [`Event`] says, as plain sequences.
pub ghost enum EventModel {
    Exists(bool),
    Env(Option<Seq<char>>),
    Exit(ProcessOutcome),
    Captured { outcome: ProcessOutcome, output: Seq<char> },
    Finished,
}

impl View for Event {
    type V = EventModel;

    open spec fn view(&self) -> EventModel {
        match self {
            Event::Exists(found) => EventModel::Exists(*found),
            Event::Env(value) => EventModel::Env(opt_text(*value)),
            Event::Exit(outcome) => EventModel::Exit(*outcome),
            Event::Captured { outcome, output } => EventModel::Captured {
                outcome: *outcome,
                output: output@,
            },
            Event::Finished => EventModel::Finished,
        }
    }
}

} // verus!
