//! Setting up a new project: its directories, its three files, its two
//! dependencies and its repository.
//!
//! A [`Scaffold`] is driven like the pipeline: it holds one open question,
//! [`Scaffold::pending`], and moves on when the answer comes in through
//! [`Scaffold::step`].

use vstd::prelude::*;
use crate::error::InitError;
use crate::invocation::{
    arg_models, optional_flag, push_arg, push_optional_flag, push_text, Arg, ArgModel, Invocation,
    InvocationModel,
};
use crate::layout::{ADAPTER_ENV, BUILD_COMMAND, FLASH_DIR, MARKER_FILE, UPLOADER_ENV};
use crate::location::{Location, LocationModel};
use crate::protocol::{Action, ActionModel, Event, EventModel, ProcessOutcome};

verus! {

/// The directory of a project that holds its sources.
pub const SOURCE_DIR: &'static str = "src";

/// The directory of a project that holds the build tool's settings.
pub const CONFIG_DIR: &'static str = ".cargo";

/// The file of build settings inside [`CONFIG_DIR`].
pub const CONFIG_FILE: &'static str = "config.toml";

/// The file of the main program inside [`SOURCE_DIR`].
pub const PROGRAM_FILE: &'static str = "main.rs";

/// The tool that keeps the project's history.
pub const REPOSITORY_COMMAND: &'static str = "git";

/// Where the hardware abstraction layer comes from.
pub const HAL_REPOSITORY: &'static str = "https://github.com/mik32-rs/mik32-hal.git";

/// Where the runtime comes from.
pub const RUNTIME_REPOSITORY: &'static str = "https://github.com/mik32-rs/mik32-rt.git";

/// The manifest of a new project, up to the project's name.
pub const MANIFEST_HEAD: &'static str = "\n        [package]\n        name = \"";

/// The manifest of a new project, after the project's name.
pub const MANIFEST_TAIL: &'static str =
    "\"\n        version = \"0.1.0\"\n        edition = \"2021\"\n\n        [dependencies]\n\n        [profile.release]\n        opt-level = \"z\"\n        lto = true\n        codegen-units = 1\n        ";

/// The build settings of a new project.
pub const CONFIG_TEXT: &'static str =
    "\n        [target.riscv32imc-unknown-none-elf]\n        rustflags = [\"-C\", \"link-arg=-Tlink.x\"]\n\n        [build]\n        target = \"riscv32imc-unknown-none-elf\"\n        ";

/// The main program of a new project.
pub const PROGRAM_TEXT: &'static str =
    "\n        #![no_std]\n        #![no_main]\n\n        use mik32_hal::*;\n\n        #[mik32_rt::entry]\n        fn main() -> ! {\n            loop {}\n        }\n        ";

/// How far the set-up has come.
#[derive(Clone, Copy, Debug, PartialEq, Eq, Structural)]
pub enum ScaffoldStep {
    /// Waiting to hear whether the project's name is taken.
    NameCheck,
    MakeSourceDir,
    MakeConfigDir,
    MakeFlashDir,
    WriteManifest,
    WriteConfig,
    WriteProgram,
    /// Waiting for the hardware abstraction layer to be added.
    AddHal,
    /// Waiting for the runtime to be added.
    AddRuntime,
    /// Waiting for the value of the uploader's variable.
    UploaderEnvCheck,
    /// Waiting for the value of the debug adapter's variable.
    AdapterEnvCheck,
    /// Waiting for the repository to be made.
    RepoInit,
    /// The project is set up.
    Done,
    /// Given up.
    Failed(InitError),
}

/// The part of the work a step belongs to, for whoever shows progress.
#[derive(Clone, Copy, Debug, PartialEq, Eq, Structural)]
pub enum ScaffoldStage {
    CreatingStructure,
    AddingDependencies,
    VerifyingPaths,
    InitializingRepo,
    Finished,
}

impl ScaffoldStep {
    /// The part of the work this step belongs to.
    pub open spec fn stage_of(self) -> ScaffoldStage {
        match self {
            ScaffoldStep::NameCheck
            | ScaffoldStep::MakeSourceDir
            | ScaffoldStep::MakeConfigDir
            | ScaffoldStep::MakeFlashDir
            | ScaffoldStep::WriteManifest
            | ScaffoldStep::WriteConfig
            | ScaffoldStep::WriteProgram => ScaffoldStage::CreatingStructure,
            ScaffoldStep::AddHal | ScaffoldStep::AddRuntime => ScaffoldStage::AddingDependencies,
            ScaffoldStep::UploaderEnvCheck
            | ScaffoldStep::AdapterEnvCheck => ScaffoldStage::VerifyingPaths,
            ScaffoldStep::RepoInit => ScaffoldStage::InitializingRepo,
            ScaffoldStep::Done | ScaffoldStep::Failed(_) => ScaffoldStage::Finished,
        }
    }

    /// The part of the work this step belongs to.
    pub fn stage(self) -> (stage: ScaffoldStage)
        ensures
            stage == self.stage_of(),
    {
        match self {
            ScaffoldStep::NameCheck
            | ScaffoldStep::MakeSourceDir
            | ScaffoldStep::MakeConfigDir
            | ScaffoldStep::MakeFlashDir
            | ScaffoldStep::WriteManifest
            | ScaffoldStep::WriteConfig
            | ScaffoldStep::WriteProgram => ScaffoldStage::CreatingStructure,
            ScaffoldStep::AddHal | ScaffoldStep::AddRuntime => ScaffoldStage::AddingDependencies,
            ScaffoldStep::UploaderEnvCheck
            | ScaffoldStep::AdapterEnvCheck => ScaffoldStage::VerifyingPaths,
            ScaffoldStep::RepoInit => ScaffoldStage::InitializingRepo,
            ScaffoldStep::Done | ScaffoldStep::Failed(_) => ScaffoldStage::Finished,
        }
    }
}

/// What came up during the set-up that the user should hear of, none of
/// which stops it.
#[derive(Clone, Copy, Debug, PartialEq, Eq, Structural)]
pub struct ScaffoldNotes {
    /// The uploader's variable is not set.
    pub uploader_env_unset: bool,
    /// The debug adapter's variable is not set.
    pub adapter_env_unset: bool,
    /// How making the repository ended, once it was tried.
    pub repository: Option<ProcessOutcome>,
}

/// The set-up of one new project.
#[derive(Debug, PartialEq, Eq)]
pub struct Scaffold {
    /// The project's name, which is also the name of its directory.
    pub name: String,
    /// The directory the project's directory is made in.
    pub parent: String,
    pub step: ScaffoldStep,
    pub notes: ScaffoldNotes,
}

/// What a [`Scaffold`] says, as plain sequences.
pub ghost struct ScaffoldModel {
    pub name: Seq<char>,
    pub parent: Seq<char>,
    pub step: ScaffoldStep,
    pub notes: ScaffoldNotes,
}

impl View for Scaffold {
    type V = ScaffoldModel;

    open spec fn view(&self) -> ScaffoldModel {
        ScaffoldModel {
            name: self.name@,
            parent: self.parent@,
            step: self.step,
            notes: self.notes,
        }
    }
}

/// The manifest of a project called `name`.
pub open spec fn manifest_of(name: Seq<char>) -> Seq<char> {
    MANIFEST_HEAD@ + name + MANIFEST_TAIL@
}

/// The command line that adds `dependency` to the project at `project`,
/// from a repository if `git` is set.
pub open spec fn cargo_add_of(
    project: LocationModel,
    dependency: Seq<char>,
    git: bool,
) -> InvocationModel {
    InvocationModel {
        program: LocationModel::at(BUILD_COMMAND@),
        args: seq![ArgModel::Text("add"@)] + optional_flag("--git"@, git) + seq![
            ArgModel::Text(dependency),
            ArgModel::Text("--manifest-path"@),
            ArgModel::Path(project.join(MARKER_FILE@)),
        ],
    }
}

/// The command line that makes a repository of the project at `project`.
pub open spec fn repo_init_of(project: LocationModel) -> InvocationModel {
    InvocationModel {
        program: LocationModel::at(REPOSITORY_COMMAND@),
        args: seq![ArgModel::Text("init"@), ArgModel::Path(project)],
    }
}

/// What adding a dependency that ended with `outcome` means for the
/// set-up: anything but an exit that reports success ends it.
pub open spec fn fetch_verdict(outcome: ProcessOutcome) -> Result<(), InitError> {
    if outcome.succeeded() {
        Ok(())
    } else {
        Err(InitError::FetchFailed)
    }
}

impl ScaffoldModel {
    /// The project's directory.
    pub open spec fn project(self) -> LocationModel {
        LocationModel::at(self.parent).join(self.name)
    }

    /// The set-up at another step.
    pub open spec fn at_step(self, step: ScaffoldStep) -> ScaffoldModel {
        ScaffoldModel { step, ..self }
    }

    /// The set-up as it begins: with the question whether the name is
    /// taken, and nothing to tell yet.
    pub open spec fn start(name: Seq<char>, parent: Seq<char>) -> ScaffoldModel {
        ScaffoldModel {
            name,
            parent,
            step: ScaffoldStep::NameCheck,
            notes: ScaffoldNotes {
                uploader_env_unset: false,
                adapter_env_unset: false,
                repository: None,
            },
        }
    }

    /// The open question.
    pub open spec fn pending(self) -> ActionModel {
        match self.step {
            ScaffoldStep::NameCheck => ActionModel::CheckExists(self.project()),
            ScaffoldStep::MakeSourceDir => ActionModel::CreateDir(self.project().join(SOURCE_DIR@)),
            ScaffoldStep::MakeConfigDir => ActionModel::CreateDir(self.project().join(CONFIG_DIR@)),
            ScaffoldStep::MakeFlashDir => ActionModel::CreateDir(self.project().join(FLASH_DIR@)),
            ScaffoldStep::WriteManifest => ActionModel::WriteFile {
                place: self.project().join(MARKER_FILE@),
                contents: manifest_of(self.name),
                required: true,
            },
            ScaffoldStep::WriteConfig => ActionModel::WriteFile {
                place: self.project().join(CONFIG_DIR@).join(CONFIG_FILE@),
                contents: CONFIG_TEXT@,
                required: false,
            },
            ScaffoldStep::WriteProgram => ActionModel::WriteFile {
                place: self.project().join(SOURCE_DIR@).join(PROGRAM_FILE@),
                contents: PROGRAM_TEXT@,
                required: false,
            },
            ScaffoldStep::AddHal => ActionModel::Run(
                cargo_add_of(self.project(), HAL_REPOSITORY@, true),
            ),
            ScaffoldStep::AddRuntime => ActionModel::Run(
                cargo_add_of(self.project(), RUNTIME_REPOSITORY@, true),
            ),
            ScaffoldStep::UploaderEnvCheck => ActionModel::ReadEnv(UPLOADER_ENV@),
            ScaffoldStep::AdapterEnvCheck => ActionModel::ReadEnv(ADAPTER_ENV@),
            ScaffoldStep::RepoInit => ActionModel::RunQuiet(repo_init_of(self.project())),
            ScaffoldStep::Done => ActionModel::Halt,
            ScaffoldStep::Failed(_) => ActionModel::Halt,
        }
    }

    /// The set-up after `event`.
    ///
    /// An event that does not answer the open question changes nothing,
    /// and nothing changes a set-up that is over. A name that is taken
    /// ends it, and so does a dependency that cannot be added. A variable
    /// that is not set is noted; so is the way making the repository
    /// ended, which does not end the set-up however it went.
    pub open spec fn next(self, event: EventModel) -> ScaffoldModel {
        match (self.step, event) {
            (ScaffoldStep::NameCheck, EventModel::Exists(taken)) => if taken {
                self.at_step(ScaffoldStep::Failed(InitError::BadName))
            } else {
                self.at_step(ScaffoldStep::MakeSourceDir)
            },
            (ScaffoldStep::MakeSourceDir, EventModel::Finished) => self.at_step(
                ScaffoldStep::MakeConfigDir,
            ),
            (ScaffoldStep::MakeConfigDir, EventModel::Finished) => self.at_step(
                ScaffoldStep::MakeFlashDir,
            ),
            (ScaffoldStep::MakeFlashDir, EventModel::Finished) => self.at_step(
                ScaffoldStep::WriteManifest,
            ),
            (ScaffoldStep::WriteManifest, EventModel::Finished) => self.at_step(
                ScaffoldStep::WriteConfig,
            ),
            (ScaffoldStep::WriteConfig, EventModel::Finished) => self.at_step(
                ScaffoldStep::WriteProgram,
            ),
            (ScaffoldStep::WriteProgram, EventModel::Finished) => self.at_step(
                ScaffoldStep::AddHal,
            ),
            (ScaffoldStep::AddHal, EventModel::Exit(outcome)) => match fetch_verdict(outcome) {
                Ok(_) => self.at_step(ScaffoldStep::AddRuntime),
                Err(error) => self.at_step(ScaffoldStep::Failed(error)),
            },
            (ScaffoldStep::AddRuntime, EventModel::Exit(outcome)) => match fetch_verdict(
                outcome,
            ) {
                Ok(_) => self.at_step(ScaffoldStep::UploaderEnvCheck),
                Err(error) => self.at_step(ScaffoldStep::Failed(error)),
            },
            (ScaffoldStep::UploaderEnvCheck, EventModel::Env(value)) => ScaffoldModel {
                step: ScaffoldStep::AdapterEnvCheck,
                notes: ScaffoldNotes { uploader_env_unset: value is None, ..self.notes },
                ..self
            },
            (ScaffoldStep::AdapterEnvCheck, EventModel::Env(value)) => ScaffoldModel {
                step: ScaffoldStep::RepoInit,
                notes: ScaffoldNotes { adapter_env_unset: value is None, ..self.notes },
                ..self
            },
            (ScaffoldStep::RepoInit, EventModel::Exit(outcome)) => ScaffoldModel {
                step: ScaffoldStep::Done,
                notes: ScaffoldNotes { repository: Some(outcome), ..self.notes },
                ..self
            },
            _ => self,
        }
    }

    /// The set-up after each of `events` in turn.
    pub open spec fn run(self, events: Seq<EventModel>) -> ScaffoldModel
        decreases events.len(),
    {
        if events.len() == 0 {
            self
        } else {
            self.run(events.drop_last()).next(events.last())
        }
    }

    /// The set-up after the first `count` of `events`.
    pub open spec fn after(self, events: Seq<EventModel>, count: int) -> ScaffoldModel {
        self.run(events.take(count))
    }

    /// How far the set-up has come. Steps are numbered in the order a
    /// set-up can pass through them; one given up stands just behind the
    /// step it was given up at.
    pub open spec fn progress(self) -> int {
        match self.step {
            ScaffoldStep::NameCheck => 0,
            ScaffoldStep::Failed(InitError::BadName) => 1,
            ScaffoldStep::MakeSourceDir => 2,
            ScaffoldStep::MakeConfigDir => 3,
            ScaffoldStep::MakeFlashDir => 4,
            ScaffoldStep::WriteManifest => 5,
            ScaffoldStep::WriteConfig => 6,
            ScaffoldStep::WriteProgram => 7,
            ScaffoldStep::AddHal => 8,
            ScaffoldStep::AddRuntime => 9,
            ScaffoldStep::Failed(InitError::FetchFailed) => 10,
            ScaffoldStep::UploaderEnvCheck => 11,
            ScaffoldStep::AdapterEnvCheck => 12,
            ScaffoldStep::RepoInit => 13,
            ScaffoldStep::Done => 14,
        }
    }

    /// The most questions the set-up may still ask, the open one included.
    pub open spec fn questions_left(self) -> nat {
        match self.step {
            ScaffoldStep::NameCheck => 12,
            ScaffoldStep::MakeSourceDir => 11,
            ScaffoldStep::MakeConfigDir => 10,
            ScaffoldStep::MakeFlashDir => 9,
            ScaffoldStep::WriteManifest => 8,
            ScaffoldStep::WriteConfig => 7,
            ScaffoldStep::WriteProgram => 6,
            ScaffoldStep::AddHal => 5,
            ScaffoldStep::AddRuntime => 4,
            ScaffoldStep::UploaderEnvCheck => 3,
            ScaffoldStep::AdapterEnvCheck => 2,
            ScaffoldStep::RepoInit => 1,
            ScaffoldStep::Done => 0,
            ScaffoldStep::Failed(_) => 0,
        }
    }

    /// How the set-up ended, if it has.
    pub open spec fn result(self) -> Option<Result<(), InitError>> {
        match self.step {
            ScaffoldStep::Done => Some(Ok(())),
            ScaffoldStep::Failed(error) => Some(Err(error)),
            _ => None,
        }
    }
}

/// Builds the manifest of a project called `name`.
pub fn manifest_text(name: &str) -> (text: String)
    ensures
        text@ == manifest_of(name@),
{
    let mut text = MANIFEST_HEAD.to_owned();
    text.append(name);
    text.append(MANIFEST_TAIL);
    text
}

/// Builds the command line that adds `dependency` to the project at
/// `project`, from a repository if `git` is set.
pub fn cargo_add(project: &Location, dependency: &str, git: bool) -> (invocation: Invocation)
    ensures
        invocation@ == cargo_add_of(project@, dependency@, git),
{
    let mut args: Vec<Arg> = Vec::new();
    push_text(&mut args, "add");
    assert(arg_models(args@) =~= seq![ArgModel::Text("add"@)]);
    push_optional_flag(&mut args, "--git", git);
    let ghost front = arg_models(args@);
    push_text(&mut args, dependency);
    push_text(&mut args, "--manifest-path");
    push_arg(&mut args, Arg::Path(project.clone().join(MARKER_FILE)));
    assert(arg_models(args@) =~= front + seq![
        ArgModel::Text(dependency@),
        ArgModel::Text("--manifest-path"@),
        ArgModel::Path(project@.join(MARKER_FILE@)),
    ]);
    Invocation { program: Location::new(BUILD_COMMAND.to_owned()), args }
}

/// Builds the command line that makes a repository of the project at
/// `project`.
pub fn repo_init(project: &Location) -> (invocation: Invocation)
    ensures
        invocation@ == repo_init_of(project@),
{
    let mut args: Vec<Arg> = Vec::new();
    push_text(&mut args, "init");
    push_arg(&mut args, Arg::Path(project.clone()));
    assert(arg_models(args@) =~= repo_init_of(project@).args);
    Invocation { program: Location::new(REPOSITORY_COMMAND.to_owned()), args }
}

/// Judges the adding of a dependency by how its process ended.
pub fn fetch_result(outcome: ProcessOutcome) -> (verdict: Result<(), InitError>)
    ensures
        verdict == fetch_verdict(outcome),
{
    if outcome.is_success() {
        Ok(())
    } else {
        Err(InitError::FetchFailed)
    }
}

impl Scaffold {
    /// Begins the set-up of a project called `name` in the directory
    /// `parent`.
    pub fn new(name: String, parent: String) -> (scaffold: Scaffold)
        ensures
            scaffold@ == ScaffoldModel::start(name@, parent@),
    {
        Scaffold {
            name,
            parent,
            step: ScaffoldStep::NameCheck,
            notes: ScaffoldNotes {
                uploader_env_unset: false,
                adapter_env_unset: false,
                repository: None,
            },
        }
    }

    /// The project's directory.
    pub fn project(&self) -> (place: Location)
        ensures
            place@ == self@.project(),
    {
        Location::new(self.parent.clone()).join(self.name.as_str())
    }

    /// How the set-up ended: `Ok` once the project stands, `Err` with the
    /// reason once it is given up, `None` while it goes on.
    pub fn result(&self) -> (result: Option<Result<(), InitError>>)
        ensures
            result == self@.result(),
    {
        match self.step {
            ScaffoldStep::Done => Some(Ok(())),
            ScaffoldStep::Failed(error) => Some(Err(error)),
            _ => None,
        }
    }

    /// The open question: what the caller is to do next. It is
    /// [`Action::Halt`] once the set-up is over.
    pub fn pending(&self) -> (action: Action)
        ensures
            action@ == self@.pending(),
    {
        match self.step {
            ScaffoldStep::NameCheck => Action::CheckExists(self.project()),
            ScaffoldStep::MakeSourceDir => Action::CreateDir(self.project().join(SOURCE_DIR)),
            ScaffoldStep::MakeConfigDir => Action::CreateDir(self.project().join(CONFIG_DIR)),
            ScaffoldStep::MakeFlashDir => Action::CreateDir(self.project().join(FLASH_DIR)),
            ScaffoldStep::WriteManifest => Action::WriteFile {
                place: self.project().join(MARKER_FILE),
                contents: manifest_text(self.name.as_str()),
                required: true,
            },
            ScaffoldStep::WriteConfig => Action::WriteFile {
                place: self.project().join(CONFIG_DIR).join(CONFIG_FILE),
                contents: CONFIG_TEXT.to_owned(),
                required: false,
            },
            ScaffoldStep::WriteProgram => Action::WriteFile {
                place: self.project().join(SOURCE_DIR).join(PROGRAM_FILE),
                contents: PROGRAM_TEXT.to_owned(),
                required: false,
            },
            ScaffoldStep::AddHal => Action::Run(cargo_add(&self.project(), HAL_REPOSITORY, true)),
            ScaffoldStep::AddRuntime => Action::Run(
                cargo_add(&self.project(), RUNTIME_REPOSITORY, true),
            ),
            ScaffoldStep::UploaderEnvCheck => Action::ReadEnv(UPLOADER_ENV.to_owned()),
            ScaffoldStep::AdapterEnvCheck => Action::ReadEnv(ADAPTER_ENV.to_owned()),
            ScaffoldStep::RepoInit => Action::RunQuiet(repo_init(&self.project())),
            ScaffoldStep::Done => Action::Halt,
            ScaffoldStep::Failed(_) => Action::Halt,
        }
    }

    /// Takes in the answer to the open question and moves the set-up on.
    /// An event that answers another question leaves it as it is, and so
    /// does any event once it is over.
    pub fn step(self, event: Event) -> (next: Scaffold)
        ensures
            next@ == self@.next(event@),
    {
        let Scaffold { name, parent, step, notes } = self;
        let (step, notes) = match step {
            ScaffoldStep::NameCheck => match event {
                Event::Exists(true) => (ScaffoldStep::Failed(InitError::BadName), notes),
                Event::Exists(false) => (ScaffoldStep::MakeSourceDir, notes),
                _ => (step, notes),
            },
            ScaffoldStep::MakeSourceDir => match event {
                Event::Finished => (ScaffoldStep::MakeConfigDir, notes),
                _ => (step, notes),
            },
            ScaffoldStep::MakeConfigDir => match event {
                Event::Finished => (ScaffoldStep::MakeFlashDir, notes),
                _ => (step, notes),
            },
            ScaffoldStep::MakeFlashDir => match event {
                Event::Finished => (ScaffoldStep::WriteManifest, notes),
                _ => (step, notes),
            },
            ScaffoldStep::WriteManifest => match event {
                Event::Finished => (ScaffoldStep::WriteConfig, notes),
                _ => (step, notes),
            },
            ScaffoldStep::WriteConfig => match event {
                Event::Finished => (ScaffoldStep::WriteProgram, notes),
                _ => (step, notes),
            },
            ScaffoldStep::WriteProgram => match event {
                Event::Finished => (ScaffoldStep::AddHal, notes),
                _ => (step, notes),
            },
            ScaffoldStep::AddHal => match event {
                Event::Exit(outcome) => match fetch_result(outcome) {
                    Ok(_) => (ScaffoldStep::AddRuntime, notes),
                    Err(error) => (ScaffoldStep::Failed(error), notes),
                },
                _ => (step, notes),
            },
            ScaffoldStep::AddRuntime => match event {
                Event::Exit(outcome) => match fetch_result(outcome) {
                    Ok(_) => (ScaffoldStep::UploaderEnvCheck, notes),
                    Err(error) => (ScaffoldStep::Failed(error), notes),
                },
                _ => (step, notes),
            },
            ScaffoldStep::UploaderEnvCheck => match event {
                Event::Env(value) => (
                    ScaffoldStep::AdapterEnvCheck,
                    ScaffoldNotes { uploader_env_unset: value.is_none(), ..notes },
                ),
                _ => (step, notes),
            },
            ScaffoldStep::AdapterEnvCheck => match event {
                Event::Env(value) => (
                    ScaffoldStep::RepoInit,
                    ScaffoldNotes { adapter_env_unset: value.is_none(), ..notes },
                ),
                _ => (step, notes),
            },
            ScaffoldStep::RepoInit => match event {
                Event::Exit(outcome) => (
                    ScaffoldStep::Done,
                    ScaffoldNotes { repository: Some(outcome), ..notes },
                ),
                _ => (step, notes),
            },
            ScaffoldStep::Done => (step, notes),
            ScaffoldStep::Failed(_) => (step, notes),
        };
        Scaffold { name, parent, step, notes }
    }
}

/// A set-up that is over asks nothing more and stays as it is, whatever
/// comes in; one that is not over always has a question open.
pub proof fn ended_set_up_is_final(state: ScaffoldModel, event: EventModel)
    ensures
        state.result() is Some <==> state.pending() == ActionModel::Halt,
        state.result() is Some ==> state.next(event) == state,
{
}

/// An event that is not of the kind the open question calls for changes
/// nothing, and every other event takes the set-up forward and closer to
/// its end.
pub proof fn set_up_moves_only_on_answers(state: ScaffoldModel, event: EventModel)
    ensures
        !state.pending().answered_by(event) ==> state.next(event) == state,
        state.pending().answered_by(event) ==> state.progress() < state.next(event).progress(),
        state.pending().answered_by(event) ==> state.next(event).questions_left()
            < state.questions_left(),
        state.next(event).name == state.name,
        state.next(event).parent == state.parent,
{
}

/// No run of steps takes the set-up back or changes what is set up.
pub proof fn set_up_goes_forward(state: ScaffoldModel, events: Seq<EventModel>)
    ensures
        state.progress() <= state.run(events).progress(),
        state.run(events).name == state.name,
        state.run(events).parent == state.parent,
    decreases events.len(),
{
    if events.len() > 0 {
        set_up_goes_forward(state, events.drop_last());
        set_up_moves_only_on_answers(state.run(events.drop_last()), events.last());
    }
}

/// Running through `events` is running through the first `cut` of them
/// and then through the rest.
pub proof fn set_up_in_two(state: ScaffoldModel, events: Seq<EventModel>, cut: int)
    requires
        0 <= cut <= events.len(),
    ensures
        state.run(events) == state.run(events.take(cut)).run(events.skip(cut)),
    decreases events.len(),
{
    if cut == events.len() {
        assert(events.take(cut) =~= events);
        assert(events.skip(cut) =~= Seq::<EventModel>::empty());
    } else {
        let front = events.drop_last();
        set_up_in_two(state, front, cut);
        assert(front.take(cut) =~= events.take(cut));
        assert(front.skip(cut) =~= events.skip(cut).drop_last());
        assert(events.skip(cut).last() == events.last());
    }
}

/// A name that is taken leaves everything as it was.
///
/// If a set-up was given up because the project's name is taken, then at
/// every moment the open question was whether the name is taken, or there
/// was none: nothing was made, written or run.
pub proof fn taken_name_makes_nothing(
    name: Seq<char>,
    parent: Seq<char>,
    events: Seq<EventModel>,
    count: int,
)
    requires
        ScaffoldModel::start(name, parent).run(events).result() == Some(
            Err::<(), InitError>(InitError::BadName),
        ),
        0 <= count <= events.len(),
    ensures
        ScaffoldModel::start(name, parent).after(events, count).pending()
            == ActionModel::CheckExists(LocationModel::at(parent).join(name))
            || ScaffoldModel::start(name, parent).after(events, count).pending()
            == ActionModel::Halt,
{
    let begin = ScaffoldModel::start(name, parent);
    set_up_in_two(begin, events, count);
    set_up_goes_forward(begin, events.take(count));
    set_up_goes_forward(begin.run(events.take(count)), events.skip(count));
}

/// A dependency that cannot be added ends the set-up there.
///
/// If a set-up was given up because a dependency could not be added, then
/// at no moment was an environment variable read or the repository made,
/// and nothing is noted.
pub proof fn failed_fetch_stops_the_set_up(
    name: Seq<char>,
    parent: Seq<char>,
    events: Seq<EventModel>,
    count: int,
)
    requires
        ScaffoldModel::start(name, parent).run(events).result() == Some(
            Err::<(), InitError>(InitError::FetchFailed),
        ),
        0 <= count <= events.len(),
    ensures
        !(ScaffoldModel::start(name, parent).after(events, count).pending() is ReadEnv),
        !(ScaffoldModel::start(name, parent).after(events, count).pending() is RunQuiet),
        ScaffoldModel::start(name, parent).after(events, count).notes == ScaffoldModel::start(
            name,
            parent,
        ).notes,
{
    let begin = ScaffoldModel::start(name, parent);
    set_up_in_two(begin, events, count);
    set_up_goes_forward(begin, events.take(count));
    set_up_goes_forward(begin.run(events.take(count)), events.skip(count));
    early_set_up_notes_nothing(name, parent, events.take(count));
}

/// Nothing is noted before the environment is looked at.
pub proof fn early_set_up_notes_nothing(
    name: Seq<char>,
    parent: Seq<char>,
    events: Seq<EventModel>,
)
    requires
        ScaffoldModel::start(name, parent).run(events).progress() <= 11,
    ensures
        ScaffoldModel::start(name, parent).run(events).notes == ScaffoldModel::start(
            name,
            parent,
        ).notes,
    decreases events.len(),
{
    if events.len() > 0 {
        let begin = ScaffoldModel::start(name, parent);
        set_up_moves_only_on_answers(begin.run(events.drop_last()), events.last());
        early_set_up_notes_nothing(name, parent, events.drop_last());
    }
}

} // verus!
