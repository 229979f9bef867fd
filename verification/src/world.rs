//! What the machines come to in a given world.
//!
//! A [`World`] says, once and for all, what exists, what the environment
//! holds and how every command would end. Driving a machine in a world
//! means answering each of its questions as the world has it. The laws of
//! this module say where that leads, in terms of the world alone: they are
//! the searches and the run described without any machine.

use vstd::prelude::*;
use crate::error::{
    InitError, ResolutionError, ResourceKind, RunError, Stage, Tier, TierSet,
};
use crate::invocation::InvocationModel;
use crate::layout::{
    default_artifact_of, default_uploader_of, driver_script_of, marker_of, ADAPTER_COMMAND,
    ADAPTER_ENV, CONVERTER_COMMAND, INTERPRETER_COMMAND, UPLOADER_ENV,
};
use crate::location::LocationModel;
use crate::pipeline::{
    answer_advances_run, coherent_run_asks, conversion_target, start_is_coherent,
    step_goes_forward, PhaseModel, PipelineModel,
};
use crate::protocol::{ActionModel, EventModel, ProcessOutcome};
use crate::request::RequestModel;
use crate::resolver::{
    answer_advances_search, open_search_asks, start_is_in_order, ResolvedModel, ResolverModel,
};
use crate::scaffold::{
    cargo_add_of, repo_init_of, set_up_moves_only_on_answers, ScaffoldModel, ScaffoldNotes,
    ScaffoldStep, HAL_REPOSITORY, RUNTIME_REPOSITORY,
};
use crate::stages::{
    attach_verdict, conversion_of, debugger_of, lookup_of, probe_of, upload_of,
};
use crate::text::without_line_break;

verus! {

/// The world outside, as far as the machines can ask about it.
pub ghost struct World {
    /// The places that exist.
    pub existing: Set<LocationModel>,
    /// The value of each environment variable, if it is set.
    pub env: spec_fn(Seq<char>) -> Option<Seq<char>>,
    /// How each command ends when it is run.
    pub exits: spec_fn(InvocationModel) -> ProcessOutcome,
    /// What each command prints when it is run.
    pub prints: spec_fn(InvocationModel) -> Seq<char>,
}

impl World {
    /// What this world answers to `action`. There is no answer to
    /// [`ActionModel::Halt`]; the event given for it means nothing.
    pub open spec fn answer(self, action: ActionModel) -> EventModel {
        match action {
            ActionModel::CheckExists(place) => EventModel::Exists(self.existing.contains(place)),
            ActionModel::ReadEnv(name) => EventModel::Env((self.env)(name)),
            ActionModel::CreateDir(_) => EventModel::Finished,
            ActionModel::WriteFile { .. } => EventModel::Finished,
            ActionModel::RunQuiet(invocation) => EventModel::Exit((self.exits)(invocation)),
            ActionModel::Capture(invocation) => EventModel::Captured {
                outcome: (self.exits)(invocation),
                output: (self.prints)(invocation),
            },
            ActionModel::Run(invocation) => EventModel::Exit((self.exits)(invocation)),
            ActionModel::Attach { invocation, .. } => EventModel::Exit((self.exits)(invocation)),
            ActionModel::Halt => EventModel::Finished,
        }
    }

    /// Whether `place` is fit to serve as a resource of this kind: the
    /// uploader's directory holds the driver script, the debug adapter
    /// starts. An image needs nothing further.
    pub open spec fn fit(self, kind: ResourceKind, place: LocationModel) -> bool {
        match kind {
            ResourceKind::Artifact => true,
            ResourceKind::UploaderDir => self.existing.contains(driver_script_of(place)),
            ResourceKind::DebugAdapterExec => (self.exits)(probe_of(place)).started(),
        }
    }

    /// The resource at `place`, supplied by `tier` after `attempted` was
    /// tried, if the place is fit; the failure of the search if not.
    pub open spec fn taken_if_fit(
        self,
        kind: ResourceKind,
        place: LocationModel,
        tier: Tier,
        attempted: TierSet,
    ) -> Result<ResolvedModel, ResolutionError> {
        if self.fit(kind, place) {
            Ok(ResolvedModel { kind, path: place, provenance: tier })
        } else {
            Err(ResolutionError { kind, attempted })
        }
    }

    /// Where a resource of this kind is, in this world.
    ///
    /// A path the caller named is the only candidate: it must exist, if it
    /// names a file or a directory, and be fit. Otherwise the value of the
    /// resource's variable is the candidate if the variable is set, and
    /// only needs to be fit. Otherwise the usual place in the project is,
    /// and must exist and be fit; for the debug adapter it is the line the
    /// system's lookup prints, without its line break, if the lookup
    /// succeeds and the line is not empty. An image has no variable. The error names the tiers that
    /// were gone through.
    pub open spec fn resolve(
        self,
        kind: ResourceKind,
        override_path: Option<Seq<char>>,
        root: Seq<char>,
    ) -> Result<ResolvedModel, ResolutionError> {
        let first = TierSet::only(Tier::Override);
        let second = TierSet::only(Tier::EnvVar);
        match (override_path, kind) {
            (Some(path), ResourceKind::DebugAdapterExec) => self.taken_if_fit(
                kind,
                LocationModel::at(path),
                Tier::Override,
                first,
            ),
            (Some(path), _) => if self.existing.contains(LocationModel::at(path)) {
                self.taken_if_fit(kind, LocationModel::at(path), Tier::Override, first)
            } else {
                Err(ResolutionError { kind, attempted: first })
            },
            (None, ResourceKind::Artifact) => if self.existing.contains(
                default_artifact_of(root),
            ) {
                Ok(
                    ResolvedModel {
                        kind,
                        path: default_artifact_of(root),
                        provenance: Tier::ProjectDefault,
                    },
                )
            } else {
                Err(ResolutionError { kind, attempted: TierSet::only(Tier::ProjectDefault) })
            },
            (None, ResourceKind::UploaderDir) => match (self.env)(UPLOADER_ENV@) {
                Some(value) => self.taken_if_fit(
                    kind,
                    LocationModel::at(value),
                    Tier::EnvVar,
                    second,
                ),
                None => if self.existing.contains(default_uploader_of(root)) {
                    self.taken_if_fit(
                        kind,
                        default_uploader_of(root),
                        Tier::ProjectDefault,
                        second.plus(Tier::ProjectDefault),
                    )
                } else {
                    Err(ResolutionError { kind, attempted: second.plus(Tier::ProjectDefault) })
                },
            },
            (None, ResourceKind::DebugAdapterExec) => match (self.env)(ADAPTER_ENV@) {
                Some(value) => self.taken_if_fit(
                    kind,
                    LocationModel::at(value),
                    Tier::EnvVar,
                    second,
                ),
                None => if (self.exits)(lookup_of(ADAPTER_COMMAND@)).succeeded()
                    && without_line_break((self.prints)(lookup_of(ADAPTER_COMMAND@))).len() > 0 {
                    self.taken_if_fit(
                        kind,
                        LocationModel::at(
                            without_line_break((self.prints)(lookup_of(ADAPTER_COMMAND@))),
                        ),
                        Tier::SystemLookup,
                        second.plus(Tier::SystemLookup),
                    )
                } else {
                    Err(ResolutionError { kind, attempted: second.plus(Tier::SystemLookup) })
                },
            },
        }
    }

    /// The image a run for `request` comes to flash in this world, or the
    /// stage and reason it is given up for before it has one.
    ///
    /// An image to reuse must be there. Any other is made: the conversion
    /// tool must start when probed, and the conversion must report
    /// success.
    pub open spec fn image(self, request: RequestModel) -> Result<ResolvedModel, (Stage, RunError)> {
        if request.reuses_artifact() {
            match self.resolve(ResourceKind::Artifact, request.app_hex_path, request.project_dir) {
                Ok(artifact) => Ok(artifact),
                Err(error) => Err((Stage::Idle, RunError::Resolution(error))),
            }
        } else if !(self.exits)(probe_of(LocationModel::at(CONVERTER_COMMAND@))).started() {
            Err((Stage::Converting, RunError::PackageNotInstalled))
        } else if !(self.exits)(
            conversion_of(request.example, conversion_target(request).path),
        ).succeeded() {
            Err((Stage::Converting, RunError::ObjcopyFailed))
        } else {
            Ok(conversion_target(request))
        }
    }

    /// How the upload of `artifact` for `request` ends in this world, once
    /// the uploader and the debug adapter are found: the interpreter must
    /// start when probed, and the upload must report success. Then the
    /// run is done: without a debugger if none was named, and else
    /// whether or not the debugger could be started.
    pub open spec fn flash(
        self,
        request: RequestModel,
        artifact: ResolvedModel,
        uploader: ResolvedModel,
        adapter: ResolvedModel,
    ) -> PhaseModel {
        if !(self.exits)(probe_of(LocationModel::at(INTERPRETER_COMMAND@))).started() {
            PhaseModel::Failed { stage: Stage::Uploading, reason: RunError::PackageNotInstalled }
        } else if !(self.exits)(
            upload_of(request, uploader.path, adapter.path, artifact.path),
        ).succeeded() {
            PhaseModel::Failed { stage: Stage::Uploading, reason: RunError::UploadFailed }
        } else {
            match request.gdb_exec {
                None => PhaseModel::Done { notice: Some(RunError::NoGdbExec) },
                Some(debugger) => PhaseModel::Done {
                    notice: attach_verdict((self.exits)(debugger_of(debugger, artifact.path))),
                },
            }
        }
    }

    /// How a run for `request` ends in this world.
    ///
    /// A root without the marker file is no project. Then the image must
    /// be had, then the uploader found, then the debug adapter; the first
    /// of these that fails ends the run with its error. With all three the
    /// board is flashed.
    pub open spec fn end_of(self, request: RequestModel) -> PhaseModel {
        if !self.existing.contains(marker_of(request.project_dir)) {
            PhaseModel::Failed { stage: Stage::Idle, reason: RunError::NotAProject }
        } else {
            match self.image(request) {
                Err((stage, reason)) => PhaseModel::Failed { stage, reason },
                Ok(artifact) => match self.resolve(
                    ResourceKind::UploaderDir,
                    request.uploader_path,
                    request.project_dir,
                ) {
                    Err(error) => PhaseModel::Failed {
                        stage: Stage::Uploading,
                        reason: RunError::Resolution(error),
                    },
                    Ok(uploader) => match self.resolve(
                        ResourceKind::DebugAdapterExec,
                        request.openocd_path,
                        request.project_dir,
                    ) {
                        Err(error) => PhaseModel::Failed {
                            stage: Stage::Uploading,
                            reason: RunError::Resolution(error),
                        },
                        Ok(adapter) => self.flash(request, artifact, uploader, adapter),
                    },
                },
            }
        }
    }

    /// How the set-up of a project called `name` in `parent` ends in this
    /// world, and what is noted of it.
    ///
    /// A name that is taken ends it before anything is made. Each of the
    /// two dependencies must be added with success. After that nothing
    /// stops it: a variable that is not set is noted, and so is the way
    /// making the repository ends.
    pub open spec fn set_up(self, name: Seq<char>, parent: Seq<char>) -> (
        ScaffoldStep,
        ScaffoldNotes,
    ) {
        let project = LocationModel::at(parent).join(name);
        let nothing = ScaffoldModel::start(name, parent).notes;
        if self.existing.contains(project) {
            (ScaffoldStep::Failed(InitError::BadName), nothing)
        } else if !(self.exits)(cargo_add_of(project, HAL_REPOSITORY@, true)).succeeded() {
            (ScaffoldStep::Failed(InitError::FetchFailed), nothing)
        } else if !(self.exits)(cargo_add_of(project, RUNTIME_REPOSITORY@, true)).succeeded() {
            (ScaffoldStep::Failed(InitError::FetchFailed), nothing)
        } else {
            (
                ScaffoldStep::Done,
                ScaffoldNotes {
                    uploader_env_unset: (self.env)(UPLOADER_ENV@) is None,
                    adapter_env_unset: (self.env)(ADAPTER_ENV@) is None,
                    repository: Some((self.exits)(repo_init_of(project))),
                },
            )
        }
    }

    /// The set-up driven in this world for at most `fuel` questions.
    pub open spec fn drive_set_up(self, scaffold: ScaffoldModel, fuel: nat) -> ScaffoldModel
        decreases fuel,
    {
        if fuel == 0 || scaffold.result() is Some {
            scaffold
        } else {
            self.drive_set_up(scaffold.next(self.answer(scaffold.pending())), (fuel - 1) as nat)
        }
    }

    /// The set-up driven in this world to its end.
    pub open spec fn finish_set_up(self, scaffold: ScaffoldModel) -> ScaffoldModel {
        self.drive_set_up(scaffold, scaffold.questions_left())
    }

    /// The search driven in this world for at most `fuel` questions.
    pub open spec fn drive_search(self, search: ResolverModel, fuel: nat) -> ResolverModel
        decreases fuel,
    {
        if fuel == 0 || search.outcome() is Some {
            search
        } else {
            self.drive_search(search.next(self.answer(search.pending())), (fuel - 1) as nat)
        }
    }

    /// The search driven in this world to its end.
    pub open spec fn finish_search(self, search: ResolverModel) -> ResolverModel {
        self.drive_search(search, search.questions_left())
    }

    /// The run driven in this world for at most `fuel` questions.
    pub open spec fn drive_run(self, run: PipelineModel, fuel: nat) -> PipelineModel
        decreases fuel,
    {
        if fuel == 0 || run.result() is Some {
            run
        } else {
            self.drive_run(run.next(self.answer(run.pending())), (fuel - 1) as nat)
        }
    }

    /// The run driven in this world to its end.
    pub open spec fn finish_run(self, run: PipelineModel) -> PipelineModel {
        self.drive_run(run, run.questions_left())
    }
}

/// A world answers every question with an event of the kind the question
/// calls for.
pub proof fn world_answers_in_kind(world: World, action: ActionModel)
    requires
        action != ActionModel::Halt,
    ensures
        action.answered_by(world.answer(action)),
{
}

/// Driving a search for longer than it has questions changes nothing: it
/// is over by then.
pub proof fn search_is_over_in_time(world: World, search: ResolverModel, fuel: nat)
    requires
        fuel >= search.questions_left(),
    ensures
        world.drive_search(search, fuel) == world.finish_search(search),
        world.finish_search(search).outcome() is Some,
    decreases fuel,
{
    if search.outcome() is None {
        let event = world.answer(search.pending());
        let moved = search.next(event);
        open_search_asks(search);
        world_answers_in_kind(world, search.pending());
        answer_advances_search(search, event);
        search_is_over_in_time(world, moved, (fuel - 1) as nat);
        search_is_over_in_time(world, moved, (search.questions_left() - 1) as nat);
    }
}

/// A search that is not over ends where its next step ends.
proof fn search_ends_where_its_next_step_does(world: World, search: ResolverModel)
    ensures
        search.outcome() is Some ==> world.finish_search(search) == search,
        search.outcome() is None ==> world.finish_search(search) == world.finish_search(
            search.next(world.answer(search.pending())),
        ),
{
    if search.outcome() is None {
        let event = world.answer(search.pending());
        open_search_asks(search);
        world_answers_in_kind(world, search.pending());
        answer_advances_search(search, event);
        search_is_over_in_time(
            world,
            search.next(event),
            (search.questions_left() - 1) as nat,
        );
    }
}

/// A search finds what the world holds.
///
/// Begin a search and answer each of its questions as the world has it.
/// After at most three questions the search is over, and its outcome is
/// what [`World::resolve`] says of the world: the resource with the tier
/// that supplies it, or the error with the tiers gone through.
pub proof fn search_finds_what_the_world_holds(
    world: World,
    kind: ResourceKind,
    override_path: Option<Seq<char>>,
    root: Seq<char>,
)
    ensures
        world.finish_search(ResolverModel::start(kind, override_path, root)).outcome() == Some(
            world.resolve(kind, override_path, root),
        ),
{
    let begin = ResolverModel::start(kind, override_path, root);
    search_ends_where_its_next_step_does(world, begin);
    let second = begin.next(world.answer(begin.pending()));
    search_ends_where_its_next_step_does(world, second);
    let third = second.next(world.answer(second.pending()));
    search_ends_where_its_next_step_does(world, third);
    let fourth = third.next(world.answer(third.pending()));
    search_ends_where_its_next_step_does(world, fourth);
}

/// Driving a run for longer than it has questions changes nothing: it is
/// over by then.
pub proof fn run_is_over_in_time(world: World, run: PipelineModel, fuel: nat)
    requires
        run.coherent(),
        fuel >= run.questions_left(),
    ensures
        world.drive_run(run, fuel) == world.finish_run(run),
        world.finish_run(run).result() is Some,
    decreases fuel,
{
    if run.result() is None {
        let event = world.answer(run.pending());
        let moved = run.next(event);
        coherent_run_asks(run);
        world_answers_in_kind(world, run.pending());
        answer_advances_run(run, event);
        step_goes_forward(run, event);
        run_is_over_in_time(world, moved, (fuel - 1) as nat);
        run_is_over_in_time(world, moved, (run.questions_left() - 1) as nat);
    }
}

/// A run that is not over ends where its next step ends.
proof fn run_ends_where_its_next_step_does(world: World, run: PipelineModel)
    requires
        run.coherent(),
    ensures
        run.result() is Some ==> world.finish_run(run) == run,
        run.result() is None ==> world.finish_run(run) == world.finish_run(
            run.next(world.answer(run.pending())),
        ),
        run.next(world.answer(run.pending())).coherent(),
        run.next(world.answer(run.pending())).request == run.request,
{
    let event = world.answer(run.pending());
    step_goes_forward(run, event);
    if run.result() is None {
        coherent_run_asks(run);
        world_answers_in_kind(world, run.pending());
        answer_advances_run(run, event);
        run_is_over_in_time(world, run.next(event), (run.questions_left() - 1) as nat);
    }
}

/// Once the interpreter is to be probed, the run ends as the world has the
/// flashing end.
proof fn flashing_ends_as_the_world_has_it(world: World, run: PipelineModel)
    requires
        run.coherent(),
        run.phase is InterpreterProbe,
    ensures
        world.finish_run(run).phase == world.flash(
            run.request,
            run.artifact()->0,
            run.uploader()->0,
            run.adapter()->0,
        ),
{
    run_ends_where_its_next_step_does(world, run);
    let second = run.next(world.answer(run.pending()));
    run_ends_where_its_next_step_does(world, second);
    let third = second.next(world.answer(second.pending()));
    run_ends_where_its_next_step_does(world, third);
    let fourth = third.next(world.answer(third.pending()));
    run_ends_where_its_next_step_does(world, fourth);
}

/// While the debug adapter is sought, the run ends as the world has the
/// search and then the flashing end.
proof fn adapter_search_ends_as_the_world_has_it(world: World, run: PipelineModel)
    requires
        run.coherent(),
        run.phase is AdapterSearch,
    ensures
        world.finish_run(run).phase == match world.finish_search(
            run.phase->AdapterSearch_search,
        ).outcome() {
            Some(Ok(adapter)) => world.flash(
                run.request,
                run.artifact()->0,
                run.uploader()->0,
                adapter,
            ),
            Some(Err(error)) => PhaseModel::Failed {
                stage: Stage::Uploading,
                reason: RunError::Resolution(error),
            },
            None => world.finish_run(run).phase,
        },
    decreases run.phase->AdapterSearch_search.questions_left(),
{
    let search = run.phase->AdapterSearch_search;
    let event = world.answer(search.pending());
    let moved = run.next(event);
    run_ends_where_its_next_step_does(world, run);
    search_ends_where_its_next_step_does(world, search);
    search_ends_where_its_next_step_does(world, search.next(event));
    open_search_asks(search);
    world_answers_in_kind(world, search.pending());
    answer_advances_search(search, event);
    if search.next(event).outcome() is None {
        adapter_search_ends_as_the_world_has_it(world, moved);
    } else {
        run_ends_where_its_next_step_does(world, moved);
        if moved.phase is InterpreterProbe {
            flashing_ends_as_the_world_has_it(world, moved);
        }
    }
}

/// While the uploader is sought, the run ends as the world has that
/// search, then the search for the debug adapter, then the flashing end.
proof fn uploader_search_ends_as_the_world_has_it(world: World, run: PipelineModel)
    requires
        run.coherent(),
        run.phase is UploaderSearch,
    ensures
        world.finish_run(run).phase == match world.finish_search(
            run.phase->UploaderSearch_search,
        ).outcome() {
            Some(Ok(uploader)) => match world.resolve(
                ResourceKind::DebugAdapterExec,
                run.request.openocd_path,
                run.request.project_dir,
            ) {
                Ok(adapter) => world.flash(run.request, run.artifact()->0, uploader, adapter),
                Err(error) => PhaseModel::Failed {
                    stage: Stage::Uploading,
                    reason: RunError::Resolution(error),
                },
            },
            Some(Err(error)) => PhaseModel::Failed {
                stage: Stage::Uploading,
                reason: RunError::Resolution(error),
            },
            None => world.finish_run(run).phase,
        },
    decreases run.phase->UploaderSearch_search.questions_left(),
{
    let search = run.phase->UploaderSearch_search;
    let event = world.answer(search.pending());
    let moved = run.next(event);
    run_ends_where_its_next_step_does(world, run);
    search_ends_where_its_next_step_does(world, search);
    search_ends_where_its_next_step_does(world, search.next(event));
    open_search_asks(search);
    world_answers_in_kind(world, search.pending());
    answer_advances_search(search, event);
    if search.next(event).outcome() is None {
        uploader_search_ends_as_the_world_has_it(world, moved);
    } else {
        run_ends_where_its_next_step_does(world, moved);
        if moved.phase is AdapterSearch {
            adapter_search_ends_as_the_world_has_it(world, moved);
            search_finds_what_the_world_holds(
                world,
                ResourceKind::DebugAdapterExec,
                run.request.openocd_path,
                run.request.project_dir,
            );
        }
    }
}

/// Once a run has its image, it ends as the world has the two searches
/// and the flashing end.
proof fn upload_ends_as_the_world_has_it(
    world: World,
    request: RequestModel,
    artifact: ResolvedModel,
)
    requires
        artifact.kind == ResourceKind::Artifact,
    ensures
        world.finish_run(
            PipelineModel { request, phase: PipelineModel::uploading(request, artifact) },
        ).phase == match world.resolve(
            ResourceKind::UploaderDir,
            request.uploader_path,
            request.project_dir,
        ) {
            Err(error) => PhaseModel::Failed {
                stage: Stage::Uploading,
                reason: RunError::Resolution(error),
            },
            Ok(uploader) => match world.resolve(
                ResourceKind::DebugAdapterExec,
                request.openocd_path,
                request.project_dir,
            ) {
                Err(error) => PhaseModel::Failed {
                    stage: Stage::Uploading,
                    reason: RunError::Resolution(error),
                },
                Ok(adapter) => world.flash(request, artifact, uploader, adapter),
            },
        },
{
    let run = PipelineModel { request, phase: PipelineModel::uploading(request, artifact) };
    start_is_in_order(
        ResourceKind::UploaderDir,
        request.uploader_path,
        request.project_dir,
    );
    uploader_search_ends_as_the_world_has_it(world, run);
    search_finds_what_the_world_holds(
        world,
        ResourceKind::UploaderDir,
        request.uploader_path,
        request.project_dir,
    );
}

/// A run ends as the world has it.
///
/// Begin a run for any request and answer each of its questions as the
/// world has it. After at most twelve questions the run is over, and it
/// has ended as [`World::end_of`] says of the world: given up at the first
/// thing that is missing or fails, and done otherwise.
pub proof fn run_ends_as_the_world_has_it(world: World, request: RequestModel)
    ensures
        world.finish_run(PipelineModel::start(request)).phase == world.end_of(request),
        world.finish_run(PipelineModel::start(request)) == world.drive_run(
            PipelineModel::start(request),
            12,
        ),
        world.finish_run(PipelineModel::start(request)).request == request,
{
    let begin = PipelineModel::start(request);
    start_is_coherent(request);
    run_is_over_in_time(world, begin, 12);
    finished_run_keeps_its_request(world, begin, 12);
    run_ends_where_its_next_step_does(world, begin);
    let second = begin.next(world.answer(begin.pending()));
    if world.existing.contains(marker_of(request.project_dir)) {
        if request.reuses_artifact() {
            run_ends_where_its_next_step_does(world, second);
            let search = ResolverModel::start(
                ResourceKind::Artifact,
                request.app_hex_path,
                request.project_dir,
            );
            search_finds_what_the_world_holds(
                world,
                ResourceKind::Artifact,
                request.app_hex_path,
                request.project_dir,
            );
            search_ends_where_its_next_step_does(world, search);
            let found = search.next(world.answer(search.pending()));
            search_ends_where_its_next_step_does(world, found);
            let third = second.next(world.answer(second.pending()));
            run_ends_where_its_next_step_does(world, third);
            match found.outcome() {
                Some(Ok(artifact)) => {
                    upload_ends_as_the_world_has_it(world, request, artifact);
                },
                _ => {},
            }
        } else {
            run_ends_where_its_next_step_does(world, second);
            let third = second.next(world.answer(second.pending()));
            run_ends_where_its_next_step_does(world, third);
            let fourth = third.next(world.answer(third.pending()));
            run_ends_where_its_next_step_does(world, fourth);
            upload_ends_as_the_world_has_it(world, request, conversion_target(request));
        }
    } else {
        run_ends_where_its_next_step_does(world, second);
    }
}

/// Driving a run does not change what was asked for.
proof fn finished_run_keeps_its_request(world: World, run: PipelineModel, fuel: nat)
    ensures
        world.drive_run(run, fuel).request == run.request,
    decreases fuel,
{
    if fuel > 0 && run.result() is None {
        step_goes_forward(run, world.answer(run.pending()));
        finished_run_keeps_its_request(
            world,
            run.next(world.answer(run.pending())),
            (fuel - 1) as nat,
        );
    }
}

/// Driving a set-up for longer than it has questions changes nothing: it
/// is over by then.
pub proof fn set_up_is_over_in_time(world: World, scaffold: ScaffoldModel, fuel: nat)
    requires
        fuel >= scaffold.questions_left(),
    ensures
        world.drive_set_up(scaffold, fuel) == world.finish_set_up(scaffold),
        world.finish_set_up(scaffold).result() is Some,
    decreases fuel,
{
    if scaffold.result() is None {
        let event = world.answer(scaffold.pending());
        let moved = scaffold.next(event);
        world_answers_in_kind(world, scaffold.pending());
        set_up_moves_only_on_answers(scaffold, event);
        set_up_is_over_in_time(world, moved, (fuel - 1) as nat);
        set_up_is_over_in_time(world, moved, (scaffold.questions_left() - 1) as nat);
    }
}

/// A set-up that is not over ends where its next step ends.
proof fn set_up_ends_where_its_next_step_does(world: World, scaffold: ScaffoldModel)
    ensures
        scaffold.result() is Some ==> world.finish_set_up(scaffold) == scaffold,
        scaffold.result() is None ==> world.finish_set_up(scaffold) == world.finish_set_up(
            scaffold.next(world.answer(scaffold.pending())),
        ),
{
    if scaffold.result() is None {
        let event = world.answer(scaffold.pending());
        world_answers_in_kind(world, scaffold.pending());
        set_up_moves_only_on_answers(scaffold, event);
        set_up_is_over_in_time(
            world,
            scaffold.next(event),
            (scaffold.questions_left() - 1) as nat,
        );
    }
}

/// A set-up that has its directories and files ends as the world has the
/// dependencies, the variables and the repository.
proof fn set_up_ends_after_the_files(world: World, scaffold: ScaffoldModel)
    requires
        scaffold.step == ScaffoldStep::AddHal,
        scaffold.notes == ScaffoldModel::start(scaffold.name, scaffold.parent).notes,
        !world.existing.contains(scaffold.project()),
    ensures
        world.finish_set_up(scaffold).step == world.set_up(scaffold.name, scaffold.parent).0,
        world.finish_set_up(scaffold).notes == world.set_up(scaffold.name, scaffold.parent).1,
{
    set_up_ends_where_its_next_step_does(world, scaffold);
    let second = scaffold.next(world.answer(scaffold.pending()));
    set_up_ends_where_its_next_step_does(world, second);
    let third = second.next(world.answer(second.pending()));
    set_up_ends_where_its_next_step_does(world, third);
    let fourth = third.next(world.answer(third.pending()));
    set_up_ends_where_its_next_step_does(world, fourth);
    let fifth = fourth.next(world.answer(fourth.pending()));
    set_up_ends_where_its_next_step_does(world, fifth);
    let sixth = fifth.next(world.answer(fifth.pending()));
    set_up_ends_where_its_next_step_does(world, sixth);
}

/// A set-up ends as the world has it.
///
/// Begin the set-up of a project and answer each of its questions as the
/// world has it. After at most twelve questions the set-up is over, and
/// it has ended, with the notes, as [`World::set_up`] says of the world.
pub proof fn set_up_ends_as_the_world_has_it(world: World, name: Seq<char>, parent: Seq<char>)
    ensures
        world.finish_set_up(ScaffoldModel::start(name, parent)).step == world.set_up(
            name,
            parent,
        ).0,
        world.finish_set_up(ScaffoldModel::start(name, parent)).notes == world.set_up(
            name,
            parent,
        ).1,
        world.finish_set_up(ScaffoldModel::start(name, parent)) == world.drive_set_up(
            ScaffoldModel::start(name, parent),
            12,
        ),
{
    let begin = ScaffoldModel::start(name, parent);
    set_up_ends_where_its_next_step_does(world, begin);
    let second = begin.next(world.answer(begin.pending()));
    set_up_ends_where_its_next_step_does(world, second);
    let third = second.next(world.answer(second.pending()));
    set_up_ends_where_its_next_step_does(world, third);
    let fourth = third.next(world.answer(third.pending()));
    set_up_ends_where_its_next_step_does(world, fourth);
    let fifth = fourth.next(world.answer(fourth.pending()));
    set_up_ends_where_its_next_step_does(world, fifth);
    let sixth = fifth.next(world.answer(fifth.pending()));
    set_up_ends_where_its_next_step_does(world, sixth);
    let seventh = sixth.next(world.answer(sixth.pending()));
    set_up_ends_where_its_next_step_does(world, seventh);
    let eighth = seventh.next(world.answer(seventh.pending()));
    if !world.existing.contains(begin.project()) {
        set_up_ends_after_the_files(world, eighth);
    }
}

} // verus!
