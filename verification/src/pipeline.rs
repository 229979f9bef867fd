//! The run as a whole: convert, upload, attach, in that order, each stage
//! only after the one before it went well.
//!
//! A [`Pipeline`] is driven like a [`Resolver`]: it holds one open
//! question, [`Pipeline::pending`], and moves on when the answer comes in
//! through [`Pipeline::step`]. The first failure ends the run. Only the
//! debugger is optional: a run that flashed the board is done, with or
//! without a debugging session.

use vstd::prelude::*;
use crate::error::{ResolutionError, ResourceKind, RunError, Stage, Tier, TierSet};
use crate::layout::{
    default_artifact, default_artifact_of, marker, marker_of, CONVERTER_COMMAND,
    INTERPRETER_COMMAND,
};
use crate::location::{Location, LocationModel};
use crate::protocol::{
    tool_available, Action, ActionModel, Event, EventModel, ProcessOutcome,
};
use crate::request::{PipelineRequest, RequestModel};
use crate::resolver::{
    answer_advances_search, open_search_asks, start_is_in_order, step_keeps_order,
    stray_event_leaves_search, ResolvedModel, ResolvedResource, Resolver, ResolverModel,
};
use crate::stages::{
    attach_result, attach_verdict, conversion_invocation, conversion_of, conversion_result,
    conversion_verdict, debug_script, debugger_invocation, debugger_of, probe_invocation,
    probe_of, upload_invocation, upload_of, upload_result, upload_verdict, DEBUG_SCRIPT,
};
use crate::text::copy_opt;

verus! {

/// Where a run stands, as seen from outside.
#[derive(Clone, Copy, Debug, PartialEq, Eq, Structural)]
pub enum State {
    /// Nothing has been started yet.
    Idle,
    /// The image is being made.
    Converting,
    /// The image is being flashed, or what that needs is being found.
    Uploading,
    /// The debugger runs.
    Attaching,
    /// The board is flashed and the run is over.
    Done,
    /// The run was given up in this stage, for this reason.
    Failed(Stage, RunError),
}

/// Where a run stands, with all it has found so far.
#[derive(Debug, PartialEq, Eq)]
pub enum Phase {
    /// Waiting to hear whether the project root holds the marker file.
    MarkerCheck,
    /// An image is to be reused; waiting to hear whether it exists.
    ArtifactCheck(Resolver),
    /// Waiting to hear whether the conversion tool can be run.
    ConverterProbe { target: ResolvedResource },
    /// Waiting for the conversion to end.
    Conversion { target: ResolvedResource },
    /// Looking for the uploader's directory.
    UploaderSearch { artifact: ResolvedResource, search: Resolver },
    /// Looking for the debug adapter.
    AdapterSearch { artifact: ResolvedResource, uploader: ResolvedResource, search: Resolver },
    /// Waiting to hear whether the interpreter of the driver script can
    /// be run.
    InterpreterProbe {
        artifact: ResolvedResource,
        uploader: ResolvedResource,
        adapter: ResolvedResource,
    },
    /// Waiting for the upload to end.
    Upload { artifact: ResolvedResource, uploader: ResolvedResource, adapter: ResolvedResource },
    /// Waiting for the debugger to end.
    Debugging { debugger: String, artifact: ResolvedResource },
    /// Over, the board flashed. The notice says why no debugging session
    /// took place, if none did.
    Done { notice: Option<RunError> },
    /// Given up.
    Failed { stage: Stage, reason: RunError },
}

/// What a [`Phase`] says, as plain sequences.
pub ghost enum PhaseModel {
    MarkerCheck,
    ArtifactCheck(ResolverModel),
    ConverterProbe { target: ResolvedModel },
    Conversion { target: ResolvedModel },
    UploaderSearch { artifact: ResolvedModel, search: ResolverModel },
    AdapterSearch { artifact: ResolvedModel, uploader: ResolvedModel, search: ResolverModel },
    InterpreterProbe { artifact: ResolvedModel, uploader: ResolvedModel, adapter: ResolvedModel },
    Upload { artifact: ResolvedModel, uploader: ResolvedModel, adapter: ResolvedModel },
    Debugging { debugger: Seq<char>, artifact: ResolvedModel },
    Done { notice: Option<RunError> },
    Failed { stage: Stage, reason: RunError },
}

impl View for Phase {
    type V = PhaseModel;

    open spec fn view(&self) -> PhaseModel {
        match self {
            Phase::MarkerCheck => PhaseModel::MarkerCheck,
            Phase::ArtifactCheck(search) => PhaseModel::ArtifactCheck(search@),
            Phase::ConverterProbe { target } => PhaseModel::ConverterProbe { target: target@ },
            Phase::Conversion { target } => PhaseModel::Conversion { target: target@ },
            Phase::UploaderSearch { artifact, search } => PhaseModel::UploaderSearch {
                artifact: artifact@,
                search: search@,
            },
            Phase::AdapterSearch { artifact, uploader, search } => PhaseModel::AdapterSearch {
                artifact: artifact@,
                uploader: uploader@,
                search: search@,
            },
            Phase::InterpreterProbe { artifact, uploader, adapter } => PhaseModel::InterpreterProbe {
                artifact: artifact@,
                uploader: uploader@,
                adapter: adapter@,
            },
            Phase::Upload { artifact, uploader, adapter } => PhaseModel::Upload {
                artifact: artifact@,
                uploader: uploader@,
                adapter: adapter@,
            },
            Phase::Debugging { debugger, artifact } => PhaseModel::Debugging {
                debugger: debugger@,
                artifact: artifact@,
            },
            Phase::Done { notice } => PhaseModel::Done { notice: *notice },
            Phase::Failed { stage, reason } => PhaseModel::Failed {
                stage: *stage,
                reason: *reason,
            },
        }
    }
}

/// One run of the pipeline.
#[derive(Debug, PartialEq, Eq)]
pub struct Pipeline {
    /// What was asked for. It stays as it was when the run began.
    pub request: PipelineRequest,
    pub phase: Phase,
}

/// What a [`Pipeline`] says, as plain sequences.
pub ghost struct PipelineModel {
    pub request: RequestModel,
    pub phase: PhaseModel,
}

impl View for Pipeline {
    type V = PipelineModel;

    open spec fn view(&self) -> PipelineModel {
        PipelineModel { request: self.request@, phase: self.phase@ }
    }
}

/// The image the conversion is to write: the path the request names, or
/// the usual place in the project.
pub open spec fn conversion_target(request: RequestModel) -> ResolvedModel {
    match request.app_hex_path {
        Some(path) => ResolvedModel {
            kind: ResourceKind::Artifact,
            path: LocationModel::at(path),
            provenance: Tier::Override,
        },
        None => ResolvedModel {
            kind: ResourceKind::Artifact,
            path: default_artifact_of(request.project_dir),
            provenance: Tier::ProjectDefault,
        },
    }
}

impl PipelineModel {
    /// The run as it begins: with the question whether the project root
    /// holds the marker file.
    pub open spec fn start(request: RequestModel) -> PipelineModel {
        PipelineModel { request, phase: PhaseModel::MarkerCheck }
    }

    /// The run in another phase, for the same request.
    pub open spec fn at_phase(self, phase: PhaseModel) -> PipelineModel {
        PipelineModel { phase, ..self }
    }

    /// The run given up in `stage` for `reason`.
    pub open spec fn fail(self, stage: Stage, reason: RunError) -> PipelineModel {
        self.at_phase(PhaseModel::Failed { stage, reason })
    }

    /// The phase a run enters once its root is known to be a project.
    /// With an image to reuse the conversion is left out and the image is
    /// asked for by existence; otherwise the conversion begins, with the
    /// probe of its tool.
    pub open spec fn converting(request: RequestModel) -> PhaseModel {
        if request.reuses_artifact() {
            PhaseModel::ArtifactCheck(
                ResolverModel::start(
                    ResourceKind::Artifact,
                    request.app_hex_path,
                    request.project_dir,
                ),
            )
        } else {
            PhaseModel::ConverterProbe { target: conversion_target(request) }
        }
    }

    /// The phase a run enters once the image is there: the upload, which
    /// begins with the search for the uploader's directory.
    pub open spec fn uploading(request: RequestModel, artifact: ResolvedModel) -> PhaseModel {
        PhaseModel::UploaderSearch {
            artifact,
            search: ResolverModel::start(
                ResourceKind::UploaderDir,
                request.uploader_path,
                request.project_dir,
            ),
        }
    }

    /// The phase a run enters once the uploader is found: the search for
    /// the debug adapter.
    pub open spec fn seeking_adapter(
        request: RequestModel,
        artifact: ResolvedModel,
        uploader: ResolvedModel,
    ) -> PhaseModel {
        PhaseModel::AdapterSearch {
            artifact,
            uploader,
            search: ResolverModel::start(
                ResourceKind::DebugAdapterExec,
                request.openocd_path,
                request.project_dir,
            ),
        }
    }

    /// The phase a run enters once the board is flashed: the debugger if
    /// one was named. If none was, the run is done, with a notice that
    /// says so.
    pub open spec fn attaching(request: RequestModel, artifact: ResolvedModel) -> PhaseModel {
        match request.gdb_exec {
            Some(debugger) => PhaseModel::Debugging { debugger, artifact },
            None => PhaseModel::Done { notice: Some(RunError::NoGdbExec) },
        }
    }

    /// Where the run stands, as seen from outside.
    pub open spec fn state(self) -> State {
        match self.phase {
            PhaseModel::MarkerCheck => State::Idle,
            PhaseModel::ArtifactCheck(_) => State::Idle,
            PhaseModel::ConverterProbe { .. } => State::Converting,
            PhaseModel::Conversion { .. } => State::Converting,
            PhaseModel::UploaderSearch { .. } => State::Uploading,
            PhaseModel::AdapterSearch { .. } => State::Uploading,
            PhaseModel::InterpreterProbe { .. } => State::Uploading,
            PhaseModel::Upload { .. } => State::Uploading,
            PhaseModel::Debugging { .. } => State::Attaching,
            PhaseModel::Done { .. } => State::Done,
            PhaseModel::Failed { stage, reason } => State::Failed(stage, reason),
        }
    }

    /// The open question.
    pub open spec fn pending(self) -> ActionModel {
        match self.phase {
            PhaseModel::MarkerCheck => ActionModel::CheckExists(
                marker_of(self.request.project_dir),
            ),
            PhaseModel::ArtifactCheck(search) => search.pending(),
            PhaseModel::ConverterProbe { .. } => ActionModel::RunQuiet(
                probe_of(LocationModel::at(CONVERTER_COMMAND@)),
            ),
            PhaseModel::Conversion { target } => ActionModel::Run(
                conversion_of(self.request.example, target.path),
            ),
            PhaseModel::UploaderSearch { search, .. } => search.pending(),
            PhaseModel::AdapterSearch { search, .. } => search.pending(),
            PhaseModel::InterpreterProbe { .. } => ActionModel::RunQuiet(
                probe_of(LocationModel::at(INTERPRETER_COMMAND@)),
            ),
            PhaseModel::Upload { artifact, uploader, adapter } => ActionModel::Run(
                upload_of(self.request, uploader.path, adapter.path, artifact.path),
            ),
            PhaseModel::Debugging { debugger, artifact } => ActionModel::Attach {
                invocation: debugger_of(debugger, artifact.path),
                script: DEBUG_SCRIPT@,
            },
            PhaseModel::Done { .. } => ActionModel::Halt,
            PhaseModel::Failed { .. } => ActionModel::Halt,
        }
    }

    /// The run after `event`.
    ///
    /// An event that does not answer the open question changes nothing,
    /// and nothing changes a run that is over. A root without the marker
    /// file is no project. A search hands on what it found or fails the
    /// run with its error. A tool that cannot be probed is not installed.
    /// A conversion or an upload that does not report success fails the
    /// run. A debugger, however it ends, leaves the run done.
    pub open spec fn next(self, event: EventModel) -> PipelineModel {
        match (self.phase, event) {
            (PhaseModel::MarkerCheck, EventModel::Exists(found)) => if found {
                self.at_phase(Self::converting(self.request))
            } else {
                self.fail(Stage::Idle, RunError::NotAProject)
            },
            (PhaseModel::ArtifactCheck(search), _) => match search.next(event).outcome() {
                Some(Ok(artifact)) => self.at_phase(Self::uploading(self.request, artifact)),
                Some(Err(error)) => self.fail(Stage::Idle, RunError::Resolution(error)),
                None => self.at_phase(PhaseModel::ArtifactCheck(search.next(event))),
            },
            (PhaseModel::ConverterProbe { target }, EventModel::Exit(outcome)) => if
                outcome.started() {
                self.at_phase(PhaseModel::Conversion { target })
            } else {
                self.fail(Stage::Converting, RunError::PackageNotInstalled)
            },
            (PhaseModel::Conversion { target }, EventModel::Exit(outcome)) => match
                conversion_verdict(outcome) {
                Ok(_) => self.at_phase(Self::uploading(self.request, target)),
                Err(reason) => self.fail(Stage::Converting, reason),
            },
            (PhaseModel::UploaderSearch { artifact, search }, _) => match search.next(
                event,
            ).outcome() {
                Some(Ok(uploader)) => self.at_phase(
                    Self::seeking_adapter(self.request, artifact, uploader),
                ),
                Some(Err(error)) => self.fail(Stage::Uploading, RunError::Resolution(error)),
                None => self.at_phase(
                    PhaseModel::UploaderSearch { artifact, search: search.next(event) },
                ),
            },
            (PhaseModel::AdapterSearch { artifact, uploader, search }, _) => match search.next(
                event,
            ).outcome() {
                Some(Ok(adapter)) => self.at_phase(
                    PhaseModel::InterpreterProbe { artifact, uploader, adapter },
                ),
                Some(Err(error)) => self.fail(Stage::Uploading, RunError::Resolution(error)),
                None => self.at_phase(
                    PhaseModel::AdapterSearch { artifact, uploader, search: search.next(event) },
                ),
            },
            (
                PhaseModel::InterpreterProbe { artifact, uploader, adapter },
                EventModel::Exit(outcome),
            ) => if outcome.started() {
                self.at_phase(PhaseModel::Upload { artifact, uploader, adapter })
            } else {
                self.fail(Stage::Uploading, RunError::PackageNotInstalled)
            },
            (PhaseModel::Upload { artifact, .. }, EventModel::Exit(outcome)) => match
                upload_verdict(outcome) {
                Ok(_) => self.at_phase(Self::attaching(self.request, artifact)),
                Err(reason) => self.fail(Stage::Uploading, reason),
            },
            (PhaseModel::Debugging { .. }, EventModel::Exit(outcome)) => self.at_phase(
                PhaseModel::Done { notice: attach_verdict(outcome) },
            ),
            _ => self,
        }
    }

    /// The run after each of `events` in turn.
    pub open spec fn run(self, events: Seq<EventModel>) -> PipelineModel
        decreases events.len(),
    {
        if events.len() == 0 {
            self
        } else {
            self.run(events.drop_last()).next(events.last())
        }
    }

    /// The run after the first `count` of `events`.
    pub open spec fn after(self, events: Seq<EventModel>, count: int) -> PipelineModel {
        self.run(events.take(count))
    }

    /// How the run ended, if it has: well, or with the reason it was given
    /// up for.
    pub open spec fn result(self) -> Option<Result<(), RunError>> {
        match self.phase {
            PhaseModel::Done { .. } => Some(Ok(())),
            PhaseModel::Failed { reason, .. } => Some(Err(reason)),
            _ => None,
        }
    }

    /// What is to be told of a run that is done: why no debugging session
    /// took place, if none did.
    pub open spec fn notice(self) -> Option<RunError> {
        match self.phase {
            PhaseModel::Done { notice } => notice,
            _ => None,
        }
    }

    /// How far the run has come. Phases are numbered in the order a run
    /// can pass through them; a run given up stands just behind the last
    /// phase of the stage it was given up in.
    pub open spec fn progress(self) -> int {
        match self.phase {
            PhaseModel::MarkerCheck => 0,
            PhaseModel::ArtifactCheck(_) => 1,
            PhaseModel::Failed { stage: Stage::Idle, .. } => 2,
            PhaseModel::ConverterProbe { .. } => 3,
            PhaseModel::Conversion { .. } => 4,
            PhaseModel::Failed { stage: Stage::Converting, .. } => 5,
            PhaseModel::UploaderSearch { .. } => 6,
            PhaseModel::AdapterSearch { .. } => 7,
            PhaseModel::InterpreterProbe { .. } => 8,
            PhaseModel::Upload { .. } => 9,
            PhaseModel::Failed { stage: Stage::Uploading, .. } => 10,
            PhaseModel::Debugging { .. } => 11,
            PhaseModel::Failed { stage: Stage::Attaching, .. } => 12,
            PhaseModel::Done { .. } => 13,
        }
    }

    /// The most questions the run may still ask, the open one included.
    pub open spec fn questions_left(self) -> nat {
        match self.phase {
            PhaseModel::MarkerCheck => 12,
            PhaseModel::ConverterProbe { .. } => 11,
            PhaseModel::Conversion { .. } => 10,
            PhaseModel::ArtifactCheck(search) => 9 + search.questions_left(),
            PhaseModel::UploaderSearch { search, .. } => 6 + search.questions_left(),
            PhaseModel::AdapterSearch { search, .. } => 3 + search.questions_left(),
            PhaseModel::InterpreterProbe { .. } => 3,
            PhaseModel::Upload { .. } => 2,
            PhaseModel::Debugging { .. } => 1,
            PhaseModel::Done { .. } => 0,
            PhaseModel::Failed { .. } => 0,
        }
    }

    /// Whether each of `events` is of the kind that answers the question
    /// open when it comes in.
    pub open spec fn answered_throughout(self, events: Seq<EventModel>) -> bool {
        forall|count: int|
            0 <= count < events.len() ==> (#[trigger] self.after(events, count)).pending().answered_by(
                events[count],
            )
    }

    /// Whether the run has an image to flash: it is in the upload or past
    /// it.
    pub open spec fn has_image(self) -> bool {
        self.progress() >= 6
    }

    /// Whether the run has flashed the board: it is at the debugger or
    /// done.
    pub open spec fn has_flashed(self) -> bool {
        self.phase is Debugging || self.phase is Done
    }

    /// Whether `event` settles the image in this phase: it reports a
    /// conversion that succeeded, or that the image to reuse exists.
    pub open spec fn settles_image(self, event: EventModel) -> bool {
        ||| self.phase is Conversion && event == EventModel::Exit(
            ProcessOutcome::Exited { success: true },
        )
        ||| self.phase is ArtifactCheck && self.request.reuses_artifact() && event
            == EventModel::Exists(true)
    }

    /// Whether `event` reports a successful upload in this phase.
    pub open spec fn completes_upload(self, event: EventModel) -> bool {
        self.phase is Upload && event == EventModel::Exit(ProcessOutcome::Exited { success: true })
    }

    /// The image the run holds, once it has one and while it goes on.
    pub open spec fn artifact(self) -> Option<ResolvedModel> {
        match self.phase {
            PhaseModel::UploaderSearch { artifact, .. } => Some(artifact),
            PhaseModel::AdapterSearch { artifact, .. } => Some(artifact),
            PhaseModel::InterpreterProbe { artifact, .. } => Some(artifact),
            PhaseModel::Upload { artifact, .. } => Some(artifact),
            PhaseModel::Debugging { artifact, .. } => Some(artifact),
            _ => None,
        }
    }

    /// The uploader's directory the run holds, from when it is found until
    /// the upload is over.
    pub open spec fn uploader(self) -> Option<ResolvedModel> {
        match self.phase {
            PhaseModel::AdapterSearch { uploader, .. } => Some(uploader),
            PhaseModel::InterpreterProbe { uploader, .. } => Some(uploader),
            PhaseModel::Upload { uploader, .. } => Some(uploader),
            _ => None,
        }
    }

    /// The debug adapter the run holds, from when it is found until the
    /// upload is over.
    pub open spec fn adapter(self) -> Option<ResolvedModel> {
        match self.phase {
            PhaseModel::InterpreterProbe { adapter, .. } => Some(adapter),
            PhaseModel::Upload { adapter, .. } => Some(adapter),
            _ => None,
        }
    }

    /// Whether what the run holds is of the kind it is held as.
    pub open spec fn holds_the_right_kinds(self) -> bool {
        &&& self.artifact() matches Some(artifact) ==> artifact.kind == ResourceKind::Artifact
        &&& self.uploader() matches Some(uploader) ==> uploader.kind == ResourceKind::UploaderDir
        &&& self.adapter() matches Some(adapter) ==> adapter.kind
            == ResourceKind::DebugAdapterExec
    }

    /// Every search inside the run is the one its phase calls for, and
    /// what the run holds is of the kind it is held as. A check
    /// of the image to reuse is made only when an image is to be reused,
    /// and is the search the run began with its request. A search for the
    /// uploader or the debug adapter is for that resource in this project,
    /// is in order, is still open, and has not left the first tier if the
    /// request names the resource.
    pub open spec fn coherent(self) -> bool {
        &&& self.holds_the_right_kinds()
        &&& self.searches_fit()
    }

    /// Every search inside the run is the one its phase calls for, and
    /// the conversion writes where the request says.
    pub open spec fn searches_fit(self) -> bool {
        match self.phase {
            PhaseModel::ConverterProbe { target } => target == conversion_target(self.request),
            PhaseModel::Conversion { target } => target == conversion_target(self.request),
            PhaseModel::ArtifactCheck(search) => {
                &&& self.request.reuses_artifact()
                &&& search == ResolverModel::start(
                    ResourceKind::Artifact,
                    self.request.app_hex_path,
                    self.request.project_dir,
                )
            },
            PhaseModel::UploaderSearch { search, .. } => {
                &&& search.kind == ResourceKind::UploaderDir
                &&& search.root == self.request.project_dir
                &&& search.in_order()
                &&& search.outcome() is None
                &&& self.request.uploader_path is Some ==> search.tier == Tier::Override
            },
            PhaseModel::AdapterSearch { search, .. } => {
                &&& search.kind == ResourceKind::DebugAdapterExec
                &&& search.root == self.request.project_dir
                &&& search.in_order()
                &&& search.outcome() is None
                &&& self.request.openocd_path is Some ==> search.tier == Tier::Override
            },
            _ => true,
        }
    }
}

/// The exit status a run that ended with `result` calls for: zero if the
/// board is flashed, one if the run was given up.
pub open spec fn exit_status(result: Result<(), RunError>) -> u8 {
    match result {
        Ok(_) => 0u8,
        Err(_) => 1u8,
    }
}

/// The exit status a run that ended with `result` calls for. It is zero
/// if and only if the run went through.
pub fn exit_code(result: Result<(), RunError>) -> (code: u8)
    ensures
        code == exit_status(result),
        code == 0 <==> result is Ok,
{
    match result {
        Ok(_) => 0,
        Err(_) => 1,
    }
}

/// The image the conversion is to write for `request`.
fn target_of(request: &PipelineRequest) -> (target: ResolvedResource)
    ensures
        target@ == conversion_target(request@),
{
    match &request.app_hex_path {
        Some(path) => ResolvedResource {
            kind: ResourceKind::Artifact,
            path: Location::new(path.clone()),
            provenance: Tier::Override,
        },
        None => ResolvedResource {
            kind: ResourceKind::Artifact,
            path: default_artifact(&request.project_dir),
            provenance: Tier::ProjectDefault,
        },
    }
}

impl Pipeline {
    /// Begins a run for `request`. Nothing has happened yet: the first
    /// question is whether the project root holds the marker file.
    pub fn new(request: PipelineRequest) -> (pipeline: Pipeline)
        ensures
            pipeline@ == PipelineModel::start(request@),
            pipeline@.coherent(),
    {
        Pipeline { request, phase: Phase::MarkerCheck }
    }

    fn converting(request: &PipelineRequest) -> (phase: Phase)
        ensures
            phase@ == PipelineModel::converting(request@),
    {
        if request.reuses_artifact() {
            Phase::ArtifactCheck(
                Resolver::start(
                    ResourceKind::Artifact,
                    copy_opt(&request.app_hex_path),
                    request.project_dir.clone(),
                ),
            )
        } else {
            Phase::ConverterProbe { target: target_of(request) }
        }
    }

    fn uploading(request: &PipelineRequest, artifact: ResolvedResource) -> (phase: Phase)
        ensures
            phase@ == PipelineModel::uploading(request@, artifact@),
    {
        Phase::UploaderSearch {
            artifact,
            search: Resolver::start(
                ResourceKind::UploaderDir,
                copy_opt(&request.uploader_path),
                request.project_dir.clone(),
            ),
        }
    }

    fn seeking_adapter(
        request: &PipelineRequest,
        artifact: ResolvedResource,
        uploader: ResolvedResource,
    ) -> (phase: Phase)
        ensures
            phase@ == PipelineModel::seeking_adapter(request@, artifact@, uploader@),
    {
        Phase::AdapterSearch {
            artifact,
            uploader,
            search: Resolver::start(
                ResourceKind::DebugAdapterExec,
                copy_opt(&request.openocd_path),
                request.project_dir.clone(),
            ),
        }
    }

    fn attaching(request: &PipelineRequest, artifact: ResolvedResource) -> (phase: Phase)
        ensures
            phase@ == PipelineModel::attaching(request@, artifact@),
    {
        match &request.gdb_exec {
            Some(debugger) => Phase::Debugging { debugger: debugger.clone(), artifact },
            None => Phase::Done { notice: Some(RunError::NoGdbExec) },
        }
    }

    /// Where the run stands, as seen from outside.
    pub fn state(&self) -> (state: State)
        ensures
            state == self@.state(),
    {
        match &self.phase {
            Phase::MarkerCheck => State::Idle,
            Phase::ArtifactCheck(_) => State::Idle,
            Phase::ConverterProbe { .. } => State::Converting,
            Phase::Conversion { .. } => State::Converting,
            Phase::UploaderSearch { .. } => State::Uploading,
            Phase::AdapterSearch { .. } => State::Uploading,
            Phase::InterpreterProbe { .. } => State::Uploading,
            Phase::Upload { .. } => State::Uploading,
            Phase::Debugging { .. } => State::Attaching,
            Phase::Done { .. } => State::Done,
            Phase::Failed { stage, reason } => State::Failed(*stage, *reason),
        }
    }

    /// How the run ended: `Ok` once the board is flashed, `Err` with the
    /// reason once the run is given up, `None` while it goes on.
    pub fn result(&self) -> (result: Option<Result<(), RunError>>)
        ensures
            result == self@.result(),
    {
        match &self.phase {
            Phase::Done { .. } => Some(Ok(())),
            Phase::Failed { reason, .. } => Some(Err(*reason)),
            _ => None,
        }
    }

    /// What is to be told of a run that is done: why no debugging session
    /// took place, if none did.
    pub fn notice(&self) -> (notice: Option<RunError>)
        ensures
            notice == self@.notice(),
    {
        match &self.phase {
            Phase::Done { notice } => *notice,
            _ => None,
        }
    }

    /// The open question: what the caller is to do next. It is
    /// [`Action::Halt`] once the run is over.
    pub fn pending(&self) -> (action: Action)
        ensures
            action@ == self@.pending(),
    {
        match &self.phase {
            Phase::MarkerCheck => Action::CheckExists(marker(&self.request.project_dir)),
            Phase::ArtifactCheck(search) => search.pending(),
            Phase::ConverterProbe { .. } => Action::RunQuiet(
                probe_invocation(Location::new(CONVERTER_COMMAND.to_owned())),
            ),
            Phase::Conversion { target } => Action::Run(
                conversion_invocation(&self.request.example, &target.path),
            ),
            Phase::UploaderSearch { search, .. } => search.pending(),
            Phase::AdapterSearch { search, .. } => search.pending(),
            Phase::InterpreterProbe { .. } => Action::RunQuiet(
                probe_invocation(Location::new(INTERPRETER_COMMAND.to_owned())),
            ),
            Phase::Upload { artifact, uploader, adapter } => Action::Run(
                upload_invocation(&self.request, &uploader.path, &adapter.path, &artifact.path),
            ),
            Phase::Debugging { debugger, artifact } => Action::Attach {
                invocation: debugger_invocation(debugger, &artifact.path),
                script: debug_script(),
            },
            Phase::Done { .. } => Action::Halt,
            Phase::Failed { .. } => Action::Halt,
        }
    }

    /// Takes in the answer to the open question and moves the run on. An
    /// event that answers another question leaves the run as it is, and so
    /// does any event once the run is over.
    pub fn step(self, event: Event) -> (next: Pipeline)
        ensures
            next@ == self@.next(event@),
            next@.request == self@.request,
            self@.coherent() ==> next@.coherent(),
    {
        proof {
            step_goes_forward(self@, event@);
        }
        self.advance(event)
    }

    fn advance(self, event: Event) -> (next: Pipeline)
        ensures
            next@ == self@.next(event@),
    {
        let Pipeline { request, phase } = self;
        let phase = match phase {
            Phase::MarkerCheck => match event {
                Event::Exists(true) => Self::converting(&request),
                Event::Exists(false) => Phase::Failed {
                    stage: Stage::Idle,
                    reason: RunError::NotAProject,
                },
                _ => Phase::MarkerCheck,
            },
            Phase::ArtifactCheck(search) => match search.step(event).finish() {
                Ok(Ok(artifact)) => Self::uploading(&request, artifact),
                Ok(Err(error)) => Phase::Failed {
                    stage: Stage::Idle,
                    reason: RunError::Resolution(error),
                },
                Err(open) => Phase::ArtifactCheck(open),
            },
            Phase::ConverterProbe { target } => match event {
                Event::Exit(outcome) => {
                    if tool_available(outcome) {
                        Phase::Conversion { target }
                    } else {
                        Phase::Failed {
                            stage: Stage::Converting,
                            reason: RunError::PackageNotInstalled,
                        }
                    }
                },
                _ => Phase::ConverterProbe { target },
            },
            Phase::Conversion { target } => match event {
                Event::Exit(outcome) => match conversion_result(outcome) {
                    Ok(_) => Self::uploading(&request, target),
                    Err(reason) => Phase::Failed { stage: Stage::Converting, reason },
                },
                _ => Phase::Conversion { target },
            },
            Phase::UploaderSearch { artifact, search } => match search.step(event).finish() {
                Ok(Ok(uploader)) => Self::seeking_adapter(&request, artifact, uploader),
                Ok(Err(error)) => Phase::Failed {
                    stage: Stage::Uploading,
                    reason: RunError::Resolution(error),
                },
                Err(open) => Phase::UploaderSearch { artifact, search: open },
            },
            Phase::AdapterSearch { artifact, uploader, search } => match search.step(
                event,
            ).finish() {
                Ok(Ok(adapter)) => Phase::InterpreterProbe { artifact, uploader, adapter },
                Ok(Err(error)) => Phase::Failed {
                    stage: Stage::Uploading,
                    reason: RunError::Resolution(error),
                },
                Err(open) => Phase::AdapterSearch { artifact, uploader, search: open },
            },
            Phase::InterpreterProbe { artifact, uploader, adapter } => match event {
                Event::Exit(outcome) => {
                    if tool_available(outcome) {
                        Phase::Upload { artifact, uploader, adapter }
                    } else {
                        Phase::Failed {
                            stage: Stage::Uploading,
                            reason: RunError::PackageNotInstalled,
                        }
                    }
                },
                _ => Phase::InterpreterProbe { artifact, uploader, adapter },
            },
            Phase::Upload { artifact, uploader, adapter } => match event {
                Event::Exit(outcome) => match upload_result(outcome) {
                    Ok(_) => Self::attaching(&request, artifact),
                    Err(reason) => Phase::Failed { stage: Stage::Uploading, reason },
                },
                _ => Phase::Upload { artifact, uploader, adapter },
            },
            Phase::Debugging { debugger, artifact } => match event {
                Event::Exit(outcome) => Phase::Done { notice: attach_result(outcome) },
                _ => Phase::Debugging { debugger, artifact },
            },
            Phase::Done { notice } => Phase::Done { notice },
            Phase::Failed { stage, reason } => Phase::Failed { stage, reason },
        };
        Pipeline { request, phase }
    }
}

/// A run that is over asks nothing more and stays as it is, whatever
/// comes in.
pub proof fn ended_run_is_final(state: PipelineModel, event: EventModel)
    requires
        state.result() is Some,
    ensures
        state.pending() == ActionModel::Halt,
        state.next(event) == state,
{
}

/// A run begins coherent.
pub proof fn start_is_coherent(request: RequestModel)
    ensures
        PipelineModel::start(request).coherent(),
{
}

/// One step keeps the request, keeps the run coherent, and never takes
/// the run back.
pub proof fn step_goes_forward(state: PipelineModel, event: EventModel)
    ensures
        state.next(event).request == state.request,
        state.progress() <= state.next(event).progress(),
        state.coherent() ==> state.next(event).coherent(),
{
    if state.coherent() {
        match state.phase {
            PhaseModel::UploaderSearch { search, .. } => {
                step_keeps_order(search, event);
            },
            PhaseModel::AdapterSearch { search, .. } => {
                step_keeps_order(search, event);
            },
            _ => {},
        }
        start_is_in_order(
            ResourceKind::UploaderDir,
            state.request.uploader_path,
            state.request.project_dir,
        );
        start_is_in_order(
            ResourceKind::DebugAdapterExec,
            state.request.openocd_path,
            state.request.project_dir,
        );
    }
}

/// What a run has found it keeps: while the run goes on, no step changes
/// the image it holds, and none changes the uploader or the debug adapter
/// as long as it holds one.
pub proof fn found_resources_are_kept(state: PipelineModel, event: EventModel)
    ensures
        state.artifact() is Some && state.next(event).result() is None ==> state.next(
            event,
        ).artifact() == state.artifact(),
        state.uploader() is Some && state.next(event).uploader() is Some ==> state.next(
            event,
        ).uploader() == state.uploader(),
        state.adapter() is Some && state.next(event).adapter() is Some ==> state.next(
            event,
        ).adapter() == state.adapter(),
{
}

/// An event that is not of the kind the open question calls for changes
/// nothing.
pub proof fn stray_event_leaves_run(state: PipelineModel, event: EventModel)
    requires
        state.coherent(),
        !state.pending().answered_by(event),
    ensures
        state.next(event) == state,
{
    match state.phase {
        PhaseModel::ArtifactCheck(search) => {
            stray_event_leaves_search(search, event);
        },
        PhaseModel::UploaderSearch { search, .. } => {
            stray_event_leaves_search(search, event);
        },
        PhaseModel::AdapterSearch { search, .. } => {
            stray_event_leaves_search(search, event);
        },
        _ => {},
    }
}

/// Every answer brings the run closer to its end.
pub proof fn answer_advances_run(state: PipelineModel, event: EventModel)
    requires
        state.coherent(),
        state.pending().answered_by(event),
    ensures
        state.next(event).questions_left() < state.questions_left(),
{
    match state.phase {
        PhaseModel::ArtifactCheck(search) => {
            answer_advances_search(search, event);
        },
        PhaseModel::UploaderSearch { search, .. } => {
            answer_advances_search(search, event);
        },
        PhaseModel::AdapterSearch { search, .. } => {
            answer_advances_search(search, event);
        },
        _ => {},
    }
}

/// No run asks more than twelve questions.
///
/// Feed a run any events, each of the kind that answers the question open
/// when it comes in. Then there are at most twelve of them: the events
/// that came in and the questions the run may still ask never add up to
/// more.
pub proof fn run_ends_within_twelve_answers(request: RequestModel, events: Seq<EventModel>)
    requires
        PipelineModel::start(request).answered_throughout(events),
    ensures
        events.len() + PipelineModel::start(request).run(events).questions_left() <= 12,
    decreases events.len(),
{
    let begin = PipelineModel::start(request);
    if events.len() > 0 {
        let front = events.drop_last();
        assert forall|count: int| 0 <= count < front.len() implies (#[trigger] begin.after(
            front,
            count,
        )).pending().answered_by(front[count]) by {
            assert(front.take(count) =~= events.take(count));
            assert(begin.after(events, count).pending().answered_by(events[count]));
        }
        run_ends_within_twelve_answers(request, front);
        start_is_coherent(request);
        run_goes_forward(begin, front);
        assert(events.take(events.len() - 1) =~= front);
        assert(begin.after(events, events.len() - 1).pending().answered_by(events.last()));
        answer_advances_run(begin.run(front), events.last());
    }
}

/// A coherent run has a question open exactly as long as it is not over.
pub proof fn coherent_run_asks(state: PipelineModel)
    requires
        state.coherent(),
    ensures
        state.result() is None <==> state.pending() != ActionModel::Halt,
{
    match state.phase {
        PhaseModel::ArtifactCheck(search) => {
            open_search_asks(search);
        },
        PhaseModel::UploaderSearch { search, .. } => {
            open_search_asks(search);
        },
        PhaseModel::AdapterSearch { search, .. } => {
            open_search_asks(search);
        },
        _ => {},
    }
}

/// A run that is not over always has a question open: it never comes to
/// a halt on its own.
pub proof fn running_pipeline_asks(request: RequestModel, events: Seq<EventModel>)
    ensures
        PipelineModel::start(request).run(events).result() is None
            <==> PipelineModel::start(request).run(events).pending() != ActionModel::Halt,
{
    start_is_coherent(request);
    run_goes_forward(PipelineModel::start(request), events);
    coherent_run_asks(PipelineModel::start(request).run(events));
}

/// No run of steps changes the request or takes the run back, and a
/// coherent run stays coherent.
pub proof fn run_goes_forward(state: PipelineModel, events: Seq<EventModel>)
    ensures
        state.run(events).request == state.request,
        state.progress() <= state.run(events).progress(),
        state.coherent() ==> state.run(events).coherent(),
    decreases events.len(),
{
    if events.len() > 0 {
        run_goes_forward(state, events.drop_last());
        step_goes_forward(state.run(events.drop_last()), events.last());
    }
}

/// Running through `events` is running through the first `cut` of them
/// and then through the rest.
pub proof fn run_in_two(state: PipelineModel, events: Seq<EventModel>, cut: int)
    requires
        0 <= cut <= events.len(),
    ensures
        state.run(events) == state.run(events.take(cut)).run(events.skip(cut)),
    decreases events.len(),
{
    if cut == events.len() {
        assert(events.take(cut) =~= events);
        assert(events.skip(cut) =~= Seq::<EventModel>::empty());
    } else {
        let front = events.drop_last();
        run_in_two(state, front, cut);
        assert(front.take(cut) =~= events.take(cut));
        assert(front.skip(cut) =~= events.skip(cut).drop_last());
        assert(events.skip(cut).last() == events.last());
    }
}

/// At no moment of a run is the run further along than at its end.
pub proof fn no_moment_is_ahead_of_the_end(
    state: PipelineModel,
    events: Seq<EventModel>,
    count: int,
)
    requires
        0 <= count <= events.len(),
    ensures
        state.after(events, count).progress() <= state.run(events).progress(),
        state.after(events, count).request == state.request,
        state.coherent() ==> state.after(events, count).coherent(),
{
    run_in_two(state, events, count);
    run_goes_forward(state, events.take(count));
    run_goes_forward(state.run(events.take(count)), events.skip(count));
}

/// Reusing an image leaves the conversion out.
///
/// When the request names an image and asks to reuse it, then whatever
/// comes in, and whether or not the image turns out to exist, the run is
/// never in the conversion: neither the probe of the conversion tool nor
/// the conversion itself is ever the open question.
pub proof fn reuse_leaves_conversion_out(request: RequestModel, events: Seq<EventModel>)
    requires
        request.reuses_artifact(),
    ensures
        PipelineModel::start(request).run(events).state() != State::Converting,
        !(PipelineModel::start(request).run(events).phase is ConverterProbe),
        !(PipelineModel::start(request).run(events).phase is Conversion),
        forall|reason: RunError|
            PipelineModel::start(request).run(events).state() != State::Failed(
                Stage::Converting,
                reason,
            ),
    decreases events.len(),
{
    if events.len() > 0 {
        reuse_leaves_conversion_out(request, events.drop_last());
        run_goes_forward(PipelineModel::start(request), events.drop_last());
    }
}

/// An image to reuse that does not exist fails the run before any process
/// was started.
///
/// Suppose the request names an image and asks to reuse it, and the run
/// has come to the question whether the image exists. If the answer is
/// no, the run is given up with a resolution error for the image that
/// records the override as the one tier tried. Up to and including that
/// moment no open question was one that starts a process.
pub proof fn missing_image_fails_before_any_process(
    request: RequestModel,
    events: Seq<EventModel>,
)
    requires
        request.reuses_artifact(),
        PipelineModel::start(request).run(events).phase is ArtifactCheck,
    ensures
        PipelineModel::start(request).run(events).next(EventModel::Exists(false)).state()
            == State::Failed(
            Stage::Idle,
            RunError::Resolution(
                ResolutionError {
                    kind: ResourceKind::Artifact,
                    attempted: TierSet::only(Tier::Override),
                },
            ),
        ),
        PipelineModel::start(request).run(events).next(EventModel::Exists(false)).pending()
            == ActionModel::Halt,
        forall|count: int|
            0 <= count <= events.len() ==> !(#[trigger] PipelineModel::start(request).after(
                events,
                count,
            )).pending().spawns(),
{
    let begin = PipelineModel::start(request);
    run_goes_forward(begin, events);
    assert forall|count: int| 0 <= count <= events.len() implies !(#[trigger] begin.after(
        events,
        count,
    )).pending().spawns() by {
        no_moment_is_ahead_of_the_end(begin, events, count);
    }
}

/// The probe before the upload is of the very command the upload is run
/// with: whether the run goes on to the upload or is given up for a
/// package that is not installed depends on that command alone.
pub proof fn upload_is_probed_by_its_own_command(state: PipelineModel, outcome: ProcessOutcome)
    requires
        state.phase is InterpreterProbe,
    ensures
        state.pending() == ActionModel::RunQuiet(
            probe_of(
                upload_of(
                    state.request,
                    state.uploader()->0.path,
                    state.adapter()->0.path,
                    state.artifact()->0.path,
                ).program,
            ),
        ),
        outcome.started() ==> state.next(EventModel::Exit(outcome)).pending() == ActionModel::Run(
            upload_of(
                state.request,
                state.uploader()->0.path,
                state.adapter()->0.path,
                state.artifact()->0.path,
            ),
        ),
        !outcome.started() ==> state.next(EventModel::Exit(outcome)).state() == State::Failed(
            Stage::Uploading,
            RunError::PackageNotInstalled,
        ),
{
}

/// What the request names is not sought anywhere else.
///
/// If the request names the uploader's directory, then however the run
/// goes, its search for the uploader stays at the first tier: it never
/// reads the environment, looks into the project or asks the system. The
/// same holds of the debug adapter.
pub proof fn named_resources_are_not_sought(request: RequestModel, events: Seq<EventModel>)
    ensures
        PipelineModel::start(request).run(events).phase matches PhaseModel::UploaderSearch {
            search,
            ..
        } ==> (request.uploader_path is Some ==> {
            &&& search.attempted == TierSet::only(Tier::Override)
            &&& search.phase is OverrideCheck || search.phase is Validation
        }),
        PipelineModel::start(request).run(events).phase matches PhaseModel::AdapterSearch {
            search,
            ..
        } ==> (request.openocd_path is Some ==> {
            &&& search.attempted == TierSet::only(Tier::Override)
            &&& search.phase is Validation
        }),
    decreases events.len(),
{
    if events.len() > 0 {
        named_resources_are_not_sought(request, events.drop_last());
        start_is_coherent(request);
        run_goes_forward(PipelineModel::start(request), events.drop_last());
    }
}

/// The upload begins only with an image that was made or found.
///
/// If a run has an image, that is, it is in the upload or past it, then
/// at an earlier moment an event settled the image: a conversion reported
/// success, or the image that the request asked to reuse was reported to
/// exist.
pub proof fn upload_needs_settled_image(request: RequestModel, events: Seq<EventModel>)
    requires
        PipelineModel::start(request).run(events).has_image(),
    ensures
        exists|count: int|
            0 <= count < events.len() && (#[trigger] PipelineModel::start(request).after(
                events,
                count,
            )).settles_image(events[count]),
    decreases events.len(),
{
    let begin = PipelineModel::start(request);
    if events.len() > 0 {
        let front = events.drop_last();
        if begin.run(front).has_image() {
            upload_needs_settled_image(request, front);
            let count: int = choose|count: int|
                0 <= count < front.len() && (#[trigger] begin.after(front, count)).settles_image(
                    front[count],
                );
            assert(front.take(count) =~= events.take(count));
            assert(begin.after(events, count).settles_image(events[count]));
        } else {
            let count: int = events.len() - 1;
            run_goes_forward(begin, front);
            assert(events.take(count) =~= front);
            assert(begin.after(events, count).settles_image(events[count]));
        }
    }
}

/// The debugger is attached only after an upload that succeeded.
///
/// If a run is at the debugger or done, then at an earlier moment the
/// upload was the open question and an event reported its success.
pub proof fn attach_needs_completed_upload(request: RequestModel, events: Seq<EventModel>)
    requires
        PipelineModel::start(request).run(events).has_flashed(),
    ensures
        exists|count: int|
            0 <= count < events.len() && (#[trigger] PipelineModel::start(request).after(
                events,
                count,
            )).completes_upload(events[count]),
    decreases events.len(),
{
    let begin = PipelineModel::start(request);
    if events.len() > 0 {
        let front = events.drop_last();
        if begin.run(front).has_flashed() {
            attach_needs_completed_upload(request, front);
            let count: int = choose|count: int|
                0 <= count < front.len() && (#[trigger] begin.after(
                    front,
                    count,
                )).completes_upload(front[count]);
            assert(front.take(count) =~= events.take(count));
            assert(begin.after(events, count).completes_upload(events[count]));
        } else {
            let count: int = events.len() - 1;
            assert(events.take(count) =~= front);
            assert(begin.after(events, count).completes_upload(events[count]));
        }
    }
}

/// The first failure ends the run where it stands.
///
/// If a run was given up in some stage, then at no moment was it in a
/// later stage: a run that failed before the conversion never converted,
/// one that failed in the conversion never uploaded, and none that failed
/// ever attached a debugger or was done.
pub proof fn failure_stops_the_run(
    request: RequestModel,
    events: Seq<EventModel>,
    stage: Stage,
    reason: RunError,
    count: int,
)
    requires
        PipelineModel::start(request).run(events).state() == State::Failed(stage, reason),
        0 <= count <= events.len(),
    ensures
        PipelineModel::start(request).after(events, count).state() != State::Done,
        PipelineModel::start(request).after(events, count).state() != State::Attaching,
        stage != Stage::Attaching,
        stage == Stage::Idle ==> PipelineModel::start(request).after(events, count).state()
            != State::Converting,
        stage == Stage::Idle || stage == Stage::Converting ==> PipelineModel::start(
            request,
        ).after(events, count).state() != State::Uploading,
{
    let begin = PipelineModel::start(request);
    no_moment_is_ahead_of_the_end(begin, events, count);
    run_goes_forward(begin, events);
    if stage == Stage::Attaching {
        never_fails_attaching(request, events);
    }
}

/// No run is ever given up in the attach stage: a debugger that cannot be
/// started is noted, and the run is done all the same.
pub proof fn never_fails_attaching(request: RequestModel, events: Seq<EventModel>)
    ensures
        forall|reason: RunError|
            PipelineModel::start(request).run(events).state() != State::Failed(
                Stage::Attaching,
                reason,
            ),
    decreases events.len(),
{
    if events.len() > 0 {
        never_fails_attaching(request, events.drop_last());
    }
}

} // verus!
