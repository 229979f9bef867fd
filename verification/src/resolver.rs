//! Finding a resource: an ordered chain of sources, the first that yields
//! wins, and an explicit choice of the caller is never second-guessed.
//!
//! A [`Resolver`] never looks anywhere itself. It holds one open question
//! at a time, [`Resolver::pending`], and moves on when the answer comes in
//! through [`Resolver::step`].

use vstd::prelude::*;
use crate::error::{ResolutionError, ResourceKind, Tier, TierSet};
use crate::layout::{
    default_artifact, default_artifact_of, default_uploader, default_uploader_of, driver_script,
    driver_script_of, ADAPTER_COMMAND, ADAPTER_ENV, UPLOADER_ENV,
};
use crate::location::{Location, LocationModel};
use crate::protocol::{tool_available, Action, ActionModel, Event, EventModel};
use crate::stages::{lookup_invocation, lookup_of, probe_invocation, probe_of};
use crate::text::{opt_text, strip_line_break, without_line_break};

verus! {

/// A resource that was found, and the tier that supplied it.
#[derive(Debug, PartialEq, Eq)]
pub struct ResolvedResource {
    pub kind: ResourceKind,
    pub path: Location,
    pub provenance: Tier,
}

/// What a [`ResolvedResource`] says, as plain sequences.
pub ghost struct ResolvedModel {
    pub kind: ResourceKind,
    pub path: LocationModel,
    pub provenance: Tier,
}

impl View for ResolvedResource {
    type V = ResolvedModel;

    open spec fn view(&self) -> ResolvedModel {
        ResolvedModel { kind: self.kind, path: self.path@, provenance: self.provenance }
    }
}

impl Clone for ResolvedResource {
    fn clone(&self) -> (copy: ResolvedResource)
        ensures
            copy@ == self@,
    {
        ResolvedResource { kind: self.kind, path: self.path.clone(), provenance: self.provenance }
    }
}

/// Where a resolution stands.
#[derive(Debug, PartialEq, Eq)]
pub enum ResolverPhase {
    /// Waiting to hear whether the place the caller named exists.
    OverrideCheck(Location),
    /// Waiting for the value of the environment variable.
    EnvRead(String),
    /// Waiting to hear whether the usual place in the project exists.
    ProjectCheck(Location),
    /// Waiting for the system to say where the command is.
    Lookup(String),
    /// A tier gave this place; waiting to hear whether it is fit for use.
    Validation(Location),
    /// Found, at this place.
    Resolved(Location),
    /// Given up.
    Failed,
}

/// What a [`ResolverPhase`] says, as plain sequences.
pub ghost enum ResolverPhaseModel {
    OverrideCheck(LocationModel),
    EnvRead(Seq<char>),
    ProjectCheck(LocationModel),
    Lookup(Seq<char>),
    Validation(LocationModel),
    Resolved(LocationModel),
    Failed,
}

impl View for ResolverPhase {
    type V = ResolverPhaseModel;

    open spec fn view(&self) -> ResolverPhaseModel {
        match self {
            ResolverPhase::OverrideCheck(place) => ResolverPhaseModel::OverrideCheck(place@),
            ResolverPhase::EnvRead(name) => ResolverPhaseModel::EnvRead(name@),
            ResolverPhase::ProjectCheck(place) => ResolverPhaseModel::ProjectCheck(place@),
            ResolverPhase::Lookup(name) => ResolverPhaseModel::Lookup(name@),
            ResolverPhase::Validation(place) => ResolverPhaseModel::Validation(place@),
            ResolverPhase::Resolved(place) => ResolverPhaseModel::Resolved(place@),
            ResolverPhase::Failed => ResolverPhaseModel::Failed,
        }
    }
}

/// The search for one resource.
#[derive(Debug, PartialEq, Eq)]
pub struct Resolver {
    /// What is looked for.
    pub kind: ResourceKind,
    /// The project root.
    pub root: String,
    /// The tier that is being tried, or that settled the search.
    pub tier: Tier,
    /// Every tier tried so far, the current one included.
    pub attempted: TierSet,
    pub phase: ResolverPhase,
}

/// What a [`Resolver`] says, as plain sequences.
pub ghost struct ResolverModel {
    pub kind: ResourceKind,
    pub root: Seq<char>,
    pub tier: Tier,
    pub attempted: TierSet,
    pub phase: ResolverPhaseModel,
}

impl View for Resolver {
    type V = ResolverModel;

    open spec fn view(&self) -> ResolverModel {
        ResolverModel {
            kind: self.kind,
            root: self.root@,
            tier: self.tier,
            attempted: self.attempted,
            phase: self.phase@,
        }
    }
}

/// Whether a resource of this kind is fit for use once a tier has given
/// it. An image is; a directory or a command still has to show that it
/// holds or does what is needed.
pub open spec fn fit_as_found(kind: ResourceKind) -> bool {
    kind == ResourceKind::Artifact
}

/// The question that decides whether `place` is fit to serve as a resource
/// of this kind: the uploader's directory must hold the driver script, the
/// debug adapter must start, an image must exist.
pub open spec fn fitness_query(kind: ResourceKind, place: LocationModel) -> ActionModel {
    match kind {
        ResourceKind::Artifact => ActionModel::CheckExists(place),
        ResourceKind::UploaderDir => ActionModel::CheckExists(driver_script_of(place)),
        ResourceKind::DebugAdapterExec => ActionModel::RunQuiet(probe_of(place)),
    }
}

/// What `event` says to the fitness question for this kind: fit, unfit, or
/// nothing, because it answers another question.
pub open spec fn fitness_answer(kind: ResourceKind, event: EventModel) -> Option<bool> {
    match (kind, event) {
        (ResourceKind::DebugAdapterExec, EventModel::Exit(outcome)) => Some(outcome.started()),
        (ResourceKind::Artifact, EventModel::Exists(found)) => Some(found),
        (ResourceKind::UploaderDir, EventModel::Exists(found)) => Some(found),
        _ => None,
    }
}

impl ResolverModel {
    /// The search with its phase changed and all else kept.
    pub open spec fn at_phase(self, phase: ResolverPhaseModel) -> ResolverModel {
        ResolverModel { phase, ..self }
    }

    /// A search that has tried nothing but `tier`, where it is in `phase`.
    pub open spec fn fresh(
        kind: ResourceKind,
        root: Seq<char>,
        tier: Tier,
        phase: ResolverPhaseModel,
    ) -> ResolverModel {
        ResolverModel { kind, root, tier, attempted: TierSet::only(tier), phase }
    }

    /// The search moved on to `tier`, in `phase`.
    pub open spec fn at_tier(self, tier: Tier, phase: ResolverPhaseModel) -> ResolverModel {
        ResolverModel { tier, attempted: self.attempted.plus(tier), phase, ..self }
    }

    /// The current tier gave `place`: the search is over if that settles
    /// it, and goes on to ask whether the place is fit if not.
    pub open spec fn hit(self, place: LocationModel) -> ResolverModel {
        self.at_phase(
            if fit_as_found(self.kind) {
                ResolverPhaseModel::Resolved(place)
            } else {
                ResolverPhaseModel::Validation(place)
            },
        )
    }

    /// The environment variable is not set: on to the next tier. For the
    /// debug adapter that is the system's lookup, for the others the usual
    /// place in the project.
    pub open spec fn fall_back(self) -> ResolverModel {
        match self.kind {
            ResourceKind::Artifact => self.at_tier(
                Tier::ProjectDefault,
                ResolverPhaseModel::ProjectCheck(default_artifact_of(self.root)),
            ),
            ResourceKind::UploaderDir => self.at_tier(
                Tier::ProjectDefault,
                ResolverPhaseModel::ProjectCheck(default_uploader_of(self.root)),
            ),
            ResourceKind::DebugAdapterExec => self.at_tier(
                Tier::SystemLookup,
                ResolverPhaseModel::Lookup(ADAPTER_COMMAND@),
            ),
        }
    }

    /// The search as it begins.
    ///
    /// With an override the first tier is tried and no other ever will be:
    /// a directory or an image is asked for by existence, a command goes
    /// straight to its probe. Without one the search begins at the
    /// environment variable, or, for an image, which has none, at the
    /// usual place in the project.
    pub open spec fn start(
        kind: ResourceKind,
        override_path: Option<Seq<char>>,
        root: Seq<char>,
    ) -> ResolverModel {
        match override_path {
            Some(path) => Self::fresh(
                kind,
                root,
                Tier::Override,
                if kind == ResourceKind::DebugAdapterExec {
                    ResolverPhaseModel::Validation(LocationModel::at(path))
                } else {
                    ResolverPhaseModel::OverrideCheck(LocationModel::at(path))
                },
            ),
            None => match kind {
                ResourceKind::Artifact => Self::fresh(
                    kind,
                    root,
                    Tier::ProjectDefault,
                    ResolverPhaseModel::ProjectCheck(default_artifact_of(root)),
                ),
                ResourceKind::UploaderDir => Self::fresh(
                    kind,
                    root,
                    Tier::EnvVar,
                    ResolverPhaseModel::EnvRead(UPLOADER_ENV@),
                ),
                ResourceKind::DebugAdapterExec => Self::fresh(
                    kind,
                    root,
                    Tier::EnvVar,
                    ResolverPhaseModel::EnvRead(ADAPTER_ENV@),
                ),
            },
        }
    }

    /// The open question.
    pub open spec fn pending(self) -> ActionModel {
        match self.phase {
            ResolverPhaseModel::OverrideCheck(place) => ActionModel::CheckExists(place),
            ResolverPhaseModel::EnvRead(name) => ActionModel::ReadEnv(name),
            ResolverPhaseModel::ProjectCheck(place) => ActionModel::CheckExists(place),
            ResolverPhaseModel::Lookup(name) => ActionModel::Capture(lookup_of(name)),
            ResolverPhaseModel::Validation(place) => fitness_query(self.kind, place),
            ResolverPhaseModel::Resolved(_) => ActionModel::Halt,
            ResolverPhaseModel::Failed => ActionModel::Halt,
        }
    }

    /// The search after `event`.
    ///
    /// An event that does not answer the open question changes nothing.
    /// A place that was named or is usual must exist, else the search
    /// fails. A variable that is set yields its value unseen; one that is
    /// not sends the search to the next tier. A lookup yields the line it
    /// printed, without the line break, if it reported success and the
    /// line is not empty, else the search fails. A place that is found unfit fails the search; no other
    /// tier makes up for it.
    pub open spec fn next(self, event: EventModel) -> ResolverModel {
        match (self.phase, event) {
            (ResolverPhaseModel::OverrideCheck(place), EventModel::Exists(found)) => if found {
                self.hit(place)
            } else {
                self.at_phase(ResolverPhaseModel::Failed)
            },
            (ResolverPhaseModel::EnvRead(_), EventModel::Env(Some(value))) => self.hit(
                LocationModel::at(value),
            ),
            (ResolverPhaseModel::EnvRead(_), EventModel::Env(None)) => self.fall_back(),
            (ResolverPhaseModel::ProjectCheck(place), EventModel::Exists(found)) => if found {
                self.hit(place)
            } else {
                self.at_phase(ResolverPhaseModel::Failed)
            },
            (ResolverPhaseModel::Lookup(_), EventModel::Captured { outcome, output }) => if
                outcome.succeeded() && without_line_break(output).len() > 0 {
                self.hit(LocationModel::at(without_line_break(output)))
            } else {
                self.at_phase(ResolverPhaseModel::Failed)
            },
            (ResolverPhaseModel::Validation(place), _) => match fitness_answer(self.kind, event) {
                Some(true) => self.at_phase(ResolverPhaseModel::Resolved(place)),
                Some(false) => self.at_phase(ResolverPhaseModel::Failed),
                None => self,
            },
            _ => self,
        }
    }

    /// The search after each of `events` in turn.
    pub open spec fn run(self, events: Seq<EventModel>) -> ResolverModel
        decreases events.len(),
    {
        if events.len() == 0 {
            self
        } else {
            self.run(events.drop_last()).next(events.last())
        }
    }

    /// The search after the first `count` of `events`.
    pub open spec fn after(self, events: Seq<EventModel>, count: int) -> ResolverModel {
        self.run(events.take(count))
    }

    /// How the search ended, if it has.
    pub open spec fn outcome(self) -> Option<Result<ResolvedModel, ResolutionError>> {
        match self.phase {
            ResolverPhaseModel::Resolved(place) => Some(
                Ok(ResolvedModel { kind: self.kind, path: place, provenance: self.tier }),
            ),
            ResolverPhaseModel::Failed => Some(
                Err(ResolutionError { kind: self.kind, attempted: self.attempted }),
            ),
            _ => None,
        }
    }

    /// The most questions the search may still ask, the open one included.
    pub open spec fn questions_left(self) -> nat {
        match self.phase {
            ResolverPhaseModel::EnvRead(_) => 3,
            ResolverPhaseModel::OverrideCheck(_) => 2,
            ResolverPhaseModel::ProjectCheck(_) => 2,
            ResolverPhaseModel::Lookup(_) => 2,
            ResolverPhaseModel::Validation(_) => 1,
            ResolverPhaseModel::Resolved(_) => 0,
            ResolverPhaseModel::Failed => 0,
        }
    }

    /// The tiers tried so far are the current one and none after it, and
    /// a question that belongs to one tier is open only at that tier.
    pub open spec fn in_order(self) -> bool {
        &&& self.attempted.has(self.tier)
        &&& forall|tier: Tier| self.attempted.has(tier) ==> tier.rank() <= self.tier.rank()
        &&& self.phase is OverrideCheck ==> self.tier == Tier::Override
        &&& self.phase is EnvRead ==> self.tier == Tier::EnvVar
        &&& self.phase is ProjectCheck ==> self.tier == Tier::ProjectDefault
        &&& self.phase is Lookup ==> self.tier == Tier::SystemLookup
    }
}

/// Tells whether a resource of this kind is fit for use once a tier has
/// given it.
fn is_fit_as_found(kind: ResourceKind) -> (fit: bool)
    ensures
        fit == fit_as_found(kind),
{
    match kind {
        ResourceKind::Artifact => true,
        ResourceKind::UploaderDir => false,
        ResourceKind::DebugAdapterExec => false,
    }
}

/// Reads `event` as an answer to the fitness question for this kind.
fn read_fitness(kind: ResourceKind, event: &Event) -> (answer: Option<bool>)
    ensures
        answer == fitness_answer(kind, event@),
{
    match kind {
        ResourceKind::DebugAdapterExec => match event {
            Event::Exit(outcome) => Some(tool_available(*outcome)),
            _ => None,
        },
        ResourceKind::Artifact => match event {
            Event::Exists(found) => Some(*found),
            _ => None,
        },
        ResourceKind::UploaderDir => match event {
            Event::Exists(found) => Some(*found),
            _ => None,
        },
    }
}

impl Resolver {
    /// Begins the search for a resource of `kind` in the project at `root`,
    /// with the path the caller named, if any.
    pub fn start(kind: ResourceKind, override_path: Option<String>, root: String) -> (resolver:
        Resolver)
        ensures
            resolver@ == ResolverModel::start(kind, opt_text(override_path), root@),
            resolver@.in_order(),
            resolver@.outcome() is None,
    {
        match override_path {
            Some(path) => {
                let place = Location::new(path);
                let phase = match kind {
                    ResourceKind::DebugAdapterExec => ResolverPhase::Validation(place),
                    _ => ResolverPhase::OverrideCheck(place),
                };
                Self::fresh(kind, root, Tier::Override, phase)
            },
            None => match kind {
                ResourceKind::Artifact => {
                    let place = default_artifact(&root);
                    Self::fresh(kind, root, Tier::ProjectDefault, ResolverPhase::ProjectCheck(place))
                },
                ResourceKind::UploaderDir => Self::fresh(
                    kind,
                    root,
                    Tier::EnvVar,
                    ResolverPhase::EnvRead(UPLOADER_ENV.to_owned()),
                ),
                ResourceKind::DebugAdapterExec => Self::fresh(
                    kind,
                    root,
                    Tier::EnvVar,
                    ResolverPhase::EnvRead(ADAPTER_ENV.to_owned()),
                ),
            },
        }
    }

    fn fresh(kind: ResourceKind, root: String, tier: Tier, phase: ResolverPhase) -> (search:
        Resolver)
        ensures
            search@ == ResolverModel::fresh(kind, root@, tier, phase@),
    {
        Resolver { kind, root, tier, attempted: TierSet::empty().with(tier), phase }
    }

    fn enter(self, phase: ResolverPhase) -> (moved: Resolver)
        ensures
            moved@ == self@.at_phase(phase@),
    {
        Resolver {
            kind: self.kind,
            root: self.root,
            tier: self.tier,
            attempted: self.attempted,
            phase,
        }
    }

    fn hit(self, place: Location) -> (moved: Resolver)
        ensures
            moved@ == self@.hit(place@),
    {
        if is_fit_as_found(self.kind) {
            self.enter(ResolverPhase::Resolved(place))
        } else {
            self.enter(ResolverPhase::Validation(place))
        }
    }

    fn fall_back(self) -> (moved: Resolver)
        ensures
            moved@ == self@.fall_back(),
    {
        let (tier, phase) = match self.kind {
            ResourceKind::Artifact => (
                Tier::ProjectDefault,
                ResolverPhase::ProjectCheck(default_artifact(&self.root)),
            ),
            ResourceKind::UploaderDir => (
                Tier::ProjectDefault,
                ResolverPhase::ProjectCheck(default_uploader(&self.root)),
            ),
            ResourceKind::DebugAdapterExec => (
                Tier::SystemLookup,
                ResolverPhase::Lookup(ADAPTER_COMMAND.to_owned()),
            ),
        };
        Resolver {
            kind: self.kind,
            root: self.root,
            tier,
            attempted: self.attempted.with(tier),
            phase,
        }
    }

    /// The open question: what the caller is to find out next. It is
    /// [`Action::Halt`] once the search has ended.
    pub fn pending(&self) -> (action: Action)
        ensures
            action@ == self@.pending(),
    {
        match &self.phase {
            ResolverPhase::OverrideCheck(place) => Action::CheckExists(place.clone()),
            ResolverPhase::EnvRead(name) => Action::ReadEnv(name.clone()),
            ResolverPhase::ProjectCheck(place) => Action::CheckExists(place.clone()),
            ResolverPhase::Lookup(name) => Action::Capture(lookup_invocation(name.as_str())),
            ResolverPhase::Validation(place) => match self.kind {
                ResourceKind::Artifact => Action::CheckExists(place.clone()),
                ResourceKind::UploaderDir => Action::CheckExists(driver_script(place)),
                ResourceKind::DebugAdapterExec => Action::RunQuiet(probe_invocation(place.clone())),
            },
            ResolverPhase::Resolved(_) => Action::Halt,
            ResolverPhase::Failed => Action::Halt,
        }
    }

    /// Takes in the answer to the open question and moves the search on.
    /// An event that answers another question leaves the search as it is.
    pub fn step(self, event: Event) -> (next: Resolver)
        ensures
            next@ == self@.next(event@),
            self@.in_order() ==> next@.in_order(),
    {
        proof {
            if self@.in_order() {
                step_keeps_order(self@, event@);
            }
        }
        match &self.phase {
            ResolverPhase::OverrideCheck(place) => match event {
                Event::Exists(true) => {
                    let place = place.clone();
                    self.hit(place)
                },
                Event::Exists(false) => self.enter(ResolverPhase::Failed),
                _ => self,
            },
            ResolverPhase::EnvRead(_) => match event {
                Event::Env(Some(value)) => self.hit(Location::new(value)),
                Event::Env(None) => self.fall_back(),
                _ => self,
            },
            ResolverPhase::ProjectCheck(place) => match event {
                Event::Exists(true) => {
                    let place = place.clone();
                    self.hit(place)
                },
                Event::Exists(false) => self.enter(ResolverPhase::Failed),
                _ => self,
            },
            ResolverPhase::Lookup(_) => match event {
                Event::Captured { outcome, output } => {
                    let found = strip_line_break(output.as_str());
                    if outcome.is_success() && !found.as_str().is_empty() {
                        self.hit(Location::new(found))
                    } else {
                        self.enter(ResolverPhase::Failed)
                    }
                },
                _ => self,
            },
            ResolverPhase::Validation(place) => match read_fitness(self.kind, &event) {
                Some(true) => {
                    let place = place.clone();
                    self.enter(ResolverPhase::Resolved(place))
                },
                Some(false) => self.enter(ResolverPhase::Failed),
                None => self,
            },
            ResolverPhase::Resolved(_) => self,
            ResolverPhase::Failed => self,
        }
    }

    /// Ends the search if it has an outcome: `Ok` holds the resource with
    /// the tier that supplied it, or the tiers that were tried in vain.
    /// A search with a question still open comes back unchanged in `Err`.
    pub fn finish(self) -> (end: Result<Result<ResolvedResource, ResolutionError>, Resolver>)
        ensures
            match end {
                Ok(Ok(found)) => self@.outcome() == Some(
                    Ok::<ResolvedModel, ResolutionError>(found@),
                ),
                Ok(Err(error)) => self@.outcome() == Some(
                    Err::<ResolvedModel, ResolutionError>(error),
                ),
                Err(open) => self@.outcome() is None && open@ == self@,
            },
    {
        let Resolver { kind, root, tier, attempted, phase } = self;
        match phase {
            ResolverPhase::Resolved(place) => Ok(
                Ok(ResolvedResource { kind, path: place, provenance: tier }),
            ),
            ResolverPhase::Failed => Ok(Err(ResolutionError { kind, attempted })),
            open => Err(Resolver { kind, root, tier, attempted, phase: open }),
        }
    }

    /// How the search ended: the resource with the tier that supplied it,
    /// or the tiers that were tried in vain. `None` while a question is
    /// still open.
    pub fn outcome(&self) -> (outcome: Option<Result<ResolvedResource, ResolutionError>>)
        ensures
            match outcome {
                Some(Ok(found)) => self@.outcome() == Some(
                    Ok::<ResolvedModel, ResolutionError>(found@),
                ),
                Some(Err(error)) => self@.outcome() == Some(
                    Err::<ResolvedModel, ResolutionError>(error),
                ),
                None => self@.outcome() is None,
            },
    {
        match &self.phase {
            ResolverPhase::Resolved(place) => Some(
                Ok(
                    ResolvedResource {
                        kind: self.kind,
                        path: place.clone(),
                        provenance: self.tier,
                    },
                ),
            ),
            ResolverPhase::Failed => Some(
                Err(ResolutionError { kind: self.kind, attempted: self.attempted }),
            ),
            _ => None,
        }
    }
}

/// A search that has ended asks nothing more and stays as it is, whatever
/// comes in.
pub proof fn ended_search_is_final(state: ResolverModel, event: EventModel)
    requires
        state.outcome() is Some,
    ensures
        state.pending() == ActionModel::Halt,
        state.next(event) == state,
{
}

/// A search that has not ended always has a question open.
pub proof fn open_search_asks(state: ResolverModel)
    ensures
        state.outcome() is None <==> state.pending() != ActionModel::Halt,
{
}

/// An event that is not of the kind the open question calls for changes
/// nothing.
pub proof fn stray_event_leaves_search(state: ResolverModel, event: EventModel)
    requires
        !state.pending().answered_by(event),
    ensures
        state.next(event) == state,
{
}

/// Every answer brings the search closer to its end, and a search asks
/// at most three questions.
pub proof fn answer_advances_search(state: ResolverModel, event: EventModel)
    requires
        state.pending().answered_by(event),
    ensures
        state.next(event).questions_left() < state.questions_left(),
        state.questions_left() <= 3,
{
}

/// A search begins in order: the one tier it has tried is the one it is
/// at.
pub proof fn start_is_in_order(
    kind: ResourceKind,
    override_path: Option<Seq<char>>,
    root: Seq<char>,
)
    ensures
        ResolverModel::start(kind, override_path, root).in_order(),
{
}

/// One step never returns to an earlier tier, never forgets a tier that
/// was tried, and keeps the search in order.
pub proof fn step_keeps_order(state: ResolverModel, event: EventModel)
    requires
        state.in_order(),
    ensures
        state.next(event).in_order(),
        state.tier.rank() <= state.next(event).tier.rank(),
        forall|tier: Tier| state.attempted.has(tier) ==> state.next(event).attempted.has(tier),
{
    let after = state.next(event);
    assert forall|tier: Tier| after.attempted.has(tier) implies tier.rank()
        <= after.tier.rank() by {
        if !state.attempted.has(tier) {
            assert(tier == after.tier);
        }
    }
}

/// No run of steps returns to an earlier tier or forgets a tier that was
/// tried, and every run keeps the search in order.
pub proof fn run_keeps_order(state: ResolverModel, events: Seq<EventModel>)
    requires
        state.in_order(),
    ensures
        state.run(events).in_order(),
        state.tier.rank() <= state.run(events).tier.rank(),
        forall|tier: Tier| state.attempted.has(tier) ==> state.run(events).attempted.has(tier),
    decreases events.len(),
{
    if events.len() > 0 {
        run_keeps_order(state, events.drop_last());
        step_keeps_order(state.run(events.drop_last()), events.last());
    }
}

/// Running through `events` is running through the first `cut` of them
/// and then through the rest.
pub proof fn run_in_two(state: ResolverModel, events: Seq<EventModel>, cut: int)
    requires
        0 <= cut <= events.len(),
    ensures
        state.run(events) == state.run(events.take(cut)).run(events.skip(cut)),
    decreases events.len(),
{
    if cut == events.len() {
        assert(events.take(cut) =~= events);
        assert(events.skip(cut) =~= Seq::<EventModel>::empty());
    } else {
        let front = events.drop_last();
        run_in_two(state, front, cut);
        assert(front.take(cut) =~= events.take(cut));
        assert(front.skip(cut) =~= events.skip(cut).drop_last());
        assert(events.skip(cut).last() == events.last());
    }
}

/// The fallback chain stops at the first tier that yields.
///
/// Take any search, feed it any events, and suppose it ends with the
/// resource found at some tier. Then at every moment of that run the
/// question that was open belonged to that tier or to an earlier one,
/// and no later tier is among those the search records as tried.
pub proof fn fallback_stops_at_first_success(
    kind: ResourceKind,
    override_path: Option<Seq<char>>,
    root: Seq<char>,
    events: Seq<EventModel>,
    found: ResolvedModel,
)
    requires
        ResolverModel::start(kind, override_path, root).run(events).outcome() == Some(
            Ok::<ResolvedModel, ResolutionError>(found),
        ),
    ensures
        forall|count: int|
            0 <= count <= events.len() ==> (#[trigger] ResolverModel::start(
                kind,
                override_path,
                root,
            ).after(events, count)).tier.rank() <= found.provenance.rank(),
        forall|count: int, tier: Tier|
            0 <= count <= events.len() && #[trigger] ResolverModel::start(
                kind,
                override_path,
                root,
            ).after(events, count).attempted.has(tier) ==> tier.rank() <= found.provenance.rank(),
{
    let begin = ResolverModel::start(kind, override_path, root);
    start_is_in_order(kind, override_path, root);
    assert forall|count: int| 0 <= count <= events.len() implies {
        &&& (#[trigger] begin.after(events, count)).in_order()
        &&& begin.after(events, count).tier.rank() <= found.provenance.rank()
    } by {
        run_keeps_order(begin, events.take(count));
        run_in_two(begin, events, count);
        run_keeps_order(begin.run(events.take(count)), events.skip(count));
    }
}

/// A path the caller named is the only source there is: with an override
/// the search never leaves the first tier, however it goes.
pub proof fn override_is_never_second_guessed(
    kind: ResourceKind,
    path: Seq<char>,
    root: Seq<char>,
    events: Seq<EventModel>,
)
    ensures
        ResolverModel::start(kind, Some(path), root).run(events).tier == Tier::Override,
        ResolverModel::start(kind, Some(path), root).run(events).attempted == TierSet::only(
            Tier::Override,
        ),
        !(ResolverModel::start(kind, Some(path), root).run(events).phase is EnvRead),
        !(ResolverModel::start(kind, Some(path), root).run(events).phase is ProjectCheck),
        !(ResolverModel::start(kind, Some(path), root).run(events).phase is Lookup),
    decreases events.len(),
{
    if events.len() > 0 {
        override_is_never_second_guessed(kind, path, root, events.drop_last());
    }
}

} // verus!
