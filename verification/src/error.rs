//! The closed set of failures, and the small enumerations they are told in.

use vstd::prelude::*;

verus! {

/// A resource the pipeline has to find before it can flash.
#[derive(Clone, Copy, Debug, PartialEq, Eq, Structural)]
pub enum ResourceKind {
    /// The flashable image.
    Artifact,
    /// The directory that holds the uploader script.
    UploaderDir,
    /// The executable of the debug adapter.
    DebugAdapterExec,
}

/// A source a resource may come from. Sources are consulted in the order
/// of their [`rank`](Tier::rank).
#[derive(Clone, Copy, Debug, PartialEq, Eq, Structural)]
pub enum Tier {
    /// A path the caller gave explicitly.
    Override,
    /// The environment variable of the resource.
    EnvVar,
    /// The usual place below the project root.
    ProjectDefault,
    /// The system's own command lookup.
    SystemLookup,
}

impl Tier {
    /// Position of the tier in the fallback order, starting at 1.
    pub open spec fn rank(self) -> int {
        match self {
            Tier::Override => 1,
            Tier::EnvVar => 2,
            Tier::ProjectDefault => 3,
            Tier::SystemLookup => 4,
        }
    }

    /// Position of the tier in the fallback order, starting at 1.
    pub fn position(self) -> (n: u8)
        ensures
            n == self.rank(),
    {
        match self {
            Tier::Override => 1,
            Tier::EnvVar => 2,
            Tier::ProjectDefault => 3,
            Tier::SystemLookup => 4,
        }
    }
}

/// A set of tiers: those a resolution has tried so far.
#[derive(Clone, Copy, Debug, PartialEq, Eq, Structural)]
pub struct TierSet {
    pub override_path: bool,
    pub env_var: bool,
    pub project_default: bool,
    pub system_lookup: bool,
}

impl TierSet {
    /// Whether `tier` is in the set.
    pub open spec fn has(self, tier: Tier) -> bool {
        match tier {
            Tier::Override => self.override_path,
            Tier::EnvVar => self.env_var,
            Tier::ProjectDefault => self.project_default,
            Tier::SystemLookup => self.system_lookup,
        }
    }

    /// The set without any tier.
    pub open spec fn none() -> TierSet {
        TierSet {
            override_path: false,
            env_var: false,
            project_default: false,
            system_lookup: false,
        }
    }

    /// The set with `tier` added.
    pub open spec fn plus(self, tier: Tier) -> TierSet {
        match tier {
            Tier::Override => TierSet { override_path: true, ..self },
            Tier::EnvVar => TierSet { env_var: true, ..self },
            Tier::ProjectDefault => TierSet { project_default: true, ..self },
            Tier::SystemLookup => TierSet { system_lookup: true, ..self },
        }
    }

    /// The set that holds `tier` and nothing else.
    pub open spec fn only(tier: Tier) -> TierSet {
        TierSet::none().plus(tier)
    }

    /// The empty set.
    pub fn empty() -> (set: TierSet)
        ensures
            set == TierSet::none(),
    {
        TierSet {
            override_path: false,
            env_var: false,
            project_default: false,
            system_lookup: false,
        }
    }

    /// Adds `tier` to the set.
    pub fn with(self, tier: Tier) -> (set: TierSet)
        ensures
            set == self.plus(tier),
    {
        match tier {
            Tier::Override => TierSet { override_path: true, ..self },
            Tier::EnvVar => TierSet { env_var: true, ..self },
            Tier::ProjectDefault => TierSet { project_default: true, ..self },
            Tier::SystemLookup => TierSet { system_lookup: true, ..self },
        }
    }

    /// Tells whether `tier` is in the set.
    pub fn contains(self, tier: Tier) -> (found: bool)
        ensures
            found == self.has(tier),
    {
        match tier {
            Tier::Override => self.override_path,
            Tier::EnvVar => self.env_var,
            Tier::ProjectDefault => self.project_default,
            Tier::SystemLookup => self.system_lookup,
        }
    }
}

/// No fallback tier gave a usable resource.
#[derive(Clone, Copy, Debug, PartialEq, Eq, Structural)]
pub struct ResolutionError {
    /// The resource that was looked for.
    pub kind: ResourceKind,
    /// The tiers that were tried before giving up.
    pub attempted: TierSet,
}

/// A phase of the pipeline that is still running.
#[derive(Clone, Copy, Debug, PartialEq, Eq, Structural)]
pub enum Stage {
    Idle,
    Converting,
    Uploading,
    Attaching,
}

/// Why a run did not go through, or went through without a debugger.
#[derive(Clone, Copy, Debug, PartialEq, Eq, Structural)]
pub enum RunError {
    /// A command the pipeline needs cannot be started at all.
    PackageNotInstalled,
    /// The conversion tool could not be started or reported failure.
    ObjcopyFailed,
    /// The uploader could not be started or reported failure.
    UploadFailed,
    /// No debugger was named, so none was attached.
    NoGdbExec,
    /// The debugger could not be started.
    GdbFailed,
    /// The project root lacks its marker file.
    NotAProject,
    /// A required resource could not be found.
    Resolution(ResolutionError),
}

/// Why a new project could not be set up.
#[derive(Clone, Copy, Debug, PartialEq, Eq, Structural)]
pub enum InitError {
    /// Something already exists under the project's name.
    BadName,
    /// A dependency could not be added to the new project.
    FetchFailed,
}

} // verus!
