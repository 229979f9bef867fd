use mik32_tool::error::{ResolutionError, ResourceKind, RunError, Stage, Tier, TierSet};
use mik32_tool::invocation::{Arg, Invocation};
use mik32_tool::location::Location;
use mik32_tool::pipeline::{exit_code, Phase, Pipeline, State};
use mik32_tool::protocol::{Action, Event, ProcessOutcome};
use mik32_tool::request::PipelineRequest;

fn place(base: &str, parts: &[&str]) -> Location {
    Location { base: base.to_string(), parts: parts.iter().map(|p| p.to_string()).collect() }
}

fn text(value: &str) -> Arg {
    Arg::Text(value.to_string())
}

fn probe(program: &str) -> Action {
    Action::RunQuiet(Invocation { program: place(program, &[]), args: vec![text("--version")] })
}

/// A world to run a pipeline in, without files or processes.
struct World {
    /// The places that exist.
    existing: Vec<Location>,
    /// The environment variables that are set.
    env: Vec<(String, String)>,
    /// The programs that cannot be started.
    missing: Vec<String>,
    /// The programs that start and report failure.
    failing: Vec<String>,
    /// The programs that answer a probe and cannot be started after it.
    vanishing: Vec<String>,
    /// What the system's lookup prints, if it finds anything.
    lookup: Option<String>,
}

impl World {
    /// A world in which a plain run goes through: the project is one, the
    /// uploader sits in the project, the adapter is found by the system.
    fn healthy() -> World {
        World {
            existing: vec![
                place("/proj", &["Cargo.toml"]),
                place("/proj", &["flash", "mik32_uploader"]),
                place("/proj", &["flash", "mik32_uploader", "mik32_uploader.py"]),
            ],
            env: Vec::new(),
            missing: Vec::new(),
            failing: Vec::new(),
            vanishing: Vec::new(),
            lookup: Some("/usr/bin/openocd\n".to_string()),
        }
    }

    fn spawn(&self, invocation: &Invocation) -> ProcessOutcome {
        if self.missing.contains(&invocation.program.base) {
            ProcessOutcome::SpawnFailed
        } else {
            ProcessOutcome::Exited { success: !self.failing.contains(&invocation.program.base) }
        }
    }

    fn answer(&self, action: &Action) -> Event {
        match action {
            Action::CheckExists(place) => Event::Exists(self.existing.contains(place)),
            Action::ReadEnv(name) => Event::Env(
                self.env.iter().find(|(key, _)| key == name).map(|(_, value)| value.clone()),
            ),
            Action::RunQuiet(invocation) => Event::Exit(self.spawn(invocation)),
            Action::Run(invocation) | Action::Attach { invocation, .. } => {
                if self.vanishing.contains(&invocation.program.base) {
                    Event::Exit(ProcessOutcome::SpawnFailed)
                } else {
                    Event::Exit(self.spawn(invocation))
                }
            }
            Action::Capture(invocation) => match &self.lookup {
                Some(output) => Event::Captured {
                    outcome: self.spawn(invocation),
                    output: output.clone(),
                },
                None => Event::Captured {
                    outcome: ProcessOutcome::Exited { success: false },
                    output: String::new(),
                },
            },
            Action::CreateDir(_) | Action::WriteFile { .. } => Event::Finished,
            Action::Halt => unreachable!(),
        }
    }

    /// Runs the pipeline to its end and hands it back with everything it
    /// asked for, in order.
    fn run(&self, request: PipelineRequest) -> (Pipeline, Vec<Action>) {
        let mut pipeline = Pipeline::new(request);
        let mut done = Vec::new();
        loop {
            let action = pipeline.pending();
            if action == Action::Halt {
                return (pipeline, done);
            }
            assert!(done.len() < 12);
            let event = self.answer(&action);
            assert!(action.is_answered_by(&event));
            done.push(action);
            pipeline = pipeline.step(event);
        }
    }
}

fn request() -> PipelineRequest {
    PipelineRequest::new("/proj".to_string())
}

fn is_conversion(action: &Action) -> bool {
    match action {
        Action::RunQuiet(invocation) => invocation.program.base == "cargo-objcopy",
        Action::Run(invocation) => invocation.program.base == "cargo",
        _ => false,
    }
}

fn is_upload(action: &Action) -> bool {
    matches!(action, Action::Run(invocation) if invocation.program.base == "python3")
}

fn is_attach(action: &Action) -> bool {
    matches!(action, Action::Attach { .. })
}

fn conversion(target: Location) -> Action {
    Action::Run(Invocation {
        program: place("cargo", &[]),
        args: vec![
            text("objcopy"),
            text("--release"),
            text("--"),
            text("-O"),
            text("ihex"),
            Arg::AbsolutePath(target),
        ],
    })
}

fn upload(uploader: Location, adapter: Location, artifact: Location) -> Action {
    Action::Run(Invocation {
        program: place("python3", &[]),
        args: vec![
            Arg::AbsolutePath(uploader.clone().join("mik32_uploader.py")),
            text("--run-openocd"),
            text("--openocd-exec"),
            Arg::AbsolutePath(adapter),
            text("--openocd-scripts"),
            Arg::AbsolutePath(uploader.join("openocd-scripts")),
            Arg::AbsolutePath(artifact),
        ],
    })
}

#[test]
fn new_pipeline_is_idle_and_asks_for_the_marker() {
    let pipeline = Pipeline::new(request());
    assert_eq!(pipeline.state(), State::Idle);
    assert_eq!(pipeline.phase, Phase::MarkerCheck);
    assert_eq!(pipeline.pending(), Action::CheckExists(place("/proj", &["Cargo.toml"])));
    assert_eq!(pipeline.result(), None);
    assert_eq!(pipeline.notice(), None);
}

#[test]
fn root_without_marker_is_not_a_project() {
    let mut world = World::healthy();
    world.existing.clear();
    let (pipeline, done) = world.run(request());
    assert_eq!(pipeline.state(), State::Failed(Stage::Idle, RunError::NotAProject));
    assert_eq!(pipeline.result(), Some(Err(RunError::NotAProject)));
    assert_eq!(done, vec![Action::CheckExists(place("/proj", &["Cargo.toml"]))]);
    assert_ne!(exit_code(pipeline.result().unwrap()), 0);
    assert_eq!(exit_code(pipeline.result().unwrap()), 1);
}

#[test]
fn plain_run_goes_through_every_stage() {
    let mut job = request();
    job.gdb_exec = Some("gdb".to_string());
    let (pipeline, done) = World::healthy().run(job);
    let uploader = place("/proj", &["flash", "mik32_uploader"]);
    let artifact = place("/proj", &["flash", "app.hex"]);
    assert_eq!(
        done,
        vec![
            Action::CheckExists(place("/proj", &["Cargo.toml"])),
            probe("cargo-objcopy"),
            conversion(artifact.clone()),
            Action::ReadEnv("MIK32_UPLOADER_PATH".to_string()),
            Action::CheckExists(uploader.clone()),
            Action::CheckExists(uploader.clone().join("mik32_uploader.py")),
            Action::ReadEnv("MIK32_OPENOCD_PATH".to_string()),
            Action::Capture(Invocation {
                program: place("which", &[]),
                args: vec![text("openocd")],
            }),
            probe("/usr/bin/openocd"),
            probe("python3"),
            upload(uploader, place("/usr/bin/openocd", &[]), artifact.clone()),
            Action::Attach {
                invocation: Invocation {
                    program: place("gdb", &[]),
                    args: vec![Arg::AbsolutePath(artifact), text("-x"), text("-")],
                },
                script: mik32_tool::stages::debug_script(),
            },
        ]
    );
    assert_eq!(pipeline.state(), State::Done);
    assert_eq!(pipeline.result(), Some(Ok(())));
    assert_eq!(pipeline.notice(), None);
    assert_eq!(exit_code(pipeline.result().unwrap()), 0);
}

#[test]
fn states_follow_the_stages() {
    let mut job = request();
    job.gdb_exec = Some("gdb".to_string());
    let world = World::healthy();
    let mut pipeline = Pipeline::new(job);
    let mut seen = vec![pipeline.state()];
    while pipeline.pending() != Action::Halt {
        let event = world.answer(&pipeline.pending());
        pipeline = pipeline.step(event);
        if seen.last() != Some(&pipeline.state()) {
            seen.push(pipeline.state());
        }
    }
    assert_eq!(
        seen,
        vec![State::Idle, State::Converting, State::Uploading, State::Attaching, State::Done]
    );
}

#[test]
fn no_debugger_named_ends_the_run_well() {
    let (pipeline, done) = World::healthy().run(request());
    assert_eq!(pipeline.state(), State::Done);
    assert_eq!(pipeline.result(), Some(Ok(())));
    assert_eq!(pipeline.notice(), Some(RunError::NoGdbExec));
    assert_eq!(exit_code(pipeline.result().unwrap()), 0);
    assert!(done.iter().any(is_upload));
    assert!(!done.iter().any(is_attach));
}

#[test]
fn failed_conversion_halts_the_run() {
    let mut world = World::healthy();
    world.failing.push("cargo".to_string());
    let mut job = request();
    job.gdb_exec = Some("gdb".to_string());
    let (pipeline, done) = world.run(job);
    assert_eq!(pipeline.state(), State::Failed(Stage::Converting, RunError::ObjcopyFailed));
    assert_eq!(pipeline.result(), Some(Err(RunError::ObjcopyFailed)));
    assert_eq!(
        done,
        vec![
            Action::CheckExists(place("/proj", &["Cargo.toml"])),
            probe("cargo-objcopy"),
            conversion(place("/proj", &["flash", "app.hex"])),
        ]
    );
    assert!(!done.iter().any(is_upload));
    assert!(!done.iter().any(is_attach));
    assert_ne!(exit_code(pipeline.result().unwrap()), 0);
}

#[test]
fn conversion_that_cannot_start_fails_the_run() {
    let mut world = World::healthy();
    world.missing.push("cargo".to_string());
    let (pipeline, _) = world.run(request());
    assert_eq!(pipeline.state(), State::Failed(Stage::Converting, RunError::ObjcopyFailed));
}

#[test]
fn missing_conversion_tool_is_not_installed() {
    let mut world = World::healthy();
    world.missing.push("cargo-objcopy".to_string());
    let (pipeline, done) = world.run(request());
    assert_eq!(
        pipeline.state(),
        State::Failed(Stage::Converting, RunError::PackageNotInstalled)
    );
    assert_eq!(done.len(), 2);
    assert!(!done.iter().any(|action| matches!(action, Action::Run(_))));
}

#[test]
fn conversion_tool_that_exits_with_failure_is_installed() {
    let mut world = World::healthy();
    world.failing.push("cargo-objcopy".to_string());
    let (pipeline, _) = world.run(request());
    assert_eq!(pipeline.state(), State::Done);
}

#[test]
fn reuse_of_an_existing_image_skips_the_conversion() {
    let mut world = World::healthy();
    world.existing.push(place("build/app.hex", &[]));
    let mut job = request();
    job.reuse = true;
    job.app_hex_path = Some("build/app.hex".to_string());
    let (pipeline, done) = world.run(job);
    assert_eq!(pipeline.state(), State::Done);
    assert_eq!(done.iter().filter(|action| is_conversion(action)).count(), 0);
    assert_eq!(done[1], Action::CheckExists(place("build/app.hex", &[])));
    assert_eq!(done.len(), 10);
    assert_eq!(
        done[9],
        upload(
            place("/proj", &["flash", "mik32_uploader"]),
            place("/usr/bin/openocd", &[]),
            place("build/app.hex", &[]),
        )
    );
}

#[test]
fn reuse_of_a_missing_image_fails_without_any_process() {
    let mut job = request();
    job.reuse = true;
    job.app_hex_path = Some("build/app.hex".to_string());
    let (pipeline, done) = World::healthy().run(job);
    let error = RunError::Resolution(ResolutionError {
        kind: ResourceKind::Artifact,
        attempted: TierSet::empty().with(Tier::Override),
    });
    assert_eq!(pipeline.state(), State::Failed(Stage::Idle, error));
    assert_eq!(pipeline.result(), Some(Err(error)));
    assert_eq!(
        done,
        vec![
            Action::CheckExists(place("/proj", &["Cargo.toml"])),
            Action::CheckExists(place("build/app.hex", &[])),
        ]
    );
    assert!(done.iter().all(|action| !action.starts_process()));
}

#[test]
fn reuse_without_an_image_named_converts() {
    let mut job = request();
    job.reuse = true;
    let (pipeline, done) = World::healthy().run(job);
    assert_eq!(pipeline.state(), State::Done);
    assert_eq!(done[2], conversion(place("/proj", &["flash", "app.hex"])));
}

#[test]
fn image_named_without_reuse_is_where_the_conversion_writes() {
    let mut job = request();
    job.app_hex_path = Some("out/fw.hex".to_string());
    let (pipeline, done) = World::healthy().run(job);
    assert_eq!(pipeline.state(), State::Done);
    assert_eq!(done[2], conversion(place("out/fw.hex", &[])));
    assert!(!done.contains(&Action::CheckExists(place("out/fw.hex", &[]))));
    assert!(done.iter().any(|action| match action {
        Action::Run(invocation) =>
            invocation.program.base == "python3"
                && invocation.args[6] == Arg::AbsolutePath(place("out/fw.hex", &[])),
        _ => false,
    }));
}

#[test]
fn example_is_handed_to_the_conversion() {
    let mut job = request();
    job.example = Some("blinky".to_string());
    let (_, done) = World::healthy().run(job);
    assert_eq!(
        done[2],
        Action::Run(Invocation {
            program: place("cargo", &[]),
            args: vec![
                text("objcopy"),
                text("--release"),
                text("--example"),
                text("blinky"),
                text("--"),
                text("-O"),
                text("ihex"),
                Arg::AbsolutePath(place("/proj", &["flash", "app.hex"])),
            ],
        })
    );
}

#[test]
fn upload_follows_only_a_settled_image() {
    let mut job = request();
    job.gdb_exec = Some("gdb".to_string());
    let (_, done) = World::healthy().run(job);
    let converted = done.iter().position(|a| matches!(a, Action::Run(i) if i.program.base == "cargo"));
    let uploaded = done.iter().position(is_upload);
    let attached = done.iter().position(is_attach);
    assert!(converted.is_some() && uploaded.is_some() && attached.is_some());
    assert!(converted < uploaded);
    assert!(uploaded < attached);
}

#[test]
fn uploader_override_without_driver_script_stops_before_the_upload() {
    let mut world = World::healthy();
    world.existing.push(place("/opt/up", &[]));
    let mut job = request();
    job.uploader_path = Some("/opt/up".to_string());
    let (pipeline, done) = world.run(job);
    assert_eq!(
        pipeline.state(),
        State::Failed(
            Stage::Uploading,
            RunError::Resolution(ResolutionError {
                kind: ResourceKind::UploaderDir,
                attempted: TierSet::empty().with(Tier::Override),
            })
        )
    );
    assert_eq!(done[3], Action::CheckExists(place("/opt/up", &[])));
    assert_eq!(done[4], Action::CheckExists(place("/opt/up", &["mik32_uploader.py"])));
    assert_eq!(done.len(), 5);
    assert!(!done.iter().any(is_upload));
    assert_ne!(exit_code(pipeline.result().unwrap()), 0);
}

#[test]
fn uploader_that_is_nowhere_fails_the_run() {
    let mut world = World::healthy();
    world.existing.truncate(1);
    let (pipeline, done) = world.run(request());
    assert_eq!(
        pipeline.state(),
        State::Failed(
            Stage::Uploading,
            RunError::Resolution(ResolutionError {
                kind: ResourceKind::UploaderDir,
                attempted: TierSet::empty().with(Tier::EnvVar).with(Tier::ProjectDefault),
            })
        )
    );
    assert!(!done.iter().any(is_upload));
}

#[test]
fn adapter_that_is_nowhere_fails_the_run() {
    let mut world = World::healthy();
    world.lookup = None;
    let (pipeline, done) = world.run(request());
    assert_eq!(
        pipeline.state(),
        State::Failed(
            Stage::Uploading,
            RunError::Resolution(ResolutionError {
                kind: ResourceKind::DebugAdapterExec,
                attempted: TierSet::empty().with(Tier::EnvVar).with(Tier::SystemLookup),
            })
        )
    );
    assert!(!done.iter().any(is_upload));
}

#[test]
fn overrides_and_environment_reach_the_upload() {
    let mut world = World::healthy();
    world.existing.push(place("/opt/up", &[]));
    world.existing.push(place("/opt/up", &["mik32_uploader.py"]));
    world.env.push(("MIK32_OPENOCD_PATH".to_string(), "/env/openocd".to_string()));
    let mut job = request();
    job.uploader_path = Some("/opt/up".to_string());
    let (pipeline, done) = world.run(job);
    assert_eq!(pipeline.state(), State::Done);
    assert!(done.contains(&upload(
        place("/opt/up", &[]),
        place("/env/openocd", &[]),
        place("/proj", &["flash", "app.hex"]),
    )));
    assert!(!done.iter().any(|action| matches!(action, Action::Capture(_))));
    assert!(!done.contains(&Action::ReadEnv("MIK32_UPLOADER_PATH".to_string())));
}

#[test]
fn missing_interpreter_is_not_installed() {
    let mut world = World::healthy();
    world.missing.push("python3".to_string());
    let (pipeline, done) = world.run(request());
    assert_eq!(
        pipeline.state(),
        State::Failed(Stage::Uploading, RunError::PackageNotInstalled)
    );
    assert_eq!(done.last(), Some(&probe("python3")));
    assert!(!done.iter().any(is_upload));
}

#[test]
fn failed_upload_halts_the_run() {
    for broken in [true, false] {
        let mut world = World::healthy();
        if broken {
            world.vanishing.push("python3".to_string());
        } else {
            world.failing.push("python3".to_string());
        }
        let mut job = request();
        job.gdb_exec = Some("gdb".to_string());
        let (pipeline, done) = world.run(job);
        assert_eq!(pipeline.state(), State::Failed(Stage::Uploading, RunError::UploadFailed));
        assert_eq!(pipeline.result(), Some(Err(RunError::UploadFailed)));
        assert!(done.iter().any(is_upload));
        assert!(!done.iter().any(is_attach));
        assert_eq!(exit_code(pipeline.result().unwrap()), 1);
    }
}

#[test]
fn debugger_that_cannot_start_is_noted_and_the_run_is_done() {
    let mut world = World::healthy();
    world.missing.push("gdb".to_string());
    let mut job = request();
    job.gdb_exec = Some("gdb".to_string());
    let (pipeline, done) = world.run(job);
    assert_eq!(pipeline.state(), State::Done);
    assert_eq!(pipeline.result(), Some(Ok(())));
    assert_eq!(pipeline.notice(), Some(RunError::GdbFailed));
    assert_eq!(exit_code(pipeline.result().unwrap()), 0);
    assert!(done.iter().any(is_attach));
}

#[test]
fn debugger_that_exits_with_failure_is_not_noted() {
    let mut world = World::healthy();
    world.failing.push("gdb".to_string());
    let mut job = request();
    job.gdb_exec = Some("gdb".to_string());
    let (pipeline, _) = world.run(job);
    assert_eq!(pipeline.state(), State::Done);
    assert_eq!(pipeline.notice(), None);
}

#[test]
fn pipeline_ignores_an_event_that_answers_another_question() {
    let pipeline = Pipeline::new(request());
    let pipeline = pipeline.step(Event::Env(None));
    assert_eq!(pipeline.phase, Phase::MarkerCheck);
    let pipeline = pipeline.step(Event::Exit(ProcessOutcome::Exited { success: true }));
    assert_eq!(pipeline.phase, Phase::MarkerCheck);
    let pipeline = pipeline.step(Event::Exists(true));
    assert_eq!(pipeline.state(), State::Converting);
    let before = pipeline.pending();
    let pipeline = pipeline.step(Event::Exists(true)).step(Event::Finished);
    assert_eq!(pipeline.pending(), before);
    let pipeline = pipeline.step(Event::Exit(ProcessOutcome::Exited { success: true }));
    let before = pipeline.pending();
    assert!(matches!(before, Action::Run(_)));
    let pipeline = pipeline.step(Event::Env(Some("x".to_string())));
    assert_eq!(pipeline.pending(), before);
}

#[test]
fn pipeline_that_is_over_stays_as_it_is() {
    let (pipeline, _) = World::healthy().run(request());
    let pipeline = pipeline
        .step(Event::Exists(true))
        .step(Event::Exit(ProcessOutcome::SpawnFailed))
        .step(Event::Env(None));
    assert_eq!(pipeline.state(), State::Done);
    assert_eq!(pipeline.notice(), Some(RunError::NoGdbExec));
    assert_eq!(pipeline.pending(), Action::Halt);

    let failed = Pipeline::new(request()).step(Event::Exists(false));
    let failed = failed.step(Event::Exists(true));
    assert_eq!(failed.state(), State::Failed(Stage::Idle, RunError::NotAProject));
    assert_eq!(failed.pending(), Action::Halt);
}

#[test]
fn request_is_kept_through_the_run() {
    let mut job = request();
    job.use_quad_spi = true;
    job.openocd_host = Some("host".to_string());
    let (pipeline, _) = World::healthy().run(job);
    let mut expected = request();
    expected.use_quad_spi = true;
    expected.openocd_host = Some("host".to_string());
    assert_eq!(pipeline.request, expected);
}

#[test]
fn exit_code_is_zero_only_for_success() {
    assert_eq!(exit_code(Ok(())), 0);
    for error in [
        RunError::PackageNotInstalled,
        RunError::ObjcopyFailed,
        RunError::UploadFailed,
        RunError::NoGdbExec,
        RunError::GdbFailed,
        RunError::NotAProject,
        RunError::Resolution(ResolutionError {
            kind: ResourceKind::Artifact,
            attempted: TierSet::empty(),
        }),
    ] {
        assert_eq!(exit_code(Err(error)), 1);
    }
}

#[test]
fn plain_run_asks_twelve_questions() {
    let mut job = request();
    job.gdb_exec = Some("gdb".to_string());
    let (_, done) = World::healthy().run(job);
    assert_eq!(done.len(), 12);
}

/// What a run must come to, told from the facts alone.
fn expected_end(facts: &[bool; 18]) -> (State, Option<RunError>) {
    let [marker, reuse, image_named, image_exists, converter_present, conversion_ok, uploader_named, uploader_env, uploader_exists, script_exists, adapter_named, adapter_env, lookup_ok, adapter_alive, interpreter_present, upload_ok, debugger_named, debugger_starts] =
        *facts;
    let failed = |stage, reason| (State::Failed(stage, reason), None);
    let unresolved = |stage, kind, tried: &[Tier]| {
        let mut attempted = TierSet::empty();
        for tier in tried {
            attempted = attempted.with(*tier);
        }
        failed(stage, RunError::Resolution(ResolutionError { kind, attempted }))
    };
    if !marker {
        return failed(Stage::Idle, RunError::NotAProject);
    }
    if reuse && image_named {
        if !image_exists {
            return unresolved(Stage::Idle, ResourceKind::Artifact, &[Tier::Override]);
        }
    } else if !converter_present {
        return failed(Stage::Converting, RunError::PackageNotInstalled);
    } else if !conversion_ok {
        return failed(Stage::Converting, RunError::ObjcopyFailed);
    }
    let kind = ResourceKind::UploaderDir;
    if uploader_named {
        if !(uploader_exists && script_exists) {
            return unresolved(Stage::Uploading, kind, &[Tier::Override]);
        }
    } else if uploader_env {
        if !script_exists {
            return unresolved(Stage::Uploading, kind, &[Tier::EnvVar]);
        }
    } else if !(uploader_exists && script_exists) {
        return unresolved(Stage::Uploading, kind, &[Tier::EnvVar, Tier::ProjectDefault]);
    }
    let kind = ResourceKind::DebugAdapterExec;
    if adapter_named {
        if !adapter_alive {
            return unresolved(Stage::Uploading, kind, &[Tier::Override]);
        }
    } else if adapter_env {
        if !adapter_alive {
            return unresolved(Stage::Uploading, kind, &[Tier::EnvVar]);
        }
    } else if !(lookup_ok && adapter_alive) {
        return unresolved(Stage::Uploading, kind, &[Tier::EnvVar, Tier::SystemLookup]);
    }
    if !interpreter_present {
        return failed(Stage::Uploading, RunError::PackageNotInstalled);
    }
    if !upload_ok {
        return failed(Stage::Uploading, RunError::UploadFailed);
    }
    if !debugger_named {
        (State::Done, Some(RunError::NoGdbExec))
    } else if !debugger_starts {
        (State::Done, Some(RunError::GdbFailed))
    } else {
        (State::Done, None)
    }
}

/// A request and a world in which the facts hold.
fn world_of(facts: &[bool; 18]) -> (PipelineRequest, World) {
    let [marker, reuse, image_named, image_exists, converter_present, conversion_ok, uploader_named, uploader_env, uploader_exists, script_exists, adapter_named, adapter_env, lookup_ok, adapter_alive, interpreter_present, upload_ok, debugger_named, debugger_starts] =
        *facts;
    let mut job = request();
    let mut world = World {
        existing: Vec::new(),
        env: Vec::new(),
        missing: Vec::new(),
        failing: Vec::new(),
        vanishing: Vec::new(),
        lookup: None,
    };
    if marker {
        world.existing.push(place("/proj", &["Cargo.toml"]));
    }
    job.reuse = reuse;
    if image_named {
        job.app_hex_path = Some("/named/app.hex".to_string());
        if image_exists {
            world.existing.push(place("/named/app.hex", &[]));
        }
    }
    if !converter_present {
        world.missing.push("cargo-objcopy".to_string());
    }
    if !conversion_ok {
        world.failing.push("cargo".to_string());
    }
    let uploader = if uploader_named {
        job.uploader_path = Some("/named/up".to_string());
        place("/named/up", &[])
    } else if uploader_env {
        world.env.push(("MIK32_UPLOADER_PATH".to_string(), "/env/up".to_string()));
        place("/env/up", &[])
    } else {
        place("/proj", &["flash", "mik32_uploader"])
    };
    if uploader_exists {
        world.existing.push(uploader.clone());
    }
    if script_exists {
        world.existing.push(uploader.join("mik32_uploader.py"));
    }
    let adapter = if adapter_named {
        job.openocd_path = Some("/named/openocd".to_string());
        "/named/openocd"
    } else if adapter_env {
        world.env.push(("MIK32_OPENOCD_PATH".to_string(), "/env/openocd".to_string()));
        "/env/openocd"
    } else {
        "/found/openocd"
    };
    if lookup_ok {
        world.lookup = Some("/found/openocd\n".to_string());
    }
    if !adapter_alive {
        world.missing.push(adapter.to_string());
    }
    if !interpreter_present {
        world.missing.push("python3".to_string());
    }
    if !upload_ok {
        world.failing.push("python3".to_string());
    }
    if debugger_named {
        job.gdb_exec = Some("gdb".to_string());
    }
    if !debugger_starts {
        world.missing.push("gdb".to_string());
    }
    (job, world)
}

/// Runs the pipeline in every world that has the two leading facts as
/// given, and holds its end against what the facts call for.
fn sweep_small_worlds(first: bool, second: bool) {
    for code in 0u32..(1 << 16) {
        let mut facts = [false; 18];
        facts[0] = first;
        facts[1] = second;
        for (bit, fact) in facts.iter_mut().skip(2).enumerate() {
            *fact = code & (1 << bit) != 0;
        }
        let (job, world) = world_of(&facts);
        let mut pipeline = Pipeline::new(job);
        let mut asked: usize = 0;
        loop {
            let action = pipeline.pending();
            if action == Action::Halt {
                break;
            }
            asked += 1;
            pipeline = pipeline.step(world.answer(&action));
        }
        assert!(asked <= 12);
        assert_eq!((pipeline.state(), pipeline.notice()), expected_end(&facts), "{:?}", facts);
    }
}

#[test]
fn run_ends_as_the_facts_have_it_outside_a_project() {
    sweep_small_worlds(false, false);
    sweep_small_worlds(false, true);
}

#[test]
fn run_ends_as_the_facts_have_it_when_converting() {
    sweep_small_worlds(true, false);
}

#[test]
fn run_ends_as_the_facts_have_it_when_reusing() {
    sweep_small_worlds(true, true);
}

#[test]
fn interpreter_probed_is_the_interpreter_run() {
    let (_, done) = World::healthy().run(request());
    let probed = done.iter().rev().find_map(|action| match action {
        Action::RunQuiet(invocation) => Some(invocation.program.clone()),
        _ => None,
    });
    let run = done.iter().find_map(|action| match action {
        Action::Run(invocation) if is_upload(action) => Some(invocation.program.clone()),
        _ => None,
    });
    assert_eq!(probed, Some(place("python3", &[])));
    assert_eq!(probed, run);
}

#[test]
fn interpreter_that_exits_with_failure_is_installed() {
    let mut world = World::healthy();
    world.failing.push("python3".to_string());
    let (pipeline, done) = world.run(request());
    assert_eq!(pipeline.state(), State::Failed(Stage::Uploading, RunError::UploadFailed));
    assert!(done.iter().any(is_upload));
}

#[test]
fn named_scripts_reach_the_upload_once() {
    let mut job = request();
    job.openocd_scripts = Some("/my/scripts".to_string());
    let (pipeline, done) = World::healthy().run(job);
    assert_eq!(pipeline.state(), State::Done);
    let uploader = place("/proj", &["flash", "mik32_uploader"]);
    assert_eq!(
        done.iter().find(|action| is_upload(action)),
        Some(&Action::Run(Invocation {
            program: place("python3", &[]),
            args: vec![
                Arg::AbsolutePath(uploader.join("mik32_uploader.py")),
                text("--run-openocd"),
                text("--openocd-exec"),
                Arg::AbsolutePath(place("/usr/bin/openocd", &[])),
                text("--openocd-scripts"),
                Arg::AbsolutePath(place("/my/scripts", &[])),
                Arg::AbsolutePath(place("/proj", &["flash", "app.hex"])),
            ],
        }))
    );
}
