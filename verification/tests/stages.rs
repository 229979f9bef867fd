use mik32_tool::error::RunError;
use mik32_tool::invocation::{Arg, Invocation};
use mik32_tool::layout::{
    adapter_scripts, default_artifact, default_uploader, driver_script, marker,
};
use mik32_tool::location::Location;
use mik32_tool::protocol::{tool_available, Action, Event, ProcessOutcome};
use mik32_tool::request::{Diagnostic, PipelineRequest};
use mik32_tool::text::strip_line_break;
use mik32_tool::stages::{
    attach_result, conversion_invocation, conversion_result, debug_script, debugger_invocation,
    lookup_invocation, probe_invocation, upload_invocation, upload_result,
};

fn place(base: &str, parts: &[&str]) -> Location {
    Location { base: base.to_string(), parts: parts.iter().map(|p| p.to_string()).collect() }
}

fn text(value: &str) -> Arg {
    Arg::Text(value.to_string())
}

#[test]
fn location_new_has_no_parts() {
    assert_eq!(Location::new("/work".to_string()), place("/work", &[]));
}

#[test]
fn location_join_appends_in_order() {
    let joined = Location::new("/work".to_string()).join("flash").join("app.hex");
    assert_eq!(joined, place("/work", &["flash", "app.hex"]));
}

#[test]
fn location_clone_is_equal() {
    let first = place("/work", &["a", "b", "c"]);
    assert_eq!(first.clone(), first);
}

#[test]
fn layout_names_the_project_files() {
    let root = "/proj".to_string();
    assert_eq!(marker(&root), place("/proj", &["Cargo.toml"]));
    assert_eq!(default_artifact(&root), place("/proj", &["flash", "app.hex"]));
    assert_eq!(default_uploader(&root), place("/proj", &["flash", "mik32_uploader"]));
}

#[test]
fn layout_names_the_uploader_files() {
    let uploader = place("/opt/uploader", &[]);
    assert_eq!(driver_script(&uploader), place("/opt/uploader", &["mik32_uploader.py"]));
    assert_eq!(adapter_scripts(&uploader), place("/opt/uploader", &["openocd-scripts"]));
    let nested = place("/proj", &["flash", "mik32_uploader"]);
    assert_eq!(
        driver_script(&nested),
        place("/proj", &["flash", "mik32_uploader", "mik32_uploader.py"])
    );
}

#[test]
fn probe_uses_the_version_argument() {
    let invocation = probe_invocation(place("openocd", &[]));
    assert_eq!(
        invocation,
        Invocation { program: place("openocd", &[]), args: vec![text("--version")] }
    );
}

#[test]
fn lookup_asks_which() {
    assert_eq!(
        lookup_invocation("openocd"),
        Invocation { program: place("which", &[]), args: vec![text("openocd")] }
    );
}

#[test]
fn tool_exists_whatever_its_exit_status() {
    assert!(tool_available(ProcessOutcome::Exited { success: true }));
    assert!(tool_available(ProcessOutcome::Exited { success: false }));
    assert!(!tool_available(ProcessOutcome::SpawnFailed));
}

#[test]
fn outcome_success_needs_a_successful_exit() {
    assert!(ProcessOutcome::Exited { success: true }.is_success());
    assert!(!ProcessOutcome::Exited { success: false }.is_success());
    assert!(!ProcessOutcome::SpawnFailed.is_success());
}

#[test]
fn conversion_of_the_main_program() {
    let invocation = conversion_invocation(&None, &place("/proj", &["flash", "app.hex"]));
    assert_eq!(
        invocation,
        Invocation {
            program: place("cargo", &[]),
            args: vec![
                text("objcopy"),
                text("--release"),
                text("--"),
                text("-O"),
                text("ihex"),
                Arg::AbsolutePath(place("/proj", &["flash", "app.hex"])),
            ],
        }
    );
}

#[test]
fn conversion_of_an_example() {
    let invocation = conversion_invocation(&Some("blinky".to_string()), &place("out.hex", &[]));
    assert_eq!(
        invocation,
        Invocation {
            program: place("cargo", &[]),
            args: vec![
                text("objcopy"),
                text("--release"),
                text("--example"),
                text("blinky"),
                text("--"),
                text("-O"),
                text("ihex"),
                Arg::AbsolutePath(place("out.hex", &[])),
            ],
        }
    );
}

#[test]
fn upload_with_nothing_optional() {
    let request = PipelineRequest::new("/proj".to_string());
    let invocation = upload_invocation(
        &request,
        &place("/up", &[]),
        &place("/bin/openocd", &[]),
        &place("/proj", &["flash", "app.hex"]),
    );
    assert_eq!(
        invocation,
        Invocation {
            program: place("python3", &[]),
            args: vec![
                Arg::AbsolutePath(place("/up", &["mik32_uploader.py"])),
                text("--run-openocd"),
                text("--openocd-exec"),
                Arg::AbsolutePath(place("/bin/openocd", &[])),
                text("--openocd-scripts"),
                Arg::AbsolutePath(place("/up", &["openocd-scripts"])),
                Arg::AbsolutePath(place("/proj", &["flash", "app.hex"])),
            ],
        }
    );
}

#[test]
fn upload_with_everything_optional() {
    let mut request = PipelineRequest::new("/proj".to_string());
    request.use_quad_spi = true;
    request.openocd_host = Some("10.0.0.2".to_string());
    request.openocd_port = Some("6666".to_string());
    request.adapter_speed = Some("500".to_string());
    request.openocd_scripts = Some("my/scripts".to_string());
    request.openocd_interface = Some("interface/ftdi/m-link.cfg".to_string());
    request.openocd_target = Some("target/mik32.cfg".to_string());
    let invocation = upload_invocation(
        &request,
        &place("/up", &[]),
        &place("openocd", &[]),
        &place("app.hex", &[]),
    );
    assert_eq!(invocation.program, place("python3", &[]));
    assert_eq!(
        invocation.args,
        vec![
            Arg::AbsolutePath(place("/up", &["mik32_uploader.py"])),
            text("--run-openocd"),
            text("--openocd-exec"),
            Arg::AbsolutePath(place("openocd", &[])),
            text("--openocd-scripts"),
            Arg::AbsolutePath(place("my/scripts", &[])),
            Arg::AbsolutePath(place("app.hex", &[])),
            text("--use-quad-spi"),
            text("--openocd-host"),
            text("10.0.0.2"),
            text("--openocd-port"),
            text("6666"),
            text("--adapter-speed"),
            text("500"),
            text("--openocd-interface"),
            text("interface/ftdi/m-link.cfg"),
            text("--openocd-target"),
            text("target/mik32.cfg"),
        ]
    );
}

#[test]
fn upload_leaves_out_what_is_not_set() {
    let mut request = PipelineRequest::new("/proj".to_string());
    request.openocd_port = Some("4444".to_string());
    request.openocd_target = Some("t.cfg".to_string());
    let invocation = upload_invocation(
        &request,
        &place("/up", &[]),
        &place("openocd", &[]),
        &place("app.hex", &[]),
    );
    assert_eq!(
        invocation.args[7..].to_vec(),
        vec![text("--openocd-port"), text("4444"), text("--openocd-target"), text("t.cfg")]
    );
    assert_eq!(invocation.args.len(), 11);
}

#[test]
fn debugger_reads_its_commands_from_input() {
    let invocation = debugger_invocation(&"riscv-gdb".to_string(), &place("app.hex", &[]));
    assert_eq!(
        invocation,
        Invocation {
            program: place("riscv-gdb", &[]),
            args: vec![Arg::AbsolutePath(place("app.hex", &[])), text("-x"), text("-")],
        }
    );
}

#[test]
fn debug_script_is_the_fixed_text() {
    let indent = "                ";
    let lines = [
        "set mem inaccessible-by-default off",
        "mem 0x01000000 0x01002000 ro",
        "mem 0x80000000 0xffffffff ro",
        "set arch riscv:rv32",
        "set remotetimeout 10",
        "set remote hardware-breakpoint-limit 2",
        "target remote localhost:3333",
        "load",
        "EOF",
    ];
    let mut expected = String::from("EOF\n");
    for line in lines {
        expected.push_str(indent);
        expected.push_str(line);
        expected.push('\n');
    }
    expected.push_str(indent);
    assert_eq!(debug_script(), expected);
    assert_eq!(debug_script().len(), 376);
}

#[test]
fn conversion_fails_unless_it_reports_success() {
    assert_eq!(conversion_result(ProcessOutcome::Exited { success: true }), Ok(()));
    assert_eq!(
        conversion_result(ProcessOutcome::Exited { success: false }),
        Err(RunError::ObjcopyFailed)
    );
    assert_eq!(conversion_result(ProcessOutcome::SpawnFailed), Err(RunError::ObjcopyFailed));
}

#[test]
fn upload_fails_unless_it_reports_success() {
    assert_eq!(upload_result(ProcessOutcome::Exited { success: true }), Ok(()));
    assert_eq!(
        upload_result(ProcessOutcome::Exited { success: false }),
        Err(RunError::UploadFailed)
    );
    assert_eq!(upload_result(ProcessOutcome::SpawnFailed), Err(RunError::UploadFailed));
}

#[test]
fn debugger_is_noted_only_when_it_cannot_start() {
    assert_eq!(attach_result(ProcessOutcome::SpawnFailed), Some(RunError::GdbFailed));
    assert_eq!(attach_result(ProcessOutcome::Exited { success: true }), None);
    assert_eq!(attach_result(ProcessOutcome::Exited { success: false }), None);
}

#[test]
fn request_new_sets_nothing() {
    let request = PipelineRequest::new("/proj".to_string());
    assert_eq!(request.project_dir, "/proj");
    assert!(!request.reuse);
    assert!(!request.use_quad_spi);
    assert_eq!(request.example, None);
    assert_eq!(request.gdb_exec, None);
    assert_eq!(request.openocd_path, None);
    assert_eq!(request.uploader_path, None);
    assert_eq!(request.app_hex_path, None);
    assert_eq!(request.openocd_host, None);
    assert_eq!(request.openocd_port, None);
    assert_eq!(request.adapter_speed, None);
    assert_eq!(request.openocd_scripts, None);
    assert_eq!(request.openocd_interface, None);
    assert_eq!(request.openocd_target, None);
}

#[test]
fn example_with_reuse_is_warned_of() {
    let mut request = PipelineRequest::new("/proj".to_string());
    request.reuse = true;
    request.example = Some("blinky".to_string());
    assert_eq!(request.validate(), Some(Diagnostic::ExampleWithReuse));
}

#[test]
fn example_or_reuse_alone_is_not_warned_of() {
    let mut request = PipelineRequest::new("/proj".to_string());
    assert_eq!(request.validate(), None);
    request.reuse = true;
    assert_eq!(request.validate(), None);
    request.reuse = false;
    request.example = Some("blinky".to_string());
    assert_eq!(request.validate(), None);
}

#[test]
fn only_commands_start_processes() {
    let command = probe_invocation(place("tool", &[]));
    assert!(Action::RunQuiet(command.clone()).starts_process());
    assert!(Action::Capture(command.clone()).starts_process());
    assert!(Action::Run(command.clone()).starts_process());
    assert!(Action::Attach { invocation: command, script: String::new() }.starts_process());
    assert!(!Action::CheckExists(place("x", &[])).starts_process());
    assert!(!Action::ReadEnv("X".to_string()).starts_process());
    assert!(!Action::CreateDir(place("x", &[])).starts_process());
    assert!(!Action::WriteFile {
        place: place("x", &[]),
        contents: String::new(),
        required: false
    }
    .starts_process());
    assert!(!Action::Halt.starts_process());
}

#[test]
fn each_question_has_its_kind_of_answer() {
    let command = probe_invocation(place("tool", &[]));
    let events = || {
        vec![
            Event::Exists(true),
            Event::Env(None),
            Event::Exit(ProcessOutcome::SpawnFailed),
            Event::Captured { outcome: ProcessOutcome::SpawnFailed, output: String::new() },
            Event::Finished,
        ]
    };
    let expect = |action: Action, wanted: usize| {
        for (index, event) in events().iter().enumerate() {
            assert_eq!(action.is_answered_by(event), index == wanted);
        }
    };
    expect(Action::CheckExists(place("x", &[])), 0);
    expect(Action::ReadEnv("X".to_string()), 1);
    expect(Action::RunQuiet(command.clone()), 2);
    expect(Action::Run(command.clone()), 2);
    expect(Action::Attach { invocation: command.clone(), script: String::new() }, 2);
    expect(Action::Capture(command), 3);
    expect(Action::CreateDir(place("x", &[])), 4);
    expect(
        Action::WriteFile { place: place("x", &[]), contents: String::new(), required: true },
        4,
    );
    for event in events() {
        assert!(!Action::Halt.is_answered_by(&event));
    }
}

#[test]
fn image_is_reused_only_when_named() {
    let mut request = PipelineRequest::new("/proj".to_string());
    assert!(!request.reuses_artifact());
    request.reuse = true;
    assert!(!request.reuses_artifact());
    request.app_hex_path = Some("app.hex".to_string());
    assert!(request.reuses_artifact());
    request.reuse = false;
    assert!(!request.reuses_artifact());
}

#[test]
fn named_scripts_take_the_place_of_the_shipped_ones() {
    let mut request = PipelineRequest::new("/proj".to_string());
    request.openocd_scripts = Some("/my/scripts".to_string());
    let invocation = upload_invocation(
        &request,
        &place("/up", &[]),
        &place("openocd", &[]),
        &place("app.hex", &[]),
    );
    assert_eq!(
        invocation.args,
        vec![
            Arg::AbsolutePath(place("/up", &["mik32_uploader.py"])),
            text("--run-openocd"),
            text("--openocd-exec"),
            Arg::AbsolutePath(place("openocd", &[])),
            text("--openocd-scripts"),
            Arg::AbsolutePath(place("/my/scripts", &[])),
            Arg::AbsolutePath(place("app.hex", &[])),
        ]
    );
    let flags = invocation.args.iter().filter(|arg| **arg == text("--openocd-scripts")).count();
    assert_eq!(flags, 1);
    assert!(!invocation.args.contains(&Arg::AbsolutePath(place("/up", &["openocd-scripts"]))));
}

#[test]
fn line_break_is_taken_off_the_end_only() {
    assert_eq!(strip_line_break("/usr/bin/openocd\n"), "/usr/bin/openocd");
    assert_eq!(strip_line_break("/usr/bin/openocd\r\n"), "/usr/bin/openocd");
    assert_eq!(strip_line_break("/usr/bin/openocd"), "/usr/bin/openocd");
    assert_eq!(strip_line_break("a\nb\n"), "a\nb");
    assert_eq!(strip_line_break("a\n\n"), "a\n");
    assert_eq!(strip_line_break("a\r"), "a\r");
    assert_eq!(strip_line_break("\n"), "");
    assert_eq!(strip_line_break("\r\n"), "");
    assert_eq!(strip_line_break(""), "");
    assert_eq!(strip_line_break("путь\n"), "путь");
}
