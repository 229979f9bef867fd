//! The three stages as command lines, and how their exits are judged.

use vstd::prelude::*;
use crate::error::RunError;
use crate::invocation::{
    arg_models, optional_flag, optional_pair, push_arg, push_optional_flag, push_optional_pair,
    push_text, Arg, ArgModel, Invocation, InvocationModel,
};
use crate::layout::{
    adapter_scripts, adapter_scripts_of, driver_script, driver_script_of, BUILD_COMMAND,
    INTERPRETER_COMMAND, LOOKUP_COMMAND,
};
use crate::location::{Location, LocationModel};
use crate::protocol::ProcessOutcome;
use crate::request::{PipelineRequest, RequestModel};

verus! {

/// The argument a command is probed with: one that does no harm.
pub const PROBE_ARGUMENT: &'static str = "--version";

/// What is written to the debugger's input once it runs. The text is the
/// same for every target and every session.
pub const DEBUG_SCRIPT: &'static str =
    "EOF\n                set mem inaccessible-by-default off\n                mem 0x01000000 0x01002000 ro\n                mem 0x80000000 0xffffffff ro\n                set arch riscv:rv32\n                set remotetimeout 10\n                set remote hardware-breakpoint-limit 2\n                target remote localhost:3333\n                load\n                EOF\n                ";

/// The command line that probes `program`.
pub open spec fn probe_of(program: LocationModel) -> InvocationModel {
    InvocationModel { program, args: seq![ArgModel::Text(PROBE_ARGUMENT@)] }
}

/// The command line that asks the system where `command` is.
pub open spec fn lookup_of(command: Seq<char>) -> InvocationModel {
    InvocationModel {
        program: LocationModel::at(LOOKUP_COMMAND@),
        args: seq![ArgModel::Text(command)],
    }
}

/// The command line of the conversion: a release build of the main program
/// or of `example`, written as Intel hex records to `artifact`.
pub open spec fn conversion_of(
    example: Option<Seq<char>>,
    artifact: LocationModel,
) -> InvocationModel {
    InvocationModel {
        program: LocationModel::at(BUILD_COMMAND@),
        args: seq![ArgModel::Text("objcopy"@), ArgModel::Text("--release"@)] + optional_pair(
            "--example"@,
            example,
        ) + seq![
            ArgModel::Text("--"@),
            ArgModel::Text("-O"@),
            ArgModel::Text("ihex"@),
            ArgModel::AbsolutePath(artifact),
        ],
    }
}

/// The adapter scripts an upload uses: those the request names, and only
/// without any named those that ship beside the driver.
pub open spec fn scripts_of(request: RequestModel, uploader: LocationModel) -> LocationModel {
    match request.openocd_scripts {
        Some(path) => LocationModel::at(path),
        None => adapter_scripts_of(uploader),
    }
}

/// The arguments every upload has: the driver script, the debug adapter
/// with its scripts, and the image.
pub open spec fn upload_fixed_args(
    uploader: LocationModel,
    adapter: LocationModel,
    scripts: LocationModel,
    artifact: LocationModel,
) -> Seq<ArgModel> {
    seq![
        ArgModel::AbsolutePath(driver_script_of(uploader)),
        ArgModel::Text("--run-openocd"@),
        ArgModel::Text("--openocd-exec"@),
        ArgModel::AbsolutePath(adapter),
        ArgModel::Text("--openocd-scripts"@),
        ArgModel::AbsolutePath(scripts),
        ArgModel::AbsolutePath(artifact),
    ]
}

/// The command line of the upload: the arguments every upload has, then
/// those the request sets, each left out unless it does. No default is
/// filled in here.
pub open spec fn upload_of(
    request: RequestModel,
    uploader: LocationModel,
    adapter: LocationModel,
    artifact: LocationModel,
) -> InvocationModel {
    InvocationModel {
        program: LocationModel::at(INTERPRETER_COMMAND@),
        args: upload_fixed_args(uploader, adapter, scripts_of(request, uploader), artifact)
            + optional_flag("--use-quad-spi"@, request.use_quad_spi) + optional_pair(
            "--openocd-host"@,
            request.openocd_host,
        ) + optional_pair("--openocd-port"@, request.openocd_port) + optional_pair(
            "--adapter-speed"@,
            request.adapter_speed,
        ) + optional_pair("--openocd-interface"@, request.openocd_interface) + optional_pair(
            "--openocd-target"@,
            request.openocd_target,
        ),
    }
}

/// The command line of the debugger: the image, and its commands from
/// standard input.
pub open spec fn debugger_of(debugger: Seq<char>, artifact: LocationModel) -> InvocationModel {
    InvocationModel {
        program: LocationModel::at(debugger),
        args: seq![
            ArgModel::AbsolutePath(artifact),
            ArgModel::Text("-x"@),
            ArgModel::Text("-"@),
        ],
    }
}

/// What a conversion that ended with `outcome` means for the run.
pub open spec fn conversion_verdict(outcome: ProcessOutcome) -> Result<(), RunError> {
    if outcome.succeeded() {
        Ok(())
    } else {
        Err(RunError::ObjcopyFailed)
    }
}

/// What an upload that ended with `outcome` means for the run.
pub open spec fn upload_verdict(outcome: ProcessOutcome) -> Result<(), RunError> {
    if outcome.succeeded() {
        Ok(())
    } else {
        Err(RunError::UploadFailed)
    }
}

/// What is to be noted of a debugger that ended with `outcome`.
pub open spec fn attach_verdict(outcome: ProcessOutcome) -> Option<RunError> {
    if outcome.started() {
        None
    } else {
        Some(RunError::GdbFailed)
    }
}

/// Builds the command line that probes `program`.
pub fn probe_invocation(program: Location) -> (invocation: Invocation)
    ensures
        invocation@ == probe_of(program@),
{
    let mut args: Vec<Arg> = Vec::new();
    push_text(&mut args, PROBE_ARGUMENT);
    assert(arg_models(args@) =~= probe_of(program@).args);
    Invocation { program, args }
}

/// Builds the command line that asks the system where `command` is.
pub fn lookup_invocation(command: &str) -> (invocation: Invocation)
    ensures
        invocation@ == lookup_of(command@),
{
    let mut args: Vec<Arg> = Vec::new();
    push_text(&mut args, command);
    assert(arg_models(args@) =~= lookup_of(command@).args);
    Invocation { program: Location::new(LOOKUP_COMMAND.to_owned()), args }
}

/// Builds the command line of the conversion.
pub fn conversion_invocation(example: &Option<String>, artifact: &Location) -> (invocation:
    Invocation)
    ensures
        invocation@ == conversion_of(crate::text::opt_text(*example), artifact@),
{
    let mut args: Vec<Arg> = Vec::new();
    push_text(&mut args, "objcopy");
    push_text(&mut args, "--release");
    push_optional_pair(&mut args, "--example", example);
    push_text(&mut args, "--");
    push_text(&mut args, "-O");
    push_text(&mut args, "ihex");
    push_arg(&mut args, Arg::AbsolutePath(artifact.clone()));
    assert(arg_models(args@) =~= conversion_of(crate::text::opt_text(*example), artifact@).args);
    Invocation { program: Location::new(BUILD_COMMAND.to_owned()), args }
}

/// Picks the adapter scripts an upload uses.
fn scripts_for(request: &PipelineRequest, uploader: &Location) -> (scripts: Location)
    ensures
        scripts@ == scripts_of(request@, uploader@),
{
    match &request.openocd_scripts {
        Some(path) => Location::new(path.clone()),
        None => adapter_scripts(uploader),
    }
}

/// Builds the command line of the upload.
pub fn upload_invocation(
    request: &PipelineRequest,
    uploader: &Location,
    adapter: &Location,
    artifact: &Location,
) -> (invocation: Invocation)
    ensures
        invocation@ == upload_of(request@, uploader@, adapter@, artifact@),
{
    let mut args: Vec<Arg> = Vec::new();
    push_arg(&mut args, Arg::AbsolutePath(driver_script(uploader)));
    push_text(&mut args, "--run-openocd");
    push_text(&mut args, "--openocd-exec");
    push_arg(&mut args, Arg::AbsolutePath(adapter.clone()));
    push_text(&mut args, "--openocd-scripts");
    push_arg(&mut args, Arg::AbsolutePath(scripts_for(request, uploader)));
    push_arg(&mut args, Arg::AbsolutePath(artifact.clone()));
    assert(arg_models(args@) =~= upload_fixed_args(
        uploader@,
        adapter@,
        scripts_of(request@, uploader@),
        artifact@,
    ));
    push_optional_flag(&mut args, "--use-quad-spi", request.use_quad_spi);
    push_optional_pair(&mut args, "--openocd-host", &request.openocd_host);
    push_optional_pair(&mut args, "--openocd-port", &request.openocd_port);
    push_optional_pair(&mut args, "--adapter-speed", &request.adapter_speed);
    push_optional_pair(&mut args, "--openocd-interface", &request.openocd_interface);
    push_optional_pair(&mut args, "--openocd-target", &request.openocd_target);
    Invocation { program: Location::new(INTERPRETER_COMMAND.to_owned()), args }
}

/// Builds the command line of the debugger.
pub fn debugger_invocation(debugger: &String, artifact: &Location) -> (invocation: Invocation)
    ensures
        invocation@ == debugger_of(debugger@, artifact@),
{
    let mut args: Vec<Arg> = Vec::new();
    push_arg(&mut args, Arg::AbsolutePath(artifact.clone()));
    push_text(&mut args, "-x");
    push_text(&mut args, "-");
    assert(arg_models(args@) =~= debugger_of(debugger@, artifact@).args);
    Invocation { program: Location::new(debugger.clone()), args }
}

/// The text to write to the debugger's input.
pub fn debug_script() -> (script: String)
    ensures
        script@ == DEBUG_SCRIPT@,
{
    DEBUG_SCRIPT.to_owned()
}

/// Judges the conversion by how its process ended: anything but an exit
/// that reports success is a failed conversion.
pub fn conversion_result(outcome: ProcessOutcome) -> (verdict: Result<(), RunError>)
    ensures
        verdict == conversion_verdict(outcome),
{
    if outcome.is_success() {
        Ok(())
    } else {
        Err(RunError::ObjcopyFailed)
    }
}

/// Judges the upload by how its process ended: anything but an exit that
/// reports success is a failed upload.
pub fn upload_result(outcome: ProcessOutcome) -> (verdict: Result<(), RunError>)
    ensures
        verdict == upload_verdict(outcome),
{
    if outcome.is_success() {
        Ok(())
    } else {
        Err(RunError::UploadFailed)
    }
}

/// Judges the debugger by how its process ended. Only a debugger that
/// could not be started is noted; once a session ran, how it ended is the
/// user's affair.
pub fn attach_result(outcome: ProcessOutcome) -> (notice: Option<RunError>)
    ensures
        notice == attach_verdict(outcome),
{
    match outcome {
        ProcessOutcome::SpawnFailed => Some(RunError::GdbFailed),
        ProcessOutcome::Exited { .. } => None,
    }
}

} // verus!
