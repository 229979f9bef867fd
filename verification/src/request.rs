//! What one run of the pipeline is asked to do.

use vstd::prelude::*;
use crate::text::opt_text;

verus! {

/// The wishes of one `run`: an override for whatever the pipeline would
/// otherwise look up itself, and the flags it hands on to the uploader.
/// It is made once and not changed afterwards.
#[derive(Debug, PartialEq, Eq)]
pub struct PipelineRequest {
    /// Convert this example of the project rather than its main program.
    pub example: Option<String>,
    /// Flash an image that exists already instead of making one.
    pub reuse: bool,
    /// The debugger to attach after flashing.
    pub gdb_exec: Option<String>,
    /// The debug adapter's executable.
    pub openocd_path: Option<String>,
    /// The uploader's directory.
    pub uploader_path: Option<String>,
    /// The image: where to find it with `reuse`, where to write it without.
    pub app_hex_path: Option<String>,
    /// Handed on to the uploader.
    pub use_quad_spi: bool,
    /// Handed on to the uploader.
    pub openocd_host: Option<String>,
    /// Handed on to the uploader.
    pub openocd_port: Option<String>,
    /// Handed on to the uploader.
    pub adapter_speed: Option<String>,
    /// Adapter scripts to use in place of those the uploader ships.
    pub openocd_scripts: Option<String>,
    /// Handed on to the uploader.
    pub openocd_interface: Option<String>,
    /// Handed on to the uploader.
    pub openocd_target: Option<String>,
    /// The root of the project.
    pub project_dir: String,
}

/// What a [`PipelineRequest`] says, as plain sequences.
pub ghost struct RequestModel {
    pub example: Option<Seq<char>>,
    pub reuse: bool,
    pub gdb_exec: Option<Seq<char>>,
    pub openocd_path: Option<Seq<char>>,
    pub uploader_path: Option<Seq<char>>,
    pub app_hex_path: Option<Seq<char>>,
    pub use_quad_spi: bool,
    pub openocd_host: Option<Seq<char>>,
    pub openocd_port: Option<Seq<char>>,
    pub adapter_speed: Option<Seq<char>>,
    pub openocd_scripts: Option<Seq<char>>,
    pub openocd_interface: Option<Seq<char>>,
    pub openocd_target: Option<Seq<char>>,
    pub project_dir: Seq<char>,
}

impl View for PipelineRequest {
    type V = RequestModel;

    open spec fn view(&self) -> RequestModel {
        RequestModel {
            example: opt_text(self.example),
            reuse: self.reuse,
            gdb_exec: opt_text(self.gdb_exec),
            openocd_path: opt_text(self.openocd_path),
            uploader_path: opt_text(self.uploader_path),
            app_hex_path: opt_text(self.app_hex_path),
            use_quad_spi: self.use_quad_spi,
            openocd_host: opt_text(self.openocd_host),
            openocd_port: opt_text(self.openocd_port),
            adapter_speed: opt_text(self.adapter_speed),
            openocd_scripts: opt_text(self.openocd_scripts),
            openocd_interface: opt_text(self.openocd_interface),
            openocd_target: opt_text(self.openocd_target),
            project_dir: self.project_dir@,
        }
    }
}

/// Something the caller should be told that does not stop the run.
#[derive(Clone, Copy, Debug, PartialEq, Eq, Structural)]
pub enum Diagnostic {
    /// `reuse` and an example were both asked for. Reusing an image skips
    /// the conversion, which is the only step an example has a part in.
    ExampleWithReuse,
}

impl RequestModel {
    /// Whether the conversion is left out: an image was named and is to be
    /// reused.
    pub open spec fn reuses_artifact(self) -> bool {
        self.reuse && self.app_hex_path is Some
    }

    /// What the request deserves a warning for, if anything.
    pub open spec fn warning(self) -> Option<Diagnostic> {
        if self.reuse && self.example is Some {
            Some(Diagnostic::ExampleWithReuse)
        } else {
            None
        }
    }
}

impl PipelineRequest {
    /// A request for the project at `project_dir` with no override and no
    /// flag set.
    pub fn new(project_dir: String) -> (request: PipelineRequest)
        ensures
            request@ == (RequestModel {
                example: None,
                reuse: false,
                gdb_exec: None,
                openocd_path: None,
                uploader_path: None,
                app_hex_path: None,
                use_quad_spi: false,
                openocd_host: None,
                openocd_port: None,
                adapter_speed: None,
                openocd_scripts: None,
                openocd_interface: None,
                openocd_target: None,
                project_dir: project_dir@,
            }),
    {
        PipelineRequest {
            example: None,
            reuse: false,
            gdb_exec: None,
            openocd_path: None,
            uploader_path: None,
            app_hex_path: None,
            use_quad_spi: false,
            openocd_host: None,
            openocd_port: None,
            adapter_speed: None,
            openocd_scripts: None,
            openocd_interface: None,
            openocd_target: None,
            project_dir,
        }
    }

    /// Tells whether the conversion is left out: an image was named and is
    /// to be reused.
    pub fn reuses_artifact(&self) -> (yes: bool)
        ensures
            yes == self@.reuses_artifact(),
    {
        self.reuse && self.app_hex_path.is_some()
    }

    /// Looks the request over before the run. The one thing worth a warning
    /// is an example named together with `reuse`; it never stops the run.
    pub fn validate(&self) -> (warning: Option<Diagnostic>)
        ensures
            warning == self@.warning(),
    {
        if self.reuse && self.example.is_some() {
            Some(Diagnostic::ExampleWithReuse)
        } else {
            None
        }
    }
}

} // verus!
