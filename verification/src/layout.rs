//! Names the tool relies on: files of a project, variables, commands.

use vstd::prelude::*;
use crate::location::{Location, LocationModel};

verus! {

/// The file whose presence marks a directory as a project root.
pub const MARKER_FILE: &'static str = "Cargo.toml";

/// The directory of a project that holds what is flashed and what flashes.
pub const FLASH_DIR: &'static str = "flash";

/// The image the conversion writes when no other path is asked for.
pub const ARTIFACT_FILE: &'static str = "app.hex";

/// The uploader's directory below [`FLASH_DIR`].
pub const UPLOADER_DIR: &'static str = "mik32_uploader";

/// The script inside the uploader's directory that drives the upload.
pub const DRIVER_SCRIPT: &'static str = "mik32_uploader.py";

/// The adapter scripts that ship inside the uploader's directory.
pub const ADAPTER_SCRIPTS_DIR: &'static str = "openocd-scripts";

/// The environment variable that names the uploader's directory.
pub const UPLOADER_ENV: &'static str = "MIK32_UPLOADER_PATH";

/// The environment variable that names the debug adapter's executable.
pub const ADAPTER_ENV: &'static str = "MIK32_OPENOCD_PATH";

/// The debug adapter's command, as the system knows it.
pub const ADAPTER_COMMAND: &'static str = "openocd";

/// The command that asks the system where another command is.
pub const LOOKUP_COMMAND: &'static str = "which";

/// The build tool, which also runs the conversion.
pub const BUILD_COMMAND: &'static str = "cargo";

/// The command whose presence shows that the conversion can run.
pub const CONVERTER_COMMAND: &'static str = "cargo-objcopy";

/// The interpreter that runs the driver script.
pub const INTERPRETER_COMMAND: &'static str = "python3";

/// The marker file of the project rooted at `root`.
pub open spec fn marker_of(root: Seq<char>) -> LocationModel {
    LocationModel::at(root).join(MARKER_FILE@)
}

/// The image the conversion writes by default in the project at `root`.
pub open spec fn default_artifact_of(root: Seq<char>) -> LocationModel {
    LocationModel::at(root).join(FLASH_DIR@).join(ARTIFACT_FILE@)
}

/// The uploader's directory inside the project at `root`.
pub open spec fn default_uploader_of(root: Seq<char>) -> LocationModel {
    LocationModel::at(root).join(FLASH_DIR@).join(UPLOADER_DIR@)
}

/// The driver script inside the uploader's directory.
pub open spec fn driver_script_of(uploader: LocationModel) -> LocationModel {
    uploader.join(DRIVER_SCRIPT@)
}

/// The adapter scripts inside the uploader's directory.
pub open spec fn adapter_scripts_of(uploader: LocationModel) -> LocationModel {
    uploader.join(ADAPTER_SCRIPTS_DIR@)
}

/// The marker file of the project rooted at `root`.
pub fn marker(root: &String) -> (place: Location)
    ensures
        place@ == marker_of(root@),
{
    Location::new(root.clone()).join(MARKER_FILE)
}

/// The image the conversion writes by default in the project at `root`.
pub fn default_artifact(root: &String) -> (place: Location)
    ensures
        place@ == default_artifact_of(root@),
{
    Location::new(root.clone()).join(FLASH_DIR).join(ARTIFACT_FILE)
}

/// The uploader's directory inside the project at `root`.
pub fn default_uploader(root: &String) -> (place: Location)
    ensures
        place@ == default_uploader_of(root@),
{
    Location::new(root.clone()).join(FLASH_DIR).join(UPLOADER_DIR)
}

/// The driver script inside the uploader's directory.
pub fn driver_script(uploader: &Location) -> (place: Location)
    ensures
        place@ == driver_script_of(uploader@),
{
    uploader.clone().join(DRIVER_SCRIPT)
}

/// The adapter scripts inside the uploader's directory.
pub fn adapter_scripts(uploader: &Location) -> (place: Location)
    ensures
        place@ == adapter_scripts_of(uploader@),
{
    uploader.clone().join(ADAPTER_SCRIPTS_DIR)
}

} // verus!
