//! Decision logic of a build-flash-debug tool for MIK32 boards.
//!
//! The tool converts a firmware build into a flashable image, uploads it
//! through a debug adapter and optionally attaches a debugger. Everything
//! it decides lives here as state machines over plain values: a machine
//! names the next thing to be done in the outside world as an [`Action`],
//! the caller does it and reports back an [`Event`]. No function of this
//! crate touches the file system, the environment or a process.
//!
//! What a machine comes to when its questions are answered from one and
//! the same world is stated, and proved, in [`world`].
//!
//! [`Action`]: protocol::Action
//! [`Event`]: protocol::Event

pub mod error;
pub mod text;
pub mod location;
pub mod invocation;
pub mod layout;
pub mod request;
pub mod protocol;
pub mod stages;
pub mod resolver;
pub mod pipeline;
pub mod scaffold;
pub mod world;
