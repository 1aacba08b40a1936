//! Mount lifecycle orchestration for a user-space filesystem driver.
//!
//! The crate holds the decisions of the driver's front end: how the mount
//! argument list is laid out, how a settings file becomes a typed
//! configuration, in which order a mount is probed, established, served and
//! torn down, and which command a parsed command line selects. Every effect on
//! the outside world (directories, files, mounts, signals, sleeping) is carried
//! out by the caller, which reports back what happened.

pub mod configuration;
pub mod dispatch;
pub mod error;
pub mod loader;
pub mod options;
pub mod settings;
pub mod shutdown;
pub mod supervisor;
