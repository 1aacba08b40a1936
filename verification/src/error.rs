//! What can go wrong while the configuration is acquired.

use vstd::prelude::*;

verus! {

/// Why no configuration could be produced. Each of these ends the run before
/// any mount is attempted.
#[derive(Clone, Copy, Debug, PartialEq, Eq, Structural)]
pub enum LoadError {
    /// The configuration directory could not be resolved or created.
    ConfigDir,
    /// The default settings file could not be written on the first run.
    ConfigFileWrite,
    /// The settings file could not be read, parsed or merged.
    InvalidConfig,
}

impl LoadError {
    /// The text shown to the user for this error.
    pub fn message(&self) -> (text: &'static str)
        ensures
            text@ == match *self {
                LoadError::ConfigDir => "Cannot create configuration directory"@,
                LoadError::ConfigFileWrite => "Could not create config file"@,
                LoadError::InvalidConfig => "Invalid configuration file"@,
            },
    {
        match self {
            LoadError::ConfigDir => "Cannot create configuration directory",
            LoadError::ConfigFileWrite => "Could not create config file",
            LoadError::InvalidConfig => "Invalid configuration file",
        }
    }
}

} // verus!
