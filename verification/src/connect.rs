//! The connect helper's configuration and command line, as plain
//! values. The helper runs the backup tool locally; its file and
//! argument handling stay outside.

use vstd::prelude::*;

verus! {

/// The configuration of the connect helper.
pub struct Config {
    /// The path where the backup tool can be found
    pub borg_path: String,
}

/// The available commands of the connect helper.
pub enum Command {
    /// Create a new archive in an existing repository.
    Create,
}

/// The command line of the connect helper.
pub struct Cli {
    /// The verbosity of the output
    pub verbosity: u8,
    /// The path of the configuration file
    pub config_path: String,
    /// The command to run
    pub command: Command,
}

} // verus!
