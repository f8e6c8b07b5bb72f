//! The drone's configuration and command line, as plain values.
//!
//! Reading the file, decoding it and parsing the command line stay
//! outside; this module holds the types, the permission rule on the
//! configuration file, and the log-level selection.

use vstd::prelude::*;

use crate::orchestrator::RunConfig;

verus! {

/// The borg-specific settings of a drone.
pub struct BorgConfig {
    /// The remote path of the backup tool, if any
    pub remote_path: Option<String>,
    /// The path to the pattern file
    pub pattern_file_path: String,
    /// The repository specifier
    pub repository: String,
    /// The passphrase for the repository
    pub passphrase: String,
}

/// The configuration of a drone.
pub struct Config {
    /// The address of the vinculum server
    pub vinculum_address: String,
    /// The bearer token issued by the vinculum
    pub vinculum_token: String,
    /// The command to run before archive creation; empty means "no
    /// hook configured"
    pub pre_hook: String,
    /// The command to run after archive creation; empty means "no
    /// hook configured"
    pub post_hook: String,
    /// The borg-specific settings
    pub borg: BorgConfig,
}

/// Whether the mode bits of the configuration file are too permissive:
/// readable beyond the owner's group or writable by the group.
/// 0600, 0400 and 0640 are fine.
pub fn config_mode_too_broad(mode: u32) -> (r: bool)
    ensures
        r == (mode & 0o007 > 1 || mode & 0o020 > 0),
{
    mode & 0o007 > 1 || mode & 0o020 > 0
}

/// The log level selected by the number of verbosity flags: none means
/// info, one means debug, more means trace.
pub fn log_level_name(verbosity: u8) -> (r: &'static str)
    ensures
        verbosity == 0 ==> r@ == "info"@,
        verbosity == 1 ==> r@ == "debug"@,
        verbosity >= 2 ==> r@ == "trace"@,
{
    if verbosity == 0 {
        "info"
    } else if verbosity == 1 {
        "debug"
    } else {
        "trace"
    }
}

/// The run configuration of one invocation: the hooks come from the
/// configuration file, the flags from the command line.
pub fn run_config_of(config: &Config, dry_run: bool, progress: bool) -> (r: RunConfig)
    ensures
        r.pre_hook@ == config.pre_hook@,
        r.post_hook@ == config.post_hook@,
        r.dry_run == dry_run,
        r.progress == progress,
{
    RunConfig {
        pre_hook: config.pre_hook.clone(),
        post_hook: config.post_hook.clone(),
        dry_run,
        progress,
    }
}

/// The available commands of the drone.
pub enum Command {
    /// Create a new archive in an existing repository.
    Create {
        /// Run the backup as a dry run: hooks execute, archive
        /// creation is skipped.
        dry_run: bool,
        /// Output the progress of the archive creation.
        progress: bool,
    },
}

/// The command line of the drone.
pub struct Cli {
    /// The verbosity of the output
    pub verbosity: u8,
    /// The path of the configuration file
    pub config_path: String,
    /// The command to run
    pub command: Command,
}

} // verus!
