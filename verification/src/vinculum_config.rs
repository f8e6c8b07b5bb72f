//! The collector's configuration and command line, as plain values.
//!
//! Reading the file, decoding it, generating the ssh key and starting
//! the server stay outside; this module holds the types and the rule
//! that builds the remote-shell option of the backup tool.

use vstd::prelude::*;

verus! {

/// The borg-related settings of the collector.
pub struct BorgConfig {
    /// The path to the backup tool
    pub borg_path: String,
    /// The path to the ssh key
    pub ssh_key_path: String,
    /// The path where the remote backup tool is found, if any
    pub borg_remote_path: Option<String>,
}

/// The connection to the chat backend.
pub struct MatrixConfig {
    /// The url of the homeserver
    pub homeserver: String,
    /// The username to log in with
    pub username: String,
    /// The password to log in with
    pub password: String,
    /// The room alerts are sent to
    pub channel: String,
}

/// The listening settings of the server.
pub struct ServerConfig {
    /// The address the server binds to
    pub listen_address: String,
    /// The port the server binds to
    pub listen_port: u16,
    /// The base64-encoded secret key that signs sessions
    pub secret_key: String,
}

/// The connection to the database.
pub struct DBConfig {
    /// The host the database runs on
    pub host: String,
    /// The port the database listens on
    pub port: u16,
    /// The name of the database
    pub name: String,
    /// The username of the connection
    pub user: String,
    /// The password of the connection
    pub password: String,
}

/// The configuration of the collector.
pub struct Config {
    /// The listening settings
    pub server: ServerConfig,
    /// The database connection
    pub database: DBConfig,
    /// The chat-backend connection
    pub matrix: MatrixConfig,
    /// The borg-related settings
    pub borg: BorgConfig,
}

/// The shell quoting of a single word, such that the shell reads it
/// back as exactly that word.
pub uninterp spec fn shell_quoted_of(s: Seq<char>) -> Seq<char>;

/// Relies on `shlex::try_quote`: shell quoting of a single word, a
/// pure function of the input; its only error is an input that holds
/// a nul character.
#[verifier::external_body]
fn shell_quote(s: &str) -> (r: Option<String>)
    ensures
        match r {
            Some(q) => q@ == shell_quoted_of(s@) && !s@.contains('\u{0}'),
            None => s@.contains('\u{0}'),
        },
{
    match shlex::try_quote(s) {
        Ok(q) => Some(q.into_owned()),
        Err(_) => None,
    }
}

/// The remote-shell command handed to the backup tool for an ssh key
/// path.
pub open spec fn rsh_command(quoted_key_path: Seq<char>) -> Seq<char> {
    "ssh -i "@ + quoted_key_path + " -o 'StrictHostKeyChecking accept-new'"@
}

/// Build the remote-shell option of the backup tool: ssh with the
/// collector's key, quoted for the shell. `None` when the key path
/// holds a nul character and cannot be quoted.
pub fn rsh_option(ssh_key_path: &str) -> (r: Option<String>)
    ensures
        match r {
            Some(c) => c@ == rsh_command(shell_quoted_of(ssh_key_path@)) && !ssh_key_path@.contains(
                '\u{0}',
            ),
            None => ssh_key_path@.contains('\u{0}'),
        },
{
    match shell_quote(ssh_key_path) {
        Some(quoted) => {
            let mut s = "ssh -i ".to_owned();
            s.append(quoted.as_str());
            s.append(" -o 'StrictHostKeyChecking accept-new'");
            proof {
                assert(s@ =~= rsh_command(shell_quoted_of(ssh_key_path@)));
            }
            Some(s)
        },
        None => None,
    }
}

/// The available commands of the collector.
pub enum Command {
    /// Start the collector.
    Start,
    /// Generate a secret key.
    Keygen,
    /// Apply migrations.
    Migrate {
        /// The path to the migration directory
        migration_dir: String,
    },
    /// Test the connection to the chat backend.
    TestMatrix,
    /// Create an account.
    CreateAccount,
}

/// The command line of the collector.
pub struct Cli {
    /// The path of the configuration file
    pub config_path: String,
    /// The command to run
    pub command: Command,
}

} // verus!
