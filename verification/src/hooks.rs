//! Planning and outcome handling of operator-supplied hook commands.
//!
//! A hook is a shell command run before or after archive creation. The
//! command string is split by POSIX shell-word rules; the child process
//! itself is executed by the caller, which then hands the exit code and
//! the captured output back to [`hook_outcome`].

use vstd::prelude::*;

use crate::numfmt::{dec_rep_int, i32_to_dec};
use crate::report::{ErrorReport, ErrorReportView, HookStats, State};

verus! {

/// The POSIX shell-word splitting of a command string: `None` when the
/// string cannot be split (for instance an unclosed quote), otherwise
/// the sequence of words.
pub uninterp spec fn shell_split_of(s: Seq<char>) -> Option<Seq<Seq<char>>>;

/// Relies on `shlex::split`: POSIX shell-word splitting with quoting and
/// escaping honoured, a pure function of the input string; `None` when
/// the input has a splitting error.
#[verifier::external_body]
fn shell_split(command: &str) -> (r: Option<Vec<String>>)
    ensures
        match r {
            Some(words) => shell_split_of(command@) == Some(words.deep_view()),
            None => shell_split_of(command@) is None,
        },
{
    shlex::split(command)
}

/// The UTF-8 decoding of a byte string: `None` when the bytes are not
/// valid UTF-8.
pub uninterp spec fn utf8_of(bytes: Seq<u8>) -> Option<Seq<char>>;

/// Relies on `String::from_utf8`: UTF-8 decoding, a pure function of the
/// bytes; an empty byte string decodes to the empty string.
#[verifier::external_body]
fn string_from_utf8(bytes: Vec<u8>) -> (r: Option<String>)
    ensures
        match r {
            Some(s) => utf8_of(bytes@) == Some(s@) && (bytes@.len() == 0 ==> s@ == Seq::<char>::empty()),
            None => utf8_of(bytes@) is None && bytes@.len() != 0,
        },
{
    String::from_utf8(bytes).ok()
}

/// The decoded text of a captured output stream, or the fallback text
/// when the bytes are not valid UTF-8.
pub open spec fn utf8_or(bytes: Seq<u8>, fallback: Seq<char>) -> Seq<char> {
    match utf8_of(bytes) {
        Some(s) => s,
        None => fallback,
    }
}

/// What the caller must do with a hook command.
pub enum HookPlan {
    /// The command is empty: no hook is configured, nothing runs.
    Skip,
    /// The command is non-empty but yields no argv: the hook fails
    /// without running, with this report.
    Invalid(ErrorReport),
    /// The argv to execute as a child process.
    Run(Vec<String>),
}

/// The report of a non-empty hook command that does not split into at
/// least one word.
pub open spec fn faulty_command_report(stage: State, e: ErrorReportView) -> bool {
    &&& e.state == stage
    &&& e.custom == Some("hook command was faulty"@)
    &&& e.stdout is None
    &&& e.stderr is None
}

/// What [`plan_hook`] returns for a command string.
pub open spec fn hook_plan_ok(command: Seq<char>, stage: State, r: HookPlan) -> bool {
    if command.len() == 0 {
        r is Skip
    } else {
        match shell_split_of(command) {
            None => r matches HookPlan::Invalid(e) && faulty_command_report(stage, e@),
            Some(words) => if words.len() == 0 {
                r matches HookPlan::Invalid(e) && faulty_command_report(stage, e@)
            } else {
                r matches HookPlan::Run(v) && v.deep_view() == words
            },
        }
    }
}

/// Decide what to do with a hook command: an empty command is "no hook
/// configured" and is skipped entirely; a non-empty command that fails
/// to split, or splits to zero words, fails without running; otherwise
/// the split argv is to be executed.
pub fn plan_hook(command: &str, stage: State) -> (r: HookPlan)
    ensures
        hook_plan_ok(command@, stage, r),
{
    if command.is_empty() {
        return HookPlan::Skip;
    }
    match shell_split(command) {
        None => HookPlan::Invalid(faulty_command_error(stage)),
        Some(words) => {
            if words.len() == 0 {
                HookPlan::Invalid(faulty_command_error(stage))
            } else {
                HookPlan::Run(words)
            }
        },
    }
}

/// The error report of a hook command that could not be split.
fn faulty_command_error(stage: State) -> (r: ErrorReport)
    ensures
        faulty_command_report(stage, r@),
{
    ErrorReport {
        state: stage,
        custom: Some("hook command was faulty".to_owned()),
        stdout: None,
        stderr: None,
    }
}

/// The report of a hook that exited with a non-zero status code.
pub open spec fn hook_exit_report(
    stage: State,
    exit_code: int,
    stdout: Seq<u8>,
    stderr: Seq<u8>,
    e: ErrorReportView,
) -> bool {
    &&& e.state == stage
    &&& e.custom == Some("Hook exited with status code: "@ + dec_rep_int(exit_code))
    &&& e.stdout == Some(utf8_or(stdout, "***Invalid stdout***"@))
    &&& e.stderr == Some(utf8_or(stderr, "***Invalid stderr***"@))
}

/// Fold the result of a finished hook process into stats or a report:
/// exit code zero is a success whose captured output is discarded; any
/// other exit code fails with the captured output attached.
pub fn hook_outcome(
    stage: State,
    exit_code: i32,
    stdout: Vec<u8>,
    stderr: Vec<u8>,
    duration: u64,
) -> (r: Result<HookStats, ErrorReport>)
    ensures
        exit_code == 0 ==> (r matches Ok(s) && s.duration == duration),
        exit_code != 0 ==> (r matches Err(e) && hook_exit_report(
            stage,
            exit_code as int,
            stdout@,
            stderr@,
            e@,
        )),
{
    if exit_code == 0 {
        Ok(HookStats { duration })
    } else {
        let mut message = "Hook exited with status code: ".to_owned();
        let code = i32_to_dec(exit_code);
        message.append(code.as_str());
        let out_text = match string_from_utf8(stdout) {
            Some(s) => s,
            None => "***Invalid stdout***".to_owned(),
        };
        let err_text = match string_from_utf8(stderr) {
            Some(s) => s,
            None => "***Invalid stderr***".to_owned(),
        };
        Err(ErrorReport {
            state: stage,
            custom: Some(message),
            stdout: Some(out_text),
            stderr: Some(err_text),
        })
    }
}

/// The report of a hook whose child process was terminated by a
/// signal and so has no exit code.
pub open spec fn hook_signal_report(
    stage: State,
    stdout: Seq<u8>,
    stderr: Seq<u8>,
    e: ErrorReportView,
) -> bool {
    &&& e.state == stage
    &&& e.custom == Some("Hook was terminated by a signal"@)
    &&& e.stdout == Some(utf8_or(stdout, "***Invalid stdout***"@))
    &&& e.stderr == Some(utf8_or(stderr, "***Invalid stderr***"@))
}

/// Fold the result of a finished hook process into stats or a report,
/// for every way a child can end: exit code zero is a success; any
/// other exit code fails with the captured output attached; a child
/// without an exit code was terminated by a signal and fails likewise.
pub fn hook_wait_outcome(
    stage: State,
    exit_code: Option<i32>,
    stdout: Vec<u8>,
    stderr: Vec<u8>,
    duration: u64,
) -> (r: Result<HookStats, ErrorReport>)
    ensures
        exit_code matches Some(code) ==> ((code == 0 ==> (r matches Ok(s) && s.duration
            == duration)) && (code != 0 ==> (r matches Err(e) && hook_exit_report(
            stage,
            code as int,
            stdout@,
            stderr@,
            e@,
        )))),
        exit_code is None ==> (r matches Err(e) && hook_signal_report(stage, stdout@, stderr@, e@)),
{
    match exit_code {
        Some(code) => hook_outcome(stage, code, stdout, stderr, duration),
        None => {
            let out_text = match string_from_utf8(stdout) {
                Some(s) => s,
                None => "***Invalid stdout***".to_owned(),
            };
            let err_text = match string_from_utf8(stderr) {
                Some(s) => s,
                None => "***Invalid stderr***".to_owned(),
            };
            Err(ErrorReport {
                state: stage,
                custom: Some("Hook was terminated by a signal".to_owned()),
                stdout: Some(out_text),
                stderr: Some(err_text),
            })
        },
    }
}

/// The report of a hook whose child process could not be spawned.
pub open spec fn spawn_failure_report(
    stage: State,
    error_text: Seq<char>,
    e: ErrorReportView,
) -> bool {
    &&& e.state == stage
    &&& e.custom == Some("Error spawning command: "@ + error_text)
    &&& e.stdout is None
    &&& e.stderr is None
}

/// The report of a hook whose child process could not be spawned; the
/// caller passes the description of the spawn error.
pub fn hook_spawn_failure(stage: State, error_text: &str) -> (r: ErrorReport)
    ensures
        spawn_failure_report(stage, error_text@, r@),
{
    let mut message = "Error spawning command: ".to_owned();
    message.append(error_text);
    ErrorReport { state: stage, custom: Some(message), stdout: None, stderr: None }
}

} // verus!
