//! The stat and error reports that a drone sends to the vinculum.

use vstd::prelude::*;

verus! {

/// The stage of the run an operation belongs to.
#[derive(Copy, Clone, Debug, PartialEq, Eq, Structural)]
pub enum State {
    /// Pre hook
    PreHook,
    /// Archive creation
    Create,
    /// Post hook
    PostHook,
}

/// The human-readable name of a stage, as it appears in messages.
pub open spec fn state_message(s: State) -> Seq<char> {
    match s {
        State::PreHook => "pre hook"@,
        State::Create => "archive creation"@,
        State::PostHook => "post hook"@,
    }
}

impl State {
    /// The human-readable name of this stage.
    pub fn message(&self) -> (r: &'static str)
        ensures
            r@ == state_message(*self),
    {
        match self {
            State::PreHook => "pre hook",
            State::Create => "archive creation",
            State::PostHook => "post hook",
        }
    }
}

/// The statistics of one hook invocation.
#[derive(Copy, Clone, Debug, PartialEq, Eq, Structural)]
pub struct HookStats {
    /// The duration of the hook invocation in seconds
    pub duration: u64,
}

/// The statistics of a successful archive creation.
#[derive(Copy, Clone, Debug, PartialEq, Eq, Structural)]
pub struct CreateStats {
    /// Original file size in bytes
    pub original_size: u64,
    /// Compressed file size in bytes
    pub compressed_size: u64,
    /// Deduplicated file size in bytes
    pub deduplicated_size: u64,
    /// Number of archived files
    pub nfiles: u64,
    /// The duration of the create archive operation in seconds
    pub duration: u64,
}

/// The report of the collected stats that a drone sends to the vinculum.
///
/// `create_stats` is mandatory: a report exists only for runs whose
/// create stage succeeded.
#[derive(Copy, Clone, Debug, PartialEq, Eq, Structural)]
pub struct StatReport {
    /// The stats of the pre hook, when one was configured and ran
    pub pre_hook_stats: Option<HookStats>,
    /// The stats of the archive creation
    pub create_stats: CreateStats,
    /// The stats of the post hook, when one was configured and ran
    pub post_hook_stats: Option<HookStats>,
}

impl StatReport {
    /// Assemble the single report of a fully successful run.
    pub fn assemble(
        pre_hook_stats: Option<HookStats>,
        create_stats: CreateStats,
        post_hook_stats: Option<HookStats>,
    ) -> (r: StatReport)
        ensures
            r.pre_hook_stats == pre_hook_stats,
            r.create_stats == create_stats,
            r.post_hook_stats == post_hook_stats,
    {
        StatReport { pre_hook_stats, create_stats, post_hook_stats }
    }
}

/// The report of a failed stage; at most one is produced per run.
#[derive(Clone, Debug)]
pub struct ErrorReport {
    /// The stage that failed
    pub state: State,
    /// An optional message describing the failure
    pub custom: Option<String>,
    /// The captured stdout of a failed hook, if any
    pub stdout: Option<String>,
    /// The captured stderr of a failed hook, if any
    pub stderr: Option<String>,
}

/// The mathematical value of an [`ErrorReport`].
pub struct ErrorReportView {
    /// The stage that failed
    pub state: State,
    /// An optional message describing the failure
    pub custom: Option<Seq<char>>,
    /// The captured stdout of a failed hook, if any
    pub stdout: Option<Seq<char>>,
    /// The captured stderr of a failed hook, if any
    pub stderr: Option<Seq<char>>,
}

/// The view of an optional string.
pub open spec fn opt_view(o: Option<String>) -> Option<Seq<char>> {
    match o {
        Some(s) => Some(s@),
        None => None,
    }
}

impl View for ErrorReport {
    type V = ErrorReportView;

    open spec fn view(&self) -> ErrorReportView {
        ErrorReportView {
            state: self.state,
            custom: opt_view(self.custom),
            stdout: opt_view(self.stdout),
            stderr: opt_view(self.stderr),
        }
    }
}

} // verus!
