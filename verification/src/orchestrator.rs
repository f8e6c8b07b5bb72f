//! The drone-side run controller.
//!
//! One backup run is a sequence of stages: pre hook, archive creation,
//! post hook, and one report. The controller owns only the decisions:
//! given the configuration and the outcome of the stage that just
//! finished, it says what to do next. The caller performs the actions
//! (spawning processes, invoking the backup tool, posting reports) and
//! hands each outcome back.
//!
//! The policy is fail-fast and single-shot: the first failing stage
//! aborts all later stages, and exactly one report — stat or error —
//! is sent per run that gets past its first decision, never both.

use vstd::prelude::*;

use crate::report::{CreateStats, ErrorReport, HookStats, State, StatReport};

verus! {

/// The configuration of one backup run.
pub struct RunConfig {
    /// The shell command to run before archive creation; empty means
    /// "no hook configured".
    pub pre_hook: String,
    /// The shell command to run after archive creation; empty means
    /// "no hook configured".
    pub post_hook: String,
    /// When set, archive creation is skipped; hooks still run.
    pub dry_run: bool,
    /// When set, the backup tool is asked to emit progress events.
    pub progress: bool,
}

/// The mathematical value of a [`RunConfig`].
pub struct RunConfigView {
    /// The pre-hook command string
    pub pre_hook: Seq<char>,
    /// The post-hook command string
    pub post_hook: Seq<char>,
    /// Whether archive creation is skipped
    pub dry_run: bool,
    /// Whether progress events are requested
    pub progress: bool,
}

impl View for RunConfig {
    type V = RunConfigView;

    open spec fn view(&self) -> RunConfigView {
        RunConfigView {
            pre_hook: self.pre_hook@,
            post_hook: self.post_hook@,
            dry_run: self.dry_run,
            progress: self.progress,
        }
    }
}

/// Where a run currently stands.
#[derive(Copy, Clone, Debug, PartialEq, Eq, Structural)]
pub enum Phase {
    /// Nothing has happened yet.
    Idle,
    /// The pre hook is running.
    AwaitingPreHook,
    /// The archive creation is running.
    AwaitingCreate,
    /// The post hook is running.
    AwaitingPostHook,
    /// The stat report of a successful run is being sent.
    AwaitingStatReport,
    /// The error report of a failed stage is being sent.
    AwaitingErrorReport,
    /// Terminal success.
    Done,
    /// Terminal failure.
    Aborted,
}

/// What the caller must perform next.
#[derive(Debug)]
pub enum Action {
    /// Run a hook command as a child process.
    RunHook {
        /// The configured command string (non-empty)
        command: String,
        /// The stage the hook belongs to
        stage: State,
    },
    /// Invoke the backup tool to create one archive.
    RunCreate {
        /// Whether progress events are requested
        progress: bool,
    },
    /// Post the single stat report of a successful run.
    SendStatReport {
        /// The assembled report
        report: StatReport,
    },
    /// Post the single error report of a failed stage.
    SendErrorReport {
        /// The report of the stage that failed
        report: ErrorReport,
    },
}

/// The result of one decision: an action to perform, or the end of the
/// run.
#[derive(Debug)]
pub enum StepResult {
    /// Perform this action and hand the outcome back.
    Act(Action),
    /// The run is over; `success` says whether every attempted stage
    /// (including the stat report, when one was owed) succeeded.
    Finished {
        /// Whether the run succeeded
        success: bool,
    },
}

/// The abstract state of the controller.
pub struct OrchModel {
    /// The run configuration
    pub cfg: RunConfigView,
    /// Where the run stands
    pub phase: Phase,
    /// The stats of the pre hook, once it has succeeded
    pub pre_hook_stats: Option<HookStats>,
    /// The stats of the archive creation, once it has succeeded
    pub create_stats: Option<CreateStats>,
    /// The stats of the post hook, once it has succeeded
    pub post_hook_stats: Option<HookStats>,
}

/// One step of a run, with the payload that the laws speak about.
pub enum RunStep {
    /// A hook of the given stage was started.
    HookStarted(State),
    /// The archive creation was started.
    CreateStarted,
    /// The stat report was handed to the reporting client.
    StatSent(StatReport),
    /// An error report for the given stage was handed to the reporting
    /// client.
    ErrorSent(State),
    /// The run ended with the given success value.
    Finished(bool),
}

/// The initial controller state for a configuration.
pub open spec fn init_model(cfg: RunConfigView) -> OrchModel {
    OrchModel {
        cfg,
        phase: Phase::Idle,
        pre_hook_stats: None,
        create_stats: None,
        post_hook_stats: None,
    }
}

/// The stage a hook phase belongs to.
pub open spec fn hook_stage_of(phase: Phase) -> State {
    if phase == Phase::AwaitingPreHook {
        State::PreHook
    } else {
        State::PostHook
    }
}

/// The report decision: a stat report is owed exactly when the create
/// stage actually ran and succeeded; a dry run or a run whose create
/// stage was skipped ends without any report.
pub open spec fn spec_report_decision(m: OrchModel) -> (OrchModel, RunStep) {
    if !m.cfg.dry_run && m.create_stats is Some {
        (
            OrchModel { phase: Phase::AwaitingStatReport, ..m },
            RunStep::StatSent(
                StatReport {
                    pre_hook_stats: m.pre_hook_stats,
                    create_stats: m.create_stats->Some_0,
                    post_hook_stats: m.post_hook_stats,
                },
            ),
        )
    } else {
        (OrchModel { phase: Phase::Done, ..m }, RunStep::Finished(true))
    }
}

/// The post-hook decision: run the post hook when one is configured,
/// otherwise move on to the report decision.
pub open spec fn spec_post_decision(m: OrchModel) -> (OrchModel, RunStep) {
    if m.cfg.post_hook.len() > 0 {
        (OrchModel { phase: Phase::AwaitingPostHook, ..m }, RunStep::HookStarted(State::PostHook))
    } else {
        spec_report_decision(m)
    }
}

/// The create decision: skip archive creation on a dry run, otherwise
/// invoke the backup tool.
pub open spec fn spec_create_decision(m: OrchModel) -> (OrchModel, RunStep) {
    if m.cfg.dry_run {
        spec_post_decision(m)
    } else {
        (OrchModel { phase: Phase::AwaitingCreate, ..m }, RunStep::CreateStarted)
    }
}

/// The first decision of a run: run the pre hook when one is
/// configured, otherwise move on to the create decision.
pub open spec fn spec_start(m: OrchModel) -> (OrchModel, RunStep) {
    if m.cfg.pre_hook.len() > 0 {
        (OrchModel { phase: Phase::AwaitingPreHook, ..m }, RunStep::HookStarted(State::PreHook))
    } else {
        spec_create_decision(m)
    }
}

/// The decision after a hook finished: fold its stats in and move on,
/// or send the one error report and abort every later stage.
pub open spec fn spec_on_hook(m: OrchModel, outcome: Option<HookStats>) -> (OrchModel, RunStep) {
    match outcome {
        Some(stats) => {
            if m.phase == Phase::AwaitingPreHook {
                spec_create_decision(OrchModel { pre_hook_stats: Some(stats), ..m })
            } else {
                spec_report_decision(OrchModel { post_hook_stats: Some(stats), ..m })
            }
        },
        None => (
            OrchModel { phase: Phase::AwaitingErrorReport, ..m },
            RunStep::ErrorSent(hook_stage_of(m.phase)),
        ),
    }
}

/// The decision after archive creation finished: fold the stats in and
/// move on, or send the one error report and abort every later stage
/// (the post hook is never attempted).
pub open spec fn spec_on_create(m: OrchModel, outcome: Option<CreateStats>) -> (
    OrchModel,
    RunStep,
) {
    match outcome {
        Some(stats) => spec_post_decision(OrchModel { create_stats: Some(stats), ..m }),
        None => (
            OrchModel { phase: Phase::AwaitingErrorReport, ..m },
            RunStep::ErrorSent(State::Create),
        ),
    }
}

/// The decision after a report was sent: a successfully delivered stat
/// report ends the run as a success; a failed stat delivery, or any
/// run that had to send an error report, ends as a failure.
pub open spec fn spec_on_report(m: OrchModel, ok: bool) -> (OrchModel, RunStep) {
    if m.phase == Phase::AwaitingStatReport && ok {
        (OrchModel { phase: Phase::Done, ..m }, RunStep::Finished(true))
    } else {
        (OrchModel { phase: Phase::Aborted, ..m }, RunStep::Finished(false))
    }
}

/// The outcomes of the stages of one run, as far as they are reached.
pub struct RunOutcomes {
    /// The pre-hook outcome, when it runs (`None` is a failure)
    pub pre: Option<HookStats>,
    /// The create outcome, when it runs (`None` is a failure)
    pub create: Option<CreateStats>,
    /// The post-hook outcome, when it runs (`None` is a failure)
    pub post: Option<HookStats>,
    /// Whether the stat report, when one is sent, is delivered
    pub stat_send_ok: bool,
}

/// A bound that shrinks along every transition of the controller.
pub open spec fn phase_rank(p: Phase) -> nat {
    match p {
        Phase::Idle => 6,
        Phase::AwaitingPreHook => 5,
        Phase::AwaitingCreate => 4,
        Phase::AwaitingPostHook => 3,
        Phase::AwaitingStatReport => 2,
        Phase::AwaitingErrorReport => 2,
        Phase::Done => 0,
        Phase::Aborted => 0,
    }
}

/// The remaining steps of a run from a controller state, given the
/// outcomes of the stages still to come.
pub open spec fn trace_from(m: OrchModel, o: RunOutcomes) -> Seq<RunStep>
    decreases phase_rank(m.phase),
{
    if m.phase == Phase::Idle {
        let (m2, step) = spec_start(m);
        seq![step] + trace_from(m2, o)
    } else if m.phase == Phase::AwaitingPreHook {
        let (m2, step) = spec_on_hook(m, o.pre);
        seq![step] + trace_from(m2, o)
    } else if m.phase == Phase::AwaitingCreate {
        let (m2, step) = spec_on_create(m, o.create);
        seq![step] + trace_from(m2, o)
    } else if m.phase == Phase::AwaitingPostHook {
        let (m2, step) = spec_on_hook(m, o.post);
        seq![step] + trace_from(m2, o)
    } else if m.phase == Phase::AwaitingStatReport {
        let (m2, step) = spec_on_report(m, o.stat_send_ok);
        seq![step] + trace_from(m2, o)
    } else if m.phase == Phase::AwaitingErrorReport {
        let (m2, step) = spec_on_report(m, false);
        seq![step] + trace_from(m2, o)
    } else {
        Seq::empty()
    }
}

/// Every step of one whole run of a configuration, given the outcomes
/// of the stages that are reached.
pub open spec fn run_trace(cfg: RunConfigView, o: RunOutcomes) -> Seq<RunStep> {
    trace_from(init_model(cfg), o)
}

/// The step a returned [`StepResult`] stands for.
pub open spec fn step_of(r: StepResult) -> RunStep {
    match r {
        StepResult::Act(a) => match a {
            Action::RunHook { stage, .. } => RunStep::HookStarted(stage),
            Action::RunCreate { .. } => RunStep::CreateStarted,
            Action::SendStatReport { report } => RunStep::StatSent(report),
            Action::SendErrorReport { report } => RunStep::ErrorSent(report.state),
        },
        StepResult::Finished { success } => RunStep::Finished(success),
    }
}

/// The payloads of an action agree with the configuration they were
/// decided from.
pub open spec fn action_payload_ok(r: StepResult, cfg: RunConfigView) -> bool {
    match r {
        StepResult::Act(a) => match a {
            Action::RunHook { command, stage } => {
                &&& (stage == State::PreHook ==> command@ == cfg.pre_hook)
                &&& (stage == State::PostHook ==> command@ == cfg.post_hook)
            },
            Action::RunCreate { progress } => progress == cfg.progress,
            _ => true,
        },
        _ => true,
    }
}

/// The drone-side run controller.
pub struct Orchestrator {
    config: RunConfig,
    phase: Phase,
    pre_hook_stats: Option<HookStats>,
    create_stats: Option<CreateStats>,
    post_hook_stats: Option<HookStats>,
}

/// The `Option<HookStats>` a hook result boils down to.
pub open spec fn hook_outcome_of(result: Result<HookStats, ErrorReport>) -> Option<HookStats> {
    match result {
        Ok(s) => Some(s),
        Err(_) => None,
    }
}

/// The `Option<CreateStats>` a create result boils down to.
pub open spec fn create_outcome_of(result: Result<CreateStats, ErrorReport>) -> Option<
    CreateStats,
> {
    match result {
        Ok(s) => Some(s),
        Err(_) => None,
    }
}

impl Orchestrator {
    /// The abstract state of this controller.
    pub closed spec fn model(&self) -> OrchModel {
        OrchModel {
            cfg: self.config@,
            phase: self.phase,
            pre_hook_stats: self.pre_hook_stats,
            create_stats: self.create_stats,
            post_hook_stats: self.post_hook_stats,
        }
    }

    /// A fresh controller for one run.
    pub fn new(config: RunConfig) -> (s: Self)
        ensures
            s.model() == init_model(config@),
    {
        Orchestrator {
            config,
            phase: Phase::Idle,
            pre_hook_stats: None,
            create_stats: None,
            post_hook_stats: None,
        }
    }

    /// Where the run currently stands.
    pub fn phase(&self) -> (p: Phase)
        ensures
            p == self.model().phase,
    {
        self.phase
    }

    /// The report decision (see [`spec_report_decision`]).
    fn report_decision(&mut self) -> (r: StepResult)
        ensures
            (final(self).model(), step_of(r)) == spec_report_decision(old(self).model()),
            action_payload_ok(r, old(self).model().cfg),
    {
        if !self.config.dry_run {
            if let Some(cs) = self.create_stats {
                self.phase = Phase::AwaitingStatReport;
                return StepResult::Act(
                    Action::SendStatReport {
                        report: StatReport {
                            pre_hook_stats: self.pre_hook_stats,
                            create_stats: cs,
                            post_hook_stats: self.post_hook_stats,
                        },
                    },
                );
            }
        }
        self.phase = Phase::Done;
        StepResult::Finished { success: true }
    }

    /// The post-hook decision (see [`spec_post_decision`]).
    fn post_decision(&mut self) -> (r: StepResult)
        ensures
            (final(self).model(), step_of(r)) == spec_post_decision(old(self).model()),
            action_payload_ok(r, old(self).model().cfg),
    {
        if !self.config.post_hook.as_str().is_empty() {
            self.phase = Phase::AwaitingPostHook;
            StepResult::Act(
                Action::RunHook { command: self.config.post_hook.clone(), stage: State::PostHook },
            )
        } else {
            self.report_decision()
        }
    }

    /// The create decision (see [`spec_create_decision`]).
    fn create_decision(&mut self) -> (r: StepResult)
        ensures
            (final(self).model(), step_of(r)) == spec_create_decision(old(self).model()),
            action_payload_ok(r, old(self).model().cfg),
    {
        if self.config.dry_run {
            self.post_decision()
        } else {
            self.phase = Phase::AwaitingCreate;
            StepResult::Act(Action::RunCreate { progress: self.config.progress })
        }
    }

    /// The first decision of the run.
    pub fn start(&mut self) -> (r: StepResult)
        requires
            old(self).model().phase == Phase::Idle,
        ensures
            (final(self).model(), step_of(r)) == spec_start(old(self).model()),
            action_payload_ok(r, old(self).model().cfg),
    {
        if !self.config.pre_hook.as_str().is_empty() {
            self.phase = Phase::AwaitingPreHook;
            StepResult::Act(
                Action::RunHook { command: self.config.pre_hook.clone(), stage: State::PreHook },
            )
        } else {
            self.create_decision()
        }
    }

    /// Hand back the outcome of the hook that was running.
    pub fn on_hook_done(&mut self, result: Result<HookStats, ErrorReport>) -> (r: StepResult)
        requires
            old(self).model().phase == Phase::AwaitingPreHook || old(self).model().phase
                == Phase::AwaitingPostHook,
            result matches Err(e) ==> e.state == hook_stage_of(old(self).model().phase),
        ensures
            (final(self).model(), step_of(r)) == spec_on_hook(
                old(self).model(),
                hook_outcome_of(result),
            ),
            action_payload_ok(r, old(self).model().cfg),
            result matches Err(e) ==> (r matches StepResult::Act(
                Action::SendErrorReport { report },
            ) && report == e),
    {
        match result {
            Ok(stats) => {
                if self.phase == Phase::AwaitingPreHook {
                    self.pre_hook_stats = Some(stats);
                    self.create_decision()
                } else {
                    self.post_hook_stats = Some(stats);
                    self.report_decision()
                }
            },
            Err(e) => {
                self.phase = Phase::AwaitingErrorReport;
                StepResult::Act(Action::SendErrorReport { report: e })
            },
        }
    }

    /// Hand back the outcome of the archive creation.
    pub fn on_create_done(&mut self, result: Result<CreateStats, ErrorReport>) -> (r: StepResult)
        requires
            old(self).model().phase == Phase::AwaitingCreate,
            result matches Err(e) ==> e.state == State::Create,
        ensures
            (final(self).model(), step_of(r)) == spec_on_create(
                old(self).model(),
                create_outcome_of(result),
            ),
            action_payload_ok(r, old(self).model().cfg),
            result matches Err(e) ==> (r matches StepResult::Act(
                Action::SendErrorReport { report },
            ) && report == e),
    {
        match result {
            Ok(stats) => {
                self.create_stats = Some(stats);
                self.post_decision()
            },
            Err(e) => {
                self.phase = Phase::AwaitingErrorReport;
                StepResult::Act(Action::SendErrorReport { report: e })
            },
        }
    }

    /// Hand back the outcome of the report that was being sent. The
    /// delivery result of an error report is only informational: the
    /// run has already failed.
    pub fn on_report_done(&mut self, delivered: bool) -> (r: StepResult)
        requires
            old(self).model().phase == Phase::AwaitingStatReport || old(self).model().phase
                == Phase::AwaitingErrorReport,
        ensures
            (final(self).model(), step_of(r)) == spec_on_report(old(self).model(), delivered),
    {
        if self.phase == Phase::AwaitingStatReport && delivered {
            self.phase = Phase::Done;
            StepResult::Finished { success: true }
        } else {
            self.phase = Phase::Aborted;
            StepResult::Finished { success: false }
        }
    }
}

/// Whether a trace starts any hook.
pub open spec fn has_hook_start(t: Seq<RunStep>) -> bool {
    exists|i: int| 0 <= i < t.len() && t[i] is HookStarted
}

/// Whether a trace starts the post hook.
pub open spec fn has_post_hook_start(t: Seq<RunStep>) -> bool {
    exists|i: int| 0 <= i < t.len() && t[i] == RunStep::HookStarted(State::PostHook)
}

/// Whether a trace starts the archive creation.
pub open spec fn has_create_start(t: Seq<RunStep>) -> bool {
    exists|i: int| 0 <= i < t.len() && t[i] is CreateStarted
}

/// Whether a trace sends a stat report.
pub open spec fn has_stat_sent(t: Seq<RunStep>) -> bool {
    exists|i: int| 0 <= i < t.len() && t[i] is StatSent
}

/// With both hook commands empty no run ever starts a hook, and when
/// the run is not a dry run its very first step is the archive
/// creation — the only stage that executes.
pub proof fn lemma_unconfigured_hooks_never_run(cfg: RunConfigView, o: RunOutcomes)
    requires
        cfg.pre_hook.len() == 0,
        cfg.post_hook.len() == 0,
    ensures
        !has_hook_start(run_trace(cfg, o)),
        !cfg.dry_run ==> run_trace(cfg, o)[0] == RunStep::CreateStarted,
{
    reveal_with_fuel(trace_from, 7);
    let t = run_trace(cfg, o);
    if cfg.dry_run {
        assert(t =~= seq![RunStep::Finished(true)]);
    } else {
        match o.create {
            Some(cs) => {
                assert(t =~= seq![
                    RunStep::CreateStarted,
                    RunStep::StatSent(
                        StatReport {
                            pre_hook_stats: None,
                            create_stats: cs,
                            post_hook_stats: None,
                        },
                    ),
                    RunStep::Finished(o.stat_send_ok),
                ]);
            },
            None => {
                assert(t =~= seq![
                    RunStep::CreateStarted,
                    RunStep::ErrorSent(State::Create),
                    RunStep::Finished(false),
                ]);
            },
        }
    }
}

/// A dry run never starts the archive creation and never sends a stat
/// report, whatever the hook commands hold; a configured pre hook
/// still runs first.
pub proof fn lemma_dry_run_skips_create(cfg: RunConfigView, o: RunOutcomes)
    requires
        cfg.dry_run,
    ensures
        !has_create_start(run_trace(cfg, o)),
        !has_stat_sent(run_trace(cfg, o)),
        cfg.pre_hook.len() > 0 ==> run_trace(cfg, o)[0] == RunStep::HookStarted(State::PreHook),
{
    reveal_with_fuel(trace_from, 7);
    let t = run_trace(cfg, o);
    if cfg.pre_hook.len() == 0 {
        if cfg.post_hook.len() == 0 {
            assert(t =~= seq![RunStep::Finished(true)]);
        } else {
            match o.post {
                Some(s) => {
                    assert(t =~= seq![
                        RunStep::HookStarted(State::PostHook),
                        RunStep::Finished(true),
                    ]);
                },
                None => {
                    assert(t =~= seq![
                        RunStep::HookStarted(State::PostHook),
                        RunStep::ErrorSent(State::PostHook),
                        RunStep::Finished(false),
                    ]);
                },
            }
        }
    } else {
        match o.pre {
            None => {
                assert(t =~= seq![
                    RunStep::HookStarted(State::PreHook),
                    RunStep::ErrorSent(State::PreHook),
                    RunStep::Finished(false),
                ]);
            },
            Some(s) => {
                if cfg.post_hook.len() == 0 {
                    assert(t =~= seq![
                        RunStep::HookStarted(State::PreHook),
                        RunStep::Finished(true),
                    ]);
                } else {
                    match o.post {
                        Some(s2) => {
                            assert(t =~= seq![
                                RunStep::HookStarted(State::PreHook),
                                RunStep::HookStarted(State::PostHook),
                                RunStep::Finished(true),
                            ]);
                        },
                        None => {
                            assert(t =~= seq![
                                RunStep::HookStarted(State::PreHook),
                                RunStep::HookStarted(State::PostHook),
                                RunStep::ErrorSent(State::PostHook),
                                RunStep::Finished(false),
                            ]);
                        },
                    }
                }
            },
        }
    }
}

/// An empty hook command is "no hook configured", not an error: a run
/// whose pre-hook command is the empty string never starts the pre
/// hook (and likewise for the post hook), exactly as if none were set.
pub proof fn lemma_empty_hook_is_not_configured(cfg: RunConfigView, o: RunOutcomes)
    ensures
        cfg.pre_hook.len() == 0 ==> forall|i: int|
            0 <= i < run_trace(cfg, o).len() ==> run_trace(cfg, o)[i] != RunStep::HookStarted(
                State::PreHook,
            ),
        cfg.post_hook.len() == 0 ==> forall|i: int|
            0 <= i < run_trace(cfg, o).len() ==> run_trace(cfg, o)[i] != RunStep::HookStarted(
                State::PostHook,
            ),
{
    reveal_with_fuel(trace_from, 7);
    let t = run_trace(cfg, o);
    if cfg.pre_hook.len() > 0 && o.pre is None {
        assert(t =~= seq![
            RunStep::HookStarted(State::PreHook),
            RunStep::ErrorSent(State::PreHook),
            RunStep::Finished(false),
        ]);
    } else {
        let prefix = if cfg.pre_hook.len() > 0 {
            seq![RunStep::HookStarted(State::PreHook)]
        } else {
            Seq::<RunStep>::empty()
        };
        if cfg.dry_run {
            if cfg.post_hook.len() == 0 {
                assert(t =~= prefix + seq![RunStep::Finished(true)]);
            } else {
                match o.post {
                    Some(qs) => {
                        assert(t =~= prefix + seq![
                            RunStep::HookStarted(State::PostHook),
                            RunStep::Finished(true),
                        ]);
                    },
                    None => {
                        assert(t =~= prefix + seq![
                            RunStep::HookStarted(State::PostHook),
                            RunStep::ErrorSent(State::PostHook),
                            RunStep::Finished(false),
                        ]);
                    },
                }
            }
        } else {
            match o.create {
                None => {
                    assert(t =~= prefix + seq![
                        RunStep::CreateStarted,
                        RunStep::ErrorSent(State::Create),
                        RunStep::Finished(false),
                    ]);
                },
                Some(cs) => {
                    if cfg.post_hook.len() == 0 {
                        assert(t =~= prefix + seq![
                            RunStep::CreateStarted,
                            RunStep::StatSent(
                                StatReport {
                                    pre_hook_stats: if cfg.pre_hook.len() > 0 {
                                        o.pre
                                    } else {
                                        None
                                    },
                                    create_stats: cs,
                                    post_hook_stats: None,
                                },
                            ),
                            RunStep::Finished(o.stat_send_ok),
                        ]);
                    } else {
                        match o.post {
                            Some(qs) => {
                                assert(t =~= prefix + seq![
                                    RunStep::CreateStarted,
                                    RunStep::HookStarted(State::PostHook),
                                    RunStep::StatSent(
                                        StatReport {
                                            pre_hook_stats: if cfg.pre_hook.len() > 0 {
                                                o.pre
                                            } else {
                                                None
                                            },
                                            create_stats: cs,
                                            post_hook_stats: Some(qs),
                                        },
                                    ),
                                    RunStep::Finished(o.stat_send_ok),
                                ]);
                            },
                            None => {
                                assert(t =~= prefix + seq![
                                    RunStep::CreateStarted,
                                    RunStep::HookStarted(State::PostHook),
                                    RunStep::ErrorSent(State::PostHook),
                                    RunStep::Finished(false),
                                ]);
                            },
                        }
                    }
                },
            }
        }
    }
}

/// Whether a trace sends an error report.
pub open spec fn has_error_sent(t: Seq<RunStep>) -> bool {
    exists|i: int| 0 <= i < t.len() && t[i] is ErrorSent
}

/// Whether a step hands a report — stat or error — to the reporting
/// client.
pub open spec fn is_report_step(s: RunStep) -> bool {
    s is StatSent || s is ErrorSent
}

/// At most one report — stat or error — is handed to the reporting
/// client per run, never both kinds; and a run that ends as a failure
/// has always handed one over (failure paths never go unreported; the
/// delivery of that report is best-effort).
pub proof fn lemma_single_report(cfg: RunConfigView, o: RunOutcomes)
    ensures
        forall|i: int, j: int|
            0 <= i < j < run_trace(cfg, o).len() ==> !(is_report_step(run_trace(cfg, o)[i])
                && is_report_step(run_trace(cfg, o)[j])),
        ({
            let t = run_trace(cfg, o);
            t.len() > 0 && t.last() == RunStep::Finished(false) ==> (has_stat_sent(t)
                || has_error_sent(t))
        }),
{
    reveal_with_fuel(trace_from, 7);
    let t = run_trace(cfg, o);
    if cfg.pre_hook.len() > 0 && o.pre is None {
        assert(t =~= seq![
            RunStep::HookStarted(State::PreHook),
            RunStep::ErrorSent(State::PreHook),
            RunStep::Finished(false),
        ]);
        assert(t[1] is ErrorSent);
    } else {
        // the steps before the create decision, and the pre-hook stats
        let prefix = if cfg.pre_hook.len() > 0 {
            seq![RunStep::HookStarted(State::PreHook)]
        } else {
            Seq::<RunStep>::empty()
        };
        let pre_stats = if cfg.pre_hook.len() > 0 {
            o.pre
        } else {
            None
        };
        if cfg.dry_run {
            if cfg.post_hook.len() == 0 {
                assert(t =~= prefix + seq![RunStep::Finished(true)]);
            } else {
                match o.post {
                    Some(qs) => {
                        assert(t =~= prefix + seq![
                            RunStep::HookStarted(State::PostHook),
                            RunStep::Finished(true),
                        ]);
                    },
                    None => {
                        assert(t =~= prefix + seq![
                            RunStep::HookStarted(State::PostHook),
                            RunStep::ErrorSent(State::PostHook),
                            RunStep::Finished(false),
                        ]);
                        assert(t[prefix.len() as int + 1] is ErrorSent);
                    },
                }
            }
        } else {
            match o.create {
                None => {
                    assert(t =~= prefix + seq![
                        RunStep::CreateStarted,
                        RunStep::ErrorSent(State::Create),
                        RunStep::Finished(false),
                    ]);
                    assert(t[prefix.len() as int + 1] is ErrorSent);
                },
                Some(cs) => {
                    if cfg.post_hook.len() == 0 {
                        assert(t =~= prefix + seq![
                            RunStep::CreateStarted,
                            RunStep::StatSent(
                                StatReport {
                                    pre_hook_stats: pre_stats,
                                    create_stats: cs,
                                    post_hook_stats: None,
                                },
                            ),
                            RunStep::Finished(o.stat_send_ok),
                        ]);
                        assert(t[prefix.len() as int + 1] is StatSent);
                    } else {
                        match o.post {
                            Some(qs) => {
                                assert(t =~= prefix + seq![
                                    RunStep::CreateStarted,
                                    RunStep::HookStarted(State::PostHook),
                                    RunStep::StatSent(
                                        StatReport {
                                            pre_hook_stats: pre_stats,
                                            create_stats: cs,
                                            post_hook_stats: Some(qs),
                                        },
                                    ),
                                    RunStep::Finished(o.stat_send_ok),
                                ]);
                                assert(t[prefix.len() as int + 2] is StatSent);
                            },
                            None => {
                                assert(t =~= prefix + seq![
                                    RunStep::CreateStarted,
                                    RunStep::HookStarted(State::PostHook),
                                    RunStep::ErrorSent(State::PostHook),
                                    RunStep::Finished(false),
                                ]);
                                assert(t[prefix.len() as int + 2] is ErrorSent);
                            },
                        }
                    }
                },
            }
        }
    }
}

/// When the archive creation fails, no stat report is ever sent and
/// the post hook is never started: the run aborts with its one error
/// report.
pub proof fn lemma_create_failure_aborts(cfg: RunConfigView, o: RunOutcomes)
    requires
        !cfg.dry_run,
        o.create is None,
    ensures
        !has_stat_sent(run_trace(cfg, o)),
        !has_post_hook_start(run_trace(cfg, o)),
{
    reveal_with_fuel(trace_from, 7);
    let t = run_trace(cfg, o);
    if cfg.pre_hook.len() == 0 {
        assert(t =~= seq![
            RunStep::CreateStarted,
            RunStep::ErrorSent(State::Create),
            RunStep::Finished(false),
        ]);
    } else {
        match o.pre {
            None => {
                assert(t =~= seq![
                    RunStep::HookStarted(State::PreHook),
                    RunStep::ErrorSent(State::PreHook),
                    RunStep::Finished(false),
                ]);
            },
            Some(s) => {
                assert(t =~= seq![
                    RunStep::HookStarted(State::PreHook),
                    RunStep::CreateStarted,
                    RunStep::ErrorSent(State::Create),
                    RunStep::Finished(false),
                ]);
            },
        }
    }
}

} // verus!
