//! The workflow engine: drives one detected manager through its stages.
//!
//! The engine is a state machine. The caller runs the external command of
//! each stage and feeds the engine what happened — output lines, the
//! outcome, or an error that kept the command from running — and the engine
//! decides everything else: which stage comes next, what the transcript
//! holds, and what status the unit shows. Every transition is mirrored by a
//! spec function (`run_step`), so properties of whole runs are proved once,
//! over sequences of events.

use crate::config::{ManagerConfig, ManagerConfigView};
use crate::runner::{ExecutionOutcome, OutcomeView, StageError, StageErrorView};
use crate::runner::spec_stage_error_message;
use crate::status::{ManagerStatus, StatusView};
use crate::status::{stage_label_rank, status_is_terminal, status_le, status_rank};
use crate::text::{i64_to_string, push_char, spec_decimal_signed};
use vstd::prelude::*;

verus! {

/// The four stages a workflow can hold, in their fixed order.
#[derive(Clone, Copy, Debug, PartialEq, Eq, Structural)]
pub enum Stage {
    Refresh,
    SelfUpdate,
    Upgrade,
    Cleanup,
}

/// Position of a stage in the fixed order.
pub open spec fn stage_index(st: Stage) -> int {
    match st {
        Stage::Refresh => 0,
        Stage::SelfUpdate => 1,
        Stage::Upgrade => 2,
        Stage::Cleanup => 3,
    }
}

/// The stage at a position of the fixed order.
pub open spec fn stage_at(i: int) -> Stage {
    if i == 0 {
        Stage::Refresh
    } else if i == 1 {
        Stage::SelfUpdate
    } else if i == 2 {
        Stage::Upgrade
    } else {
        Stage::Cleanup
    }
}

/// The label a running stage shows in the unit's status.
pub open spec fn spec_stage_label(st: Stage) -> Seq<char> {
    match st {
        Stage::Refresh => "Refreshing"@,
        Stage::SelfUpdate => "Self-updating"@,
        Stage::Upgrade => "Upgrading"@,
        Stage::Cleanup => "Cleaning"@,
    }
}

/// The heading a stage writes into the transcript when it starts.
pub open spec fn spec_stage_header(st: Stage) -> Seq<char> {
    match st {
        Stage::Refresh => "=== REFRESHING REPOSITORIES ===\n"@,
        Stage::SelfUpdate => "=== SELF-UPDATE ===\n"@,
        Stage::Upgrade => "=== UPGRADING PACKAGES ===\n"@,
        Stage::Cleanup => "=== CLEANUP ===\n"@,
    }
}

/// The completion marker a stage appends to the transcript on success.
pub open spec fn spec_stage_marker(st: Stage) -> Seq<char> {
    match st {
        Stage::Refresh => "\n\u{2713} Refresh completed\n\n"@,
        Stage::SelfUpdate => "\n\u{2713} Self-update completed\n\n"@,
        Stage::Upgrade => "\n\u{2713} Upgrade completed\n\n"@,
        Stage::Cleanup => "\n\u{2713} Cleanup completed\n\n"@,
    }
}

/// The noun a stage's failure reasons start with.
pub open spec fn spec_stage_noun(st: Stage) -> Seq<char> {
    match st {
        Stage::Refresh => "Refresh"@,
        Stage::SelfUpdate => "Self-update"@,
        Stage::Upgrade => "Upgrade"@,
        Stage::Cleanup => "Cleanup"@,
    }
}

/// How many seconds a stage's command may run before it is cut off.
pub open spec fn spec_stage_timeout_secs(st: Stage) -> int {
    match st {
        Stage::Refresh => 300,
        Stage::SelfUpdate => 600,
        Stage::Upgrade => 3600,
        Stage::Cleanup => 300,
    }
}

/// The command a configuration holds for a stage, if the stage is
/// configured at all. Upgrading is never optional.
pub open spec fn spec_stage_command(c: ManagerConfigView, st: Stage) -> Option<Seq<char>> {
    match st {
        Stage::Refresh => c.refresh,
        Stage::SelfUpdate => c.self_update,
        Stage::Upgrade => Option::Some(c.upgrade_all),
        Stage::Cleanup => c.cleanup,
    }
}

pub open spec fn stage_configured(c: ManagerConfigView, st: Stage) -> bool {
    spec_stage_command(c, st) is Some
}

/// The position of the first configured stage at or after `cursor`, if any.
pub open spec fn spec_next_stage(c: ManagerConfigView, cursor: int) -> Option<int>
    decreases 4 - cursor,
    when cursor <= 4
{
    if cursor >= 4 {
        Option::None
    } else if stage_configured(c, stage_at(cursor)) {
        Option::Some(cursor)
    } else {
        spec_next_stage(c, cursor + 1)
    }
}

/// What the engine asks its caller to run: one stage's command, with the
/// elevation flag and the timeout that bound it.
pub struct StageSpec {
    pub stage: Stage,
    pub command: String,
    pub elevate: bool,
    pub timeout_secs: u64,
}

/// Mathematical image of a `StageSpec`.
pub struct StageSpecView {
    pub stage: Stage,
    pub command: Seq<char>,
    pub elevate: bool,
    pub timeout_secs: int,
}

impl View for StageSpec {
    type V = StageSpecView;

    open spec fn view(&self) -> StageSpecView {
        StageSpecView {
            stage: self.stage,
            command: self.command@,
            elevate: self.elevate,
            timeout_secs: self.timeout_secs as int,
        }
    }
}

/// The stage spec the engine owes for the stage at position `i`.
pub open spec fn spec_stage_spec(c: ManagerConfigView, i: int) -> StageSpecView {
    StageSpecView {
        stage: stage_at(i),
        command: spec_stage_command(c, stage_at(i))->0,
        elevate: c.requires_sudo,
        timeout_secs: spec_stage_timeout_secs(stage_at(i)),
    }
}

/// Mathematical image of a `WorkflowRun`.
#[verifier::ext_equal]
pub struct RunView {
    pub config: ManagerConfigView,
    pub transcript: Seq<char>,
    pub cursor: int,
    pub running: bool,
    pub status: StatusView,
}

/// A run that has not started: nothing in the transcript, the first stage
/// next, the unit `Pending`.
pub open spec fn spec_initial_run(c: ManagerConfigView) -> RunView {
    RunView {
        config: c,
        transcript: Seq::empty(),
        cursor: 0,
        running: false,
        status: StatusView::Pending,
    }
}

/// Everything the engine may be told while a run is alive.
pub enum RunEvent {
    /// Move to the next configured stage, or finish the run.
    StartStage,
    /// The running stage's process wrote one line.
    OutputLine { text: Seq<char>, from_stderr: bool },
    /// The running stage's process ended, or was cut off by the timeout.
    StageFinished { outcome: OutcomeView },
    /// The running stage's command never produced an outcome.
    StageFailed { error: StageErrorView },
}

/// Starting: the next configured stage writes its heading and shows as
/// running; with no stage left, the run closes successfully.
pub open spec fn spec_start_stage(r: RunView) -> RunView {
    match spec_next_stage(r.config, r.cursor) {
        Option::Some(i) => {
            let t = r.transcript + spec_stage_header(stage_at(i));
            RunView {
                transcript: t,
                cursor: i,
                running: true,
                status: StatusView::Running(spec_stage_label(stage_at(i)), t),
                ..r
            }
        },
        Option::None => RunView { status: StatusView::Success(r.transcript), ..r },
    }
}

/// A captured line joins the transcript — prefixed when it came from the
/// error stream — and the running status republishes the transcript.
pub open spec fn spec_output_line(r: RunView, text: Seq<char>, from_stderr: bool) -> RunView {
    let t = r.transcript + (if from_stderr {
        "STDERR: "@
    } else {
        Seq::empty()
    }) + text + "\n"@;
    RunView {
        transcript: t,
        status: StatusView::Running(spec_stage_label(stage_at(r.cursor)), t),
        ..r
    }
}

/// The note a non-zero exit writes into the transcript.
pub open spec fn spec_exit_note(exit_code: Option<int>) -> Seq<char> {
    "\nCommand exited with code: "@ + spec_decimal_signed(
        match exit_code {
            Option::Some(c) => c,
            Option::None => -1,
        },
    ) + "\n"@
}

/// A finished stage: a timeout or a non-zero exit fails the unit and ends
/// the run; success appends the stage's marker and steps past it.
pub open spec fn spec_stage_finished(r: RunView, o: OutcomeView) -> RunView {
    let st = stage_at(r.cursor);
    if o.timed_out {
        let t = r.transcript + "\nERROR: Command timed out\n"@;
        RunView {
            transcript: t,
            running: false,
            status: StatusView::Failed("Command timed out"@, t),
            ..r
        }
    } else if o.success {
        RunView { transcript: r.transcript + spec_stage_marker(st), cursor: r.cursor + 1, running: false, ..r }
    } else {
        let t = r.transcript + spec_exit_note(o.exit_code);
        RunView {
            transcript: t,
            running: false,
            status: StatusView::Failed(spec_stage_noun(st) + " command failed"@, t),
            ..r
        }
    }
}

/// A stage whose command never ran fails the unit with the error's message
/// behind the stage's name.
pub open spec fn spec_stage_failed(r: RunView, e: StageErrorView) -> RunView {
    RunView {
        running: false,
        status: StatusView::Failed(
            spec_stage_noun(stage_at(r.cursor)) + " error: "@ + spec_stage_error_message(e),
            r.transcript,
        ),
        ..r
    }
}

/// One engine transition. A terminal run ignores every event; an event that
/// does not fit the run's phase changes nothing.
pub open spec fn run_step(r: RunView, e: RunEvent) -> RunView {
    if status_is_terminal(r.status) {
        r
    } else {
        match e {
            RunEvent::StartStage => if !r.running {
                spec_start_stage(r)
            } else {
                r
            },
            RunEvent::OutputLine { text, from_stderr } => if r.running {
                spec_output_line(r, text, from_stderr)
            } else {
                r
            },
            RunEvent::StageFinished { outcome } => if r.running {
                spec_stage_finished(r, outcome)
            } else {
                r
            },
            RunEvent::StageFailed { error } => if r.running {
                spec_stage_failed(r, error)
            } else {
                r
            },
        }
    }
}

/// A whole run: the engine's state after a sequence of events.
pub open spec fn run_steps(r: RunView, events: Seq<RunEvent>) -> RunView
    decreases events.len(),
{
    if events.len() == 0 {
        r
    } else {
        run_steps(run_step(r, events[0]), events.drop_first())
    }
}

/// The engine's well-formedness: the cursor stays on the stage order, a
/// running stage is configured and published, and the status never sits
/// above the cursor.
pub open spec fn run_wf(r: RunView) -> bool {
    &&& 0 <= r.cursor <= 4
    &&& r.running ==> r.cursor <= 3 && stage_configured(r.config, stage_at(r.cursor))
    &&& r.running ==> r.status == StatusView::Running(
        spec_stage_label(stage_at(r.cursor)),
        r.transcript,
    )
    &&& status_is_terminal(r.status) ==> !r.running
    &&& !status_is_terminal(r.status) ==> status_rank(r.status) <= r.cursor + (if r.running {
        1int
    } else {
        0int
    })
}

/// Each label names its own stage: the rank a running status shows is
/// exactly one past the stage's position.
pub proof fn lemma_stage_label_rank(st: Stage)
    ensures
        stage_label_rank(spec_stage_label(st)) == stage_index(st) + 1,
{
    reveal_strlit("Refreshing");
    reveal_strlit("Self-updating");
    reveal_strlit("Upgrading");
    reveal_strlit("Cleaning");
    match st {
        Stage::Refresh => {
            assert(stage_label_rank("Refreshing"@) == 1);
        },
        Stage::SelfUpdate => {
            assert("Self-updating"@.len() == 13);
            assert("Refreshing"@.len() == 10);
            assert(stage_label_rank("Self-updating"@) == 2);
        },
        Stage::Upgrade => {
            assert("Upgrading"@.len() == 9);
            assert(stage_label_rank("Upgrading"@) == 3);
        },
        Stage::Cleanup => {
            assert("Cleaning"@.len() == 8);
            assert(stage_label_rank("Cleaning"@) == 4);
        },
    }
}

/// A found next stage lies between the cursor and the end of the order.
pub proof fn lemma_next_stage_bounds(c: ManagerConfigView, cursor: int)
    requires
        0 <= cursor <= 4,
    ensures
        match spec_next_stage(c, cursor) {
            Option::Some(i) => cursor <= i <= 3 && stage_configured(c, stage_at(i)),
            Option::None => true,
        },
    decreases 4 - cursor,
{
    if cursor < 4 && !stage_configured(c, stage_at(cursor)) {
        lemma_next_stage_bounds(c, cursor + 1);
    }
}

/// One engine transition keeps the run well-formed, never moves the status
/// backward through the stage order, and never moves the cursor back.
pub proof fn lemma_run_step_monotone(r: RunView, e: RunEvent)
    requires
        run_wf(r),
    ensures
        run_wf(run_step(r, e)),
        status_le(r.status, run_step(r, e).status),
        r.cursor <= run_step(r, e).cursor,
{
    if !status_is_terminal(r.status) {
        match e {
            RunEvent::StartStage => {
                if !r.running {
                    lemma_next_stage_bounds(r.config, r.cursor);
                    match spec_next_stage(r.config, r.cursor) {
                        Option::Some(i) => {
                            lemma_stage_label_rank(stage_at(i));
                        },
                        Option::None => {},
                    }
                }
            },
            RunEvent::OutputLine { text, from_stderr } => {
                if r.running {
                    lemma_stage_label_rank(stage_at(r.cursor));
                }
            },
            RunEvent::StageFinished { outcome } => {
                if r.running {
                    lemma_stage_label_rank(stage_at(r.cursor));
                }
            },
            RunEvent::StageFailed { error } => {
                if r.running {
                    lemma_stage_label_rank(stage_at(r.cursor));
                }
            },
        }
    }
}

/// However many events a run sees, its status walks a single forward path
/// through the fixed stage order: no stage is re-entered after a later one,
/// no backward transition happens, and a terminal status is final.
pub proof fn lemma_run_monotone(r: RunView, events: Seq<RunEvent>)
    requires
        run_wf(r),
    ensures
        run_wf(run_steps(r, events)),
        status_le(r.status, run_steps(r, events).status),
        r.cursor <= run_steps(r, events).cursor,
    decreases events.len(),
{
    if events.len() > 0 {
        lemma_run_step_monotone(r, events[0]);
        lemma_run_monotone(run_step(r, events[0]), events.drop_first());
    }
}

/// A unit that has failed — or succeeded — stays exactly as it is: no event
/// runs another stage, touches the transcript, or resets the status.
pub proof fn lemma_terminal_run_is_final(r: RunView, events: Seq<RunEvent>)
    requires
        status_is_terminal(r.status),
    ensures
        run_steps(r, events) == r,
    decreases events.len(),
{
    if events.len() > 0 {
        lemma_terminal_run_is_final(r, events.drop_first());
    }
}

/// A unit with none of the optional stages configured reaches `Success`
/// after exactly one stage — the upgrade — when its command exits zero: the
/// first start opens the upgrade stage, its successful outcome closes it,
/// and the next start finds nothing left and ends the run successfully.
pub proof fn lemma_lone_upgrade_succeeds(c: ManagerConfigView, o: OutcomeView)
    requires
        c.refresh is None,
        c.self_update is None,
        c.cleanup is None,
        o.success,
        !o.timed_out,
    ensures
        ({
            let started = run_step(spec_initial_run(c), RunEvent::StartStage);
            let finished = run_step(started, RunEvent::StageFinished { outcome: o });
            let closed = run_step(finished, RunEvent::StartStage);
            &&& started.status == StatusView::Running(
                "Upgrading"@,
                spec_stage_header(Stage::Upgrade),
            )
            &&& closed.status == StatusView::Success(
                spec_stage_header(Stage::Upgrade) + spec_stage_marker(Stage::Upgrade),
            )
        }),
{
    reveal_with_fuel(spec_next_stage, 6);
    let r0 = spec_initial_run(c);
    assert(spec_next_stage(c, 0) == Option::Some(2int));
    let started = run_step(r0, RunEvent::StartStage);
    assert(Seq::<char>::empty() + spec_stage_header(Stage::Upgrade) =~= spec_stage_header(
        Stage::Upgrade,
    ));
    let finished = run_step(started, RunEvent::StageFinished { outcome: o });
    assert(spec_next_stage(c, 3) == Option::None::<int>);
}

/// A stage whose command exits non-zero — or is cut off by its timeout —
/// fails the unit at once, with the transcript it had plus the one failure
/// note, and no later stage runs: every event after the failure leaves the
/// run exactly as the failure left it.
pub proof fn lemma_failed_stage_is_fatal(r: RunView, o: OutcomeView, later: Seq<RunEvent>)
    requires
        run_wf(r),
        r.running,
        !o.success || o.timed_out,
    ensures
        ({
            let failed = run_step(r, RunEvent::StageFinished { outcome: o });
            &&& failed.status is Failed
            &&& failed.transcript == r.transcript + (if o.timed_out {
                "\nERROR: Command timed out\n"@
            } else {
                spec_exit_note(o.exit_code)
            })
            &&& run_steps(failed, later) == failed
        }),
{
    let failed = run_step(r, RunEvent::StageFinished { outcome: o });
    lemma_terminal_run_is_final(failed, later);
}

/// A stage whose process outlives its timeout yields `Failed` with the
/// timed-out reason, whatever the process would have reported; the run is
/// over. Killing the runaway process itself is the caller's duty.
pub proof fn lemma_timeout_fails(r: RunView, o: OutcomeView)
    requires
        run_wf(r),
        r.running,
        o.timed_out,
    ensures
        run_step(r, RunEvent::StageFinished { outcome: o }).status == StatusView::Failed(
            "Command timed out"@,
            r.transcript + "\nERROR: Command timed out\n"@,
        ),
        status_is_terminal(run_step(r, RunEvent::StageFinished { outcome: o }).status),
{
}

/// The stage at the position of a stage is that stage.
pub proof fn lemma_stage_index_at(st: Stage)
    ensures
        stage_at(stage_index(st)) == st,
{
}

/// The engine that runs one unit. The caller starts stages, runs their
/// commands, and reports back; the engine owns the transcript and the
/// published status.
pub struct WorkflowRun {
    config: ManagerConfig,
    transcript: String,
    cursor: u8,
    running: bool,
    status: ManagerStatus,
}

impl View for WorkflowRun {
    type V = RunView;

    closed spec fn view(&self) -> RunView {
        RunView {
            config: self.config@,
            transcript: self.transcript@,
            cursor: self.cursor as int,
            running: self.running,
            status: self.status@,
        }
    }
}

fn stage_of_index(i: u8) -> (st: Stage)
    ensures
        st == stage_at(i as int),
{
    if i == 0 {
        Stage::Refresh
    } else if i == 1 {
        Stage::SelfUpdate
    } else if i == 2 {
        Stage::Upgrade
    } else {
        Stage::Cleanup
    }
}

/// The label a stage shows while running.
pub fn stage_label(st: Stage) -> (r: &'static str)
    ensures
        r@ == spec_stage_label(st),
{
    match st {
        Stage::Refresh => "Refreshing",
        Stage::SelfUpdate => "Self-updating",
        Stage::Upgrade => "Upgrading",
        Stage::Cleanup => "Cleaning",
    }
}

fn stage_header(st: Stage) -> (r: &'static str)
    ensures
        r@ == spec_stage_header(st),
{
    match st {
        Stage::Refresh => "=== REFRESHING REPOSITORIES ===\n",
        Stage::SelfUpdate => "=== SELF-UPDATE ===\n",
        Stage::Upgrade => "=== UPGRADING PACKAGES ===\n",
        Stage::Cleanup => "=== CLEANUP ===\n",
    }
}

fn stage_marker(st: Stage) -> (r: &'static str)
    ensures
        r@ == spec_stage_marker(st),
{
    match st {
        Stage::Refresh => "\n\u{2713} Refresh completed\n\n",
        Stage::SelfUpdate => "\n\u{2713} Self-update completed\n\n",
        Stage::Upgrade => "\n\u{2713} Upgrade completed\n\n",
        Stage::Cleanup => "\n\u{2713} Cleanup completed\n\n",
    }
}

fn stage_noun(st: Stage) -> (r: &'static str)
    ensures
        r@ == spec_stage_noun(st),
{
    match st {
        Stage::Refresh => "Refresh",
        Stage::SelfUpdate => "Self-update",
        Stage::Upgrade => "Upgrade",
        Stage::Cleanup => "Cleanup",
    }
}

/// The timeout ceiling of a stage, in seconds.
pub fn stage_timeout_secs(st: Stage) -> (r: u64)
    ensures
        r as int == spec_stage_timeout_secs(st),
{
    match st {
        Stage::Refresh => 300,
        Stage::SelfUpdate => 600,
        Stage::Upgrade => 3600,
        Stage::Cleanup => 300,
    }
}

impl WorkflowRun {
    pub open spec fn wf(&self) -> bool {
        run_wf(self@)
    }

    /// A run that has not started yet.
    pub fn new(config: ManagerConfig) -> (r: Self)
        ensures
            r@ == spec_initial_run(config@),
            r.wf(),
    {
        let r = WorkflowRun {
            config,
            transcript: String::new(),
            cursor: 0,
            running: false,
            status: ManagerStatus::Pending,
        };
        proof {
            assert(r@ =~= spec_initial_run(r.config@));
        }
        r
    }

    /// The status the unit currently shows.
    pub fn status(&self) -> (r: ManagerStatus)
        ensures
            r@ == self@.status,
    {
        self.status.clone()
    }

    /// The run has reached `Success` or `Failed`.
    pub fn is_finished(&self) -> (r: bool)
        ensures
            r == status_is_terminal(self@.status),
    {
        self.status.is_terminal()
    }

    fn next_stage(&self) -> (r: Option<Stage>)
        requires
            0 <= self@.cursor <= 4,
        ensures
            match r {
                Option::Some(st) => spec_next_stage(self@.config, self@.cursor) == Option::Some(
                    stage_index(st),
                ),
                Option::None => spec_next_stage(self@.config, self@.cursor) is None,
            },
    {
        proof {
            reveal_with_fuel(spec_next_stage, 6);
        }
        let c = self.cursor;
        if c == 0 && self.config.refresh.is_some() {
            Option::Some(Stage::Refresh)
        } else if c <= 1 && self.config.self_update.is_some() {
            Option::Some(Stage::SelfUpdate)
        } else if c <= 2 {
            Option::Some(Stage::Upgrade)
        } else if c <= 3 && self.config.cleanup.is_some() {
            Option::Some(Stage::Cleanup)
        } else {
            Option::None
        }
    }

    fn stage_command_clone(&self, st: Stage) -> (r: String)
        requires
            stage_configured(self@.config, st),
        ensures
            r@ == spec_stage_command(self@.config, st)->0,
    {
        match st {
            Stage::Refresh => match &self.config.refresh {
                Option::Some(s) => s.clone(),
                Option::None => {
                    proof {
                        assert(false);
                    }
                    String::new()
                },
            },
            Stage::SelfUpdate => match &self.config.self_update {
                Option::Some(s) => s.clone(),
                Option::None => {
                    proof {
                        assert(false);
                    }
                    String::new()
                },
            },
            Stage::Upgrade => self.config.upgrade_all.clone(),
            Stage::Cleanup => match &self.config.cleanup {
                Option::Some(s) => s.clone(),
                Option::None => {
                    proof {
                        assert(false);
                    }
                    String::new()
                },
            },
        }
    }

    /// Move to the next configured stage: write its heading, publish the
    /// running status, and hand back what to run. With no stage left the
    /// run closes successfully and nothing is handed back.
    pub fn start_next_stage(&mut self) -> (r: Option<StageSpec>)
        requires
            old(self).wf(),
            !old(self)@.running,
            !status_is_terminal(old(self)@.status),
        ensures
            final(self).wf(),
            final(self)@ == run_step(old(self)@, RunEvent::StartStage),
            status_le(old(self)@.status, final(self)@.status),
            match r {
                Option::Some(ss) => spec_next_stage(old(self)@.config, old(self)@.cursor)
                    == Option::Some(stage_index(ss@.stage)) && ss@ == spec_stage_spec(
                    old(self)@.config,
                    stage_index(ss@.stage),
                ),
                Option::None => spec_next_stage(old(self)@.config, old(self)@.cursor) is None,
            },
    {
        proof {
            lemma_run_step_monotone(old(self)@, RunEvent::StartStage);
            lemma_next_stage_bounds(old(self)@.config, old(self)@.cursor);
        }
        match self.next_stage() {
            Option::Some(st) => {
                proof {
                    lemma_stage_index_at(st);
                }
                let i: u8 = match st {
                    Stage::Refresh => 0,
                    Stage::SelfUpdate => 1,
                    Stage::Upgrade => 2,
                    Stage::Cleanup => 3,
                };
                self.cursor = i;
                self.transcript.append(stage_header(st));
                self.running = true;
                self.status = ManagerStatus::Running(
                    stage_label(st).to_owned(),
                    self.transcript.clone(),
                );
                let command = self.stage_command_clone(st);
                let ss = StageSpec {
                    stage: st,
                    command,
                    elevate: self.config.requires_sudo,
                    timeout_secs: stage_timeout_secs(st),
                };
                proof {
                    assert(self@ =~= run_step(old(self)@, RunEvent::StartStage));
                }
                Option::Some(ss)
            },
            Option::None => {
                self.status = ManagerStatus::Success(self.transcript.clone());
                proof {
                    assert(self@ =~= run_step(old(self)@, RunEvent::StartStage));
                }
                Option::None
            },
        }
    }

    /// One line the running stage's process wrote: it joins the transcript
    /// — tagged when it came from the error stream — and the running status
    /// republishes the grown transcript.
    pub fn record_line(&mut self, line: &str, from_stderr: bool)
        requires
            old(self).wf(),
            old(self)@.running,
        ensures
            final(self).wf(),
            final(self)@ == run_step(
                old(self)@,
                RunEvent::OutputLine { text: line@, from_stderr },
            ),
            status_le(old(self)@.status, final(self)@.status),
    {
        proof {
            lemma_run_step_monotone(
                old(self)@,
                RunEvent::OutputLine { text: line@, from_stderr },
            );
        }
        if from_stderr {
            self.transcript.append("STDERR: ");
        }
        self.transcript.append(line);
        push_char(&mut self.transcript, '\n');
        let st = stage_of_index(self.cursor);
        self.status = ManagerStatus::Running(stage_label(st).to_owned(), self.transcript.clone());
        proof {
            reveal_strlit("\n");
            assert(self@.transcript =~= run_step(
                old(self)@,
                RunEvent::OutputLine { text: line@, from_stderr },
            ).transcript);
            assert(self@ =~= run_step(old(self)@, RunEvent::OutputLine { text: line@, from_stderr }));
        }
    }

    /// The running stage's process ended or was cut off. A timeout or a
    /// non-zero exit writes its note and fails the unit; success appends
    /// the stage's completion marker and steps past the stage.
    pub fn finish_stage(&mut self, outcome: &ExecutionOutcome)
        requires
            old(self).wf(),
            old(self)@.running,
        ensures
            final(self).wf(),
            final(self)@ == run_step(old(self)@, RunEvent::StageFinished { outcome: outcome@ }),
            status_le(old(self)@.status, final(self)@.status),
    {
        proof {
            lemma_run_step_monotone(
                old(self)@,
                RunEvent::StageFinished { outcome: outcome@ },
            );
        }
        let st = stage_of_index(self.cursor);
        if outcome.timed_out {
            self.transcript.append("\nERROR: Command timed out\n");
            self.running = false;
            self.status = ManagerStatus::Failed(
                "Command timed out".to_owned(),
                self.transcript.clone(),
            );
        } else if outcome.success {
            self.transcript.append(stage_marker(st));
            self.cursor = self.cursor + 1;
            self.running = false;
        } else {
            let code: i64 = match outcome.exit_code {
                Option::Some(c) => c,
                Option::None => -1,
            };
            self.transcript.append("\nCommand exited with code: ");
            let rendered = i64_to_string(code);
            self.transcript.append(rendered.as_str());
            push_char(&mut self.transcript, '\n');
            self.running = false;
            let mut reason = stage_noun(st).to_owned();
            reason.append(" command failed");
            self.status = ManagerStatus::Failed(reason, self.transcript.clone());
        }
        proof {
            reveal_strlit("\n");
            assert(self@.transcript =~= run_step(
                old(self)@,
                RunEvent::StageFinished { outcome: outcome@ },
            ).transcript);
            assert(self@.status.arrow_Failed_0() =~= run_step(
                old(self)@,
                RunEvent::StageFinished { outcome: outcome@ },
            ).status.arrow_Failed_0());
            assert(self@ =~= run_step(old(self)@, RunEvent::StageFinished { outcome: outcome@ }));
        }
    }

    /// The running stage's command never produced an outcome: the unit
    /// fails with the error's message behind the stage's name, keeping the
    /// transcript it had.
    pub fn fail_stage(&mut self, error: &StageError)
        requires
            old(self).wf(),
            old(self)@.running,
        ensures
            final(self).wf(),
            final(self)@ == run_step(old(self)@, RunEvent::StageFailed { error: error@ }),
            status_le(old(self)@.status, final(self)@.status),
    {
        proof {
            lemma_run_step_monotone(old(self)@, RunEvent::StageFailed { error: error@ });
        }
        let st = stage_of_index(self.cursor);
        let mut reason = stage_noun(st).to_owned();
        reason.append(" error: ");
        let message = error.message();
        reason.append(message.as_str());
        self.running = false;
        self.status = ManagerStatus::Failed(reason, self.transcript.clone());
        proof {
            assert(self@.status.arrow_Failed_0() =~= run_step(
                old(self)@,
                RunEvent::StageFailed { error: error@ },
            ).status.arrow_Failed_0());
            assert(self@ =~= run_step(old(self)@, RunEvent::StageFailed { error: error@ }));
        }
    }
}

} // verus!
