//! How a hook command's run is decided and reported: which shell runs it, what each way
//! the run can end is recorded as, and, for an interactive hook, the supervisor that holds
//! the terminal until the hook has been stopped and reaped.
//!
//! The process itself, its pipes and its timers belong to the caller, which reports what
//! happened to the functions here.
use vstd::prelude::*;
use vstd::string::StringExecFns;

use std::time::Duration;
use std::time::Instant;

use crate::text::concat;
use crate::text::decimal;
use crate::text::decimal_string;
use crate::fields::opt_view;
use crate::fields::strings_model;

verus! {

#[verifier::external_type_specification]
#[verifier::external_body]
pub struct ExInstant(Instant);

// ---------------------------------------------------------------------------------------
// Outside calls
// ---------------------------------------------------------------------------------------

/// What `String::from_utf8_lossy` makes of a byte string.
pub uninterp spec fn utf8_lossy(bytes: Seq<u8>) -> Seq<char>;

/// `String::from_utf8_lossy(bytes)`: the text of the bytes, with each invalid sequence
/// replaced by U+FFFD; bytes that are valid UTF-8 are decoded unchanged, as its
/// documentation states.
#[verifier::external_body]
fn lossy_text(bytes: &[u8]) -> (r: String)
    ensures
        r@ == utf8_lossy(bytes@),
        vstd::utf8::valid_utf8(bytes@) ==> r@ == vstd::utf8::decode_utf8(bytes@),
{
    String::from_utf8_lossy(bytes).into_owned()
}

/// `chrono::Utc::now().timestamp()`: the current time in seconds since the Unix epoch.
/// Nothing is promised of the value, which depends on the clock.
#[verifier::external_body]
fn unix_timestamp_now() -> (r: i64) {
    chrono::Utc::now().timestamp()
}

/// `Instant::elapsed`: the time since `started`. Nothing is promised of it, as it depends
/// on the clock.
#[verifier::external_body]
fn elapsed_since(started: &Instant) -> (r: Duration) {
    started.elapsed()
}

/// `Duration::as_millis`: the whole milliseconds of a duration. Nothing is stated of the
/// value, as the duration's contents are not modelled.
#[verifier::external_body]
fn whole_millis(d: &Duration) -> (r: u128) {
    d.as_millis()
}

// ---------------------------------------------------------------------------------------
// Results
// ---------------------------------------------------------------------------------------

/// How a hook run ended.
#[derive(Debug, Clone, Copy, PartialEq, Eq)]
pub enum CommandOutcome {
    SpawnError,
    StdinError,
    Completed,
    WaitError,
    Timeout,
    TerminalLeaseError,
    SupervisorError,
    Cancelled,
}

impl CommandOutcome {
    /// The label under which the outcome is reported.
    pub fn label(&self) -> (r: &'static str)
        ensures
            r@ == outcome_label(*self),
    {
        match self {
            CommandOutcome::SpawnError => "spawn_error",
            CommandOutcome::StdinError => "stdin_error",
            CommandOutcome::Completed => "completed",
            CommandOutcome::WaitError => "wait_error",
            CommandOutcome::Timeout => "timeout",
            CommandOutcome::TerminalLeaseError => "terminal_lease_error",
            CommandOutcome::SupervisorError => "supervisor_error",
            CommandOutcome::Cancelled => "cancelled",
        }
    }
}

pub open spec fn outcome_label(o: CommandOutcome) -> Seq<char> {
    match o {
        CommandOutcome::SpawnError => "spawn_error"@,
        CommandOutcome::StdinError => "stdin_error"@,
        CommandOutcome::Completed => "completed"@,
        CommandOutcome::WaitError => "wait_error"@,
        CommandOutcome::Timeout => "timeout"@,
        CommandOutcome::TerminalLeaseError => "terminal_lease_error"@,
        CommandOutcome::SupervisorError => "supervisor_error"@,
        CommandOutcome::Cancelled => "cancelled"@,
    }
}

/// How a run ended, before it is timed.
#[derive(Debug, Clone, PartialEq, Eq)]
pub struct CommandRunCompletion {
    pub exit_code: Option<i32>,
    pub stdout: String,
    pub stderr: String,
    pub error: Option<String>,
    pub outcome: CommandOutcome,
}

pub struct CompletionModel {
    pub exit_code: Option<i32>,
    pub stdout: Seq<char>,
    pub stderr: Seq<char>,
    pub error: Option<Seq<char>>,
    pub outcome: CommandOutcome,
}

impl View for CommandRunCompletion {
    type V = CompletionModel;

    open spec fn view(&self) -> CompletionModel {
        CompletionModel {
            exit_code: self.exit_code,
            stdout: self.stdout@,
            stderr: self.stderr@,
            error: opt_view(self.error),
            outcome: self.outcome,
        }
    }
}

/// A run that ended before the hook produced output.
pub open spec fn failed_run(error: Seq<char>, outcome: CommandOutcome) -> CompletionModel {
    CompletionModel {
        exit_code: None,
        stdout: Seq::empty(),
        stderr: Seq::empty(),
        error: Some(error),
        outcome,
    }
}

fn failed_completion(error: String, outcome: CommandOutcome) -> (r: CommandRunCompletion)
    ensures
        r@ == failed_run(error@, outcome),
{
    CommandRunCompletion {
        exit_code: None,
        stdout: String::new(),
        stderr: String::new(),
        error: Some(error),
        outcome,
    }
}

/// A timed hook run.
#[derive(Debug, Clone, PartialEq, Eq)]
pub struct CommandRunResult {
    pub started_at: i64,
    pub completed_at: i64,
    pub duration_ms: i64,
    pub exit_code: Option<i32>,
    pub stdout: String,
    pub stderr: String,
    pub error: Option<String>,
}

/// A count of milliseconds as an `i64`, saturating at `i64::MAX`.
pub open spec fn saturating_millis(ms: u128) -> i64 {
    if ms <= i64::MAX as u128 {
        ms as i64
    } else {
        i64::MAX
    }
}

pub fn millis_as_i64(ms: u128) -> (r: i64)
    ensures
        r == saturating_millis(ms),
{
    if ms <= 9223372036854775807u128 {
        ms as i64
    } else {
        9223372036854775807i64
    }
}

/// Times a finished run: `started_at` as given, `completed_at` the current time, and the
/// elapsed time since `started` in milliseconds (saturated).
pub fn finish_command_run(started_at: i64, started: &Instant, completion: CommandRunCompletion) -> (r: CommandRunResult)
    ensures
        r.started_at == started_at,
        r.exit_code == completion.exit_code,
        r.stdout@ == completion.stdout@,
        r.stderr@ == completion.stderr@,
        opt_view(r.error) == opt_view(completion.error),
        exists|ms: u128| r.duration_ms == saturating_millis(ms),
{
    let completed_at = unix_timestamp_now();
    let elapsed = elapsed_since(started);
    let ms = whole_millis(&elapsed);
    CommandRunResult {
        started_at,
        completed_at,
        duration_ms: millis_as_i64(ms),
        exit_code: completion.exit_code,
        stdout: completion.stdout,
        stderr: completion.stderr,
        error: completion.error,
    }
}

// ---------------------------------------------------------------------------------------
// Messages
// ---------------------------------------------------------------------------------------

/// `"{primary}; {secondary}"`, or `primary` alone.
pub open spec fn appended_error(primary: Seq<char>, secondary: Option<Seq<char>>) -> Seq<char> {
    match secondary {
        Some(s) => primary + "; "@ + s,
        None => primary,
    }
}

/// Appends a secondary error to a primary one.
pub fn append_error(primary: &str, secondary: Option<String>) -> (r: String)
    ensures
        r@ == appended_error(primary@, opt_view(secondary)),
{
    match secondary {
        Some(secondary) => {
            let mut s = concat(primary, "; ");
            s.append(secondary.as_str());
            s
        },
        None => primary.to_owned(),
    }
}

/// Both errors joined by `"; "`, either one alone, or none.
pub open spec fn combined_errors(first: Option<Seq<char>>, second: Option<Seq<char>>) -> Option<
    Seq<char>,
> {
    match (first, second) {
        (Some(f), Some(s)) => Some(f + "; "@ + s),
        (Some(e), None) => Some(e),
        (None, Some(e)) => Some(e),
        (None, None) => None,
    }
}

pub fn combine_optional_errors(first: Option<String>, second: Option<String>) -> (r: Option<String>)
    ensures
        opt_view(r) == combined_errors(opt_view(first), opt_view(second)),
{
    match (first, second) {
        (Some(first), Some(second)) => {
            let mut s = concat(first.as_str(), "; ");
            s.append(second.as_str());
            Some(s)
        },
        (Some(error), None) => Some(error),
        (None, Some(error)) => Some(error),
        (None, None) => None,
    }
}

/// `"hook timed out after {timeout_sec}s"`.
pub open spec fn timeout_message(timeout_sec: u64) -> Seq<char> {
    "hook timed out after "@ + decimal(timeout_sec as nat) + "s"@
}

pub fn hook_timeout_message(timeout_sec: u64) -> (r: String)
    ensures
        r@ == timeout_message(timeout_sec),
{
    let mut s = concat("hook timed out after ", decimal_string(timeout_sec).as_str());
    s.append("s");
    s
}

/// `"failed to write hook stdin: {error}"`.
pub open spec fn stdin_error_message(error: Seq<char>) -> Seq<char> {
    "failed to write hook stdin: "@ + error
}

pub fn hook_stdin_error_message(error: &str) -> (r: String)
    ensures
        r@ == stdin_error_message(error@),
{
    concat("failed to write hook stdin: ", error)
}

/// The message of an interactive hook that was cancelled by its caller.
pub open spec fn cancelled_message() -> Seq<char> {
    "interactive hook was cancelled"@
}

/// The message of output that could not be drained in time.
pub open spec fn drain_timeout_message() -> Seq<char> {
    "timed out while draining interactive hook output"@
}

// ---------------------------------------------------------------------------------------
// Output of an interactive hook
// ---------------------------------------------------------------------------------------

/// What became of the task that read one of the hook's output streams.
#[derive(Debug, Clone, PartialEq, Eq)]
pub enum ReaderResult {
    /// The stream was read to its end.
    Output(Vec<u8>),
    /// Reading the stream failed with this error.
    ReadFailed(String),
    /// The reading task itself failed with this error.
    ReaderFailed(String),
    /// The stream was not available.
    Missing,
}

/// The text read from a stream, and the error met while reading it.
pub open spec fn decoded_reader(stream: Seq<char>, result: ReaderResult) -> (Seq<char>, Option<Seq<char>>) {
    match result {
        ReaderResult::Output(bytes) => (utf8_lossy(bytes@), None),
        ReaderResult::ReadFailed(e) => (
            Seq::empty(),
            Some("failed to read interactive hook "@ + stream + ": "@ + e@),
        ),
        ReaderResult::ReaderFailed(e) => (
            Seq::empty(),
            Some("interactive hook "@ + stream + " reader failed: "@ + e@),
        ),
        ReaderResult::Missing => (
            Seq::empty(),
            Some("interactive hook "@ + stream + " pipe was not available"@),
        ),
    }
}

pub fn decode_reader_result(stream: &str, result: ReaderResult) -> (r: (String, Option<String>))
    ensures
        (r.0@, opt_view(r.1)) == decoded_reader(stream@, result),
{
    match result {
        ReaderResult::Output(bytes) => (lossy_text(bytes.as_slice()), None),
        ReaderResult::ReadFailed(e) => {
            let mut s = concat("failed to read interactive hook ", stream);
            s.append(": ");
            s.append(e.as_str());
            (String::new(), Some(s))
        },
        ReaderResult::ReaderFailed(e) => {
            let mut s = concat("interactive hook ", stream);
            s.append(" reader failed: ");
            s.append(e.as_str());
            (String::new(), Some(s))
        },
        ReaderResult::Missing => {
            let mut s = concat("interactive hook ", stream);
            s.append(" pipe was not available");
            (String::new(), Some(s))
        },
    }
}

/// The hook's drained output: stdout, stderr, and the error met while draining.
pub open spec fn drained_output(collected: Option<(ReaderResult, ReaderResult)>) -> (
    Seq<char>,
    Seq<char>,
    Option<Seq<char>>,
) {
    match collected {
        None => (Seq::empty(), Seq::empty(), Some(drain_timeout_message())),
        Some((out, err)) => {
            let o = decoded_reader("stdout"@, out);
            let e = decoded_reader("stderr"@, err);
            (o.0, e.0, combined_errors(o.1, e.1))
        },
    }
}

/// Decodes what the two readers collected; `None` stands for readers that did not finish
/// within the drain budget (or a budget that was already spent).
pub fn drain_outputs(collected: Option<(ReaderResult, ReaderResult)>) -> (r: (String, String, Option<String>))
    ensures
        (r.0@, r.1@, opt_view(r.2)) == drained_output(collected),
{
    match collected {
        None => (
            String::new(),
            String::new(),
            Some("timed out while draining interactive hook output".to_owned()),
        ),
        Some((out, err)) => {
            let (stdout, stdout_error) = decode_reader_result("stdout", out);
            let (stderr, stderr_error) = decode_reader_result("stderr", err);
            (stdout, stderr, combine_optional_errors(stdout_error, stderr_error))
        },
    }
}

// ---------------------------------------------------------------------------------------
// Non-interactive runs
// ---------------------------------------------------------------------------------------

/// What writing the hook's input to its stdin came to.
#[derive(Debug, Clone, PartialEq, Eq)]
pub enum StdinWrite {
    Written,
    /// The hook closed its stdin without reading it all; that is no failure.
    BrokenPipe,
    Failed(String),
}

/// How waiting for a non-interactive hook ended.
#[derive(Debug, Clone, PartialEq, Eq)]
pub enum WaitResult {
    Exited { exit_code: Option<i32>, stdout: Vec<u8>, stderr: Vec<u8> },
    Failed(String),
    TimedOut,
}

/// A hook that could not be spawned.
pub fn spawn_error_completion(error: String) -> (r: CommandRunCompletion)
    ensures
        r@ == failed_run(error@, CommandOutcome::SpawnError),
{
    failed_completion(error, CommandOutcome::SpawnError)
}

/// Whether the run stops after writing the hook's input: only a failure other than a
/// broken pipe stops it (the caller then kills the hook), with this completion.
pub fn after_stdin_write(write: StdinWrite) -> (r: Option<CommandRunCompletion>)
    ensures
        match write {
            StdinWrite::Failed(e) => r matches Some(c) && c@ == failed_run(
                stdin_error_message(e@),
                CommandOutcome::StdinError,
            ),
            _ => r is None,
        },
{
    match write {
        StdinWrite::Failed(e) => Some(
            failed_completion(hook_stdin_error_message(e.as_str()), CommandOutcome::StdinError),
        ),
        _ => None,
    }
}

/// The completion of a non-interactive run from how waiting for it ended.
pub fn wait_completion(result: WaitResult, timeout_sec: u64) -> (r: CommandRunCompletion)
    ensures
        match result {
            WaitResult::Exited { exit_code, stdout, stderr } => r@ == CompletionModel {
                exit_code,
                stdout: utf8_lossy(stdout@),
                stderr: utf8_lossy(stderr@),
                error: None,
                outcome: CommandOutcome::Completed,
            },
            WaitResult::Failed(e) => r@ == failed_run(e@, CommandOutcome::WaitError),
            WaitResult::TimedOut => r@ == failed_run(
                timeout_message(timeout_sec),
                CommandOutcome::Timeout,
            ),
        },
{
    match result {
        WaitResult::Exited { exit_code, stdout, stderr } => CommandRunCompletion {
            exit_code,
            stdout: lossy_text(stdout.as_slice()),
            stderr: lossy_text(stderr.as_slice()),
            error: None,
            outcome: CommandOutcome::Completed,
        },
        WaitResult::Failed(e) => failed_completion(e, CommandOutcome::WaitError),
        WaitResult::TimedOut => failed_completion(
            hook_timeout_message(timeout_sec),
            CommandOutcome::Timeout,
        ),
    }
}

/// An interactive hook that could not get the terminal.
pub fn terminal_lease_error_completion(error: String) -> (r: CommandRunCompletion)
    ensures
        r@ == failed_run(error@, CommandOutcome::TerminalLeaseError),
{
    failed_completion(error, CommandOutcome::TerminalLeaseError)
}

/// An interactive hook whose supervisor task failed.
pub fn supervisor_error_completion(error: &str) -> (r: CommandRunCompletion)
    ensures
        r@ == failed_run(
            "interactive hook supervisor failed: "@ + error@,
            CommandOutcome::SupervisorError,
        ),
{
    failed_completion(
        concat("interactive hook supervisor failed: ", error),
        CommandOutcome::SupervisorError,
    )
}

// ---------------------------------------------------------------------------------------
// The supervisor of an interactive hook
// ---------------------------------------------------------------------------------------

/// Where the supervisor stands.
#[derive(Debug, Clone, Copy, PartialEq, Eq)]
pub enum SupervisorPhase {
    /// Writing the hook's input.
    WritingInput,
    /// Waiting for the hook to exit.
    AwaitingExit,
}

/// What ended the supervisor's current wait.
#[derive(Debug, Clone, PartialEq, Eq)]
pub enum SupervisorEvent {
    /// The input was written (a broken pipe included).
    InputWritten,
    /// Writing the input failed with this error.
    InputFailed(String),
    /// The run's deadline passed.
    DeadlinePassed,
    /// The caller went away.
    CallerGone,
    /// The hook exited with this status code.
    Exited(Option<i32>),
    /// Waiting for the hook failed with this error.
    WaitFailed(String),
}

/// Whether an event can end a wait of this phase.
pub open spec fn event_fits(phase: SupervisorPhase, event: SupervisorEvent) -> bool {
    match event {
        SupervisorEvent::InputWritten | SupervisorEvent::InputFailed(_) => phase
            == SupervisorPhase::WritingInput,
        SupervisorEvent::Exited(_) | SupervisorEvent::WaitFailed(_) => phase
            == SupervisorPhase::AwaitingExit,
        SupervisorEvent::DeadlinePassed | SupervisorEvent::CallerGone => true,
    }
}

/// How long the hook's output may still be drained.
#[derive(Debug, Clone, Copy, PartialEq, Eq)]
pub enum DrainBudget {
    /// The fixed drain budget of two seconds.
    Standard,
    /// What is left until the run's deadline.
    UntilDeadline,
}

/// How the supervisor finishes: whether it first stops and reaps the hook, how long it
/// drains the output, and what it reports.
#[derive(Debug, Clone, PartialEq, Eq)]
pub struct FinishPlan {
    pub terminate: bool,
    pub drain: DrainBudget,
    pub exit_code: Option<i32>,
    pub failure: Option<String>,
    pub outcome: CommandOutcome,
}

pub struct FinishPlanModel {
    pub terminate: bool,
    pub drain: DrainBudget,
    pub exit_code: Option<i32>,
    pub failure: Option<Seq<char>>,
    pub outcome: CommandOutcome,
}

impl View for FinishPlan {
    type V = FinishPlanModel;

    open spec fn view(&self) -> FinishPlanModel {
        FinishPlanModel {
            terminate: self.terminate,
            drain: self.drain,
            exit_code: self.exit_code,
            failure: opt_view(self.failure),
            outcome: self.outcome,
        }
    }
}

/// What the supervisor does next.
#[derive(Debug, Clone, PartialEq, Eq)]
pub enum SupervisorStep {
    /// Wait for the hook to exit.
    AwaitExit,
    /// Finish as planned.
    Finish(FinishPlan),
}

/// A plan that stops and reaps the hook, drains for the standard budget, and reports a
/// failure.
pub open spec fn stop_plan(failure: Seq<char>, outcome: CommandOutcome) -> FinishPlanModel {
    FinishPlanModel {
        terminate: true,
        drain: DrainBudget::Standard,
        exit_code: None,
        failure: Some(failure),
        outcome,
    }
}

/// The supervisor's decision. Anything but a written input or an exit stops and reaps the
/// hook before the terminal is given back; an exit is drained until the deadline.
pub open spec fn supervisor_decision(
    phase: SupervisorPhase,
    event: SupervisorEvent,
    timeout_sec: u64,
) -> Option<FinishPlanModel> {
    match event {
        SupervisorEvent::InputWritten => None,
        SupervisorEvent::InputFailed(e) => Some(
            stop_plan(stdin_error_message(e@), CommandOutcome::StdinError),
        ),
        SupervisorEvent::DeadlinePassed => Some(
            stop_plan(timeout_message(timeout_sec), CommandOutcome::Timeout),
        ),
        SupervisorEvent::CallerGone => Some(
            stop_plan(cancelled_message(), CommandOutcome::Cancelled),
        ),
        SupervisorEvent::Exited(code) => Some(
            FinishPlanModel {
                terminate: false,
                drain: DrainBudget::UntilDeadline,
                exit_code: code,
                failure: None,
                outcome: CommandOutcome::Completed,
            },
        ),
        SupervisorEvent::WaitFailed(e) => Some(stop_plan(e@, CommandOutcome::WaitError)),
    }
}

fn stop(failure: String, outcome: CommandOutcome) -> (r: SupervisorStep)
    ensures
        r matches SupervisorStep::Finish(p) && p@ == stop_plan(failure@, outcome),
{
    SupervisorStep::Finish(
        FinishPlan {
            terminate: true,
            drain: DrainBudget::Standard,
            exit_code: None,
            failure: Some(failure),
            outcome,
        },
    )
}

/// Decides the supervisor's next step from what ended its current wait.
pub fn supervise_step(phase: SupervisorPhase, event: SupervisorEvent, timeout_sec: u64) -> (r: SupervisorStep)
    requires
        event_fits(phase, event),
    ensures
        match supervisor_decision(phase, event, timeout_sec) {
            None => r == SupervisorStep::AwaitExit,
            Some(plan) => r matches SupervisorStep::Finish(p) && p@ == plan,
        },
{
    match event {
        SupervisorEvent::InputWritten => SupervisorStep::AwaitExit,
        SupervisorEvent::InputFailed(e) => stop(
            hook_stdin_error_message(e.as_str()),
            CommandOutcome::StdinError,
        ),
        SupervisorEvent::DeadlinePassed => stop(
            hook_timeout_message(timeout_sec),
            CommandOutcome::Timeout,
        ),
        SupervisorEvent::CallerGone => stop(
            "interactive hook was cancelled".to_owned(),
            CommandOutcome::Cancelled,
        ),
        SupervisorEvent::Exited(code) => SupervisorStep::Finish(
            FinishPlan {
                terminate: false,
                drain: DrainBudget::UntilDeadline,
                exit_code: code,
                failure: None,
                outcome: CommandOutcome::Completed,
            },
        ),
        SupervisorEvent::WaitFailed(e) => stop(e, CommandOutcome::WaitError),
    }
}

/// The completion of a supervised run from its plan and its drained output: the failure,
/// if any, comes first in the error, followed by any error met while draining.
pub open spec fn supervised_completion(
    plan: FinishPlanModel,
    drained: (Seq<char>, Seq<char>, Option<Seq<char>>),
) -> CompletionModel {
    CompletionModel {
        exit_code: plan.exit_code,
        stdout: drained.0,
        stderr: drained.1,
        error: match plan.failure {
            Some(f) => Some(appended_error(f, drained.2)),
            None => drained.2,
        },
        outcome: plan.outcome,
    }
}

pub fn finish_supervision(plan: FinishPlan, drained: (String, String, Option<String>)) -> (r: CommandRunCompletion)
    ensures
        r@ == supervised_completion(plan@, (drained.0@, drained.1@, opt_view(drained.2))),
{
    let (stdout, stderr, capture_error) = drained;
    let error = match plan.failure {
        Some(f) => Some(append_error(f.as_str(), capture_error)),
        None => capture_error,
    };
    CommandRunCompletion { exit_code: plan.exit_code, stdout, stderr, error, outcome: plan.outcome }
}

/// Every way the supervisor finishes other than the hook's own exit stops and reaps the
/// hook first, so the terminal is never given back while the hook may still run; and an
/// exit reports the hook's status with no failure of its own.
pub proof fn lemma_supervisor_reaps_before_release(
    phase: SupervisorPhase,
    event: SupervisorEvent,
    timeout_sec: u64,
)
    requires
        event_fits(phase, event),
    ensures
        supervisor_decision(phase, event, timeout_sec) matches Some(plan) ==> (plan.terminate
            <==> !(event is Exited)),
        event matches SupervisorEvent::Exited(code) ==> supervisor_decision(phase, event, timeout_sec)
            matches Some(plan) && plan.exit_code == code && plan.failure is None,
{
}

// ---------------------------------------------------------------------------------------
// The command line
// ---------------------------------------------------------------------------------------

/// One argument of the command line.
#[derive(Debug, Clone, PartialEq, Eq)]
pub enum CommandArg {
    /// An argument the platform quotes as it needs.
    Plain(String),
    /// An argument passed through verbatim (on Windows, the hook command in double quotes).
    Raw(String),
}

pub enum CommandArgModel {
    Plain(Seq<char>),
    Raw(Seq<char>),
}

impl View for CommandArg {
    type V = CommandArgModel;

    open spec fn view(&self) -> CommandArgModel {
        match self {
            CommandArg::Plain(s) => CommandArgModel::Plain(s@),
            CommandArg::Raw(s) => CommandArgModel::Raw(s@),
        }
    }
}

/// The program that runs a hook and its arguments.
#[derive(Debug, Clone, PartialEq, Eq)]
pub struct CommandPlan {
    pub program: String,
    pub args: Vec<CommandArg>,
}

pub open spec fn args_model(args: Seq<CommandArg>) -> Seq<CommandArgModel> {
    args.map_values(|a: CommandArg| a@)
}

/// The default shell: `$COMSPEC` (else `cmd.exe`) with `/C` on Windows, `$SHELL` (else
/// `/bin/sh`) with `-lc` elsewhere.
pub open spec fn default_shell(windows: bool, env_shell: Option<Seq<char>>) -> (Seq<char>, Seq<char>) {
    let program = match env_shell {
        Some(s) => s,
        None => if windows {
            "cmd.exe"@
        } else {
            "/bin/sh"@
        },
    };
    (program, if windows { "/C"@ } else { "-lc"@ })
}

/// The hook command as the last argument: on Windows, double-quoted and verbatim after a
/// `/c` shell flag (any case) or for the default shell; as a plain argument otherwise.
pub open spec fn command_plan_spec(
    shell_program: Seq<char>,
    shell_args: Seq<Seq<char>>,
    command: Seq<char>,
    windows: bool,
    env_shell: Option<Seq<char>>,
) -> (Seq<char>, Seq<CommandArgModel>) {
    let quoted = CommandArgModel::Raw("\""@ + command + "\""@);
    if shell_program.len() == 0 {
        let (program, flag) = default_shell(windows, env_shell);
        (program, seq![CommandArgModel::Plain(flag), if windows { quoted } else { CommandArgModel::Plain(command) }])
    } else {
        let has_c = exists|i: int| 0 <= i < shell_args.len() && (shell_args[i] == "/c"@ || shell_args[i] == "/C"@);
        (
            shell_program,
            shell_args.map_values(|a: Seq<char>| CommandArgModel::Plain(a)).push(
                if windows && has_c { quoted } else { CommandArgModel::Plain(command) },
            ),
        )
    }
}

/// The program and arguments that run a hook command. `env_shell` is the value of
/// `COMSPEC` on Windows and of `SHELL` elsewhere, where it is set.
pub fn command_plan(
    shell_program: &String,
    shell_args: &Vec<String>,
    command: &String,
    windows: bool,
    env_shell: Option<String>,
) -> (r: CommandPlan)
    ensures
        (r.program@, args_model(r.args@)) == command_plan_spec(
            shell_program@,
            strings_model(shell_args@),
            command@,
            windows,
            opt_view(env_shell),
        ),
{
    let mut quoted = concat("\"", command.as_str());
    quoted.append("\"");
    if shell_program.as_str().is_empty() {
        let program = match env_shell {
            Some(s) => s,
            None => if windows {
                "cmd.exe".to_owned()
            } else {
                "/bin/sh".to_owned()
            },
        };
        let flag = if windows {
            "/C".to_owned()
        } else {
            "-lc".to_owned()
        };
        let mut args: Vec<CommandArg> = Vec::new();
        args.push(CommandArg::Plain(flag));
        if windows {
            args.push(CommandArg::Raw(quoted));
        } else {
            args.push(CommandArg::Plain(command.clone()));
        }
        assert(args_model(args@) =~= command_plan_spec(
            shell_program@,
            strings_model(shell_args@),
            command@,
            windows,
            opt_view(env_shell),
        ).1);
        CommandPlan { program, args }
    } else {
        let ghost sa = strings_model(shell_args@);
        let mut args: Vec<CommandArg> = Vec::new();
        let mut has_c = false;
        let slash_c = "/c".to_owned();
        let slash_upper_c = "/C".to_owned();
        let mut i: usize = 0;
        while i < shell_args.len()
            invariant
                sa == strings_model(shell_args@),
                slash_c@ == "/c"@,
                slash_upper_c@ == "/C"@,
                i <= shell_args@.len(),
                args_model(args@) == sa.take(i as int).map_values(
                    |a: Seq<char>| CommandArgModel::Plain(a),
                ),
                has_c == exists|j: int| 0 <= j < i && (sa[j] == "/c"@ || sa[j] == "/C"@),
            decreases shell_args@.len() - i,
        {
            let ghost prev = args@;
            if shell_args[i] == slash_c || shell_args[i] == slash_upper_c {
                has_c = true;
            }
            args.push(CommandArg::Plain(shell_args[i].clone()));
            assert(args_model(args@) =~= args_model(prev).push(CommandArgModel::Plain(sa[i as int])));
            assert(sa.take(i + 1) =~= sa.take(i as int).push(sa[i as int]));
            assert(args_model(args@) =~= sa.take(i + 1).map_values(
                |a: Seq<char>| CommandArgModel::Plain(a),
            ));
            i = i + 1;
        }
        let ghost prev = args@;
        if windows && has_c {
            args.push(CommandArg::Raw(quoted));
        } else {
            args.push(CommandArg::Plain(command.clone()));
        }
        assert(sa.take(shell_args@.len() as int) =~= sa);
        assert(args_model(args@) =~= args_model(prev).push(args@[prev.len() as int]@));
        CommandPlan { program: shell_program.clone(), args }
    }
}

} // verus!
