use codex_wasm_bridge::hooks::after_stdin_write;
use codex_wasm_bridge::hooks::append_error;
use codex_wasm_bridge::hooks::combine_optional_errors;
use codex_wasm_bridge::hooks::command_plan;
use codex_wasm_bridge::hooks::decode_reader_result;
use codex_wasm_bridge::hooks::drain_outputs;
use codex_wasm_bridge::hooks::finish_command_run;
use codex_wasm_bridge::hooks::finish_supervision;
use codex_wasm_bridge::hooks::hook_timeout_message;
use codex_wasm_bridge::hooks::millis_as_i64;
use codex_wasm_bridge::hooks::spawn_error_completion;
use codex_wasm_bridge::hooks::supervise_step;
use codex_wasm_bridge::hooks::supervisor_error_completion;
use codex_wasm_bridge::hooks::terminal_lease_error_completion;
use codex_wasm_bridge::hooks::wait_completion;
use codex_wasm_bridge::hooks::CommandArg;
use codex_wasm_bridge::hooks::CommandOutcome;
use codex_wasm_bridge::hooks::DrainBudget;
use codex_wasm_bridge::hooks::ReaderResult;
use codex_wasm_bridge::hooks::StdinWrite;
use codex_wasm_bridge::hooks::SupervisorEvent;
use codex_wasm_bridge::hooks::SupervisorPhase;
use codex_wasm_bridge::hooks::SupervisorStep;
use codex_wasm_bridge::hooks::WaitResult;
use codex_wasm_bridge::text::decimal_string;

#[test]
fn append_error_joins_with_semicolon() {
    assert_eq!(append_error("primary", Some("secondary".to_string())), "primary; secondary");
    assert_eq!(append_error("primary", None), "primary");
}

#[test]
fn combine_optional_errors_cases() {
    assert_eq!(
        combine_optional_errors(Some("a".to_string()), Some("b".to_string())),
        Some("a; b".to_string())
    );
    assert_eq!(combine_optional_errors(Some("a".to_string()), None), Some("a".to_string()));
    assert_eq!(combine_optional_errors(None, Some("b".to_string())), Some("b".to_string()));
    assert_eq!(combine_optional_errors(None, None), None);
}

#[test]
fn decode_reader_result_messages() {
    assert_eq!(
        decode_reader_result("stdout", ReaderResult::Output(b"hi".to_vec())),
        ("hi".to_string(), None)
    );
    assert_eq!(
        decode_reader_result("stdout", ReaderResult::ReadFailed("broken".to_string())),
        (String::new(), Some("failed to read interactive hook stdout: broken".to_string()))
    );
    assert_eq!(
        decode_reader_result("stderr", ReaderResult::ReaderFailed("panicked".to_string())),
        (String::new(), Some("interactive hook stderr reader failed: panicked".to_string()))
    );
    assert_eq!(
        decode_reader_result("stderr", ReaderResult::Missing),
        (String::new(), Some("interactive hook stderr pipe was not available".to_string()))
    );
}

#[test]
fn invalid_utf8_output_is_replaced() {
    let (text, error) = decode_reader_result("stdout", ReaderResult::Output(vec![b'a', 0xff, b'b']));
    assert_eq!(text, "a\u{FFFD}b");
    assert_eq!(error, None);
}

#[test]
fn drain_outputs_reports_timeouts_and_reader_errors() {
    assert_eq!(
        drain_outputs(None),
        (
            String::new(),
            String::new(),
            Some("timed out while draining interactive hook output".to_string())
        )
    );
    assert_eq!(
        drain_outputs(Some((
            ReaderResult::Output(b"out".to_vec()),
            ReaderResult::Output(b"err".to_vec())
        ))),
        ("out".to_string(), "err".to_string(), None)
    );
    assert_eq!(
        drain_outputs(Some((ReaderResult::Missing, ReaderResult::Missing))),
        (
            String::new(),
            String::new(),
            Some(
                "interactive hook stdout pipe was not available; interactive hook stderr pipe was not available"
                    .to_string()
            )
        )
    );
}

#[test]
fn decimal_numerals() {
    assert_eq!(decimal_string(0), "0");
    assert_eq!(decimal_string(7), "7");
    assert_eq!(decimal_string(10), "10");
    assert_eq!(decimal_string(2), 2.to_string());
    assert_eq!(decimal_string(u64::MAX), u64::MAX.to_string());
}

#[test]
fn timeout_message_names_the_seconds() {
    assert_eq!(hook_timeout_message(2), "hook timed out after 2s");
    assert_eq!(hook_timeout_message(600), "hook timed out after 600s");
}

#[test]
fn non_interactive_run_completions() {
    let c = spawn_error_completion("No such file".to_string());
    assert_eq!(c.outcome, CommandOutcome::SpawnError);
    assert_eq!(c.error.as_deref(), Some("No such file"));
    assert_eq!(c.exit_code, None);

    assert!(after_stdin_write(StdinWrite::Written).is_none());
    assert!(after_stdin_write(StdinWrite::BrokenPipe).is_none());
    let c = after_stdin_write(StdinWrite::Failed("denied".to_string())).unwrap();
    assert_eq!(c.outcome, CommandOutcome::StdinError);
    assert_eq!(c.error.as_deref(), Some("failed to write hook stdin: denied"));

    let c = wait_completion(
        WaitResult::Exited { exit_code: Some(0), stdout: b"hook-ran\n".to_vec(), stderr: Vec::new() },
        10,
    );
    assert_eq!(c.exit_code, Some(0));
    assert_eq!(c.stdout.trim(), "hook-ran");
    assert_eq!(c.error, None);
    assert_eq!(c.outcome.label(), "completed");

    let c = wait_completion(WaitResult::TimedOut, 10);
    assert_eq!(c.error.as_deref(), Some("hook timed out after 10s"));
    assert_eq!(c.outcome.label(), "timeout");

    let c = wait_completion(WaitResult::Failed("wait failed".to_string()), 10);
    assert_eq!(c.outcome, CommandOutcome::WaitError);

    let c = terminal_lease_error_completion("no owner".to_string());
    assert_eq!(c.outcome.label(), "terminal_lease_error");
    let c = supervisor_error_completion("join error");
    assert_eq!(c.error.as_deref(), Some("interactive hook supervisor failed: join error"));
}

#[test]
fn supervisor_stops_and_reaps_on_timeout_and_cancellation() {
    match supervise_step(SupervisorPhase::WritingInput, SupervisorEvent::InputWritten, 2) {
        SupervisorStep::AwaitExit => {}
        other => panic!("unexpected {other:?}"),
    }
    match supervise_step(SupervisorPhase::AwaitingExit, SupervisorEvent::DeadlinePassed, 2) {
        SupervisorStep::Finish(plan) => {
            assert!(plan.terminate);
            assert_eq!(plan.drain, DrainBudget::Standard);
            let c = finish_supervision(
                plan,
                ("timeout-out".to_string(), "timeout-err".to_string(), None),
            );
            assert_eq!(c.error.as_deref(), Some("hook timed out after 2s"));
            assert_eq!(c.stdout, "timeout-out");
            assert_eq!(c.stderr, "timeout-err");
            assert_eq!(c.outcome, CommandOutcome::Timeout);
        }
        other => panic!("unexpected {other:?}"),
    }
    match supervise_step(SupervisorPhase::WritingInput, SupervisorEvent::CallerGone, 2) {
        SupervisorStep::Finish(plan) => {
            assert!(plan.terminate);
            let c = finish_supervision(
                plan,
                (String::new(), String::new(), Some("timed out while draining interactive hook output".to_string())),
            );
            assert_eq!(
                c.error.as_deref(),
                Some("interactive hook was cancelled; timed out while draining interactive hook output")
            );
            assert_eq!(c.outcome, CommandOutcome::Cancelled);
        }
        other => panic!("unexpected {other:?}"),
    }
    match supervise_step(SupervisorPhase::AwaitingExit, SupervisorEvent::Exited(Some(3)), 2) {
        SupervisorStep::Finish(plan) => {
            assert!(!plan.terminate);
            assert_eq!(plan.drain, DrainBudget::UntilDeadline);
            let c = finish_supervision(plan, ("normal-out".to_string(), "normal-err".to_string(), None));
            assert_eq!(c.exit_code, Some(3));
            assert_eq!(c.error, None);
            assert_eq!(c.outcome, CommandOutcome::Completed);
        }
        other => panic!("unexpected {other:?}"),
    }
}

#[test]
fn command_line_for_default_and_explicit_shells() {
    let plan = command_plan(&String::new(), &Vec::new(), &"echo hook-ran".to_string(), false, None);
    assert_eq!(plan.program, "/bin/sh");
    assert_eq!(
        plan.args,
        vec![CommandArg::Plain("-lc".to_string()), CommandArg::Plain("echo hook-ran".to_string())]
    );

    let plan = command_plan(
        &String::new(),
        &Vec::new(),
        &"echo hi".to_string(),
        false,
        Some("/bin/zsh".to_string()),
    );
    assert_eq!(plan.program, "/bin/zsh");

    let plan = command_plan(
        &"/bin/sh".to_string(),
        &vec!["-c".to_string()],
        &"printf x".to_string(),
        false,
        None,
    );
    assert_eq!(plan.program, "/bin/sh");
    assert_eq!(
        plan.args,
        vec![CommandArg::Plain("-c".to_string()), CommandArg::Plain("printf x".to_string())]
    );

    let plan = command_plan(&String::new(), &Vec::new(), &"hook.cmd notify".to_string(), true, None);
    assert_eq!(plan.program, "cmd.exe");
    assert_eq!(
        plan.args,
        vec![CommandArg::Plain("/C".to_string()), CommandArg::Raw("\"hook.cmd notify\"".to_string())]
    );

    let plan = command_plan(
        &"cmd.exe".to_string(),
        &vec!["/c".to_string()],
        &"hook.cmd".to_string(),
        true,
        None,
    );
    assert_eq!(
        plan.args,
        vec![CommandArg::Plain("/c".to_string()), CommandArg::Raw("\"hook.cmd\"".to_string())]
    );

    let plan = command_plan(
        &"pwsh".to_string(),
        &vec!["-Command".to_string()],
        &"hook.ps1".to_string(),
        true,
        None,
    );
    assert_eq!(
        plan.args,
        vec![CommandArg::Plain("-Command".to_string()), CommandArg::Plain("hook.ps1".to_string())]
    );
}

#[test]
fn durations_saturate() {
    assert_eq!(millis_as_i64(0), 0);
    assert_eq!(millis_as_i64(1500), 1500);
    assert_eq!(millis_as_i64(u128::MAX), i64::MAX);
    assert_eq!(millis_as_i64(i64::MAX as u128 + 1), i64::MAX);
}

#[test]
fn finished_runs_keep_their_results() {
    let started = std::time::Instant::now();
    let completion = spawn_error_completion("boom".to_string());
    let result = finish_command_run(17, &started, completion);
    assert_eq!(result.started_at, 17);
    assert!(result.duration_ms >= 0);
    assert!(result.completed_at > 0);
    assert_eq!(result.error.as_deref(), Some("boom"));
}
