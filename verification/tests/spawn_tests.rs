use std::collections::HashMap;
use std::path::PathBuf;

use codex_wasm_bridge::spawn::NativeProcessSpawner;
use codex_wasm_bridge::spawn::ProcessSpawnRequest;
use codex_wasm_bridge::spawn::ProcessStdinPolicy;
use codex_wasm_bridge::spawn::ProcessTransport;
use codex_wasm_bridge::spawn::SpawnPlan;
use codex_wasm_bridge::spawn::TerminalSize;

#[test]
fn constructors_set_the_transport() {
    let args = vec!["-c".to_string(), "true".to_string()];
    let cwd = PathBuf::from("/tmp");
    let env = HashMap::new();
    let arg0 = None;
    let size = TerminalSize { rows: 24, cols: 80 };
    let fds = [3, 4];

    let r = ProcessSpawnRequest::pty("sh", &args, &cwd, &env, &arg0, size);
    assert_eq!(r.transport, ProcessTransport::Pty { size, inherited_fds: &[] });
    assert_eq!(r.program, "sh");
    assert_eq!(r.args, &args[..]);

    let r = ProcessSpawnRequest::pty_with_inherited_fds("sh", &args, &cwd, &env, &arg0, size, &fds);
    assert_eq!(r.transport, ProcessTransport::Pty { size, inherited_fds: &fds });

    let r = ProcessSpawnRequest::pipe("sh", &args, &cwd, &env, &arg0);
    assert_eq!(
        r.transport,
        ProcessTransport::Pipe { stdin: ProcessStdinPolicy::Piped, inherited_fds: &[] }
    );

    let r = ProcessSpawnRequest::pipe_no_stdin("sh", &args, &cwd, &env, &arg0);
    assert_eq!(
        r.transport,
        ProcessTransport::Pipe { stdin: ProcessStdinPolicy::Closed, inherited_fds: &[] }
    );

    let r = ProcessSpawnRequest::pipe_with_inherited_fds(
        "sh",
        &args,
        &cwd,
        &env,
        &arg0,
        ProcessStdinPolicy::Closed,
        &fds,
    );
    assert_eq!(
        r.transport,
        ProcessTransport::Pipe { stdin: ProcessStdinPolicy::Closed, inherited_fds: &fds }
    );
}

#[test]
fn spawner_plan_follows_the_transport() {
    let args = Vec::new();
    let cwd = PathBuf::from("/");
    let env = HashMap::new();
    let arg0 = Some("login".to_string());
    let size = TerminalSize { rows: 10, cols: 20 };
    let fds = [7];
    let spawner = NativeProcessSpawner;

    let plan = spawner.plan(ProcessSpawnRequest::pty_with_inherited_fds(
        "bash", &args, &cwd, &env, &arg0, size, &fds,
    ));
    assert_eq!(plan, SpawnPlan::Pty { size, inherited_fds: &fds });

    let plan = spawner.plan(ProcessSpawnRequest::pipe("bash", &args, &cwd, &env, &arg0));
    assert_eq!(plan, SpawnPlan::Pipe { inherited_fds: &[] });

    let plan = spawner.plan(ProcessSpawnRequest::pipe_no_stdin("bash", &args, &cwd, &env, &arg0));
    assert_eq!(plan, SpawnPlan::PipeNoStdin { inherited_fds: &[] });
}
