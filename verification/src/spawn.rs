//! Requests to spawn a process, through a pseudo-terminal or through pipes.
use vstd::prelude::*;

use std::collections::HashMap;
use std::path::PathBuf;

verus! {

#[verifier::external_type_specification]
#[verifier::external_body]
pub struct ExPathBuf(PathBuf);

/// Terminal size in character cells.
#[derive(Clone, Copy, Debug, PartialEq, Eq)]
pub struct TerminalSize {
    pub rows: u16,
    pub cols: u16,
}

/// Whether the child's stdin is a pipe or is closed at once.
#[derive(Clone, Copy, Debug, PartialEq, Eq)]
pub enum ProcessStdinPolicy {
    Piped,
    Closed,
}

/// How the child's standard streams are attached.
#[derive(Clone, Copy, Debug, PartialEq, Eq)]
pub enum ProcessTransport<'a> {
    Pty { size: TerminalSize, inherited_fds: &'a [i32] },
    Pipe { stdin: ProcessStdinPolicy, inherited_fds: &'a [i32] },
}

/// Everything needed to spawn one process.
#[derive(Clone, Copy, Debug)]
pub struct ProcessSpawnRequest<'a> {
    pub program: &'a str,
    pub args: &'a [String],
    pub cwd: &'a PathBuf,
    pub env: &'a HashMap<String, String>,
    pub arg0: &'a Option<String>,
    pub transport: ProcessTransport<'a>,
}

impl<'a> ProcessSpawnRequest<'a> {
    pub fn pty(
        program: &'a str,
        args: &'a [String],
        cwd: &'a PathBuf,
        env: &'a HashMap<String, String>,
        arg0: &'a Option<String>,
        size: TerminalSize,
    ) -> (r: Self)
        ensures
            r.program == program,
            r.args == args,
            r.cwd == cwd,
            r.env == env,
            r.arg0 == arg0,
            r.transport == (ProcessTransport::Pty { size, inherited_fds: &[] }),
    {
        Self::pty_with_inherited_fds(program, args, cwd, env, arg0, size, &[])
    }

    pub fn pty_with_inherited_fds(
        program: &'a str,
        args: &'a [String],
        cwd: &'a PathBuf,
        env: &'a HashMap<String, String>,
        arg0: &'a Option<String>,
        size: TerminalSize,
        inherited_fds: &'a [i32],
    ) -> (r: Self)
        ensures
            r.program == program,
            r.args == args,
            r.cwd == cwd,
            r.env == env,
            r.arg0 == arg0,
            r.transport == (ProcessTransport::Pty { size, inherited_fds }),
    {
        Self { program, args, cwd, env, arg0, transport: ProcessTransport::Pty { size, inherited_fds } }
    }
}

impl<'a> ProcessSpawnRequest<'a> {
    /// A request for a process with piped stdin, stdout and stderr.
    pub fn pipe(
        program: &'a str,
        args: &'a [String],
        cwd: &'a PathBuf,
        env: &'a HashMap<String, String>,
        arg0: &'a Option<String>,
    ) -> (r: Self)
        ensures
            r.program == program,
            r.args == args,
            r.cwd == cwd,
            r.env == env,
            r.arg0 == arg0,
            r.transport == (ProcessTransport::Pipe { stdin: ProcessStdinPolicy::Piped, inherited_fds: &[] }),
    {
        Self::pipe_with_inherited_fds(program, args, cwd, env, arg0, ProcessStdinPolicy::Piped, &[])
    }

    /// A request for a process with pipes, whose stdin is closed at once.
    pub fn pipe_no_stdin(
        program: &'a str,
        args: &'a [String],
        cwd: &'a PathBuf,
        env: &'a HashMap<String, String>,
        arg0: &'a Option<String>,
    ) -> (r: Self)
        ensures
            r.program == program,
            r.args == args,
            r.cwd == cwd,
            r.env == env,
            r.arg0 == arg0,
            r.transport == (ProcessTransport::Pipe { stdin: ProcessStdinPolicy::Closed, inherited_fds: &[] }),
    {
        Self::pipe_with_inherited_fds(program, args, cwd, env, arg0, ProcessStdinPolicy::Closed, &[])
    }

    /// A request for a process with pipes that keeps the given file descriptors open across
    /// exec.
    pub fn pipe_with_inherited_fds(
        program: &'a str,
        args: &'a [String],
        cwd: &'a PathBuf,
        env: &'a HashMap<String, String>,
        arg0: &'a Option<String>,
        stdin: ProcessStdinPolicy,
        inherited_fds: &'a [i32],
    ) -> (r: Self)
        ensures
            r.program == program,
            r.args == args,
            r.cwd == cwd,
            r.env == env,
            r.arg0 == arg0,
            r.transport == (ProcessTransport::Pipe { stdin, inherited_fds }),
    {
        Self { program, args, cwd, env, arg0, transport: ProcessTransport::Pipe { stdin, inherited_fds } }
    }
}

/// Which spawner runs a request.
#[derive(Clone, Copy, Debug, PartialEq, Eq)]
pub enum SpawnPlan<'a> {
    /// Attach the process to a pseudo-terminal of this size.
    Pty { size: TerminalSize, inherited_fds: &'a [i32] },
    /// Attach the process to pipes, stdin included.
    Pipe { inherited_fds: &'a [i32] },
    /// Attach the process to pipes and close its stdin at once.
    PipeNoStdin { inherited_fds: &'a [i32] },
}

/// The spawner of native processes.
#[derive(Clone, Copy, Debug, Default)]
pub struct NativeProcessSpawner;

impl NativeProcessSpawner {
    /// Chooses the spawner for a request: a pseudo-terminal for a PTY transport, pipes for a
    /// pipe transport, with stdin closed when the policy says so.
    pub fn plan<'a>(self, request: ProcessSpawnRequest<'a>) -> (r: SpawnPlan<'a>)
        ensures
            r == match request.transport {
                ProcessTransport::Pty { size, inherited_fds } => SpawnPlan::Pty { size, inherited_fds },
                ProcessTransport::Pipe { stdin: ProcessStdinPolicy::Piped, inherited_fds } => SpawnPlan::Pipe {
                    inherited_fds,
                },
                ProcessTransport::Pipe { stdin: ProcessStdinPolicy::Closed, inherited_fds } => SpawnPlan::PipeNoStdin {
                    inherited_fds,
                },
            },
    {
        match request.transport {
            ProcessTransport::Pty { size, inherited_fds } => SpawnPlan::Pty { size, inherited_fds },
            ProcessTransport::Pipe { stdin, inherited_fds } => match stdin {
                ProcessStdinPolicy::Piped => SpawnPlan::Pipe { inherited_fds },
                ProcessStdinPolicy::Closed => SpawnPlan::PipeNoStdin { inherited_fds },
            },
        }
    }
}

} // verus!
