//! The profiling wrapper's decisions: which compiled binary to target, the
//! exact performance-counter invocation, the summary line, and the wrapper's
//! own exit code. The caller spawns the subprocess and prints; failure of the
//! subprocess itself is reported only, never turned into a wrapper error.

use vstd::prelude::*;
use vstd::string::StringExecFns;

verus! {

/// The compiled client binary the wrapper targets: purely a function of the
/// build mode, nothing else.
pub open spec fn binary_path(debug_build: bool) -> Seq<char> {
    if debug_build {
        "target/debug/send-openssl-request"@
    } else {
        "target/release/send-openssl-request"@
    }
}

/// The binaries the profiling run targets: exactly one, selected by the build
/// mode alone.
pub fn get_binary_paths(debug_build: bool) -> (paths: Vec<&'static str>)
    ensures
        paths@.len() == 1,
        paths@[0]@ == binary_path(debug_build),
{
    let mut paths: Vec<&'static str> = Vec::new();
    if debug_build {
        paths.push("target/debug/send-openssl-request");
    } else {
        paths.push("target/release/send-openssl-request");
    }
    paths
}

/// The exact subprocess invocation: the program and its arguments.
pub struct ProfilingCommand {
    pub program: String,
    pub args: Vec<String>,
}

/// The performance-counter invocation the wrapper makes: `perf stat` on the
/// single `cycles` counter, against the build-mode-dependent binary.
pub open spec fn profiling_command_wf(c: ProfilingCommand, debug_build: bool) -> bool {
    &&& c.program@ == "perf"@
    &&& c.args@.len() == 4
    &&& c.args@[0]@ == "stat"@
    &&& c.args@[1]@ == "-e"@
    &&& c.args@[2]@ == "cycles"@
    &&& c.args@[3]@ == binary_path(debug_build)
}

pub fn profiling_command(debug_build: bool) -> (c: ProfilingCommand)
    ensures
        profiling_command_wf(c, debug_build),
{
    let mut args: Vec<String> = Vec::new();
    args.push("stat".to_owned());
    args.push("-e".to_owned());
    args.push("cycles".to_owned());
    let paths = get_binary_paths(debug_build);
    args.push(paths[0].to_owned());
    ProfilingCommand { program: "perf".to_owned(), args }
}

/// What the wrapper observed of its subprocess, as plain values: the two
/// captured streams and whether the exit status was success.
pub struct SubprocessOutput {
    pub stdout: Vec<u8>,
    pub stderr: Vec<u8>,
    pub success: bool,
}

/// The wrapper's own exit code: zero exactly when the subprocess could be
/// spawned.
pub open spec fn wrapper_exit_spec(spawned: bool) -> u8 {
    if spawned {
        0
    } else {
        1
    }
}

/// Decides the wrapper's exit code from the spawn result alone: zero exactly
/// when the subprocess could be spawned, whatever its own exit status was.
pub fn wrapper_exit_code(run: &Result<SubprocessOutput, String>) -> (code: u8)
    ensures
        code == wrapper_exit_spec(run is Ok),
        code == 0 <==> run is Ok,
{
    match run {
        Ok(_) => 0,
        Err(_) => 1,
    }
}

/// Law: the wrapper's exit status reflects only whether the subprocess could
/// be spawned — two spawned runs get the same exit code however their outputs
/// and exit statuses differ, and only a spawn failure makes it non-zero.
pub proof fn lemma_exit_reflects_spawn_only(
    r1: Result<SubprocessOutput, String>,
    r2: Result<SubprocessOutput, String>,
)
    requires
        r1 is Ok,
        r2 is Ok,
    ensures
        wrapper_exit_spec(r1 is Ok) == wrapper_exit_spec(r2 is Ok),
        wrapper_exit_spec(r1 is Ok) == 0,
{
}

/// The summary line printed after the subprocess ran: fixed on success; on
/// failure, the failure prefix followed by the rendered exit status.
pub open spec fn summary_spec(success: bool, status: Seq<char>) -> Seq<char> {
    if success {
        "Command executed successfully!"@
    } else {
        "Command failed with status: "@ + status
    }
}

pub fn summary_message(success: bool, status: &str) -> (line: String)
    ensures
        line@ == summary_spec(success, status@),
{
    if success {
        "Command executed successfully!".to_owned()
    } else {
        let line = "Command failed with status: ".to_owned().concat(status);
        proof {
            assert(line@ =~= summary_spec(success, status@));
        }
        line
    }
}

} // verus!
