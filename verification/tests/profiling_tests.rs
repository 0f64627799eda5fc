use tls_probe::profiling::{
    get_binary_paths, profiling_command, summary_message, wrapper_exit_code, SubprocessOutput,
};

#[test]
fn debug_build_targets_the_debug_binary() {
    let paths = get_binary_paths(true);
    assert_eq!(paths, vec!["target/debug/send-openssl-request"]);
}

#[test]
fn release_build_targets_the_release_binary() {
    let paths = get_binary_paths(false);
    assert_eq!(paths, vec!["target/release/send-openssl-request"]);
}

#[test]
fn profiling_command_requests_the_cycles_counter() {
    let c = profiling_command(true);
    assert_eq!(c.program, "perf");
    assert_eq!(
        c.args,
        vec!["stat", "-e", "cycles", "target/debug/send-openssl-request"]
    );
}

#[test]
fn profiling_command_follows_the_build_mode() {
    let c = profiling_command(false);
    assert_eq!(c.args[3], "target/release/send-openssl-request");
}

#[test]
fn spawned_run_exits_zero_even_when_subprocess_failed() {
    let run = Ok(SubprocessOutput {
        stdout: Vec::new(),
        stderr: b"event syntax error".to_vec(),
        success: false,
    });
    assert_eq!(wrapper_exit_code(&run), 0);
}

#[test]
fn successful_subprocess_also_exits_zero() {
    let run = Ok(SubprocessOutput {
        stdout: b"cycles counted".to_vec(),
        stderr: Vec::new(),
        success: true,
    });
    assert_eq!(wrapper_exit_code(&run), 0);
}

#[test]
fn spawn_failure_exits_non_zero() {
    let run = Err("No such file or directory".to_string());
    assert_eq!(wrapper_exit_code(&run), 1);
}

#[test]
fn summary_line_for_success() {
    assert_eq!(summary_message(true, ""), "Command executed successfully!");
}

#[test]
fn summary_line_for_failure_names_the_status() {
    assert_eq!(
        summary_message(false, "exit status: 1"),
        "Command failed with status: exit status: 1"
    );
}
