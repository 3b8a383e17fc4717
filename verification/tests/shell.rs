use cli_toolbox::cli::shell::{
    shell_report, ExecEvent, ExecStep, ExitStatus, LookupOutcome, PathProbe,
};
use cli_toolbox::cli::program::{DefaultCommandExecutor, ShellCommand, ShellCommandError};

fn ok_status() -> ExitStatus {
    ExitStatus { success: true, code: Some(0) }
}

fn failed_status() -> ExitStatus {
    ExitStatus { success: false, code: Some(3) }
}

/// What a host answers to each request of a command.
struct Host {
    permission_bits: bool,
    probe: PathProbe,
    lookup: LookupOutcome,
    spawn: Result<ExitStatus, String>,
}

/// Runs `cmd` against `host`; the second value counts the spawns.
fn drive(cmd: &ShellCommand, host: &Host) -> (Result<ExitStatus, ShellCommandError>, usize) {
    let mut spawns = 0;
    let mut event = ExecEvent::Start;
    for _ in 0..8 {
        match cmd.execute(host.permission_bits, event) {
            ExecStep::Probe => event = ExecEvent::Probed(host.probe),
            ExecStep::Lookup => event = ExecEvent::LookedUp(host.lookup),
            ExecStep::Spawn => {
                spawns += 1;
                event = ExecEvent::Spawned(host.spawn.clone());
            }
            ExecStep::Done(result) => return (result, spawns),
        }
    }
    panic!("execute did not finish");
}

#[test]
fn new_command_has_no_arguments_and_validates() {
    let cmd = ShellCommand::new("ls");
    assert_eq!(cmd.base_command(), "ls");
    assert!(cmd.args().is_empty());
    assert!(cmd.validates());
}

#[test]
fn arguments_keep_their_order() {
    let mut cmd = ShellCommand::new("ls");
    cmd.add_arg("-l").add_arg("-a");
    cmd.add_arg("dir");
    assert_eq!(cmd.args(), &vec!["-l".to_string(), "-a".to_string(), "dir".to_string()]);
    assert_eq!(cmd.base_command(), "ls");
    let cmd = cmd.with_validation(false);
    assert!(!cmd.validates());
    assert_eq!(cmd.args().len(), 3);
    assert!(cmd.with_validation(true).validates());
}

#[test]
fn first_step_depends_on_validation_and_platform() {
    let cmd = ShellCommand::new("tool");
    assert!(matches!(cmd.execute(true, ExecEvent::Start), ExecStep::Probe));
    assert!(matches!(cmd.execute(false, ExecEvent::Start), ExecStep::Lookup));
    let cmd = cmd.with_validation(false);
    assert!(matches!(cmd.execute(true, ExecEvent::Start), ExecStep::Spawn));
    assert!(matches!(cmd.execute(false, ExecEvent::Start), ExecStep::Spawn));
}

#[test]
fn missing_command_that_no_lookup_resolves_is_not_found() {
    let cmd = ShellCommand::new("no-such-tool");
    for lookup in [LookupOutcome::Unresolved, LookupOutcome::Unavailable] {
        for permission_bits in [true, false] {
            let host = Host {
                permission_bits,
                probe: PathProbe::Missing,
                lookup,
                spawn: Ok(ok_status()),
            };
            let (result, spawns) = drive(&cmd, &host);
            match result {
                Err(ShellCommandError::CommandNotFound(message)) => {
                    assert_eq!(message, "Command no-such-tool not found")
                }
                other => panic!("unexpected {:?}", other),
            }
            assert_eq!(spawns, 0);
        }
    }
}

#[test]
fn file_without_execute_bit_is_not_executable() {
    let cmd = ShellCommand::new("./notes.txt");
    for mode in [0o644u32, 0o600, 0o000, 0o100644 & !0o111, 0o666] {
        let host = Host {
            permission_bits: true,
            probe: PathProbe::Present { is_file: true, mode },
            lookup: LookupOutcome::Resolved,
            spawn: Ok(ok_status()),
        };
        let (result, spawns) = drive(&cmd, &host);
        match result {
            Err(ShellCommandError::NotExecutable(message)) => {
                assert_eq!(message, "./notes.txt is not executable")
            }
            other => panic!("unexpected {:?}", other),
        }
        assert_eq!(spawns, 0);
    }
}

#[test]
fn entry_that_is_no_file_is_not_executable() {
    let cmd = ShellCommand::new("/tmp");
    let host = Host {
        permission_bits: true,
        probe: PathProbe::Present { is_file: false, mode: 0o755 },
        lookup: LookupOutcome::Resolved,
        spawn: Ok(ok_status()),
    };
    let (result, spawns) = drive(&cmd, &host);
    match result {
        Err(ShellCommandError::NotExecutable(message)) => assert_eq!(message, "/tmp is not a file"),
        other => panic!("unexpected {:?}", other),
    }
    assert_eq!(spawns, 0);
}

#[test]
fn any_execute_bit_passes_validation() {
    let cmd = ShellCommand::new("./run.sh");
    for mode in [0o100u32, 0o010, 0o001, 0o755, 0o100755] {
        let host = Host {
            permission_bits: true,
            probe: PathProbe::Present { is_file: true, mode },
            lookup: LookupOutcome::Unresolved,
            spawn: Ok(failed_status()),
        };
        let (result, spawns) = drive(&cmd, &host);
        assert_eq!(result.ok(), Some(failed_status()));
        assert_eq!(spawns, 1);
    }
}

#[test]
fn resolved_name_is_started() {
    let cmd = ShellCommand::new("ls");
    let host = Host {
        permission_bits: true,
        probe: PathProbe::Missing,
        lookup: LookupOutcome::Resolved,
        spawn: Ok(ok_status()),
    };
    let (result, spawns) = drive(&cmd, &host);
    assert_eq!(result.ok(), Some(ok_status()));
    assert_eq!(spawns, 1);
}

#[test]
fn platform_without_permission_bits_only_looks_up() {
    let cmd = ShellCommand::new("dir");
    let host = Host {
        permission_bits: false,
        probe: PathProbe::Present { is_file: false, mode: 0 },
        lookup: LookupOutcome::Resolved,
        spawn: Ok(ok_status()),
    };
    let (result, spawns) = drive(&cmd, &host);
    assert_eq!(result.ok(), Some(ok_status()));
    assert_eq!(spawns, 1);
}

#[test]
fn without_validation_a_missing_command_fails_at_spawn() {
    let cmd = ShellCommand::new("no-such-tool").with_validation(false);
    let host = Host {
        permission_bits: true,
        probe: PathProbe::Missing,
        lookup: LookupOutcome::Unresolved,
        spawn: Err("No such file or directory (os error 2)".to_string()),
    };
    let (result, spawns) = drive(&cmd, &host);
    match result {
        Err(ShellCommandError::ExecutionFailed(message)) => assert_eq!(
            message,
            "Failed to execute command: No such file or directory (os error 2)"
        ),
        other => panic!("unexpected {:?}", other),
    }
    assert_eq!(spawns, 1);
}

#[test]
fn spawn_failure_after_validation_is_execution_failed() {
    let cmd = ShellCommand::new("./run.sh");
    let host = Host {
        permission_bits: true,
        probe: PathProbe::Present { is_file: true, mode: 0o755 },
        lookup: LookupOutcome::Resolved,
        spawn: Err("Exec format error (os error 8)".to_string()),
    };
    let (result, _) = drive(&cmd, &host);
    assert!(matches!(result, Err(ShellCommandError::ExecutionFailed(_))));
}

#[test]
fn error_debug_is_that_of_the_derive() {
    let errors = [
        ShellCommandError::CommandNotFound("Command x not found".to_string()),
        ShellCommandError::NotExecutable("a \"quoted\" path\\ is not a file".to_string()),
        ShellCommandError::ExecutionFailed("tab\there\nnewline é \u{7f}".to_string()),
    ];
    for e in errors.iter() {
        assert_eq!(e.debug(), format!("{:?}", e));
    }
    assert_eq!(
        ShellCommandError::CommandNotFound("x".to_string()).debug(),
        "CommandNotFound(\"x\")"
    );
}

#[test]
fn report_after_a_shell_command() {
    assert_eq!(shell_report(&Ok(ok_status()), "exit status: 0"), None);
    assert_eq!(
        shell_report(&Ok(failed_status()), "exit status: 3"),
        Some("Command failed with status: exit status: 3".to_string())
    );
    assert_eq!(
        shell_report(&Err(ShellCommandError::CommandNotFound("Command x not found".to_string())), ""),
        Some("Command error: CommandNotFound(\"Command x not found\")".to_string())
    );
}

#[test]
fn default_executor_hands_the_line_to_the_shell() {
    let unix = DefaultCommandExecutor.command("ls -l | wc", false);
    assert_eq!(unix.base_command(), "sh");
    assert_eq!(unix.args(), &vec!["-c".to_string(), "ls -l | wc".to_string()]);
    assert!(!unix.validates());
    let windows = DefaultCommandExecutor.command("dir", true);
    assert_eq!(windows.base_command(), "cmd");
    assert_eq!(windows.args(), &vec!["/C".to_string(), "dir".to_string()]);
    assert!(!windows.validates());
}
