use shell_gateway::error::GatewayError;
use shell_gateway::outcome::{command_result, ProcessOutcome};
use shell_gateway::session::{get_current_directory, Action, DirProbe, Session};

fn session() -> Session {
    Session::new(String::from("/home/ana"))
}

fn probe_target(action: Action) -> (String, String) {
    match action {
        Action::ProbeDirectory { argument, target } => (argument, target),
        _ => panic!("expected a directory probe"),
    }
}

#[test]
fn new_session_starts_at_home() {
    let s = session();
    assert_eq!(get_current_directory(&s), "/home/ana");
    assert_eq!(s.home(), "/home/ana");
}

#[test]
fn exit_acknowledges_without_spawning() {
    let s = session();
    match s.execute("  exit \n") {
        Action::Shutdown(ack) => assert_eq!(ack, "Exiting..."),
        _ => panic!("expected a shutdown"),
    }
    assert_eq!(get_current_directory(&s), "/home/ana");
}

#[test]
fn exit_with_arguments_runs_in_shell() {
    let s = session();
    match s.execute("exit 3") {
        Action::Spawn { command, directory } => {
            assert_eq!(command, "exit 3");
            assert_eq!(directory, "/home/ana");
        }
        _ => panic!("expected a spawn"),
    }
}

#[test]
fn plain_command_is_spawned_in_session_directory() {
    let mut s = session();
    let _ = probe_target(s.execute("cd src"));
    assert_eq!(s.finish_cd("src", DirProbe::Resolved(String::from("/home/ana/src"))), Ok(String::new()));
    match s.execute(" ls -la ") {
        Action::Spawn { command, directory } => {
            assert_eq!(command, " ls -la ");
            assert_eq!(directory, "/home/ana/src");
        }
        _ => panic!("expected a spawn"),
    }
    assert_eq!(get_current_directory(&s), "/home/ana/src");
}

#[test]
fn cd_alone_goes_home() {
    let mut s = session();
    let _ = s.finish_cd("/tmp", DirProbe::Resolved(String::from("/tmp")));
    let (argument, target) = probe_target(s.execute("cd"));
    assert_eq!(argument, "");
    assert_eq!(target, "/home/ana");
    assert_eq!(get_current_directory(&s), "/tmp");
    let r = s.finish_cd(&argument, DirProbe::Resolved(String::from("/data/home/ana")));
    assert_eq!(r, Ok(String::from("changed directory to /home/ana")));
    assert_eq!(get_current_directory(&s), "/data/home/ana");
}

#[test]
fn cd_tilde_goes_home() {
    let mut s = session();
    let _ = s.finish_cd("/tmp", DirProbe::Resolved(String::from("/tmp")));
    let (argument, target) = probe_target(s.execute("cd   ~  "));
    assert_eq!(argument, "~");
    assert_eq!(target, "/home/ana");
    let r = s.finish_cd(&argument, DirProbe::Resolved(String::from("/home/ana")));
    assert_eq!(r, Ok(String::from("changed directory to /home/ana")));
    assert_eq!(get_current_directory(&s), "/home/ana");
}

#[test]
fn cd_to_missing_home_fails() {
    let mut s = session();
    let (argument, _) = probe_target(s.execute("cd"));
    let r = s.finish_cd(&argument, DirProbe::Missing);
    assert_eq!(r, Err(GatewayError::Validation(String::from("cd: no such directory: "))));
    assert_eq!(get_current_directory(&s), "/home/ana");
}

#[test]
fn home_can_be_moved() {
    let mut s = session();
    s.set_home(String::from("/home/bo"));
    assert_eq!(s.home(), "/home/bo");
    assert_eq!(get_current_directory(&s), "/home/ana");
    let (_, target) = probe_target(s.execute("cd ~/x"));
    assert_eq!(target, "/home/bo/x");
}

#[test]
fn cd_relative_joins_session_directory() {
    let mut s = session();
    let (argument, target) = probe_target(s.execute("cd projects"));
    assert_eq!(argument, "projects");
    assert_eq!(target, "/home/ana/projects");
    assert_eq!(get_current_directory(&s), "/home/ana");
    let r = s.finish_cd(&argument, DirProbe::Resolved(String::from("/home/ana/projects")));
    assert_eq!(r, Ok(String::new()));
    assert_eq!(get_current_directory(&s), "/home/ana/projects");
}

#[test]
fn cd_relative_from_root_adds_no_separator() {
    let s = Session::new(String::from("/"));
    let (_, target) = probe_target(s.execute("cd etc"));
    assert_eq!(target, "/etc");
}

#[test]
fn cd_absolute_is_verbatim() {
    let s = session();
    let (argument, target) = probe_target(s.execute("cd /var/log/"));
    assert_eq!(argument, "/var/log/");
    assert_eq!(target, "/var/log/");
}

#[test]
fn cd_home_relative_expands() {
    let s = session();
    let (argument, target) = probe_target(s.execute("cd ~/docs"));
    assert_eq!(argument, "~/docs");
    assert_eq!(target, "/home/ana/docs");
}

#[test]
fn cd_tilde_name_is_relative() {
    let s = session();
    let (_, target) = probe_target(s.execute("cd ~bob"));
    assert_eq!(target, "/home/ana/~bob");
}

#[test]
fn cd_missing_directory_keeps_session() {
    let mut s = session();
    let (argument, _) = probe_target(s.execute("cd nowhere"));
    let r = s.finish_cd(&argument, DirProbe::Missing);
    assert_eq!(r, Err(GatewayError::Validation(String::from("cd: no such directory: nowhere"))));
    assert!(r.unwrap_err().message().contains("nowhere"));
    assert_eq!(get_current_directory(&s), "/home/ana");
}

#[test]
fn cd_unresolvable_directory_keeps_session() {
    let mut s = session();
    let r = s.finish_cd("loop", DirProbe::Unresolvable(String::from("too many links")));
    assert_eq!(
        r,
        Err(GatewayError::Validation(String::from("Failed to resolve path: too many links")))
    );
    assert_eq!(get_current_directory(&s), "/home/ana");
}

#[test]
fn success_discards_stderr() {
    let r = command_result(ProcessOutcome::Exited {
        code: Some(0),
        stdout: b"out\n".to_vec(),
        stderr: b"warning: careful\n".to_vec(),
    });
    assert_eq!(r, Ok(String::from("out\n")));
}

#[test]
fn failure_carries_stderr() {
    let r = command_result(ProcessOutcome::Exited {
        code: Some(2),
        stdout: b"partial".to_vec(),
        stderr: b"ls: cannot access\n".to_vec(),
    });
    assert_eq!(r, Err(GatewayError::Command(String::from("ls: cannot access\n"))));
}

#[test]
fn silent_failure_reports_status() {
    let r = command_result(ProcessOutcome::Exited {
        code: Some(1),
        stdout: Vec::new(),
        stderr: Vec::new(),
    });
    assert_eq!(r, Err(GatewayError::Command(String::from("command failed with status 1"))));
}

#[test]
fn silent_failure_reports_large_and_negative_codes() {
    let r = command_result(ProcessOutcome::Exited { code: Some(127), stdout: Vec::new(), stderr: Vec::new() });
    assert_eq!(r, Err(GatewayError::Command(String::from("command failed with status 127"))));
    let r = command_result(ProcessOutcome::Exited { code: Some(-2), stdout: Vec::new(), stderr: Vec::new() });
    assert_eq!(r, Err(GatewayError::Command(String::from("command failed with status -2"))));
}

#[test]
fn signal_end_is_a_failure() {
    let r = command_result(ProcessOutcome::Exited {
        code: None,
        stdout: b"half".to_vec(),
        stderr: Vec::new(),
    });
    assert_eq!(r, Err(GatewayError::Command(String::from("command terminated by a signal"))));
}

#[test]
fn spawn_failure_is_transport_error() {
    let r = command_result(ProcessOutcome::SpawnFailed(String::from("No such file or directory")));
    assert_eq!(r, Err(GatewayError::Transport(String::from("No such file or directory"))));
}

#[test]
fn invalid_utf8_output_is_replaced() {
    let r = command_result(ProcessOutcome::Exited {
        code: Some(0),
        stdout: vec![b'a', 0xff, b'b'],
        stderr: Vec::new(),
    });
    assert_eq!(r, Ok(String::from("a\u{fffd}b")));
}
