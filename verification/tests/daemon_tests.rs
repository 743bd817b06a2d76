use gitsync::daemon::{
    kill_args, parse_pid_text, pid_from_parsed, pid_from_read, term_failure, DaemonAction, KillOutput, Signal, StatusPhase, StatusQuery, StopPhase,
    StopRequest,
};

fn ok(success: bool, stderr: &str) -> Result<KillOutput, String> {
    Ok(KillOutput { success, stderr: stderr.as_bytes().to_vec() })
}

#[test]
fn pid_text() {
    assert_eq!(parse_pid_text(" 1234\n"), Ok(1234));
    assert!(parse_pid_text("abc").unwrap_err().starts_with("Invalid PID in PID file: "));
    assert_eq!(pid_from_read(Err("denied".to_string())), Err("Failed to read PID file: denied".to_string()));
    assert_eq!(pid_from_read(Ok("77".to_string())), Ok(77));
}

#[test]
fn kill_arguments() {
    assert_eq!(kill_args(12, Signal::Term), vec!["-15".to_string(), "12".to_string()]);
    assert_eq!(kill_args(12, Signal::Probe), vec!["-0".to_string(), "12".to_string()]);
    assert_eq!(kill_args(12, Signal::Kill), vec!["-9".to_string(), "12".to_string()]);
}

#[test]
fn status_stopped_without_pid_file() {
    let mut q = StatusQuery::new();
    assert!(matches!(q.start(), DaemonAction::CheckPidFile));
    assert!(matches!(q.on_pid_file(false), DaemonAction::Finish));
    assert_eq!(q.outcome, Some(Ok(("Stopped".to_string(), None))));
}

#[test]
fn status_running() {
    let mut q = StatusQuery::new();
    q.start();
    assert!(matches!(q.on_pid_file(true), DaemonAction::ReadPidFile));
    match q.on_pid_text(Ok("55\n".to_string())) {
        DaemonAction::Send { pid, signal } => {
            assert_eq!(pid, 55);
            assert_eq!(signal, Signal::Probe);
        }
        _ => panic!("expected a probe"),
    }
    assert!(matches!(q.on_probe(ok(true, "")), DaemonAction::Finish));
    assert_eq!(q.outcome, Some(Ok(("Running".to_string(), Some(55)))));
}

#[test]
fn status_stale() {
    let mut q = StatusQuery::new();
    q.start();
    q.on_pid_file(true);
    q.on_pid_text(Ok("55".to_string()));
    assert!(matches!(q.on_probe(ok(false, "")), DaemonAction::RemovePidFile));
    assert_eq!(q.phase, StatusPhase::CleaningStale);
    q.on_removed();
    assert_eq!(q.outcome, Some(Ok(("Stopped (Stale PID file cleaned up)".to_string(), None))));
}

#[test]
fn status_bad_pid() {
    let mut q = StatusQuery::new();
    q.start();
    q.on_pid_file(true);
    assert!(matches!(q.on_pid_text(Ok("x".to_string())), DaemonAction::Finish));
    assert!(matches!(q.outcome, Some(Err(ref e)) if e.starts_with("Invalid PID in PID file: ")));
}

#[test]
fn stop_without_pid_file() {
    let mut r = StopRequest::new();
    r.start();
    r.on_pid_file(false);
    assert_eq!(r.outcome, Some(Err("Daemon is not running (PID file not found).".to_string())));
}

#[test]
fn stop_gracefully() {
    let mut r = StopRequest::new();
    r.start();
    r.on_pid_file(true);
    r.on_pid_text(Ok("9".to_string()));
    match r.on_kill(ok(true, "")) {
        DaemonAction::Print(m) => assert_eq!(m, "Sent termination signal to daemon process (PID 9)."),
        _ => panic!("expected a message"),
    }
    assert!(matches!(r.on_printed(), DaemonAction::Send { pid: 9, signal: Signal::Probe }));
    assert!(matches!(r.on_kill(ok(true, "")), DaemonAction::Sleep { millis: 200 }));
    assert!(matches!(r.on_slept(), DaemonAction::Send { pid: 9, signal: Signal::Probe }));
    assert!(matches!(r.on_kill(ok(false, "No such process")), DaemonAction::RemovePidFile));
    match r.on_removed() {
        DaemonAction::Print(m) => assert_eq!(m, "Daemon stopped successfully."),
        _ => panic!("expected a message"),
    }
    assert!(matches!(r.on_printed(), DaemonAction::Finish));
    assert_eq!(r.outcome, Some(Ok(())));
}

#[test]
fn stop_forced_after_ten_probes() {
    let mut r = StopRequest::new();
    r.start();
    r.on_pid_file(true);
    r.on_pid_text(Ok("9".to_string()));
    r.on_kill(ok(true, ""));
    r.on_printed();
    let mut probes = 1;
    loop {
        assert!(matches!(r.on_kill(ok(true, "")), DaemonAction::Sleep { .. }));
        match r.on_slept() {
            DaemonAction::Send { signal: Signal::Probe, .. } => probes += 1,
            DaemonAction::Send { signal: Signal::Kill, .. } => break,
            _ => panic!("unexpected action"),
        }
    }
    assert_eq!(probes, 10);
    assert_eq!(r.phase, StopPhase::Killing(9));
    assert!(matches!(r.on_kill(Err("x".to_string())), DaemonAction::RemovePidFile));
    match r.on_removed() {
        DaemonAction::Print(m) => assert_eq!(m, "Daemon did not respond to SIGTERM. Sent SIGKILL (forced stop)."),
        _ => panic!("expected a message"),
    }
    r.on_printed();
    assert_eq!(r.outcome, Some(Ok(())));
}

#[test]
fn stop_stale_and_failures() {
    let mut r = StopRequest::new();
    r.start();
    r.on_pid_file(true);
    r.on_pid_text(Ok("9".to_string()));
    assert!(matches!(r.on_kill(ok(false, "kill: (9) - No such process")), DaemonAction::RemovePidFile));
    r.on_removed();
    assert_eq!(r.outcome, Some(Err("Daemon process was not found. Cleaned up stale PID file.".to_string())));

    let mut s = StopRequest::new();
    s.start();
    s.on_pid_file(true);
    s.on_pid_text(Ok("9".to_string()));
    s.on_kill(ok(false, "Operation not permitted"));
    assert_eq!(s.outcome, Some(Err("Failed to terminate process: Operation not permitted".to_string())));

    let mut t = StopRequest::new();
    t.start();
    t.on_pid_file(true);
    t.on_pid_text(Ok("9".to_string()));
    t.on_kill(Err("no kill binary".to_string()));
    assert_eq!(t.outcome, Some(Err("Failed to execute kill command: no kill binary".to_string())));
}

#[test]
fn pid_and_term_decisions() {
    assert_eq!(pid_from_parsed(Ok(3)), Ok(3));
    assert_eq!(pid_from_parsed(Err("bad".to_string())), Err("Invalid PID in PID file: bad".to_string()));
    assert_eq!(term_failure("kill: (3) - No such process"), Ok(()));
    assert_eq!(term_failure("denied"), Err("Failed to terminate process: denied".to_string()));
}

#[test]
fn pid_text_with_unicode_spaces() {
    assert_eq!(parse_pid_text("\u{3000}4242\u{a0}\n"), Ok(4242));
    assert_eq!(parse_pid_text("+15\n"), Ok(15));
    assert_eq!(
        parse_pid_text("99999999999"),
        Err("Invalid PID in PID file: number too large to fit in target type".to_string())
    );
    assert_eq!(parse_pid_text(""), Err("Invalid PID in PID file: cannot parse integer from empty string".to_string()));
}
