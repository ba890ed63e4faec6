use grader_orchestration::sandbox::{
    finish_run, start_event, ChildOutcome, SandboxConfig, SandboxError, TraceKind, CPU_PERIOD_US,
};

#[test]
fn default_limits() {
    let c = SandboxConfig::default();
    assert_eq!(c.time_limit_ms, 30_000);
    assert_eq!(c.memory_limit, 512 * 1024 * 1024);
    assert_eq!(c.cpu_limit, 50);
    assert!(c.network_disabled);
    assert_eq!(c.max_processes, 10);
    assert_eq!(c.disk_quota, 100 * 1024 * 1024);
}

#[test]
fn derived_limits() {
    let mut c = SandboxConfig::default();
    assert_eq!(c.cpu_quota_us(), 50_000);
    assert_eq!(CPU_PERIOD_US, 100_000);
    assert_eq!(c.volume_size_kb(), 102_400);
    assert_eq!(c.cpu_seconds(), 30);
    c.time_limit_ms = 100;
    assert_eq!(c.cpu_seconds(), 1);
    c.time_limit_ms = 1_001;
    assert_eq!(c.cpu_seconds(), 2);
}

#[test]
fn completed_run_result() {
    let c = SandboxConfig::default();
    let start = start_event("echo", &vec!["Hello, World!".to_string()], "/tmp");
    let r = finish_run(
        &c,
        start,
        5,
        ChildOutcome::Exited { exit_code: Some(0), stdout: "Hello, World!\n".to_string(), stderr: String::new() },
    )
    .ok()
    .unwrap();
    assert!(r.success);
    assert_eq!(r.exit_code, Some(0));
    assert_eq!(r.stdout.trim(), "Hello, World!");
    assert_eq!(r.trace_events.len(), 2);
    assert_eq!(r.trace_events[0].event_type, TraceKind::ExecutionStart);
    assert_eq!(r.trace_events[1].event_type, TraceKind::ExecutionComplete);
    assert_eq!(r.trace_events[1].event_type.name(), "execution_complete");
    assert_eq!(r.memory_used, c.memory_limit / 2);
}

#[test]
fn killed_run_has_no_success() {
    let c = SandboxConfig::default();
    let r = finish_run(
        &c,
        start_event("sh", &vec![], "/tmp"),
        9,
        ChildOutcome::Exited { exit_code: None, stdout: String::new(), stderr: String::new() },
    )
    .ok()
    .unwrap();
    assert!(!r.success);
}

#[test]
fn timeout_is_an_error_with_timeout_event() {
    let c = SandboxConfig::default();
    match finish_run(&c, start_event("sleep", &vec!["1".to_string()], "/tmp"), 100, ChildOutcome::TimedOut) {
        Err(SandboxError::Timeout(trace)) => {
            assert_eq!(trace.len(), 2);
            assert_eq!(trace[1].event_type, TraceKind::ExecutionTimeout);
            assert_eq!(trace[1].event_type.name(), "execution_timeout");
            assert_eq!(trace[1].timestamp, 100);
        }
        _ => panic!("expected a timeout"),
    }
    match finish_run(&c, start_event("x", &vec![], "/"), 1, ChildOutcome::Failed(SandboxError::SpawnFailed("no".to_string()))) {
        Err(e) => assert_eq!(e.message(), "no"),
        Ok(_) => panic!("expected a spawn failure"),
    }
}

#[test]
fn error_messages() {
    assert_eq!(SandboxError::SpawnFailed("a".to_string()).message(), "a");
    assert_eq!(SandboxError::Timeout(vec![]).message(), "Execution timed out");
    assert_eq!(SandboxError::LimitExceeded("b".to_string()).message(), "b");
    assert_eq!(SandboxError::IsolationSetupFailed("c".to_string()).message(), "c");
    assert_eq!(SandboxError::InternalIO("d".to_string()).message(), "d");
}
