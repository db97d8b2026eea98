use syspulse::daemon::{
    default_interval, default_max_size, default_retain, default_retries, default_stop_timeout,
    default_timeout, DaemonInstance, HealthStatus, LogConfig,
};
use syspulse::display::{format_uptime, uptime};
use syspulse::error::SyspulseError;
use syspulse::health::{command_outcome, http_outcome, probe_result, ProbeOutcome};
use syspulse::lifecycle::LifecycleState;
use syspulse::logs::{needs_rotation, prune_list, tail_lines, LogManager};
use syspulse::paths::{daemon_log_dir, db_path, join, logs_dir, pid_path, socket_path};
use syspulse::process::{exit_code_of, stop_step, ProcessInfo, StopStep, UnixProcessDriver, WaitOutcome, WindowsProcessDriver};
use syspulse::registry::{parse_health, parse_state, StateRow};
use syspulse::restart::{default_backoff_base_ms, default_backoff_max_ms, default_max_retries};
use syspulse::text::decimal_text;

#[test]
fn defaults_match_the_documented_values() {
    assert_eq!(default_interval(), 30);
    assert_eq!(default_timeout(), 5);
    assert_eq!(default_retries(), 3);
    assert_eq!(default_max_size(), 50 * 1024 * 1024);
    assert_eq!(default_retain(), 5);
    assert_eq!(default_stop_timeout(), 30);
    assert_eq!(default_max_retries(), None);
    assert_eq!(default_backoff_base_ms(), 1000);
    assert_eq!(default_backoff_max_ms(), 300_000);
}

#[test]
fn every_error_kind_has_its_code() {
    let cases = vec![
        (SyspulseError::DaemonNotFound("a".into()), 404, "Daemon 'a' not found"),
        (SyspulseError::DaemonAlreadyExists("a".into()), 409, "Daemon 'a' already exists"),
        (SyspulseError::InvalidStateTransition { from: "Failed".into(), to: "Stopping".into() }, 409, "Invalid state transition from \"Failed\" to \"Stopping\""),
        (SyspulseError::Process("p".into()), 500, "Process error: p"),
        (SyspulseError::HealthCheck("h".into()), 500, "Health check failed: h"),
        (SyspulseError::Ipc("i".into()), 500, "IPC error: i"),
        (SyspulseError::Registry("r".into()), 500, "Registry error: r"),
        (SyspulseError::Config("c".into()), 400, "Config error: c"),
        (SyspulseError::Scheduler("s".into()), 500, "Scheduler error: s"),
        (SyspulseError::Io("o".into()), 500, "IO error: o"),
        (SyspulseError::Serialization("j".into()), 400, "Serialization error: j"),
        (SyspulseError::Database("d".into()), 500, "Database error: d"),
        (SyspulseError::Timeout(30), 504, "Timeout after 30s"),
    ];
    for (e, code, message) in cases {
        assert_eq!(e.code(), code);
        assert_eq!(e.message(), message);
    }
}

#[test]
fn decimal_rendering() {
    assert_eq!(decimal_text(0), "0");
    assert_eq!(decimal_text(7), "7");
    assert_eq!(decimal_text(10), "10");
    assert_eq!(decimal_text(4242), "4242");
    assert_eq!(decimal_text(u64::MAX), u64::MAX.to_string());
}

#[test]
fn paths_under_the_data_dir() {
    assert_eq!(join("/data", "x"), "/data/x");
    assert_eq!(join("/data/", "x"), "/data/x");
    assert_eq!(join("", "x"), "x");
    assert_eq!(db_path("/home/u/.syspulse"), "/home/u/.syspulse/syspulse.db");
    assert_eq!(logs_dir("/d"), "/d/logs");
    assert_eq!(daemon_log_dir("/d", "api"), "/d/logs/api");
    assert_eq!(socket_path("/d"), "/d/syspulse.sock");
    assert_eq!(pid_path("/d"), "/d/syspulse.pid");
}

#[test]
fn log_locations_and_tails() {
    let lm = LogManager::new("/d");
    assert_eq!(lm.log_dir("api"), "/d/logs/api");
    assert_eq!(lm.log_file("api", true), "/d/logs/api/stderr.log");
    let (out, err) = lm.log_paths("api");
    assert_eq!(out, "/d/logs/api/stdout.log");
    assert_eq!(err, "/d/logs/api/stderr.log");
    let lines: Vec<String> = (1..=5).map(|i| format!("line {}", i)).collect();
    assert_eq!(tail_lines(lines.clone(), 2), vec!["line 4".to_string(), "line 5".to_string()]);
    assert_eq!(tail_lines(lines.clone(), 9), lines);
    assert!(tail_lines(lines, 0).is_empty());
}

#[test]
fn rotation_and_pruning() {
    let cfg = LogConfig { max_size_bytes: 100, retain_count: 2, compress_rotated: false };
    assert!(!needs_rotation(99, &cfg));
    assert!(needs_rotation(100, &cfg));
    let newest_first = vec!["c".to_string(), "b".to_string(), "a".to_string()];
    assert_eq!(prune_list(newest_first.clone(), 2), vec!["a".to_string()]);
    assert!(prune_list(newest_first, 5).is_empty());
}

#[test]
fn uptime_text() {
    assert_eq!(uptime(0), "0s");
    assert_eq!(uptime(59), "59s");
    assert_eq!(uptime(61), "1m 1s");
    assert_eq!(uptime(3 * 3600 + 5), "3h 0m 5s");
    assert_eq!(uptime(2 * 86400 + 3600 + 120 + 9), "2d 1h 2m");
    let mut inst = DaemonInstance::new("x");
    assert_eq!(format_uptime(&inst, 10_000), "-");
    inst.started_at = Some(1_000);
    assert_eq!(format_uptime(&inst, 10_000), "-");
    inst.state = LifecycleState::Running;
    inst.pid = Some(1);
    assert_eq!(format_uptime(&inst, 62_999), "1m 1s");
    assert_eq!(format_uptime(&inst, 500), "0s");
    assert_eq!(format_uptime(&inst, -5_000), "-");
}

#[test]
fn state_rows_round_trip() {
    let mut inst = DaemonInstance::new("api");
    inst.state = LifecycleState::Running;
    inst.pid = Some(99);
    inst.restart_count = 3;
    inst.health_status = HealthStatus::NotConfigured;
    inst.stdout_log = Some("/o".into());
    let row = StateRow::from_instance(&inst);
    assert_eq!(row.state, "running");
    assert_eq!(row.health_status.as_deref(), Some("not_configured"));
    let back = row.into_instance();
    assert_eq!(back.id, inst.id);
    assert_eq!(back.state, LifecycleState::Running);
    assert_eq!(back.pid, Some(99));
    assert_eq!(back.restart_count, 3);
    assert_eq!(back.health_status, HealthStatus::NotConfigured);
    assert_eq!(back.stdout_log.as_deref(), Some("/o"));
}

#[test]
fn stored_labels_parse() {
    assert_eq!(parse_state(&"scheduled".to_string()), LifecycleState::Scheduled);
    assert_eq!(parse_state(&"weird".to_string()), LifecycleState::Stopped);
    assert_eq!(parse_health(&Some("unhealthy".to_string())), HealthStatus::Unhealthy);
    assert_eq!(parse_health(&None), HealthStatus::Unknown);
    assert_eq!(parse_health(&Some("??".to_string())), HealthStatus::Unknown);
}

#[test]
fn exit_codes_from_wait_outcomes() {
    assert_eq!(exit_code_of(WaitOutcome::Exited(3)), Some(3));
    assert_eq!(exit_code_of(WaitOutcome::Signaled(15)), Some(-15));
    assert_eq!(exit_code_of(WaitOutcome::Signaled(9)), Some(-9));
    assert_eq!(exit_code_of(WaitOutcome::StillAlive), None);
    assert_eq!(exit_code_of(WaitOutcome::Other), None);
    assert_eq!(exit_code_of(WaitOutcome::NotOurChild { alive: false }), Some(-1));
    assert_eq!(exit_code_of(WaitOutcome::NotOurChild { alive: true }), None);
}

#[test]
fn graceful_stop_polling() {
    assert_eq!(stop_step(0, 30, false), StopStep::Done);
    assert_eq!(stop_step(29_900, 30, true), StopStep::Wait);
    assert_eq!(stop_step(30_000, 30, true), StopStep::Escalate);
    assert_eq!(stop_step(0, 0, true), StopStep::Escalate);
    assert_eq!(stop_step(u64::MAX, u64::MAX, true), StopStep::Wait);
    let info = ProcessInfo { pid: 5, alive: true };
    assert_eq!(info.pid, 5);
    assert_eq!(UnixProcessDriver::new(), UnixProcessDriver);
    assert_eq!(WindowsProcessDriver::new(), WindowsProcessDriver);
}

#[test]
fn probe_outcomes() {
    assert_eq!(http_outcome(200), ProbeOutcome::Passed);
    assert_eq!(http_outcome(299), ProbeOutcome::Passed);
    assert_eq!(http_outcome(300), ProbeOutcome::Failed);
    assert_eq!(http_outcome(503), ProbeOutcome::Failed);
    assert_eq!(command_outcome(Some(0)), ProbeOutcome::Passed);
    assert_eq!(command_outcome(Some(2)), ProbeOutcome::Failed);
    assert_eq!(command_outcome(None), ProbeOutcome::Failed);
    assert_eq!(probe_result(ProbeOutcome::Passed, 5).unwrap(), HealthStatus::Healthy);
    assert_eq!(probe_result(ProbeOutcome::Failed, 5).unwrap(), HealthStatus::Unhealthy);
    assert!(matches!(probe_result(ProbeOutcome::TimedOut, 5), Err(SyspulseError::Timeout(5))));
}
