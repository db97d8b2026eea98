use std::collections::HashMap;

use syspulse::daemon::DaemonSpec;
use syspulse::error::SyspulseError;
use syspulse::lifecycle::LifecycleState;
use syspulse::manager::DaemonManager;
use syspulse::protocol::{
    encode_message, error_response, read_message, restarted_response, started_response,
    stopped_response, Dispatch, Request, Response, MAX_FRAME,
};
use syspulse::restart::RestartPolicy;

fn spec(name: &str) -> DaemonSpec {
    DaemonSpec {
        name: name.to_string(),
        command: vec!["sleep".to_string(), "60".to_string()],
        working_dir: None,
        env: HashMap::new(),
        health_check: None,
        restart_policy: RestartPolicy::Never,
        resource_limits: None,
        schedule: None,
        tags: Vec::new(),
        stop_timeout_secs: 30,
        log_config: None,
        description: None,
        user: None,
    }
}

#[test]
fn frame_round_trip() {
    let payload = br#"{"type":"ping"}"#.to_vec();
    let frame = encode_message(&payload).unwrap();
    assert_eq!(&frame[..4], &[0, 0, 0, 15]);
    let mut stream = frame.clone();
    stream.extend_from_slice(&encode_message(&b"second".to_vec()).unwrap());
    let (first, used) = read_message(&stream).unwrap().unwrap();
    assert_eq!(first, payload);
    assert_eq!(used, frame.len());
    let (second, _) = read_message(&stream[used..]).unwrap().unwrap();
    assert_eq!(second, b"second".to_vec());
}

#[test]
fn frame_header_is_big_endian() {
    let payload = vec![7u8; 0x0102];
    let frame = encode_message(&payload).unwrap();
    assert_eq!(&frame[..4], &[0, 0, 1, 2]);
    assert_eq!(frame.len(), 4 + 0x0102);
    assert_eq!(u32::from_be_bytes([frame[0], frame[1], frame[2], frame[3]]), 0x0102);
}

#[test]
fn truncated_frames_are_eof_or_errors() {
    let frame = encode_message(&b"hello world".to_vec()).unwrap();
    for k in 0..frame.len() {
        match read_message(&frame[..k]) {
            Ok(None) => assert!(k < 4),
            Err(SyspulseError::Ipc(_)) => assert!(k >= 4),
            other => panic!("prefix {} gave {:?}", k, other.map(|o| o.map(|p| p.1))),
        }
    }
    assert!(read_message(&[]).unwrap().is_none());
}

#[test]
fn oversize_frames_are_refused() {
    let header = ((MAX_FRAME as u32) + 1).to_be_bytes();
    assert!(matches!(read_message(&header), Err(SyspulseError::Ipc(_))));
    let big = vec![0u8; MAX_FRAME + 1];
    assert!(matches!(encode_message(&big), Err(SyspulseError::Ipc(_))));
    let edge = vec![0u8; MAX_FRAME];
    let framed = encode_message(&edge).unwrap();
    assert_eq!(read_message(&framed).unwrap().unwrap().0.len(), MAX_FRAME);
}

#[test]
fn empty_payload_frames() {
    let frame = encode_message(&Vec::new()).unwrap();
    assert_eq!(frame, vec![0, 0, 0, 0]);
    let (p, used) = read_message(&frame).unwrap().unwrap();
    assert!(p.is_empty());
    assert_eq!(used, 4);
}

#[test]
fn error_responses_carry_codes_and_messages() {
    match error_response(SyspulseError::DaemonNotFound("x".to_string())) {
        Response::Error { code, message } => {
            assert_eq!(code, 404);
            assert_eq!(message, "Daemon 'x' not found");
        }
        _ => panic!("not an error response"),
    }
    match error_response(SyspulseError::Timeout(5)) {
        Response::Error { code, message } => {
            assert_eq!(code, 504);
            assert_eq!(message, "Timeout after 5s");
        }
        _ => panic!("not an error response"),
    }
}

#[test]
fn response_messages() {
    match started_response("echo", 4242) {
        Response::Success { message } => assert_eq!(message, "Daemon 'echo' started (PID 4242)"),
        _ => panic!(),
    }
    match restarted_response("echo", 0) {
        Response::Success { message } => assert_eq!(message, "Daemon 'echo' restarted (PID 0)"),
        _ => panic!(),
    }
    match stopped_response("echo") {
        Response::Success { message } => assert_eq!(message, "Daemon 'echo' stopped"),
        _ => panic!(),
    }
}

fn code_of(d: Dispatch) -> Option<u32> {
    match d {
        Dispatch::Reply(Response::Error { code, .. }) => Some(code),
        _ => None,
    }
}

#[test]
fn dispatch_covers_the_request_set() {
    let mut m = DaemonManager::new();
    assert!(matches!(m.handle_request(Request::Ping), Dispatch::Reply(Response::Pong)));
    assert!(matches!(
        m.handle_request(Request::Add { spec: spec("echo") }),
        Dispatch::Reply(Response::Success { .. })
    ));
    assert_eq!(code_of(m.handle_request(Request::Add { spec: spec("echo") })), Some(409));
    assert_eq!(
        code_of(m.handle_request(Request::Start { name: "nope".into(), wait: false, timeout_secs: None })),
        Some(404)
    );
    match m.handle_request(Request::Start { name: "echo".into(), wait: false, timeout_secs: None }) {
        Dispatch::Launch { name } => assert_eq!(name, "echo"),
        _ => panic!("expected a launch"),
    }
    assert_eq!(
        code_of(m.handle_request(Request::Stop { name: "echo".into(), force: false, timeout_secs: None })),
        Some(409)
    );
    m.start_daemon("echo", 11, 0, "o".into(), "e".into()).unwrap();
    assert_eq!(
        code_of(m.handle_request(Request::Start { name: "echo".into(), wait: false, timeout_secs: None })),
        Some(409)
    );
    match m.handle_request(Request::Stop { name: "echo".into(), force: true, timeout_secs: None }) {
        Dispatch::Halt { name, plan } => {
            assert_eq!(name, "echo");
            assert_eq!(plan.pid, 11);
            assert!(plan.force);
        }
        _ => panic!("expected a halt"),
    }
    match m.handle_request(Request::Restart { name: "echo".into(), force: false, wait: false }) {
        Dispatch::Cycle { plan: Some(plan), .. } => assert_eq!(plan.pid, 11),
        _ => panic!("expected a cycle with a stop"),
    }
    assert_eq!(code_of(m.handle_request(Request::Remove { name: "echo".into(), force: false })), Some(500));
    match m.handle_request(Request::Remove { name: "echo".into(), force: true }) {
        Dispatch::Discard { plan, .. } => assert_eq!(plan.pid, 11),
        _ => panic!("expected a discard"),
    }
    match m.handle_request(Request::Status { name: Some("echo".into()) }) {
        Dispatch::Reply(Response::Status { instance }) => assert_eq!(instance.state, LifecycleState::Running),
        _ => panic!("expected a status"),
    }
    match m.handle_request(Request::List) {
        Dispatch::Reply(Response::List { instances }) => assert_eq!(instances.len(), 1),
        _ => panic!("expected a list"),
    }
    match m.handle_request(Request::Logs { name: "echo".into(), lines: 5, stderr: true }) {
        Dispatch::ReadLogs { lines, stderr, .. } => {
            assert_eq!(lines, 5);
            assert!(stderr);
        }
        _ => panic!("expected a log read"),
    }
    assert_eq!(code_of(m.handle_request(Request::Logs { name: "x".into(), lines: 5, stderr: true })), Some(404));
    m.stop_daemon("echo", Some(-15), 1).unwrap();
    match m.handle_request(Request::Restart { name: "echo".into(), force: false, wait: false }) {
        Dispatch::Cycle { plan: None, .. } => {}
        _ => panic!("expected a plain launch"),
    }
    match m.handle_request(Request::Remove { name: "echo".into(), force: false }) {
        Dispatch::Reply(Response::Success { message }) => assert_eq!(message, "Daemon 'echo' removed"),
        _ => panic!("expected removal"),
    }
    assert_eq!(code_of(m.handle_request(Request::Remove { name: "echo".into(), force: false })), Some(404));
    assert!(matches!(m.handle_request(Request::Shutdown), Dispatch::Shutdown));
}
