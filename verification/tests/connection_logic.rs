//! Decision logic of the connection core, on plain values: probing, port
//! advancement, payload formatting, and the dispatcher's reply handling.

use comet::connection::{format_setting, probe_hit, send_reply, ConnectionManager, ConnectionState};
use comet::dispatch::{execute_reply, range_exhausted_error, ExecuteError};
use comet::{next_port, MAX_PORT, MIN_PORT};

fn manager() -> ConnectionManager {
    ConnectionManager::new(1000).expect("client should build")
}

#[test]
fn initial_state_is_disconnected_at_min_port() {
    let m = manager();
    let s = m.get_status();
    assert_eq!(s.current_port, MIN_PORT);
    assert_eq!(s.bound_port, None);
    assert!(!s.connected);
    assert!(!s.connecting);
}

#[test]
fn probe_hit_requires_token_and_success_status() {
    assert!(probe_hit(&Ok((200, "0xdeadbeef".to_string()))));
    assert!(probe_hit(&Ok((204, "0xdeadbeef".to_string()))));
    assert!(!probe_hit(&Ok((200, "0xDEADBEEF".to_string()))));
    assert!(!probe_hit(&Ok((200, "deadbeef".to_string()))));
    assert!(!probe_hit(&Ok((404, "0xdeadbeef".to_string()))));
    assert!(!probe_hit(&Ok((300, "0xdeadbeef".to_string()))));
    assert!(!probe_hit(&Ok((199, "0xdeadbeef".to_string()))));
    assert!(!probe_hit(&Err("connection refused".to_string())));
}

#[test]
fn next_port_steps_and_wraps() {
    assert_eq!(next_port(MIN_PORT), MIN_PORT + 1);
    assert_eq!(next_port(7000), 7001);
    assert_eq!(next_port(MAX_PORT), MIN_PORT);
    assert_eq!(next_port(MAX_PORT + 1), MIN_PORT);
}

#[test]
fn increment_port_cycles_through_range_and_wraps() {
    let mut m = manager();
    let mut expected = MIN_PORT;
    let span = (MAX_PORT - MIN_PORT + 1) as usize;
    for _ in 0..span {
        let s = m.increment_port();
        expected = if expected >= MAX_PORT { MIN_PORT } else { expected + 1 };
        assert_eq!(s.current_port, expected);
        assert!(s.current_port >= MIN_PORT && s.current_port <= MAX_PORT);
    }
    assert_eq!(m.get_status().current_port, MIN_PORT);
}

#[test]
fn increment_port_always_resets_connection_state() {
    let mut m = manager();
    for _ in 0..5 {
        let s = m.increment_port();
        assert_eq!(s.bound_port, None);
        assert!(!s.connected);
        assert!(!s.connecting);
    }
}

#[test]
fn format_setting_joins_key_and_value_with_space() {
    assert_eq!(format_setting("AutoAttach", "true"), "AutoAttach true");
    assert_eq!(format_setting("", "x"), " x");
}

#[test]
fn send_without_bound_port_fails_and_keeps_state() {
    let mut m = manager();
    assert!(!m.send("print(1)"));
    let s = m.get_status();
    assert_eq!(s.bound_port, None);
    assert!(!s.connected);
    assert_eq!(s.current_port, MIN_PORT);
}

#[test]
fn change_setting_without_bound_port_fails() {
    let mut m = manager();
    assert!(!m.change_setting("TopbarEnabled", "false"));
    assert!(!m.get_status().connected);
}

#[test]
fn execute_reply_returns_body_on_success_status() {
    assert_eq!(
        execute_reply(Ok((200, "script output".to_string()))),
        Ok("script output".to_string())
    );
    assert_eq!(execute_reply(Ok((299, "ok".to_string()))), Ok("ok".to_string()));
}

#[test]
fn execute_reply_describes_failure_status() {
    assert_eq!(
        execute_reply(Ok((500, "boom".to_string()))),
        Err(ExecuteError::ExecutionError("HTTP 500: boom".to_string()))
    );
    assert_eq!(
        execute_reply(Ok((404, String::new()))),
        Err(ExecuteError::ExecutionError("HTTP 404: ".to_string()))
    );
}

#[test]
fn execute_reply_passes_transport_error_through() {
    assert_eq!(
        execute_reply(Err("connection reset".to_string())),
        Err(ExecuteError::ExecutionError("connection reset".to_string()))
    );
}

#[test]
fn range_exhausted_error_names_range_and_last_error() {
    let e = range_exhausted_error("connection refused");
    match &e {
        ExecuteError::ConnectionError(m) => assert_eq!(
            m,
            "Could not locate HTTP server on ports 6969-7069. Last error: connection refused"
        ),
        other => panic!("unexpected variant: {:?}", other),
    }
    assert_eq!(
        e.message(),
        "Failed to connect to server: Could not locate HTTP server on ports 6969-7069. Last error: connection refused"
    );
}

#[test]
fn execute_error_messages_carry_kind_prefix() {
    assert_eq!(
        ExecuteError::ConnectionError("d".to_string()).message(),
        "Failed to connect to server: d"
    );
    assert_eq!(
        ExecuteError::ExecutionError("d".to_string()).message(),
        "Failed to execute script: d"
    );
}

#[test]
fn state_invariant_holds_after_offline_transitions() {
    let invariant = |s: &ConnectionState| {
        assert_eq!(s.connected, s.bound_port.is_some());
        if s.connected {
            assert_eq!(s.bound_port, Some(s.current_port));
        }
        assert!(!s.connecting);
    };
    let mut m = manager();
    invariant(&m.get_status());
    m.send("x");
    invariant(&m.get_status());
    m.increment_port();
    invariant(&m.get_status());
    m.change_setting("a", "b");
    invariant(&m.get_status());
    m.increment_port();
    invariant(&m.get_status());
    m.send("y");
    invariant(&m.get_status());
}

#[test]
fn send_reply_decides_success_and_clearing_exactly() {
    assert_eq!(send_reply(&Ok((200, "ok".to_string()))), (true, false));
    assert_eq!(send_reply(&Ok((204, String::new()))), (true, false));
    assert_eq!(send_reply(&Ok((299, String::new()))), (true, false));
    assert_eq!(send_reply(&Ok((300, String::new()))), (false, false));
    assert_eq!(send_reply(&Ok((199, String::new()))), (false, false));
    assert_eq!(send_reply(&Ok((500, "boom".to_string()))), (false, false));
    assert_eq!(send_reply(&Err("connection reset".to_string())), (false, true));
}
