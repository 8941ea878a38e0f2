//! The connection core against the real network stack with no executor
//! listening: every probe and delivery sees a transport failure, and the
//! state must degrade exactly as specified.

use comet::connection::{ConnectionManager, CycleOutcome};
use comet::dispatch::{ExecuteError, ScriptDispatcher};
use comet::MIN_PORT;

#[test]
fn connect_fails_when_nothing_listens() {
    let mut m = ConnectionManager::new(1000).expect("client should build");
    assert!(!m.connect(MIN_PORT));
    let s = m.get_status();
    assert!(!s.connected);
    assert_eq!(s.bound_port, None);
    assert_eq!(s.current_port, MIN_PORT);
}

#[test]
fn connect_outside_range_is_attempted_as_given() {
    let mut m = ConnectionManager::new(1000).expect("client should build");
    assert!(!m.connect(7200));
    assert!(!m.get_status().connected);
    assert_eq!(m.get_status().bound_port, None);

    let mut m2 = ConnectionManager::new(1000).expect("client should build");
    assert!(!m2.connect(80));
    assert!(!m2.get_status().connected);
}

#[test]
fn reconnect_cycle_stays_disconnected_without_executor() {
    let mut m = ConnectionManager::new(1000).expect("client should build");
    assert_eq!(m.reconnect_cycle(), CycleOutcome::StillDisconnected);
    assert_eq!(m.get_status().current_port, MIN_PORT);
    assert_eq!(m.reconnect_cycle(), CycleOutcome::StillDisconnected);
}

#[test]
fn refresh_commits_the_failed_probe() {
    let mut m = ConnectionManager::new(1000).expect("client should build");
    let s = m.refresh();
    assert!(!s.connected);
    assert_eq!(s.bound_port, None);
    assert_eq!(s.current_port, MIN_PORT);
}

#[test]
fn execute_once_reports_exhausted_range() {
    let d = ScriptDispatcher::new(1000).expect("client should build");
    match d.execute_once("x") {
        Err(ExecuteError::ConnectionError(m)) => {
            assert!(m.starts_with("Could not locate HTTP server on ports 6969-7069. Last error: "));
            assert!(m.len() > "Could not locate HTTP server on ports 6969-7069. Last error: ".len());
        }
        other => panic!("unexpected result: {:?}", other),
    }
}

#[test]
fn state_invariant_holds_across_failing_transitions() {
    let invariant = |m: &ConnectionManager| {
        let s = m.get_status();
        assert_eq!(s.connected, s.bound_port.is_some());
        if s.connected {
            assert_eq!(s.bound_port, Some(s.current_port));
        }
        assert!(!s.connecting);
    };
    let mut m = ConnectionManager::new(1000).expect("client should build");
    invariant(&m);
    m.connect(7000);
    invariant(&m);
    m.is_connected();
    invariant(&m);
    m.send("a");
    invariant(&m);
    m.increment_port();
    invariant(&m);
    m.refresh();
    invariant(&m);
    m.reconnect_cycle();
    invariant(&m);
}

#[test]
fn liveness_check_clears_bound_port_when_peer_is_gone() {
    let mut m = ConnectionManager::new(1000).expect("client should build");
    m.state = comet::connection::ConnectionState {
        current_port: 7033,
        bound_port: Some(7033),
        connected: true,
        connecting: false,
    };
    assert!(!m.is_connected());
    let s = m.get_status();
    assert!(!s.connected);
    assert_eq!(s.bound_port, None);
    assert_eq!(s.current_port, 7033);
}

#[test]
fn send_clears_bound_port_on_transport_error() {
    let mut m = ConnectionManager::new(1000).expect("client should build");
    m.state = comet::connection::ConnectionState {
        current_port: 7044,
        bound_port: Some(7044),
        connected: true,
        connecting: false,
    };
    assert!(!m.send("print(1)"));
    let s = m.get_status();
    assert!(!s.connected);
    assert_eq!(s.bound_port, None);
    assert_eq!(s.current_port, 7044);
}
