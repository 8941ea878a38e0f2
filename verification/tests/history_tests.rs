//! Execution history: newest-first filing and the size cap.

use comet::history::{get_execution_history_file, save_record, ExecutionRecord};

fn record(id: &str) -> ExecutionRecord {
    ExecutionRecord {
        id: id.to_string(),
        timestamp: 1700000000,
        content: "print(1)".to_string(),
        success: true,
        error: None,
    }
}

#[test]
fn save_record_files_newest_first() {
    let mut history = vec![record("b"), record("a")];
    save_record(&mut history, record("c"), 10);
    let ids: Vec<&str> = history.iter().map(|r| r.id.as_str()).collect();
    assert_eq!(ids, ["c", "b", "a"]);
}

#[test]
fn save_record_drops_oldest_beyond_cap() {
    let mut history = vec![record("c"), record("b"), record("a")];
    save_record(&mut history, record("d"), 3);
    let ids: Vec<&str> = history.iter().map(|r| r.id.as_str()).collect();
    assert_eq!(ids, ["d", "c", "b"]);
}

#[test]
fn save_record_with_zero_cap_keeps_nothing() {
    let mut history = vec![record("a")];
    save_record(&mut history, record("b"), 0);
    assert!(history.is_empty());
}

#[test]
fn save_record_keeps_failure_details() {
    let mut history = Vec::new();
    let mut failed = record("f");
    failed.success = false;
    failed.error = Some("timed out".to_string());
    save_record(&mut history, failed, 5);
    assert_eq!(history.len(), 1);
    assert!(!history[0].success);
    assert_eq!(history[0].error.as_deref(), Some("timed out"));
}

#[test]
fn history_file_lives_under_configuration_directory() {
    assert_eq!(
        get_execution_history_file("/cfg"),
        "/cfg/com.comet.dev/execution_history/history.json"
    );
}
