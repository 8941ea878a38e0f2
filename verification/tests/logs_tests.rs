//! Log watcher decisions.

use comet::logs::{latest_log_index, tail_action, TailAction};

#[test]
fn tail_action_follows_the_size_change() {
    assert_eq!(tail_action(10, 20), TailAction::Reopen);
    assert_eq!(tail_action(30, 20), TailAction::Read);
    assert_eq!(tail_action(20, 20), TailAction::Wait);
    assert_eq!(tail_action(0, 0), TailAction::Wait);
}

#[test]
fn latest_log_is_the_newest_entry() {
    assert_eq!(latest_log_index(&vec![]), None);
    assert_eq!(latest_log_index(&vec![5]), Some(0));
    assert_eq!(latest_log_index(&vec![5, 9, 3]), Some(1));
    assert_eq!(latest_log_index(&vec![5, 9, 9, 3]), Some(2));
    assert_eq!(latest_log_index(&vec![1, 2, 3]), Some(2));
}
