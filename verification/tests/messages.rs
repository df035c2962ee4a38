use dashboard_state::message::{extract_backoff, extract_task_id, find_task_id_start};
use dashboard_state::metrics::TaskStatus;

fn id(msg: &str) -> Option<String> {
    extract_task_id(msg)
}

#[test]
fn task_id_runs_to_next_whitespace() {
    assert_eq!(id("Step 2 of 4: Proving task Task-42 now"), Some("Task-42".to_string()));
    assert_eq!(id("Task-abc\tdone"), Some("Task-abc".to_string()));
    assert_eq!(id("got Task-7\nnext line"), Some("Task-7".to_string()));
    assert_eq!(id("Task-9\u{00A0}x"), Some("Task-9".to_string()));
}

#[test]
fn task_id_runs_to_end_without_whitespace() {
    assert_eq!(id("Task-42"), Some("Task-42".to_string()));
    assert_eq!(id("fetched:Task-XYZ"), Some("Task-XYZ".to_string()));
    assert_eq!(id("préfixe→Task-é1"), Some("Task-é1".to_string()));
}

#[test]
fn task_id_takes_leftmost_marker() {
    assert_eq!(id("Task-1 then Task-2"), Some("Task-1".to_string()));
    assert_eq!(id("xTask-Task-5 z"), Some("Task-Task-5".to_string()));
}

#[test]
fn task_id_bare_marker_before_whitespace_is_no_id() {
    assert_eq!(id("Task- 42"), None);
    assert_eq!(id("Task- pending"), None);
    assert_eq!(id("got Task-\tnothing"), None);
    assert_eq!(id("Task-\u{3000}x"), None);
}

#[test]
fn task_id_is_the_leftmost_marker_with_something_after_it() {
    assert_eq!(id("Task- then Task-5 ok"), Some("Task-5".to_string()));
    assert_eq!(id("Task- Task-"), None);
    assert_eq!(id("Task- Task-x"), Some("Task-x".to_string()));
    assert_eq!(id("Task-Task- 1"), Some("Task-Task-".to_string()));
}

#[test]
fn task_id_bare_marker_at_end_is_no_id() {
    assert_eq!(id("Task-"), None);
    assert_eq!(id("waiting for Task-"), None);
}

#[test]
fn task_id_start_is_found_by_index() {
    let chars: Vec<char> = "é Task- Task-9 Task-10".chars().collect();
    assert_eq!(find_task_id_start(&chars), Some(8));
    let chars: Vec<char> = "Task-".chars().collect();
    assert_eq!(find_task_id_start(&chars), None);
    let chars: Vec<char> = "".chars().collect();
    assert_eq!(find_task_id_start(&chars), None);
}

#[test]
fn task_id_absent_without_marker() {
    assert_eq!(id(""), None);
    assert_eq!(id("garbage"), None);
    assert_eq!(id("task-42"), None);
    assert_eq!(id("Task 42"), None);
    assert_eq!(id("Tas"), None);
}

#[test]
fn backoff_reads_seconds_between_parentheses() {
    assert_eq!(extract_backoff("ready for next task (30)"), Some(30));
    assert_eq!(extract_backoff("Task step: ready for next task (10)"), Some(10));
    assert_eq!(extract_backoff("ready for next task (0)"), Some(0));
    assert_eq!(extract_backoff("ready for next task: wait (5) s"), Some(5));
    assert_eq!(extract_backoff("ready for next task (+7) (9)"), Some(7));
    assert_eq!(extract_backoff("ready for next task (3) ready for next task (4)"), Some(3));
    assert_eq!(extract_backoff("é ready for next task (18446744073709551615)"), Some(u64::MAX));
}

#[test]
fn backoff_needs_the_announcement() {
    assert_eq!(extract_backoff("wait (30)"), None);
    assert_eq!(extract_backoff("Ready for next task (30)"), None);
    assert_eq!(extract_backoff("ready for next  task (30)"), None);
    assert_eq!(extract_backoff(""), None);
}

#[test]
fn backoff_close_is_the_next_one_after_the_open() {
    assert_eq!(extract_backoff(") ready for next task (30)"), Some(30));
    assert_eq!(extract_backoff("ready for next task ) (30)"), Some(30));
    assert_eq!(extract_backoff("ready for next task 30) (31)"), Some(31));
    assert_eq!(extract_backoff("ready for next task (12) )"), Some(12));
}

#[test]
fn backoff_needs_an_open_and_a_close_after_it() {
    assert_eq!(extract_backoff("ready for next task"), None);
    assert_eq!(extract_backoff("ready for next task (30"), None);
    assert_eq!(extract_backoff("ready for next task 30)"), None);
    assert_eq!(extract_backoff("ready for next task )30("), None);
}

#[test]
fn backoff_stands_after_the_announcement() {
    assert_eq!(extract_backoff("(5) ready for next task"), None);
    assert_eq!(extract_backoff("(5) ready for next task (6)"), Some(6));
    assert_eq!(extract_backoff("(retry 2) ready for next task (30)"), Some(30));
    assert_eq!(extract_backoff("(30) ready for next task )"), None);
}

#[test]
fn backoff_needs_a_number() {
    assert_eq!(extract_backoff("ready for next task ()"), None);
    assert_eq!(extract_backoff("ready for next task (30s)"), None);
    assert_eq!(extract_backoff("ready for next task ( 30)"), None);
    assert_eq!(extract_backoff("ready for next task (-3)"), None);
    assert_eq!(extract_backoff("ready for next task (3.5)"), None);
    assert_eq!(extract_backoff("ready for next task ((30))"), None);
    assert_eq!(extract_backoff("ready for next task (18446744073709551616)"), None);
}

#[test]
fn status_labels() {
    assert_eq!(TaskStatus::NoneYet.label(), "None");
    assert_eq!(TaskStatus::Proved.label(), "Proved");
    assert_eq!(TaskStatus::ProofFailed.label(), "Proof Failed");
    assert_eq!(TaskStatus::Success.label(), "Success");
    assert_eq!(TaskStatus::SubmitFailed.label(), "Submit Failed");
}
