use dashboard_state::clock::Moment;
use dashboard_state::event::{Event, EventType, ProverState, Worker};
use dashboard_state::metrics::{FetchingState, TaskFetchInfo, TaskStatus};
use dashboard_state::state::DashboardState;

fn event(worker: Worker, kind: EventType, msg: &str) -> Event {
    Event::new(worker, msg.to_string(), "12:00:00".to_string(), kind)
}

fn stamped(worker: Worker, kind: EventType, msg: &str, at: &str) -> Event {
    Event::new(worker, msg.to_string(), at.to_string(), kind)
}

fn filler() -> Event {
    event(Worker::ProofSubmitter, EventType::Info, "nothing to see")
}

fn state_with(events: Vec<Event>) -> DashboardState {
    let mut state = DashboardState::new();
    for e in events {
        state.add_event(e);
    }
    state
}

fn info(duration: u64, elapsed: u64, can_fetch: bool) -> TaskFetchInfo {
    TaskFetchInfo {
        backoff_duration_secs: duration,
        time_since_last_fetch_secs: elapsed,
        can_fetch_now: can_fetch,
    }
}

// ---- current task ----

#[test]
fn current_task_is_none_on_empty_log() {
    let mut state = DashboardState::new();
    state.current_task = Some("Task-old".to_string());
    state.update_current_task();
    assert_eq!(state.current_task, None);
}

#[test]
fn current_task_takes_newest_naming_event() {
    let mut state = state_with(vec![
        event(Worker::TaskFetcher, EventType::Success, "Step 1 of 4: Got task Task-1 ok"),
        event(Worker::Prover(0), EventType::Success, "Step 2 of 4: Proving task Task-2"),
        event(Worker::ProofSubmitter, EventType::Success, "Step 4 of 4: Proof submitted successfully for Task-3"),
        event(Worker::TaskFetcher, EventType::Info, "garbage"),
    ]);
    state.update_current_task();
    assert_eq!(state.current_task, Some("Task-2".to_string()));
}

#[test]
fn current_task_ignores_the_submitter() {
    let mut state = state_with(vec![event(
        Worker::ProofSubmitter,
        EventType::Success,
        "submitted Task-3",
    )]);
    state.update_current_task();
    assert_eq!(state.current_task, None);
}

#[test]
fn current_task_skips_event_with_bare_marker() {
    let mut state = state_with(vec![
        event(Worker::Prover(3), EventType::Info, "working on Task-77 still"),
        event(Worker::Prover(3), EventType::Info, "lost Task-"),
    ]);
    state.update_current_task();
    assert_eq!(state.current_task, Some("Task-77".to_string()));
}

#[test]
fn current_task_is_cleared_by_marker_without_identifier() {
    let mut state = state_with(vec![event(Worker::TaskFetcher, EventType::Info, "Task- pending")]);
    state.current_task = Some("Task-1".to_string());
    state.update_current_task();
    assert_eq!(state.current_task, None);
}

#[test]
fn current_task_looks_at_twenty_events_only() {
    let mut events = vec![event(Worker::Prover(0), EventType::Success, "Proving Task-1")];
    for _ in 0..19 {
        events.push(filler());
    }
    let mut state = state_with(events);
    state.update_current_task();
    assert_eq!(state.current_task, Some("Task-1".to_string()));
    state.add_event(filler());
    state.update_current_task();
    assert_eq!(state.current_task, None);
}

#[test]
fn current_task_is_cleared_when_no_event_names_one() {
    let mut state = state_with(vec![event(Worker::Prover(0), EventType::Success, "Proving Task-1")]);
    state.update_current_task();
    assert_eq!(state.current_task, Some("Task-1".to_string()));
    for _ in 0..20 {
        state.add_event(event(Worker::TaskFetcher, EventType::Info, "waiting"));
    }
    state.update_current_task();
    assert_eq!(state.current_task, None);
}

// ---- backoff ----

#[test]
fn backoff_defaults_to_fetch_allowed() {
    let mut state = DashboardState::new();
    state.task_fetch_info = info(9, 9, false);
    state.update_task_fetch_info(Moment::from_secs(100));
    assert_eq!(state.task_fetch_info, info(0, 0, true));
    assert_eq!(state.waiting_start_info, None);
}

#[test]
fn backoff_continuity_over_three_ticks() {
    let mut state = DashboardState::new();
    state.add_event(event(Worker::TaskFetcher, EventType::Waiting, "ready for next task (30)"));
    state.update_task_fetch_info(Moment::from_secs(100));
    assert_eq!(state.task_fetch_info, info(30, 0, false));
    assert_eq!(state.waiting_start_info, Some((Moment::from_secs(100), 30)));

    state.add_event(event(Worker::TaskFetcher, EventType::Waiting, "ready for next task (30)"));
    state.update_task_fetch_info(Moment::from_secs(101));
    assert_eq!(state.task_fetch_info, info(30, 1, false));
    assert_eq!(state.waiting_start_info, Some((Moment::from_secs(100), 30)));

    state.add_event(event(Worker::TaskFetcher, EventType::Waiting, "ready for next task (30)"));
    state.update_task_fetch_info(Moment::from_secs(102));
    assert_eq!(state.task_fetch_info, info(30, 2, false));
    assert_eq!(state.waiting_start_info, Some((Moment::from_secs(100), 30)));

    state.update_task_fetch_info(Moment::from_nanos(129_999_999_999));
    assert_eq!(state.task_fetch_info, info(30, 29, false));
    state.update_task_fetch_info(Moment::from_secs(130));
    assert_eq!(state.task_fetch_info, info(30, 30, true));
    state.update_task_fetch_info(Moment::from_secs(500));
    assert_eq!(state.task_fetch_info, info(30, 400, true));
}

#[test]
fn backoff_reset_on_change() {
    let mut state = DashboardState::new();
    state.add_event(event(Worker::TaskFetcher, EventType::Waiting, "ready for next task (30)"));
    state.update_task_fetch_info(Moment::from_secs(100));
    state.update_task_fetch_info(Moment::from_secs(102));
    assert_eq!(state.task_fetch_info, info(30, 2, false));

    state.add_event(event(Worker::TaskFetcher, EventType::Waiting, "ready for next task (10)"));
    state.update_task_fetch_info(Moment::from_secs(103));
    assert_eq!(state.task_fetch_info, info(10, 0, false));
    assert_eq!(state.waiting_start_info, Some((Moment::from_secs(103), 10)));
    state.update_task_fetch_info(Moment::from_secs(104));
    assert_eq!(state.task_fetch_info, info(10, 1, false));
}

#[test]
fn backoff_after_a_stray_close() {
    let mut state = state_with(vec![event(
        Worker::TaskFetcher,
        EventType::Info,
        ") ready for next task (30)",
    )]);
    state.update_task_fetch_info(Moment::from_secs(8));
    assert_eq!(state.task_fetch_info, info(30, 0, false));
    assert_eq!(state.waiting_start_info, Some((Moment::from_secs(8), 30)));
}

#[test]
fn backoff_of_zero_seconds_allows_fetch_at_once() {
    let mut state = state_with(vec![event(
        Worker::TaskFetcher,
        EventType::Waiting,
        "ready for next task (0)",
    )]);
    state.update_task_fetch_info(Moment::from_secs(5));
    assert_eq!(state.task_fetch_info, info(0, 0, true));
    assert_eq!(state.waiting_start_info, Some((Moment::from_secs(5), 0)));
}

#[test]
fn backoff_skips_malformed_and_foreign_events() {
    let mut state = state_with(vec![
        event(Worker::TaskFetcher, EventType::Waiting, "ready for next task (12)"),
        event(Worker::TaskFetcher, EventType::Waiting, "ready for next task (soon)"),
        event(Worker::Prover(1), EventType::Waiting, "ready for next task (99)"),
        event(Worker::ProofSubmitter, EventType::Waiting, "ready for next task (98)"),
        event(Worker::TaskFetcher, EventType::Waiting, "wait (97)"),
    ]);
    state.update_task_fetch_info(Moment::from_secs(1));
    assert_eq!(state.task_fetch_info, info(12, 0, false));
}

#[test]
fn backoff_looks_at_twenty_events_only() {
    let mut events = vec![event(Worker::TaskFetcher, EventType::Waiting, "ready for next task (30)")];
    for _ in 0..19 {
        events.push(filler());
    }
    let mut state = state_with(events);
    state.update_task_fetch_info(Moment::from_secs(10));
    assert_eq!(state.task_fetch_info, info(30, 0, false));
    state.add_event(filler());
    state.update_task_fetch_info(Moment::from_secs(11));
    assert_eq!(state.task_fetch_info, info(0, 0, true));
    assert_eq!(state.waiting_start_info, Some((Moment::from_secs(10), 30)));
}

#[test]
fn backoff_elapsed_is_zero_when_clock_is_behind_anchor() {
    let mut state = state_with(vec![event(
        Worker::TaskFetcher,
        EventType::Waiting,
        "ready for next task (3)",
    )]);
    state.update_task_fetch_info(Moment::from_secs(50));
    state.update_task_fetch_info(Moment::from_secs(40));
    assert_eq!(state.task_fetch_info, info(3, 0, false));
    assert_eq!(state.waiting_start_info, Some((Moment::from_secs(50), 3)));
}

// ---- throughput ----

#[test]
fn points_calculation() {
    let mut state = state_with(vec![
        stamped(Worker::ProofSubmitter, EventType::Success, "Step 4 of 4: Proof submitted successfully", "t1"),
        stamped(Worker::ProofSubmitter, EventType::Success, "Step 4 of 4: Proof submitted successfully", "t2"),
        stamped(Worker::ProofSubmitter, EventType::Success, "Step 4 of 4: Proof submitted successfully", "t3"),
    ]);
    state.update_zkvm_metrics(Moment::from_secs(1));
    assert_eq!(state.zkvm_metrics.total_points, 900);
    assert_eq!(state.zkvm_metrics.tasks_proved, 3);
    assert_eq!(state.zkvm_metrics.tasks_executed, 3);
    assert_eq!(state.zkvm_metrics.last_task_status, TaskStatus::Success);
    assert_eq!(state.last_submission_timestamp, Some("t3".to_string()));
}

#[test]
fn throughput_of_empty_log() {
    let mut state = DashboardState::new();
    state.accumulated_runtime_secs = 12;
    state.last_submission_timestamp = Some("before".to_string());
    state.update_zkvm_metrics(Moment::from_secs(1));
    assert_eq!(state.zkvm_metrics.tasks_executed, 0);
    assert_eq!(state.zkvm_metrics.tasks_proved, 0);
    assert_eq!(state.zkvm_metrics.total_points, 0);
    assert_eq!(state.zkvm_metrics.zkvm_runtime_secs, 12);
    assert_eq!(state.zkvm_metrics.last_task_status, TaskStatus::NoneYet);
    assert_eq!(state.last_submission_timestamp, Some("before".to_string()));
}

#[test]
fn fetches_count_unless_rate_limited_retrying_or_requesting() {
    let mut state = state_with(vec![
        event(Worker::TaskFetcher, EventType::Success, "Step 1 of 4: Requesting task..."),
        event(Worker::TaskFetcher, EventType::Success, "Step 1 of 4: Got task Task-1"),
        event(Worker::TaskFetcher, EventType::Success, "rate limited, ready for next task (30)"),
        event(Worker::TaskFetcher, EventType::Success, "retrying in a moment"),
        event(Worker::TaskFetcher, EventType::Success, "Fetched Task-2"),
        event(Worker::TaskFetcher, EventType::Success, "Fetched Task-3"),
        event(Worker::TaskFetcher, EventType::Error, "Fetched Task-4"),
        event(Worker::TaskFetcher, EventType::Info, "Fetched Task-5"),
        event(Worker::Prover(0), EventType::Success, "Fetched Task-6"),
    ]);
    state.update_zkvm_metrics(Moment::from_secs(1));
    assert_eq!(state.zkvm_metrics.tasks_executed, 2);
    assert_eq!(state.zkvm_metrics.tasks_proved, 0);
    assert_eq!(state.zkvm_metrics.total_points, 0);
    assert_eq!(state.zkvm_metrics.last_task_status, TaskStatus::NoneYet);
}

#[test]
fn executed_is_the_larger_of_fetched_and_submitted() {
    let mut state = state_with(vec![
        event(Worker::TaskFetcher, EventType::Success, "Fetched Task-2"),
        event(Worker::ProofSubmitter, EventType::Success, "Step 4 of 4: Proof submitted successfully"),
        event(Worker::ProofSubmitter, EventType::Success, "Step 4 of 4: Proof submitted successfully"),
    ]);
    state.update_zkvm_metrics(Moment::from_secs(1));
    assert_eq!(state.zkvm_metrics.tasks_executed, 2);
    assert_eq!(state.zkvm_metrics.tasks_proved, 2);
    assert_eq!(state.zkvm_metrics.total_points, 600);
}

#[test]
fn submitter_success_needs_the_submitted_message() {
    let mut state = state_with(vec![
        stamped(Worker::ProofSubmitter, EventType::Success, "Step 4 of 4: Proof submitted successfully", "t1"),
        stamped(Worker::ProofSubmitter, EventType::Success, "Step 4 of 4: Submitting", "t2"),
        stamped(Worker::ProofSubmitter, EventType::Info, "Step 4 of 4: Proof submitted successfully", "t3"),
    ]);
    state.update_zkvm_metrics(Moment::from_secs(1));
    assert_eq!(state.zkvm_metrics.tasks_proved, 1);
    assert_eq!(state.last_submission_timestamp, Some("t1".to_string()));
}

#[test]
fn last_status_follows_the_newest_outcome() {
    let mut state = state_with(vec![
        event(Worker::ProofSubmitter, EventType::Success, "Step 4 of 4: Proof submitted successfully"),
        event(Worker::Prover(0), EventType::Error, "out of memory"),
    ]);
    state.update_zkvm_metrics(Moment::from_secs(1));
    assert_eq!(state.zkvm_metrics.last_task_status, TaskStatus::ProofFailed);
    state.add_event(event(Worker::ProofSubmitter, EventType::Error, "network down"));
    state.update_zkvm_metrics(Moment::from_secs(2));
    assert_eq!(state.zkvm_metrics.last_task_status, TaskStatus::SubmitFailed);
    state.add_event(event(Worker::Prover(1), EventType::Success, "Step 2 of 4: Proving task Task-9"));
    state.add_event(event(Worker::Prover(1), EventType::Success, "Step 3 of 4: Proof generated for task Task-9"));
    state.update_zkvm_metrics(Moment::from_secs(3));
    assert_eq!(state.zkvm_metrics.last_task_status, TaskStatus::Proved);
    assert_eq!(state.zkvm_metrics.tasks_proved, 1);
}

#[test]
fn proving_begins_anchors_the_timer_at_now() {
    let mut state = state_with(vec![event(
        Worker::Prover(0),
        EventType::Success,
        "Step 2 of 4: Proving task Task-9",
    )]);
    state.update_zkvm_metrics(Moment::from_secs(7));
    assert_eq!(state.proving_started_at, Some(Moment::from_secs(7)));
    assert_eq!(state.zkvm_metrics.last_task_status, TaskStatus::NoneYet);
    state.update_zkvm_metrics(Moment::from_secs(9));
    assert_eq!(state.proving_started_at, Some(Moment::from_secs(9)));
    assert_eq!(state.accumulated_runtime_secs, 0);
}

#[test]
fn proof_generated_closes_a_carried_timer() {
    let mut state = state_with(vec![event(
        Worker::Prover(0),
        EventType::Success,
        "Step 3 of 4: Proof generated for task Task-9",
    )]);
    state.proving_started_at = Some(Moment::from_nanos(2_500_000_000));
    state.accumulated_runtime_secs = 100;
    state.update_zkvm_metrics(Moment::from_secs(10));
    assert_eq!(state.accumulated_runtime_secs, 107);
    assert_eq!(state.zkvm_metrics.zkvm_runtime_secs, 107);
    assert_eq!(state.zkvm_metrics.last_task_status, TaskStatus::Proved);
    assert_eq!(state.proving_started_at, None);
    state.update_zkvm_metrics(Moment::from_secs(20));
    assert_eq!(state.accumulated_runtime_secs, 107);
    assert_eq!(state.zkvm_metrics.last_task_status, TaskStatus::NoneYet);
}

#[test]
fn proof_generated_without_timer_changes_nothing() {
    let mut state = state_with(vec![event(
        Worker::Prover(0),
        EventType::Success,
        "Step 3 of 4: Proof generated for task Task-9",
    )]);
    state.update_zkvm_metrics(Moment::from_secs(10));
    assert_eq!(state.accumulated_runtime_secs, 0);
    assert_eq!(state.zkvm_metrics.last_task_status, TaskStatus::NoneYet);
    assert_eq!(state.proving_started_at, None);
}

#[test]
fn prover_error_leaves_the_timer_running() {
    let mut state = state_with(vec![event(Worker::Prover(0), EventType::Error, "Step 3 of 4: Proof generated for task")]);
    state.proving_started_at = Some(Moment::from_secs(1));
    state.update_zkvm_metrics(Moment::from_secs(10));
    assert_eq!(state.proving_started_at, Some(Moment::from_secs(1)));
    assert_eq!(state.accumulated_runtime_secs, 0);
    assert_eq!(state.zkvm_metrics.last_task_status, TaskStatus::ProofFailed);
}

#[test]
fn proving_message_wins_over_generated_message() {
    let mut state = state_with(vec![event(
        Worker::Prover(0),
        EventType::Success,
        "Step 3 of 4: Proof generated for task; Step 2 of 4: Proving task next",
    )]);
    state.proving_started_at = Some(Moment::from_secs(1));
    state.update_zkvm_metrics(Moment::from_secs(10));
    assert_eq!(state.proving_started_at, Some(Moment::from_secs(10)));
    assert_eq!(state.accumulated_runtime_secs, 0);
}

#[test]
fn runtime_saturates() {
    let mut state = state_with(vec![event(
        Worker::Prover(0),
        EventType::Success,
        "Step 3 of 4: Proof generated for task Task-9",
    )]);
    state.proving_started_at = Some(Moment::from_secs(0));
    state.accumulated_runtime_secs = u64::MAX - 3;
    state.update_zkvm_metrics(Moment::from_secs(10));
    assert_eq!(state.accumulated_runtime_secs, u64::MAX);
}

#[test]
fn throughput_replays_the_whole_log() {
    let mut events = vec![
        event(Worker::ProofSubmitter, EventType::Success, "Step 4 of 4: Proof submitted successfully"),
        event(Worker::TaskFetcher, EventType::Success, "Fetched Task-1"),
    ];
    for _ in 0..100 {
        events.push(filler());
    }
    let mut state = state_with(events);
    state.update_zkvm_metrics(Moment::from_secs(1));
    assert_eq!(state.zkvm_metrics.tasks_proved, 1);
    assert_eq!(state.zkvm_metrics.tasks_executed, 1);
    assert_eq!(state.zkvm_metrics.total_points, 300);
    assert_eq!(state.zkvm_metrics.last_task_status, TaskStatus::Success);
}

// ---- fetch state machine ----

#[test]
fn fetch_state_machine() {
    let mut state = DashboardState::new();
    state.add_event(event(Worker::TaskFetcher, EventType::Info, "Step 1 of 4: Requesting task..."));
    state.update_fetching_state(Moment::from_secs(10));
    assert_eq!(state.fetching_state, FetchingState::Active { started_at: Moment::from_secs(10) });

    state.update_fetching_state(Moment::from_secs(16));
    assert_eq!(state.fetching_state, FetchingState::Timeout);

    state.add_event(event(Worker::TaskFetcher, EventType::Success, "Fetched Task-1"));
    state.update_fetching_state(Moment::from_secs(17));
    assert_eq!(state.fetching_state, FetchingState::Idle);
}

#[test]
fn fetch_request_with_success_type_is_no_conclusion() {
    let mut state = state_with(vec![event(
        Worker::TaskFetcher,
        EventType::Success,
        "Step 1 of 4: Requesting task...",
    )]);
    state.update_fetching_state(Moment::from_secs(10));
    assert_eq!(state.fetching_state, FetchingState::Active { started_at: Moment::from_secs(10) });
}

#[test]
fn fetch_stays_active_until_more_than_five_seconds() {
    let mut state = state_with(vec![event(
        Worker::TaskFetcher,
        EventType::Info,
        "Step 1 of 4: Requesting task...",
    )]);
    state.update_fetching_state(Moment::from_secs(10));
    state.update_fetching_state(Moment::from_secs(12));
    assert_eq!(state.fetching_state, FetchingState::Active { started_at: Moment::from_secs(10) });
    state.update_fetching_state(Moment::from_nanos(14_999_999_999));
    assert_eq!(state.fetching_state, FetchingState::Active { started_at: Moment::from_secs(10) });
    state.update_fetching_state(Moment::from_secs(15));
    assert_eq!(state.fetching_state, FetchingState::Active { started_at: Moment::from_secs(10) });
    state.update_fetching_state(Moment::from_nanos(15_000_000_001));
    assert_eq!(state.fetching_state, FetchingState::Timeout);
}

#[test]
fn fetch_times_out_after_five_and_a_half_seconds() {
    let mut state = state_with(vec![event(
        Worker::TaskFetcher,
        EventType::Success,
        "Step 1 of 4: Requesting task...",
    )]);
    state.fetching_state = FetchingState::Active { started_at: Moment::from_secs(20) };
    state.update_fetching_state(Moment::from_nanos(25_500_000_000));
    assert_eq!(state.fetching_state, FetchingState::Timeout);
}

#[test]
fn fetch_does_not_time_out_when_clock_is_behind_start() {
    let mut state = DashboardState::new();
    state.fetching_state = FetchingState::Active { started_at: Moment::from_secs(20) };
    state.update_fetching_state(Moment::from_secs(1));
    assert_eq!(state.fetching_state, FetchingState::Active { started_at: Moment::from_secs(20) });
}

#[test]
fn fetch_error_forces_idle() {
    let mut state = state_with(vec![
        event(Worker::TaskFetcher, EventType::Info, "Step 1 of 4: Requesting task..."),
        event(Worker::TaskFetcher, EventType::Error, "connection refused"),
    ]);
    state.fetching_state = FetchingState::Active { started_at: Moment::from_secs(1) };
    state.update_fetching_state(Moment::from_secs(2));
    assert_eq!(state.fetching_state, FetchingState::Idle);
    state.fetching_state = FetchingState::Timeout;
    state.update_fetching_state(Moment::from_secs(3));
    assert_eq!(state.fetching_state, FetchingState::Idle);
}

#[test]
fn fetch_conclusion_is_not_hidden_by_other_workers() {
    let mut events = vec![event(Worker::TaskFetcher, EventType::Success, "Got task Task-1")];
    for _ in 0..5 {
        events.push(event(Worker::Prover(0), EventType::Info, "working"));
    }
    let mut state = state_with(events);
    state.fetching_state = FetchingState::Timeout;
    state.update_fetching_state(Moment::from_secs(1));
    assert_eq!(state.fetching_state, FetchingState::Idle);
    for _ in 0..100 {
        state.add_event(filler());
    }
    state.fetching_state = FetchingState::Active { started_at: Moment::from_secs(1) };
    state.update_fetching_state(Moment::from_secs(2));
    assert_eq!(state.fetching_state, FetchingState::Idle);
}

#[test]
fn fetch_conclusion_window_is_five_fetcher_events() {
    let mut events = vec![
        event(Worker::TaskFetcher, EventType::Info, "Step 1 of 4: Requesting task..."),
        event(Worker::TaskFetcher, EventType::Success, "Fetched Task-1"),
    ];
    for _ in 0..4 {
        events.push(event(Worker::TaskFetcher, EventType::Waiting, "waiting"));
        events.push(filler());
    }
    let mut state = state_with(events);
    state.update_fetching_state(Moment::from_secs(1));
    assert_eq!(state.fetching_state, FetchingState::Idle);
    state.add_event(event(Worker::TaskFetcher, EventType::Waiting, "waiting"));
    state.update_fetching_state(Moment::from_secs(2));
    assert_eq!(state.fetching_state, FetchingState::Idle);
    state.fetching_state = FetchingState::Timeout;
    state.update_fetching_state(Moment::from_secs(3));
    assert_eq!(state.fetching_state, FetchingState::Timeout);
}

#[test]
fn fetch_restarts_once_the_conclusion_has_left_the_fetcher_window() {
    let mut events = vec![event(Worker::TaskFetcher, EventType::Error, "no task")];
    for _ in 0..4 {
        events.push(event(Worker::TaskFetcher, EventType::Waiting, "waiting"));
    }
    let mut state = state_with(events);
    state.add_event(event(Worker::TaskFetcher, EventType::Info, "Step 1 of 4: Requesting task..."));
    state.update_fetching_state(Moment::from_secs(4));
    assert_eq!(state.fetching_state, FetchingState::Active { started_at: Moment::from_secs(4) });
}

#[test]
fn fetch_conclusion_needs_success_or_error() {
    let mut state = state_with(vec![
        event(Worker::TaskFetcher, EventType::Info, "Fetched Task-1"),
        event(Worker::TaskFetcher, EventType::Waiting, "Fetched Task-1"),
        event(Worker::TaskFetcher, EventType::Success, "Step 1 of 4: Got task"),
        event(Worker::Prover(0), EventType::Success, "Fetched Task-1"),
        event(Worker::ProofSubmitter, EventType::Error, "Fetched Task-1"),
    ]);
    state.fetching_state = FetchingState::Timeout;
    state.update_fetching_state(Moment::from_secs(4));
    assert_eq!(state.fetching_state, FetchingState::Timeout);
}

#[test]
fn fetch_request_window_is_ten_events() {
    let mut events = vec![event(Worker::TaskFetcher, EventType::Info, "Step 1 of 4: Requesting task...")];
    for _ in 0..10 {
        events.push(filler());
    }
    let mut state = state_with(events);
    state.update_fetching_state(Moment::from_secs(1));
    assert_eq!(state.fetching_state, FetchingState::Idle);
    state.fetching_state = FetchingState::Timeout;
    state.update_fetching_state(Moment::from_secs(1));
    assert_eq!(state.fetching_state, FetchingState::Timeout);
}

#[test]
fn fetch_request_from_other_worker_is_ignored() {
    let mut state = state_with(vec![event(
        Worker::Prover(0),
        EventType::Info,
        "Step 1 of 4: Requesting task...",
    )]);
    state.update_fetching_state(Moment::from_secs(1));
    assert_eq!(state.fetching_state, FetchingState::Idle);
}

#[test]
fn fetch_timeout_restarts_while_request_is_in_view() {
    let mut state = state_with(vec![event(
        Worker::TaskFetcher,
        EventType::Info,
        "Step 1 of 4: Requesting task...",
    )]);
    state.update_fetching_state(Moment::from_secs(10));
    state.update_fetching_state(Moment::from_secs(16));
    assert_eq!(state.fetching_state, FetchingState::Timeout);
    state.update_fetching_state(Moment::from_secs(16));
    assert_eq!(state.fetching_state, FetchingState::Active { started_at: Moment::from_secs(16) });
}

// ---- prover state ----

#[test]
fn prover_state_takes_newest_announcement() {
    let mut state = state_with(vec![
        Event::state_change(Worker::Prover(0), "waiting".to_string(), "t".to_string(), ProverState::Waiting),
        Event::state_change(Worker::Prover(0), "proving".to_string(), "t".to_string(), ProverState::Proving),
        event(Worker::Prover(0), EventType::StateChange, "no payload"),
        event(Worker::Prover(0), EventType::Info, "chatter"),
    ]);
    assert_eq!(state.current_prover_state, ProverState::Waiting);
    state.update_prover_state();
    assert_eq!(state.current_prover_state, ProverState::Proving);
}

#[test]
fn prover_state_needs_state_change_type() {
    let mut e = event(Worker::Prover(0), EventType::Info, "proving");
    e.prover_state = Some(ProverState::Proving);
    let mut state = state_with(vec![e]);
    state.update_prover_state();
    assert_eq!(state.current_prover_state, ProverState::Waiting);
}

#[test]
fn prover_state_stays_when_nothing_is_announced() {
    let mut events = vec![Event::state_change(
        Worker::Prover(0),
        "proving".to_string(),
        "t".to_string(),
        ProverState::Proving,
    )];
    for _ in 0..9 {
        events.push(filler());
    }
    let mut state = state_with(events);
    state.update_prover_state();
    assert_eq!(state.current_prover_state, ProverState::Proving);
    state.current_prover_state = ProverState::Waiting;
    state.add_event(filler());
    state.update_prover_state();
    assert_eq!(state.current_prover_state, ProverState::Waiting);
    state.current_prover_state = ProverState::Proving;
    state.update_prover_state();
    assert_eq!(state.current_prover_state, ProverState::Proving);
}
