use aria::afw::task_executor::{TaskSlots, free_slots, task_prompt, task_update, TaskExecutorConfig, TaskRunEnd};
use aria::aria::task_registry::{default_params, status_stamps, task_prompt_section, TaskSummary};
use aria::aria::types::TaskStatus;
use aria::json::JsonValue;
use std::time::Duration;

#[test]
fn default_config() {
    let config = TaskExecutorConfig::default();
    assert_eq!(config.max_concurrent, 3);
    assert_eq!(config.poll_interval, Duration::from_secs(5));
    assert_eq!(config.timeout, Duration::from_secs(300));
}

#[test]
fn slots_are_what_the_limit_leaves() {
    let config = TaskExecutorConfig::default();
    assert_eq!(free_slots(&config, 0), Some(3));
    assert_eq!(free_slots(&config, 2), Some(1));
    assert_eq!(free_slots(&config, 3), None);
    assert_eq!(free_slots(&config, 9), None);
}

#[test]
fn task_prompt_text() {
    assert_eq!(
        task_prompt("export", "{}"),
        "Execute the following task:\n\nTask: export\nParameters: {}\n\nProvide the result."
    );
}

#[test]
fn finished_task_updates() {
    let ok = task_update(TaskRunEnd::Answered("42".into()));
    assert_eq!(ok.status, TaskStatus::Completed);
    assert!(ok.completed);
    assert_eq!(ok.result.unwrap().get("output").unwrap().as_str(), Some("42"));
    let failed = task_update(TaskRunEnd::LlmFailed("down".into()));
    assert_eq!(failed.status, TaskStatus::Failed);
    assert_eq!(failed.error, Some("LLM error: down".to_string()));
    assert!(!failed.completed);
    let late = task_update(TaskRunEnd::TimedOut);
    assert_eq!(late.error, Some("task execution timed out".to_string()));
}

#[test]
fn default_params_is_empty_object() {
    match default_params() {
        JsonValue::Object(m) => assert!(m.is_empty()),
        _ => panic!("expected an object"),
    }
}

#[test]
fn task_status_round_trips() {
    for status in &[
        TaskStatus::Pending,
        TaskStatus::Running,
        TaskStatus::Completed,
        TaskStatus::Failed,
        TaskStatus::Cancelled,
    ] {
        let s = status.as_str();
        let parsed: TaskStatus = s.parse().unwrap();
        assert_eq!(*status, parsed);
    }
}

#[test]
fn status_changes_set_time_stamps() {
    assert_eq!(status_stamps(TaskStatus::Running), (true, false));
    assert_eq!(status_stamps(TaskStatus::Completed), (false, true));
    assert_eq!(status_stamps(TaskStatus::Failed), (false, true));
    assert_eq!(status_stamps(TaskStatus::Cancelled), (false, false));
}

#[test]
fn active_task_section() {
    assert_eq!(task_prompt_section(&vec![]), "");
    let rows = vec![TaskSummary { name: "export".into(), description: "CSV dump".into(), status: "running".into() }];
    assert_eq!(task_prompt_section(&rows), "## Active Tasks\n\n- **export** [running]: CSV dump\n");
}

#[test]
fn task_slots_never_exceed_the_limit() {
    let config = TaskExecutorConfig::default();
    let mut slots = TaskSlots::new(&config);
    assert_eq!(slots.active(), 0);
    assert_eq!(slots.start(2), 2);
    assert_eq!(slots.active(), 2);
    assert_eq!(slots.start(5), 1);
    assert_eq!(slots.active(), 3);
    assert_eq!(slots.start(1), 0);
    slots.finish();
    assert_eq!(slots.active(), 2);
    assert_eq!(slots.start(0), 0);
    assert_eq!(slots.start(4), 1);
    assert_eq!(slots.active(), 3);
}

#[test]
fn task_slots_follow_the_configured_limit() {
    let config = TaskExecutorConfig { max_concurrent: 1, ..TaskExecutorConfig::default() };
    let mut slots = TaskSlots::new(&config);
    assert_eq!(free_slots(&config, slots.active()), Some(1));
    assert_eq!(slots.start(4), 1);
    assert_eq!(free_slots(&config, slots.active()), None);
    assert_eq!(slots.start(1), 0);
    slots.finish();
    assert_eq!(slots.active(), 0);
}
