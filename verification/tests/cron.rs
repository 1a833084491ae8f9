use aria::afw::cron_bridge::{cron_func_to_input, cron_job_name, parse_payload, parse_schedule, plan_sync, BridgeError, SyncPlan};
use aria::afw::cron_service::{dispatch, CronJobCreate, CronJobs, JobDispatch};
use aria::aria::cron_registry::{default_session_target, default_wake_mode, run_is_finished, AriaCronFunction};
use aria::aria::types::{CronPayload, CronSchedule, CronSessionTarget};
use aria::json::{JsonNumber, JsonValue};

fn obj(members: Vec<(&str, JsonValue)>) -> JsonValue {
    JsonValue::Object(members.into_iter().map(|(k, v)| (k.to_string(), v)).collect())
}

fn text(s: &str) -> JsonValue {
    JsonValue::String(s.to_string())
}

fn num(n: u64) -> JsonValue {
    JsonValue::Number(JsonNumber::PosInt(n))
}

fn func(schedule_kind: &str, schedule_data: JsonValue, payload_kind: &str, payload_data: JsonValue) -> AriaCronFunction {
    AriaCronFunction {
        id: 7,
        tenant_id: "t1".to_string(),
        name: "my-check".to_string(),
        description: "checks".to_string(),
        schedule_kind: schedule_kind.to_string(),
        schedule_data,
        session_target: "main".to_string(),
        wake_mode: "now".to_string(),
        payload_kind: payload_kind.to_string(),
        payload_data,
        isolation: None,
        cron_job_id: None,
        agent_id: None,
        status: "active".to_string(),
    }
}

fn every_minute(name: &str) -> CronJobCreate {
    CronJobCreate {
        name: name.to_string(),
        schedule: CronSchedule::Every { every_ms: 60_000, anchor_ms: None },
        session_target: CronSessionTarget::Main,
        payload: CronPayload::SystemEvent { text: "hello".to_string() },
        agent_id: None,
        delete_after_run: false,
    }
}

#[test]
fn cron_func_name_prefix() {
    let name = cron_job_name("my-check");
    assert_eq!(name, "cron-func:my-check");
}

#[test]
fn default_session_target_is_main() {
    assert_eq!(default_session_target(), "main");
}

#[test]
fn default_wake_mode_is_now() {
    assert_eq!(default_wake_mode(), "now");
}

#[test]
fn finished_runs_get_a_completion_time() {
    assert!(run_is_finished("completed"));
    assert!(run_is_finished("failed"));
    assert!(!run_is_finished("running"));
}

#[test]
fn add_and_list_jobs() {
    let mut jobs = CronJobs::new();
    jobs.add(every_minute("test-job"), "job-1".to_string(), 1_000);
    let listed = jobs.list();
    assert_eq!(listed.len(), 1);
    assert_eq!(listed[0].name, "test-job");
    assert!(listed[0].next_run_at_ms.is_some());
}

#[test]
fn remove_job() {
    let mut jobs = CronJobs::new();
    let job = jobs.add(
        CronJobCreate {
            name: "removable".to_string(),
            schedule: CronSchedule::At { at_ms: i64::MAX },
            session_target: CronSessionTarget::Main,
            payload: CronPayload::SystemEvent { text: "bye".to_string() },
            agent_id: None,
            delete_after_run: false,
        },
        "job-2".to_string(),
        1_000,
    );
    assert!(jobs.remove(&job.id));
    assert_eq!(jobs.list().len(), 0);
    assert!(!jobs.remove(&job.id));
}

#[test]
fn status_reports_correctly() {
    let jobs = CronJobs::new();
    let status = jobs.status(false);
    assert!(!status.enabled);
    assert_eq!(status.job_count, 0);
    assert_eq!(status.next_wake_at_ms, None);
}

#[test]
fn list_is_ordered_by_next_run() {
    let mut jobs = CronJobs::new();
    jobs.add(
        CronJobCreate { schedule: CronSchedule::At { at_ms: 9_000 }, ..every_minute("late") },
        "a".to_string(),
        1_000,
    );
    jobs.add(
        CronJobCreate { schedule: CronSchedule::At { at_ms: 5_000 }, ..every_minute("early") },
        "b".to_string(),
        1_000,
    );
    let listed = jobs.list();
    assert_eq!(listed[0].name, "early");
    assert_eq!(listed[1].name, "late");
    assert_eq!(jobs.status(true).next_wake_at_ms, Some(5_000));
}

#[test]
fn due_jobs_are_claimed_once() {
    let mut jobs = CronJobs::new();
    jobs.add(every_minute("tick"), "j".to_string(), 0);
    assert!(jobs.begin_due(30_000).is_empty());
    let due = jobs.begin_due(60_000);
    assert_eq!(due, vec!["j".to_string()]);
    assert!(jobs.begin_due(60_000).is_empty());
    jobs.finish_job("j", 60_500);
    let job = jobs.get("j").unwrap();
    assert_eq!(job.running_at_ms, None);
    assert_eq!(job.last_run_at_ms, Some(60_500));
    assert_eq!(job.next_run_at_ms, Some(120_000));
}

#[test]
fn one_shot_job_runs_once() {
    let mut jobs = CronJobs::new();
    jobs.add(
        CronJobCreate { schedule: CronSchedule::At { at_ms: 5_000 }, ..every_minute("once") },
        "o".to_string(),
        0,
    );
    assert_eq!(jobs.begin_due(5_000).len(), 1);
    jobs.finish_job("o", 5_100);
    assert_eq!(jobs.get("o").unwrap().next_run_at_ms, None);
    assert!(jobs.begin_due(10_000).is_empty());
}

#[test]
fn main_session_system_event_is_enqueued() {
    let mut jobs = CronJobs::new();
    let job = jobs.add(every_minute("evt"), "e".to_string(), 0);
    match dispatch(&job) {
        JobDispatch::EnqueueSystemEvent { text } => assert_eq!(text, "hello"),
        _ => panic!("expected a system event"),
    }
}

#[test]
fn next_delay_is_idle_without_jobs() {
    let jobs = CronJobs::new();
    assert_eq!(jobs.next_delay_ms(0), 60_000);
}

#[test]
fn bridge_reads_every_schedule() {
    let f = func("every", obj(vec![("every_ms", num(5_000))]), "system_event", obj(vec![("text", text("hi"))]));
    match parse_schedule(&f).unwrap() {
        CronSchedule::Every { every_ms, anchor_ms } => {
            assert_eq!(every_ms, 5_000);
            assert_eq!(anchor_ms, None);
        },
        _ => panic!("expected an interval"),
    }
    match parse_payload(&f).unwrap() {
        CronPayload::SystemEvent { text } => assert_eq!(text, "hi"),
        _ => panic!("expected a system event"),
    }
}

#[test]
fn bridge_reads_cron_schedule_with_tz() {
    let f = func(
        "cron",
        obj(vec![("expr", text("0 9 * * *")), ("tz", text("UTC"))]),
        "agent_turn",
        obj(vec![("message", text("Send the daily digest"))]),
    );
    match parse_schedule(&f).unwrap() {
        CronSchedule::Cron { expr, tz } => {
            assert_eq!(expr, "0 9 * * *");
            assert_eq!(tz, Some("UTC".to_string()));
        },
        _ => panic!("expected a cron expression"),
    }
    let input = cron_func_to_input(&f).unwrap();
    assert_eq!(input.name, "cron-func:my-check");
}

#[test]
fn bridge_rejects_unknown_kinds() {
    let f = func("weekly", obj(vec![]), "system_event", obj(vec![("text", text("x"))]));
    assert!(matches!(parse_schedule(&f), Err(BridgeError::InvalidConfig(_))));
    let g = func("at", obj(vec![("at_ms", num(10))]), "webhook", obj(vec![]));
    assert!(matches!(parse_payload(&g), Err(BridgeError::InvalidConfig(_))));
}

#[test]
fn bridge_plans_update_or_create() {
    let mut f = func("at", obj(vec![("at_ms", num(10))]), "system_event", obj(vec![("text", text("x"))]));
    match plan_sync(&f, &vec![]).unwrap() {
        SyncPlan::Create { .. } => {},
        _ => panic!("expected a new job"),
    }
    f.cron_job_id = Some("job-9".to_string());
    match plan_sync(&f, &vec!["job-9".to_string()]).unwrap() {
        SyncPlan::Update { job_id, .. } => assert_eq!(job_id, "job-9"),
        _ => panic!("expected an update"),
    }
}
