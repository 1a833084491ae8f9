use aria::afw::feed_scheduler::{feed_interval_secs, MIN_INTERVAL_SECS};
use aria::afw::cron_service::next_run_fits_check;
use aria::afw::schedule::{compute_next_run, schedule_to_interval_secs, CHRONO_FIRST_MS, CHRONO_LAST_MS, CRON_EARLIEST_MS, CRON_LATEST_MS};
use aria::aria::feed_registry::AriaFeed;
use aria::aria::types::CronSchedule;

fn feed(refresh_seconds: i32, schedule: &str) -> AriaFeed {
    AriaFeed {
        id: 1,
        tenant_id: "t1".to_string(),
        name: "news".to_string(),
        description: "daily news".to_string(),
        handler_code: "code".to_string(),
        handler_hash: String::new(),
        schedule: schedule.to_string(),
        refresh_seconds,
        category: "general".to_string(),
        retention: None,
        display: None,
        status: "active".to_string(),
    }
}

#[test]
fn one_shot_future() {
    let now = 1_000_000;
    let schedule = CronSchedule::At { at_ms: 2_000_000 };
    assert_eq!(compute_next_run(&schedule, now), Some(2_000_000));
}

#[test]
fn one_shot_past() {
    let now = 3_000_000;
    let schedule = CronSchedule::At { at_ms: 2_000_000 };
    assert_eq!(compute_next_run(&schedule, now), None);
}

#[test]
fn interval_basic() {
    let schedule = CronSchedule::Every { every_ms: 60_000, anchor_ms: None };
    let now = 150_000;
    let next = compute_next_run(&schedule, now).unwrap();
    assert!(next > now);
    assert_eq!(next, 180_000);
}

#[test]
fn interval_with_anchor() {
    let schedule = CronSchedule::Every { every_ms: 100, anchor_ms: Some(50) };
    let now = 275;
    let next = compute_next_run(&schedule, now).unwrap();
    assert_eq!(next, 350);
}

#[test]
fn interval_zero_rejected() {
    let schedule = CronSchedule::Every { every_ms: 0, anchor_ms: None };
    assert_eq!(compute_next_run(&schedule, 100), None);
}

#[test]
fn interval_anchor_in_future_counts_periods_toward_zero() {
    let schedule = CronSchedule::Every { every_ms: 100, anchor_ms: Some(1_000) };
    let next = compute_next_run(&schedule, 750).unwrap();
    assert!(next > 750);
    assert_eq!(next, 900);
}

#[test]
fn cron_expression() {
    let schedule = CronSchedule::Cron { expr: "0 * * * *".to_string(), tz: None };
    let now = 1_700_000_000_000;
    let next = compute_next_run(&schedule, now);
    assert!(next.is_some());
    assert!(next.unwrap() > now);
    assert_eq!(next.unwrap() % 3_600_000, 0);
}

#[test]
fn cron_expression_with_time_zone() {
    let schedule = CronSchedule::Cron {
        expr: "0 9 * * *".to_string(),
        tz: Some("Europe/Berlin".to_string()),
    };
    let now = 1_700_000_000_000;
    let next = compute_next_run(&schedule, now).unwrap();
    assert!(next > now);
}

#[test]
fn schedule_to_interval_every_n_minutes() {
    assert_eq!(schedule_to_interval_secs("*/5 * * * *"), 300);
    assert_eq!(schedule_to_interval_secs("*/15 * * * *"), 900);
}

#[test]
fn schedule_to_interval_hourly() {
    assert_eq!(schedule_to_interval_secs("0 * * * *"), 3600);
    assert_eq!(schedule_to_interval_secs("30 * * * *"), 3600);
}

#[test]
fn schedule_to_interval_daily() {
    assert_eq!(schedule_to_interval_secs("0 9 * * *"), 86400);
}

#[test]
fn schedule_to_interval_falls_back_to_an_hour() {
    assert_eq!(schedule_to_interval_secs("not a schedule"), 3600);
    assert_eq!(schedule_to_interval_secs("*/x * * * *"), 3600);
    assert_eq!(schedule_to_interval_secs(""), 3600);
}

#[test]
fn interval_parsing() {
    assert_eq!(schedule_to_interval_secs("*/5 * * * *"), 300);
    assert_eq!(schedule_to_interval_secs("0 * * * *"), 3600);
}

#[test]
fn feed_interval_prefers_refresh_seconds() {
    assert_eq!(feed_interval_secs(&feed(120, "*/5 * * * *")), 120);
    assert_eq!(feed_interval_secs(&feed(0, "*/5 * * * *")), 300);
}

#[test]
fn feed_interval_is_clamped_to_a_minute() {
    assert_eq!(feed_interval_secs(&feed(5, "0 * * * *")), MIN_INTERVAL_SECS);
    assert_eq!(feed_interval_secs(&feed(0, "*/0 * * * *")), 60);
}

#[test]
fn cron_accepted_only_within_evaluable_range() {
    let schedule = CronSchedule::Cron { expr: "0 0 * * 5L".to_string(), tz: None };
    assert!(next_run_fits_check(&schedule, 1_700_000_000_000));
    assert!(next_run_fits_check(&schedule, CRON_EARLIEST_MS));
    assert!(!next_run_fits_check(&schedule, CRON_EARLIEST_MS - 1));
    assert!(next_run_fits_check(&schedule, CRON_LATEST_MS - 1));
    assert!(!next_run_fits_check(&schedule, CRON_LATEST_MS));
    assert!(!next_run_fits_check(&schedule, CHRONO_LAST_MS));
    assert!(!next_run_fits_check(&schedule, CHRONO_FIRST_MS));
    assert!(next_run_fits_check(&schedule, CHRONO_LAST_MS + 1));
    assert!(next_run_fits_check(&schedule, CHRONO_FIRST_MS - 1));
    assert!(next_run_fits_check(&schedule, i64::MAX));
    assert!(next_run_fits_check(&schedule, i64::MIN));
}

#[test]
fn cron_beyond_time_range_gives_no_run() {
    let utc = CronSchedule::Cron { expr: "* * * * *".to_string(), tz: None };
    let zoned = CronSchedule::Cron { expr: "* * * * *".to_string(), tz: Some("Asia/Tokyo".to_string()) };
    for now in [CHRONO_LAST_MS + 1, i64::MAX, CHRONO_FIRST_MS - 1, i64::MIN] {
        assert_eq!(compute_next_run(&utc, now), None);
        assert_eq!(compute_next_run(&zoned, now), None);
    }
}

#[test]
fn cron_far_future_start_gives_no_run() {
    let schedule = CronSchedule::Cron { expr: "0 0 * * 5L".to_string(), tz: Some("Asia/Tokyo".to_string()) };
    assert_eq!(compute_next_run(&schedule, CRON_LATEST_MS - 1), None);
    let utc = CronSchedule::Cron { expr: "0 0 1W * *".to_string(), tz: None };
    let _ = compute_next_run(&utc, CRON_EARLIEST_MS);
}
