//! The execution layer: schedules, the cron job table, the cron bridge,
//! feed scheduling and execution, pipelines, tasks and teams.

pub mod schedule;
pub mod cron_service;
pub mod cron_bridge;
pub mod pipeline_executor;
pub mod team_executor;
pub mod feed_executor;
pub mod feed_scheduler;
pub mod task_executor;
