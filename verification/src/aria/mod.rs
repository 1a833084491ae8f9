//! Aria registry system: entry types and the registry-side logic.

pub mod types;
pub mod ids;
pub mod cron_registry;
pub mod agent_registry;
pub mod team_registry;
pub mod feed_registry;
pub mod registry;
pub mod kv_registry;
pub mod memory_registry;
pub mod task_registry;
pub mod tool_registry;
pub mod container_registry;
pub mod network_registry;
