//! Core types for the Aria registry system.

use vstd::prelude::*;
use crate::json::JsonValue;
use crate::text::str_equal;
use vstd::string::*;

verus! {

/// Status of a registry entry (soft delete pattern).
#[derive(Debug, Clone, Copy, PartialEq, Eq, Structural)]
pub enum EntryStatus {
    Active,
    Deleted,
}

impl EntryStatus {
    /// The stored name of each status.
    pub open spec fn name(self) -> Seq<char> {
        match self {
            EntryStatus::Active => "active"@,
            EntryStatus::Deleted => "deleted"@,
        }
    }

    /// The status a stored name denotes, if any.
    pub open spec fn from_name(s: Seq<char>) -> Option<EntryStatus> {
        if s == "active"@ {
            Some(EntryStatus::Active)
        } else if s == "deleted"@ {
            Some(EntryStatus::Deleted)
        } else {
            None
        }
    }

    pub fn as_str(&self) -> (s: &'static str)
        ensures
            s@ == self.name(),
    {
        match self {
            EntryStatus::Active => "active",
            EntryStatus::Deleted => "deleted",
        }
    }

    /// Parses a stored name; the error names the rejected text.
    pub fn parse_str(s: &str) -> (r: Result<EntryStatus, String>)
        ensures
            r is Ok <==> EntryStatus::from_name(s@) is Some,
            r matches Ok(v) ==> EntryStatus::from_name(s@) == Some(v),
            r matches Err(m) ==> m@ == "invalid status: "@ + s@,
    {
        if str_equal(s, "active") {
            Ok(EntryStatus::Active)
        } else if str_equal(s, "deleted") {
            Ok(EntryStatus::Deleted)
        } else {
            Err(String::from_str("invalid status: ").concat(s))
        }
    }
}

/// Memory storage tier.
#[derive(Debug, Clone, Copy, PartialEq, Eq, Structural)]
pub enum MemoryTier {
    /// Session-scoped, cleared when session ends.
    Scratchpad,
    /// TTL-based, auto-expires.
    Ephemeral,
    /// Persistent, never expires (default).
    Longterm,
}

impl MemoryTier {
    pub open spec fn name(self) -> Seq<char> {
        match self {
            MemoryTier::Scratchpad => "scratchpad"@,
            MemoryTier::Ephemeral => "ephemeral"@,
            MemoryTier::Longterm => "longterm"@,
        }
    }

    pub open spec fn from_name(s: Seq<char>) -> Option<MemoryTier> {
        if s == "scratchpad"@ {
            Some(MemoryTier::Scratchpad)
        } else if s == "ephemeral"@ {
            Some(MemoryTier::Ephemeral)
        } else if s == "longterm"@ {
            Some(MemoryTier::Longterm)
        } else {
            None
        }
    }

    pub fn as_str(&self) -> (s: &'static str)
        ensures
            s@ == self.name(),
    {
        match self {
            MemoryTier::Scratchpad => "scratchpad",
            MemoryTier::Ephemeral => "ephemeral",
            MemoryTier::Longterm => "longterm",
        }
    }

    pub fn parse_str(s: &str) -> (r: Result<MemoryTier, String>)
        ensures
            r is Ok <==> MemoryTier::from_name(s@) is Some,
            r matches Ok(v) ==> MemoryTier::from_name(s@) == Some(v),
            r matches Err(m) ==> m@ == "invalid memory tier: "@ + s@,
    {
        if str_equal(s, "scratchpad") {
            Ok(MemoryTier::Scratchpad)
        } else if str_equal(s, "ephemeral") {
            Ok(MemoryTier::Ephemeral)
        } else if str_equal(s, "longterm") {
            Ok(MemoryTier::Longterm)
        } else {
            Err(String::from_str("invalid memory tier: ").concat(s))
        }
    }
}

/// Task execution status.
#[derive(Debug, Clone, Copy, PartialEq, Eq, Structural)]
pub enum TaskStatus {
    Pending,
    Running,
    Completed,
    Failed,
    Cancelled,
}

impl TaskStatus {
    pub open spec fn name(self) -> Seq<char> {
        match self {
            TaskStatus::Pending => "pending"@,
            TaskStatus::Running => "running"@,
            TaskStatus::Completed => "completed"@,
            TaskStatus::Failed => "failed"@,
            TaskStatus::Cancelled => "cancelled"@,
        }
    }

    pub open spec fn from_name(s: Seq<char>) -> Option<TaskStatus> {
        if s == "pending"@ {
            Some(TaskStatus::Pending)
        } else if s == "running"@ {
            Some(TaskStatus::Running)
        } else if s == "completed"@ {
            Some(TaskStatus::Completed)
        } else if s == "failed"@ {
            Some(TaskStatus::Failed)
        } else if s == "cancelled"@ {
            Some(TaskStatus::Cancelled)
        } else {
            None
        }
    }

    pub fn as_str(&self) -> (s: &'static str)
        ensures
            s@ == self.name(),
    {
        match self {
            TaskStatus::Pending => "pending",
            TaskStatus::Running => "running",
            TaskStatus::Completed => "completed",
            TaskStatus::Failed => "failed",
            TaskStatus::Cancelled => "cancelled",
        }
    }

    pub fn parse_str(s: &str) -> (r: Result<TaskStatus, String>)
        ensures
            r is Ok <==> TaskStatus::from_name(s@) is Some,
            r matches Ok(v) ==> TaskStatus::from_name(s@) == Some(v),
            r matches Err(m) ==> m@ == "invalid task status: "@ + s@,
    {
        if str_equal(s, "pending") {
            Ok(TaskStatus::Pending)
        } else if str_equal(s, "running") {
            Ok(TaskStatus::Running)
        } else if str_equal(s, "completed") {
            Ok(TaskStatus::Completed)
        } else if str_equal(s, "failed") {
            Ok(TaskStatus::Failed)
        } else if str_equal(s, "cancelled") {
            Ok(TaskStatus::Cancelled)
        } else {
            Err(String::from_str("invalid task status: ").concat(s))
        }
    }
}

/// Team execution mode.
#[derive(Debug, Clone, Copy, PartialEq, Eq, Structural)]
pub enum TeamMode {
    /// One agent routes to others.
    Coordinator,
    /// Agents take turns in order.
    RoundRobin,
    /// Pick the best agent per task.
    Delegate,
    /// All agents run simultaneously.
    Parallel,
    /// Agents run in sequence, passing results.
    Sequential,
}

impl TeamMode {
    pub open spec fn name(self) -> Seq<char> {
        match self {
            TeamMode::Coordinator => "coordinator"@,
            TeamMode::RoundRobin => "round_robin"@,
            TeamMode::Delegate => "delegate"@,
            TeamMode::Parallel => "parallel"@,
            TeamMode::Sequential => "sequential"@,
        }
    }

    /// The mode a stored name denotes; `delegate_to_best` is an accepted alias.
    pub open spec fn from_name(s: Seq<char>) -> Option<TeamMode> {
        if s == "coordinator"@ {
            Some(TeamMode::Coordinator)
        } else if s == "round_robin"@ {
            Some(TeamMode::RoundRobin)
        } else if s == "delegate"@ || s == "delegate_to_best"@ {
            Some(TeamMode::Delegate)
        } else if s == "parallel"@ {
            Some(TeamMode::Parallel)
        } else if s == "sequential"@ {
            Some(TeamMode::Sequential)
        } else {
            None
        }
    }

    pub fn as_str(&self) -> (s: &'static str)
        ensures
            s@ == self.name(),
    {
        match self {
            TeamMode::Coordinator => "coordinator",
            TeamMode::RoundRobin => "round_robin",
            TeamMode::Delegate => "delegate",
            TeamMode::Parallel => "parallel",
            TeamMode::Sequential => "sequential",
        }
    }

    pub fn parse_str(s: &str) -> (r: Result<TeamMode, String>)
        ensures
            r is Ok <==> TeamMode::from_name(s@) is Some,
            r matches Ok(v) ==> TeamMode::from_name(s@) == Some(v),
            r matches Err(m) ==> m@ == "invalid team mode: "@ + s@,
    {
        if str_equal(s, "coordinator") {
            Ok(TeamMode::Coordinator)
        } else if str_equal(s, "round_robin") {
            Ok(TeamMode::RoundRobin)
        } else if str_equal(s, "delegate") || str_equal(s, "delegate_to_best") {
            Ok(TeamMode::Delegate)
        } else if str_equal(s, "parallel") {
            Ok(TeamMode::Parallel)
        } else if str_equal(s, "sequential") {
            Ok(TeamMode::Sequential)
        } else {
            Err(String::from_str("invalid team mode: ").concat(s))
        }
    }
}

/// Cron schedule kind.
#[derive(Debug, PartialEq, Eq)]
pub enum CronSchedule {
    /// One-shot at a specific time.
    At { at_ms: i64 },
    /// Recurring interval.
    Every { every_ms: i64, anchor_ms: Option<i64> },
    /// Cron expression.
    Cron { expr: String, tz: Option<String> },
}

/// A copy of an optional string.
pub fn clone_opt_string(o: &Option<String>) -> (r: Option<String>)
    ensures
        r == *o,
{
    match o {
        Some(s) => Some(s.clone()),
        None => None,
    }
}

impl Clone for CronSchedule {
    fn clone(&self) -> (r: CronSchedule)
        ensures
            r == *self,
    {
        match self {
            CronSchedule::At { at_ms } => CronSchedule::At { at_ms: *at_ms },
            CronSchedule::Every { every_ms, anchor_ms } => CronSchedule::Every {
                every_ms: *every_ms,
                anchor_ms: *anchor_ms,
            },
            CronSchedule::Cron { expr, tz } => CronSchedule::Cron {
                expr: expr.clone(),
                tz: clone_opt_string(tz),
            },
        }
    }
}

/// Cron session target.
#[derive(Debug, Clone, Copy, PartialEq, Eq, Structural)]
pub enum CronSessionTarget {
    Main,
    Isolated,
}

impl CronSessionTarget {
    pub open spec fn name(self) -> Seq<char> {
        match self {
            CronSessionTarget::Main => "main"@,
            CronSessionTarget::Isolated => "isolated"@,
        }
    }

    pub open spec fn from_name(s: Seq<char>) -> Option<CronSessionTarget> {
        if s == "main"@ {
            Some(CronSessionTarget::Main)
        } else if s == "isolated"@ {
            Some(CronSessionTarget::Isolated)
        } else {
            None
        }
    }

    pub fn as_str(&self) -> (s: &'static str)
        ensures
            s@ == self.name(),
    {
        match self {
            CronSessionTarget::Main => "main",
            CronSessionTarget::Isolated => "isolated",
        }
    }

    pub fn parse_str(s: &str) -> (r: Result<CronSessionTarget, String>)
        ensures
            r is Ok <==> CronSessionTarget::from_name(s@) is Some,
            r matches Ok(v) ==> CronSessionTarget::from_name(s@) == Some(v),
            r matches Err(m) ==> m@ == "invalid session target: "@ + s@,
    {
        if str_equal(s, "main") {
            Ok(CronSessionTarget::Main)
        } else if str_equal(s, "isolated") {
            Ok(CronSessionTarget::Isolated)
        } else {
            Err(String::from_str("invalid session target: ").concat(s))
        }
    }
}

/// Cron wake mode.
#[derive(Debug, Clone, Copy, PartialEq, Eq, Structural)]
pub enum CronWakeMode {
    NextHeartbeat,
    Now,
}

impl CronWakeMode {
    /// The mode a stored name denotes; both `next-heartbeat` and
    /// `next_heartbeat` are accepted.
    pub open spec fn from_name(s: Seq<char>) -> Option<CronWakeMode> {
        if s == "next-heartbeat"@ || s == "next_heartbeat"@ {
            Some(CronWakeMode::NextHeartbeat)
        } else if s == "now"@ {
            Some(CronWakeMode::Now)
        } else {
            None
        }
    }

    pub fn parse_str(s: &str) -> (r: Result<CronWakeMode, String>)
        ensures
            r is Ok <==> CronWakeMode::from_name(s@) is Some,
            r matches Ok(v) ==> CronWakeMode::from_name(s@) == Some(v),
            r matches Err(m) ==> m@ == "invalid wake mode: "@ + s@,
    {
        if str_equal(s, "next-heartbeat") || str_equal(s, "next_heartbeat") {
            Ok(CronWakeMode::NextHeartbeat)
        } else if str_equal(s, "now") {
            Ok(CronWakeMode::Now)
        } else {
            Err(String::from_str("invalid wake mode: ").concat(s))
        }
    }
}

/// Cron payload kind.
#[derive(Debug, PartialEq, Eq)]
pub enum CronPayload {
    SystemEvent { text: String },
    AgentTurn {
        message: String,
        model: Option<String>,
        thinking: Option<String>,
        timeout_seconds: Option<u64>,
        deliver: Option<bool>,
    },
}

impl Clone for CronPayload {
    fn clone(&self) -> (r: CronPayload)
        ensures
            r == *self,
    {
        match self {
            CronPayload::SystemEvent { text } => CronPayload::SystemEvent { text: text.clone() },
            CronPayload::AgentTurn { message, model, thinking, timeout_seconds, deliver } => {
                CronPayload::AgentTurn {
                    message: message.clone(),
                    model: clone_opt_string(model),
                    thinking: clone_opt_string(thinking),
                    timeout_seconds: *timeout_seconds,
                    deliver: *deliver,
                }
            },
        }
    }
}

/// Cron isolation config.
#[derive(Debug, Clone, Default)]
pub struct CronIsolation {
    pub post_to_main_prefix: Option<String>,
    pub post_to_main_mode: Option<String>,
    pub post_to_main_max_chars: Option<usize>,
}

/// Container state.
#[derive(Debug, Clone, Copy, PartialEq, Eq, Structural)]
pub enum ContainerState {
    Pending,
    Starting,
    Running,
    Stopped,
    Exited,
    Error,
}

impl ContainerState {
    pub open spec fn name(self) -> Seq<char> {
        match self {
            ContainerState::Pending => "pending"@,
            ContainerState::Starting => "starting"@,
            ContainerState::Running => "running"@,
            ContainerState::Stopped => "stopped"@,
            ContainerState::Exited => "exited"@,
            ContainerState::Error => "error"@,
        }
    }

    pub open spec fn from_name(s: Seq<char>) -> Option<ContainerState> {
        if s == "pending"@ {
            Some(ContainerState::Pending)
        } else if s == "starting"@ {
            Some(ContainerState::Starting)
        } else if s == "running"@ {
            Some(ContainerState::Running)
        } else if s == "stopped"@ {
            Some(ContainerState::Stopped)
        } else if s == "exited"@ {
            Some(ContainerState::Exited)
        } else if s == "error"@ {
            Some(ContainerState::Error)
        } else {
            None
        }
    }

    pub fn as_str(&self) -> (s: &'static str)
        ensures
            s@ == self.name(),
    {
        match self {
            ContainerState::Pending => "pending",
            ContainerState::Starting => "starting",
            ContainerState::Running => "running",
            ContainerState::Stopped => "stopped",
            ContainerState::Exited => "exited",
            ContainerState::Error => "error",
        }
    }

    pub fn parse_str(s: &str) -> (r: Result<ContainerState, String>)
        ensures
            r is Ok <==> ContainerState::from_name(s@) is Some,
            r matches Ok(v) ==> ContainerState::from_name(s@) == Some(v),
            r matches Err(m) ==> m@ == "invalid container state: "@ + s@,
    {
        if str_equal(s, "pending") {
            Ok(ContainerState::Pending)
        } else if str_equal(s, "starting") {
            Ok(ContainerState::Starting)
        } else if str_equal(s, "running") {
            Ok(ContainerState::Running)
        } else if str_equal(s, "stopped") {
            Ok(ContainerState::Stopped)
        } else if str_equal(s, "exited") {
            Ok(ContainerState::Exited)
        } else if str_equal(s, "error") {
            Ok(ContainerState::Error)
        } else {
            Err(String::from_str("invalid container state: ").concat(s))
        }
    }
}

/// Restart policy for containers.
#[derive(Debug, Clone, Copy, PartialEq, Eq, Structural)]
pub enum RestartPolicy {
    No,
    Always,
    OnFailure,
    UnlessStopped,
}

impl RestartPolicy {
    pub open spec fn name(self) -> Seq<char> {
        match self {
            RestartPolicy::No => "no"@,
            RestartPolicy::Always => "always"@,
            RestartPolicy::OnFailure => "on_failure"@,
            RestartPolicy::UnlessStopped => "unless_stopped"@,
        }
    }

    /// The policy a stored name denotes; the kebab-case spellings are accepted too.
    pub open spec fn from_name(s: Seq<char>) -> Option<RestartPolicy> {
        if s == "no"@ {
            Some(RestartPolicy::No)
        } else if s == "always"@ {
            Some(RestartPolicy::Always)
        } else if s == "on_failure"@ || s == "on-failure"@ {
            Some(RestartPolicy::OnFailure)
        } else if s == "unless_stopped"@ || s == "unless-stopped"@ {
            Some(RestartPolicy::UnlessStopped)
        } else {
            None
        }
    }

    pub fn as_str(&self) -> (s: &'static str)
        ensures
            s@ == self.name(),
    {
        match self {
            RestartPolicy::No => "no",
            RestartPolicy::Always => "always",
            RestartPolicy::OnFailure => "on_failure",
            RestartPolicy::UnlessStopped => "unless_stopped",
        }
    }

    pub fn parse_str(s: &str) -> (r: Result<RestartPolicy, String>)
        ensures
            r is Ok <==> RestartPolicy::from_name(s@) is Some,
            r matches Ok(v) ==> RestartPolicy::from_name(s@) == Some(v),
            r matches Err(m) ==> m@ == "invalid restart policy: "@ + s@,
    {
        if str_equal(s, "no") {
            Ok(RestartPolicy::No)
        } else if str_equal(s, "always") {
            Ok(RestartPolicy::Always)
        } else if str_equal(s, "on_failure") || str_equal(s, "on-failure") {
            Ok(RestartPolicy::OnFailure)
        } else if str_equal(s, "unless_stopped") || str_equal(s, "unless-stopped") {
            Ok(RestartPolicy::UnlessStopped)
        } else {
            Err(String::from_str("invalid restart policy: ").concat(s))
        }
    }
}

/// Every status name parses back to the status it names.
pub proof fn lemma_entry_status_roundtrip(x: EntryStatus)
    ensures
        EntryStatus::from_name(x.name()) == Some(x),
{
    reveal_strlit("active");
    reveal_strlit("deleted");
    assert("active"@ != "deleted"@) by { assert("active"@.len() != "deleted"@.len()); }
}

/// Every memory tier name parses back to the tier it names.
pub proof fn lemma_memory_tier_roundtrip(x: MemoryTier)
    ensures
        MemoryTier::from_name(x.name()) == Some(x),
{
    reveal_strlit("scratchpad");
    reveal_strlit("ephemeral");
    reveal_strlit("longterm");
    assert("scratchpad"@ != "ephemeral"@) by { assert("scratchpad"@.len() != "ephemeral"@.len()); }
    assert("scratchpad"@ != "longterm"@) by { assert("scratchpad"@.len() != "longterm"@.len()); }
    assert("ephemeral"@ != "longterm"@) by { assert("ephemeral"@.len() != "longterm"@.len()); }
}

/// Every task status name parses back to the status it names.
pub proof fn lemma_task_status_roundtrip(x: TaskStatus)
    ensures
        TaskStatus::from_name(x.name()) == Some(x),
{
    reveal_strlit("pending");
    reveal_strlit("running");
    reveal_strlit("completed");
    reveal_strlit("failed");
    reveal_strlit("cancelled");
    assert("pending"@ != "running"@) by { assert("pending"@[0] != "running"@[0]); }
    assert("pending"@ != "completed"@) by { assert("pending"@.len() != "completed"@.len()); }
    assert("pending"@ != "failed"@) by { assert("pending"@.len() != "failed"@.len()); }
    assert("pending"@ != "cancelled"@) by { assert("pending"@.len() != "cancelled"@.len()); }
    assert("running"@ != "completed"@) by { assert("running"@.len() != "completed"@.len()); }
    assert("running"@ != "failed"@) by { assert("running"@.len() != "failed"@.len()); }
    assert("running"@ != "cancelled"@) by { assert("running"@.len() != "cancelled"@.len()); }
    assert("completed"@ != "failed"@) by { assert("completed"@.len() != "failed"@.len()); }
    assert("completed"@ != "cancelled"@) by { assert("completed"@[1] != "cancelled"@[1]); }
    assert("failed"@ != "cancelled"@) by { assert("failed"@.len() != "cancelled"@.len()); }
}

/// Every team mode name parses back to the mode it names.
pub proof fn lemma_team_mode_roundtrip(x: TeamMode)
    ensures
        TeamMode::from_name(x.name()) == Some(x),
{
    reveal_strlit("coordinator");
    reveal_strlit("round_robin");
    reveal_strlit("delegate");
    reveal_strlit("delegate_to_best");
    reveal_strlit("parallel");
    reveal_strlit("sequential");
    assert("coordinator"@ != "round_robin"@) by { assert("coordinator"@[0] != "round_robin"@[0]); }
    assert("coordinator"@ != "delegate"@) by { assert("coordinator"@.len() != "delegate"@.len()); }
    assert("coordinator"@ != "delegate_to_best"@) by { assert("coordinator"@.len() != "delegate_to_best"@.len()); }
    assert("coordinator"@ != "parallel"@) by { assert("coordinator"@.len() != "parallel"@.len()); }
    assert("coordinator"@ != "sequential"@) by { assert("coordinator"@.len() != "sequential"@.len()); }
    assert("round_robin"@ != "delegate"@) by { assert("round_robin"@.len() != "delegate"@.len()); }
    assert("round_robin"@ != "delegate_to_best"@) by { assert("round_robin"@.len() != "delegate_to_best"@.len()); }
    assert("round_robin"@ != "parallel"@) by { assert("round_robin"@.len() != "parallel"@.len()); }
    assert("round_robin"@ != "sequential"@) by { assert("round_robin"@.len() != "sequential"@.len()); }
    assert("delegate"@ != "delegate_to_best"@) by { assert("delegate"@.len() != "delegate_to_best"@.len()); }
    assert("delegate"@ != "parallel"@) by { assert("delegate"@[0] != "parallel"@[0]); }
    assert("delegate"@ != "sequential"@) by { assert("delegate"@.len() != "sequential"@.len()); }
    assert("delegate_to_best"@ != "parallel"@) by { assert("delegate_to_best"@.len() != "parallel"@.len()); }
    assert("delegate_to_best"@ != "sequential"@) by { assert("delegate_to_best"@.len() != "sequential"@.len()); }
    assert("parallel"@ != "sequential"@) by { assert("parallel"@.len() != "sequential"@.len()); }
}

/// Every session target name parses back to the target it names.
pub proof fn lemma_session_target_roundtrip(x: CronSessionTarget)
    ensures
        CronSessionTarget::from_name(x.name()) == Some(x),
{
    reveal_strlit("main");
    reveal_strlit("isolated");
    assert("main"@ != "isolated"@) by { assert("main"@.len() != "isolated"@.len()); }
}

/// Every container state name parses back to the state it names.
pub proof fn lemma_container_state_roundtrip(x: ContainerState)
    ensures
        ContainerState::from_name(x.name()) == Some(x),
{
    reveal_strlit("pending");
    reveal_strlit("starting");
    reveal_strlit("running");
    reveal_strlit("stopped");
    reveal_strlit("exited");
    reveal_strlit("error");
    assert("pending"@ != "starting"@) by { assert("pending"@.len() != "starting"@.len()); }
    assert("pending"@ != "running"@) by { assert("pending"@[0] != "running"@[0]); }
    assert("pending"@ != "stopped"@) by { assert("pending"@[0] != "stopped"@[0]); }
    assert("pending"@ != "exited"@) by { assert("pending"@.len() != "exited"@.len()); }
    assert("pending"@ != "error"@) by { assert("pending"@.len() != "error"@.len()); }
    assert("starting"@ != "running"@) by { assert("starting"@.len() != "running"@.len()); }
    assert("starting"@ != "stopped"@) by { assert("starting"@.len() != "stopped"@.len()); }
    assert("starting"@ != "exited"@) by { assert("starting"@.len() != "exited"@.len()); }
    assert("starting"@ != "error"@) by { assert("starting"@.len() != "error"@.len()); }
    assert("running"@ != "stopped"@) by { assert("running"@[0] != "stopped"@[0]); }
    assert("running"@ != "exited"@) by { assert("running"@.len() != "exited"@.len()); }
    assert("running"@ != "error"@) by { assert("running"@.len() != "error"@.len()); }
    assert("stopped"@ != "exited"@) by { assert("stopped"@.len() != "exited"@.len()); }
    assert("stopped"@ != "error"@) by { assert("stopped"@.len() != "error"@.len()); }
    assert("exited"@ != "error"@) by { assert("exited"@.len() != "error"@.len()); }
}

/// Every restart policy name parses back to the policy it names.
pub proof fn lemma_restart_policy_roundtrip(x: RestartPolicy)
    ensures
        RestartPolicy::from_name(x.name()) == Some(x),
{
    reveal_strlit("no");
    reveal_strlit("always");
    reveal_strlit("on_failure");
    reveal_strlit("on-failure");
    reveal_strlit("unless_stopped");
    reveal_strlit("unless-stopped");
    assert("no"@ != "always"@) by { assert("no"@.len() != "always"@.len()); }
    assert("no"@ != "on_failure"@) by { assert("no"@.len() != "on_failure"@.len()); }
    assert("no"@ != "on-failure"@) by { assert("no"@.len() != "on-failure"@.len()); }
    assert("no"@ != "unless_stopped"@) by { assert("no"@.len() != "unless_stopped"@.len()); }
    assert("no"@ != "unless-stopped"@) by { assert("no"@.len() != "unless-stopped"@.len()); }
    assert("always"@ != "on_failure"@) by { assert("always"@.len() != "on_failure"@.len()); }
    assert("always"@ != "on-failure"@) by { assert("always"@.len() != "on-failure"@.len()); }
    assert("always"@ != "unless_stopped"@) by { assert("always"@.len() != "unless_stopped"@.len()); }
    assert("always"@ != "unless-stopped"@) by { assert("always"@.len() != "unless-stopped"@.len()); }
    assert("on_failure"@ != "on-failure"@) by { assert("on_failure"@[2] != "on-failure"@[2]); }
    assert("on_failure"@ != "unless_stopped"@) by { assert("on_failure"@.len() != "unless_stopped"@.len()); }
    assert("on_failure"@ != "unless-stopped"@) by { assert("on_failure"@.len() != "unless-stopped"@.len()); }
    assert("on-failure"@ != "unless_stopped"@) by { assert("on-failure"@.len() != "unless_stopped"@.len()); }
    assert("on-failure"@ != "unless-stopped"@) by { assert("on-failure"@.len() != "unless-stopped"@.len()); }
    assert("unless_stopped"@ != "unless-stopped"@) by { assert("unless_stopped"@[6] != "unless-stopped"@[6]); }
}

/// Feed card types.
#[derive(Debug, Clone, PartialEq, Eq, Structural)]
pub enum FeedCardType {
    Article,
    News,
    Weather,
    Stock,
    Calendar,
    Task,
    Reminder,
    Email,
    Chat,
    Social,
    Photo,
    Video,
    Music,
    Podcast,
    /// A map card (serialized as `map`).
    GeoMap,
    Transit,
    Flight,
    Package,
    Finance,
    Health,
    Sport,
    Recipe,
    Quote,
    Custom,
}

/// A single feed item produced by a feed run.
#[derive(Debug, Clone)]
pub struct FeedItem {
    pub card_type: String,
    pub title: String,
    pub body: Option<String>,
    pub source: Option<String>,
    pub url: Option<String>,
    pub metadata: Option<JsonValue>,
    pub timestamp: Option<i64>,
}

/// Result of a feed execution.
#[derive(Debug, Clone)]
pub struct FeedResult {
    pub success: bool,
    pub items: Vec<FeedItem>,
    pub summary: Option<String>,
    pub metadata: Option<JsonValue>,
    pub error: Option<String>,
}

/// Runtime injection types — capabilities injected into agents.
#[derive(Debug, Clone, Copy, PartialEq, Eq, Structural)]
pub enum InjectionType {
    Logging,
    Memory,
    Tasks,
    Database,
    Secrets,
    Http,
    Workspace,
    Tools,
    Channels,
    Safety,
    Extensions,
    Sandbox,
}

/// A runtime injection configuration.
#[derive(Debug, Clone)]
pub struct RuntimeInjection {
    pub injection_type: InjectionType,
    pub config: JsonValue,
}

/// Pipeline step definition, as the step scheduler reads it.
#[derive(Debug, Clone)]
pub struct PipelineStep {
    pub name: String,
    /// What to execute: "tool:name", "agent:name", "team:name".
    pub execute: String,
    pub params: JsonValue,
    /// Step names this depends on.
    pub depends_on: Vec<String>,
    /// Condition expression for running this step.
    pub condition: Option<String>,
    /// How many times a failed step is retried: the retry policy's count,
    /// when the step has a policy. (The policy's backoff between attempts
    /// is a floating-point computation and stays with the caller.)
    pub max_retries: Option<u32>,
    pub timeout_secs: Option<u64>,
}

/// Default backoff between retries, in milliseconds.
pub fn default_backoff_ms() -> (ms: u64)
    ensures
        ms == 1000,
{
    1000
}

/// Team member configuration.
#[derive(Debug, Clone)]
pub struct TeamMemberConfig {
    pub agent_name: String,
    pub role: Option<String>,
    pub specialization: Option<String>,
}

/// Container volume mount.
#[derive(Debug, Clone)]
pub struct ContainerVolumeMount {
    pub host_path: String,
    pub container_path: String,
    pub read_only: bool,
}

/// Container port mapping.
#[derive(Debug, Clone)]
pub struct ContainerPort {
    pub host_port: u16,
    pub container_port: u16,
    pub protocol: String,
}

/// Default port protocol.
pub fn default_protocol() -> (p: String)
    ensures
        p@ == "tcp"@,
{
    String::from_str("tcp")
}

/// Network DNS configuration.
#[derive(Debug, Clone, Default)]
pub struct NetworkDnsConfig {
    pub servers: Vec<String>,
    pub search_domains: Vec<String>,
}

/// Generic registry entry metadata returned by list operations. Times are
/// milliseconds since the Unix epoch.
#[derive(Debug, Clone)]
pub struct RegistryMeta {
    pub id: u128,
    pub tenant_id: String,
    pub name: String,
    pub created_at_ms: i64,
    pub updated_at_ms: i64,
}

/// Pagination parameters.
#[derive(Debug, Clone)]
pub struct Pagination {
    pub offset: i64,
    pub limit: i64,
}

impl Default for Pagination {
    fn default() -> (p: Pagination)
        ensures
            p.offset == 0,
            p.limit == 100,
    {
        Pagination { offset: 0, limit: 100 }
    }
}

impl std::str::FromStr for EntryStatus {
    type Err = String;

    fn from_str(s: &str) -> (r: Result<EntryStatus, String>)
        ensures
            r is Ok <==> EntryStatus::from_name(s@) is Some,
            r matches Ok(v) ==> EntryStatus::from_name(s@) == Some(v),
            r matches Err(m) ==> m@ == "invalid status: "@ + s@,
    {
        EntryStatus::parse_str(s)
    }
}

impl std::str::FromStr for MemoryTier {
    type Err = String;

    fn from_str(s: &str) -> (r: Result<MemoryTier, String>)
        ensures
            r is Ok <==> MemoryTier::from_name(s@) is Some,
            r matches Ok(v) ==> MemoryTier::from_name(s@) == Some(v),
            r matches Err(m) ==> m@ == "invalid memory tier: "@ + s@,
    {
        MemoryTier::parse_str(s)
    }
}

impl std::str::FromStr for TaskStatus {
    type Err = String;

    fn from_str(s: &str) -> (r: Result<TaskStatus, String>)
        ensures
            r is Ok <==> TaskStatus::from_name(s@) is Some,
            r matches Ok(v) ==> TaskStatus::from_name(s@) == Some(v),
            r matches Err(m) ==> m@ == "invalid task status: "@ + s@,
    {
        TaskStatus::parse_str(s)
    }
}

impl std::str::FromStr for TeamMode {
    type Err = String;

    fn from_str(s: &str) -> (r: Result<TeamMode, String>)
        ensures
            r is Ok <==> TeamMode::from_name(s@) is Some,
            r matches Ok(v) ==> TeamMode::from_name(s@) == Some(v),
            r matches Err(m) ==> m@ == "invalid team mode: "@ + s@,
    {
        TeamMode::parse_str(s)
    }
}

impl std::str::FromStr for CronSessionTarget {
    type Err = String;

    fn from_str(s: &str) -> (r: Result<CronSessionTarget, String>)
        ensures
            r is Ok <==> CronSessionTarget::from_name(s@) is Some,
            r matches Ok(v) ==> CronSessionTarget::from_name(s@) == Some(v),
            r matches Err(m) ==> m@ == "invalid session target: "@ + s@,
    {
        CronSessionTarget::parse_str(s)
    }
}

impl std::str::FromStr for CronWakeMode {
    type Err = String;

    fn from_str(s: &str) -> (r: Result<CronWakeMode, String>)
        ensures
            r is Ok <==> CronWakeMode::from_name(s@) is Some,
            r matches Ok(v) ==> CronWakeMode::from_name(s@) == Some(v),
            r matches Err(m) ==> m@ == "invalid wake mode: "@ + s@,
    {
        CronWakeMode::parse_str(s)
    }
}

impl std::str::FromStr for ContainerState {
    type Err = String;

    fn from_str(s: &str) -> (r: Result<ContainerState, String>)
        ensures
            r is Ok <==> ContainerState::from_name(s@) is Some,
            r matches Ok(v) ==> ContainerState::from_name(s@) == Some(v),
            r matches Err(m) ==> m@ == "invalid container state: "@ + s@,
    {
        ContainerState::parse_str(s)
    }
}

impl std::str::FromStr for RestartPolicy {
    type Err = String;

    fn from_str(s: &str) -> (r: Result<RestartPolicy, String>)
        ensures
            r is Ok <==> RestartPolicy::from_name(s@) is Some,
            r matches Ok(v) ==> RestartPolicy::from_name(s@) == Some(v),
            r matches Err(m) ==> m@ == "invalid restart policy: "@ + s@,
    {
        RestartPolicy::parse_str(s)
    }
}

} // verus!
