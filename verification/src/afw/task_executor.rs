//! Task execution decisions: the executor's configuration, how many
//! pending tasks one poll takes, the prompt a task runs with, and the
//! status a finished task is stored with.

use vstd::prelude::*;
use vstd::string::*;
use crate::aria::types::TaskStatus;
use crate::json::JsonValue;
use std::time::Duration;

verus! {

/// The duration of this many whole seconds.
pub uninterp spec fn duration_from_secs(secs: u64) -> Duration;

/// Calls `std::time::Duration::from_secs`. The contract names the result.
#[verifier::external_body]
fn secs(n: u64) -> (d: Duration)
    ensures
        d == duration_from_secs(n),
{
    Duration::from_secs(n)
}

/// Configuration for the task executor.
#[derive(Debug)]
pub struct TaskExecutorConfig {
    /// How often to poll for pending tasks (default: 5 seconds).
    pub poll_interval: Duration,
    /// Maximum concurrent tasks (default: 3).
    pub max_concurrent: usize,
    /// Task execution timeout (default: 5 minutes).
    pub timeout: Duration,
}

impl Clone for TaskExecutorConfig {
    fn clone(&self) -> (c: TaskExecutorConfig)
        ensures
            c == *self,
    {
        TaskExecutorConfig {
            poll_interval: self.poll_interval,
            max_concurrent: self.max_concurrent,
            timeout: self.timeout,
        }
    }
}

impl Default for TaskExecutorConfig {
    fn default() -> (c: TaskExecutorConfig)
        ensures
            c.poll_interval == duration_from_secs(5),
            c.max_concurrent == 3,
            c.timeout == duration_from_secs(300),
    {
        TaskExecutorConfig { poll_interval: secs(5), max_concurrent: 3, timeout: secs(300) }
    }
}

/// How many pending tasks a poll takes while `active` tasks run: none
/// when the executor is full, else the free slots.
pub fn free_slots(config: &TaskExecutorConfig, active: usize) -> (r: Option<usize>)
    ensures
        active >= config.max_concurrent ==> r is None,
        active < config.max_concurrent ==> r == Some((config.max_concurrent - active) as usize),
{
    if active >= config.max_concurrent {
        None
    } else {
        Some(config.max_concurrent - active)
    }
}

/// The executor's count of running tasks, held within its limit.
pub struct TaskSlots {
    active: usize,
    max: usize,
}

impl TaskSlots {
    /// How many tasks are running.
    pub closed spec fn active_spec(&self) -> nat {
        self.active as nat
    }

    /// How many tasks may run at once.
    pub closed spec fn max_spec(&self) -> nat {
        self.max as nat
    }

    /// No more tasks run than the limit allows.
    pub open spec fn wf(&self) -> bool {
        self.active_spec() <= self.max_spec()
    }

    /// No task running yet, under the executor's limit of concurrent tasks.
    pub fn new(config: &TaskExecutorConfig) -> (s: TaskSlots)
        ensures
            s.wf(),
            s.active_spec() == 0,
            s.max_spec() == config.max_concurrent,
    {
        TaskSlots { active: 0, max: config.max_concurrent }
    }

    /// How many tasks are running.
    pub fn active(&self) -> (n: usize)
        ensures
            n == self.active_spec(),
    {
        self.active
    }

    /// A poll got `returned` pending tasks: as many of them start as there
    /// are free slots, and they count as running.
    pub fn start(&mut self, returned: usize) -> (started: usize)
        requires
            old(self).wf(),
        ensures
            final(self).wf(),
            started == if returned <= old(self).max_spec() - old(self).active_spec() {
                returned as int
            } else {
                old(self).max_spec() - old(self).active_spec()
            },
            final(self).active_spec() == old(self).active_spec() + started,
            final(self).max_spec() == old(self).max_spec(),
    {
        let free = self.max - self.active;
        let started = if returned <= free {
            returned
        } else {
            free
        };
        self.active = self.active + started;
        started
    }

    /// A running task ended.
    pub fn finish(&mut self)
        requires
            old(self).wf(),
            old(self).active_spec() > 0,
        ensures
            final(self).wf(),
            final(self).active_spec() == old(self).active_spec() - 1,
            final(self).max_spec() == old(self).max_spec(),
    {
        self.active = self.active - 1;
    }
}

/// The prompt a task is run with, given its name and its parameters as
/// pretty-printed JSON.
pub fn task_prompt(task_name: &str, params_json: &str) -> (p: String)
    ensures
        p@ == "Execute the following task:\n\nTask: "@ + task_name@ + "\nParameters: "@
            + params_json@ + "\n\nProvide the result."@,
{
    String::from_str("Execute the following task:\n\nTask: ").concat(task_name).concat(
        "\nParameters: ",
    ).concat(params_json).concat("\n\nProvide the result.")
}

/// How a task's run ended.
pub enum TaskRunEnd {
    /// The model answered with this output.
    Answered(String),
    /// The model call failed with this error.
    LlmFailed(String),
    /// The run did not end within the configured timeout.
    TimedOut,
}

/// What is stored for a finished task, and which hook fires.
pub struct TaskUpdate {
    pub status: TaskStatus,
    pub result: Option<JsonValue>,
    pub error: Option<String>,
    /// The completion hook fires; otherwise the failure hook does.
    pub completed: bool,
}

/// An answered task completes with `{"output": ...}` as its result; a
/// failed call or a timeout fails it with an error text.
pub fn task_update(end: TaskRunEnd) -> (u: TaskUpdate)
    ensures
        match end {
            TaskRunEnd::Answered(out) => u.status == TaskStatus::Completed && u.completed
                && u.error is None && (u.result matches Some(JsonValue::Object(m)) && m@.len() == 1
                && m@[0].0@ == "output"@ && (m@[0].1 matches JsonValue::String(o) && o@ == out@)),
            TaskRunEnd::LlmFailed(e) => u.status == TaskStatus::Failed && !u.completed
                && u.result is None && (u.error matches Some(m) && m@ == "LLM error: "@ + e@),
            TaskRunEnd::TimedOut => u.status == TaskStatus::Failed && !u.completed
                && u.result is None && (u.error matches Some(m) && m@
                == "task execution timed out"@),
        },
{
    match end {
        TaskRunEnd::Answered(out) => {
            let mut members: Vec<(String, JsonValue)> = Vec::new();
            members.push((String::from_str("output"), JsonValue::String(out)));
            TaskUpdate {
                status: TaskStatus::Completed,
                result: Some(JsonValue::Object(members)),
                error: None,
                completed: true,
            }
        },
        TaskRunEnd::LlmFailed(e) => TaskUpdate {
            status: TaskStatus::Failed,
            result: None,
            error: Some(String::from_str("LLM error: ").concat(e.as_str())),
            completed: false,
        },
        TaskRunEnd::TimedOut => TaskUpdate {
            status: TaskStatus::Failed,
            result: None,
            error: Some(String::from_str("task execution timed out")),
            completed: false,
        },
    }
}

} // verus!
