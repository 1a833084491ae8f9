//! The task registry: the parameters of a task created without any, the
//! time stamps a status change sets, and the prompt section of the
//! active tasks.

use vstd::prelude::*;
use vstd::string::*;
use crate::aria::types::TaskStatus;
use crate::json::JsonValue;

verus! {

/// Parameters of a task created without any: an empty object.
pub fn default_params() -> (v: JsonValue)
    ensures
        v matches JsonValue::Object(m) && m@.len() == 0,
{
    JsonValue::empty_object()
}

/// Which time stamps a change to `status` sets: the start time on entering
/// `running` (kept if already set), the completion time on `completed` or
/// `failed`.
pub fn status_stamps(status: TaskStatus) -> (r: (bool, bool))
    ensures
        r.0 == (status == TaskStatus::Running),
        r.1 == (status == TaskStatus::Completed || status == TaskStatus::Failed),
{
    let started = match status {
        TaskStatus::Running => true,
        _ => false,
    };
    let completed = match status {
        TaskStatus::Completed => true,
        TaskStatus::Failed => true,
        _ => false,
    };
    (started, completed)
}

/// What the prompt section shows of one pending or running task.
pub struct TaskSummary {
    pub name: String,
    pub description: String,
    pub status: String,
}

/// The lines of the active tasks.
pub open spec fn task_lines(rows: Seq<TaskSummary>) -> Seq<char>
    decreases rows.len(),
{
    if rows.len() == 0 {
        Seq::empty()
    } else {
        task_lines(rows.drop_last()) + "- **"@ + rows.last().name@ + "** ["@ + rows.last().status@
            + "]: "@ + rows.last().description@ + "\n"@
    }
}

/// The task section of a system prompt: empty when no task is active,
/// else a heading and one line per task, in the order given.
pub fn task_prompt_section(rows: &Vec<TaskSummary>) -> (s: String)
    ensures
        s@ == if rows@.len() == 0 {
            Seq::empty()
        } else {
            "## Active Tasks\n\n"@ + task_lines(rows@)
        },
{
    if rows.len() == 0 {
        return String::new();
    }
    let mut section = String::from_str("## Active Tasks\n\n");
    let ghost head = section@;
    let n = rows.len();
    let mut i: usize = 0;
    while i < n
        invariant
            n == rows@.len(),
            i <= n,
            head == "## Active Tasks\n\n"@,
            section@ == head + task_lines(rows@.take(i as int)),
        decreases n - i,
    {
        let row = &rows[i];
        section.append("- **");
        section.append(row.name.as_str());
        section.append("** [");
        section.append(row.status.as_str());
        section.append("]: ");
        section.append(row.description.as_str());
        section.append("\n");
        proof {
            assert(rows@.take(i + 1).drop_last() =~= rows@.take(i as int));
            assert(rows@.take(i + 1).last() == rows@[i as int]);
            assert(section@ =~= head + task_lines(rows@.take(i + 1)));
        }
        i = i + 1;
    }
    proof {
        assert(rows@.take(n as int) =~= rows@);
    }
    section
}

} // verus!
