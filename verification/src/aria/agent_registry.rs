//! Agent definitions: the fields the executors read, the defaults an
//! upload falls back on, and the prompt section that lists the agents.

use vstd::prelude::*;
use vstd::string::*;
use crate::json::JsonValue;
use crate::text::{decimal, decimal_text};

verus! {

/// A registered agent definition.
#[derive(Debug, Clone)]
pub struct AriaAgent {
    pub id: u128,
    pub tenant_id: String,
    pub name: String,
    pub description: String,
    pub model: String,
    pub system_prompt: String,
    pub tools: JsonValue,
    pub thinking_level: Option<String>,
    pub max_retries: i32,
    pub timeout_secs: i64,
    pub runtime_injections: JsonValue,
    pub status: String,
}

/// Tool bindings of an uploaded agent that names none: an empty array.
pub fn default_tools() -> (v: JsonValue)
    ensures
        v matches JsonValue::Array(a) && a@.len() == 0,
{
    JsonValue::empty_array()
}

/// Retries of an uploaded agent that names none.
pub fn default_max_retries() -> (n: i32)
    ensures
        n == 3,
{
    3
}

/// Timeout in seconds of an uploaded agent that names none.
pub fn default_timeout_secs() -> (n: i64)
    ensures
        n == 300,
{
    300
}

/// Runtime injections of an uploaded agent that names none: an empty array.
pub fn default_runtime_injections() -> (v: JsonValue)
    ensures
        v matches JsonValue::Array(a) && a@.len() == 0,
{
    JsonValue::empty_array()
}

/// What the prompt section shows of one active agent.
pub struct AgentSummary {
    pub name: String,
    pub description: String,
    pub model: String,
    pub tools: JsonValue,
}

/// The number of tools an agent's tool bindings list: the length of an
/// array, and none otherwise.
pub open spec fn tool_count(tools: JsonValue) -> nat {
    match tools {
        JsonValue::Array(a) => a@.len(),
        _ => 0,
    }
}

/// The line of the prompt section for one agent.
pub open spec fn agent_section_line(a: AgentSummary) -> Seq<char> {
    "- **"@ + a.name@ + "**: "@ + a.description@ + " (model: "@ + a.model@ + ", tools: "@ + decimal(
        tool_count(a.tools),
    ) + ")\n"@
}

/// The lines of the prompt section for the first `n` agents.
pub open spec fn agent_section_lines(rows: Seq<AgentSummary>) -> Seq<char>
    decreases rows.len(),
{
    if rows.len() == 0 {
        Seq::empty()
    } else {
        agent_section_lines(rows.drop_last()) + agent_section_line(rows.last())
    }
}

/// The agent section of a system prompt: empty when no agent is active,
/// else a heading and one line per agent, in the order given.
pub fn agent_prompt_section(rows: &Vec<AgentSummary>) -> (s: String)
    ensures
        s@ == if rows@.len() == 0 {
            Seq::empty()
        } else {
            "## Available Agents\n\n"@ + agent_section_lines(rows@)
        },
{
    if rows.len() == 0 {
        return String::new();
    }
    let mut section = String::from_str("## Available Agents\n\n");
    let ghost head = section@;
    let n = rows.len();
    let mut i: usize = 0;
    while i < n
        invariant
            n == rows@.len(),
            i <= n,
            head == "## Available Agents\n\n"@,
            section@ == head + agent_section_lines(rows@.take(i as int)),
        decreases n - i,
    {
        let row = &rows[i];
        let count: usize = match row.tools.array_len() {
            Some(k) => k,
            None => 0,
        };
        let count_text = decimal_text(count as u64);
        section.append("- **");
        section.append(row.name.as_str());
        section.append("**: ");
        section.append(row.description.as_str());
        section.append(" (model: ");
        section.append(row.model.as_str());
        section.append(", tools: ");
        section.append(count_text.as_str());
        section.append(")\n");
        proof {
            assert(rows@.take(i + 1).drop_last() =~= rows@.take(i as int));
            assert(rows@.take(i + 1).last() == rows@[i as int]);
            assert(count == tool_count(rows@[i as int].tools));
            assert(section@ =~= head + agent_section_lines(rows@.take(i + 1)));
        }
        i = i + 1;
    }
    proof {
        assert(rows@.take(n as int) =~= rows@);
    }
    section
}

} // verus!
