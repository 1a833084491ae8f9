//! The tool registry: the parameter schema of a tool uploaded without
//! one, the hash of its handler code, and the prompt section of the tools.

use vstd::prelude::*;
use vstd::string::*;
use crate::json::JsonValue;

pub use crate::aria::feed_registry::handler_hash;

verus! {

/// Parameter schema of a tool uploaded without one:
/// `{"type": "object", "properties": {}}`.
pub fn default_params_schema() -> (v: JsonValue)
    ensures
        v matches JsonValue::Object(m) && m@.len() == 2 && m@[0].0@ == "type"@ && (m@[0].1 matches JsonValue::String(t)
            && t@ == "object"@) && m@[1].0@ == "properties"@ && (m@[1].1 matches JsonValue::Object(p)
            && p@.len() == 0),
{
    let mut members: Vec<(String, JsonValue)> = Vec::new();
    members.push((String::from_str("type"), JsonValue::String(String::from_str("object"))));
    members.push((String::from_str("properties"), JsonValue::empty_object()));
    JsonValue::Object(members)
}

/// What the prompt section shows of one active tool.
pub struct ToolSummary {
    pub name: String,
    pub description: String,
}

/// The lines of the tools.
pub open spec fn tool_lines(rows: Seq<ToolSummary>) -> Seq<char>
    decreases rows.len(),
{
    if rows.len() == 0 {
        Seq::empty()
    } else {
        tool_lines(rows.drop_last()) + "- **"@ + rows.last().name@ + "**: "@ + rows.last().description@
            + "\n"@
    }
}

/// The tool section of a system prompt: empty when no tool is active, else
/// a heading and one line per tool, in the order given.
pub fn tool_prompt_section(rows: &Vec<ToolSummary>) -> (s: String)
    ensures
        s@ == if rows@.len() == 0 {
            Seq::empty()
        } else {
            "## Available Custom Tools\n\n"@ + tool_lines(rows@)
        },
{
    if rows.len() == 0 {
        return String::new();
    }
    let mut section = String::from_str("## Available Custom Tools\n\n");
    let ghost head = section@;
    let n = rows.len();
    let mut i: usize = 0;
    while i < n
        invariant
            n == rows@.len(),
            i <= n,
            head == "## Available Custom Tools\n\n"@,
            section@ == head + tool_lines(rows@.take(i as int)),
        decreases n - i,
    {
        let row = &rows[i];
        section.append("- **");
        section.append(row.name.as_str());
        section.append("**: ");
        section.append(row.description.as_str());
        section.append("\n");
        proof {
            assert(rows@.take(i + 1).drop_last() =~= rows@.take(i as int));
            assert(rows@.take(i + 1).last() == rows@[i as int]);
            assert(section@ =~= head + tool_lines(rows@.take(i + 1)));
        }
        i = i + 1;
    }
    proof {
        assert(rows@.take(n as int) =~= rows@);
    }
    section
}

} // verus!
