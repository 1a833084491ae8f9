//! Cron function definitions as the scheduler reads them, and the rules
//! the cron function registry applies.

use vstd::prelude::*;
use crate::json::JsonValue;
use crate::text::str_equal;
use vstd::string::*;

verus! {

/// A registered cron function definition.
#[derive(Debug, Clone)]
pub struct AriaCronFunction {
    pub id: u128,
    pub tenant_id: String,
    pub name: String,
    pub description: String,
    pub schedule_kind: String,
    pub schedule_data: JsonValue,
    pub session_target: String,
    pub wake_mode: String,
    pub payload_kind: String,
    pub payload_data: JsonValue,
    pub isolation: Option<JsonValue>,
    pub cron_job_id: Option<String>,
    pub agent_id: Option<u128>,
    pub status: String,
}

/// Session target of an uploaded cron function that names none.
pub fn default_session_target() -> (s: String)
    ensures
        s@ == "main"@,
{
    String::from_str("main")
}

/// Wake mode of an uploaded cron function that names none.
pub fn default_wake_mode() -> (s: String)
    ensures
        s@ == "now"@,
{
    String::from_str("now")
}

/// A run logged with this status has completed (successfully or not) and
/// gets a completion time.
pub fn run_is_finished(status: &str) -> (b: bool)
    ensures
        b == (status@ == "completed"@ || status@ == "failed"@),
{
    str_equal(status, "completed") || str_equal(status, "failed")
}

} // verus!
