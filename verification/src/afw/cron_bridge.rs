//! CronBridge — turns Aria cron function definitions into cron jobs.
//!
//! Converts `AriaCronFunction` records (persisted in the registry) into
//! `CronJobCreate` requests for the cron job table, and decides how a
//! definition is synchronised with the job table.

use vstd::prelude::*;
use crate::afw::cron_service::CronJobCreate;
use crate::aria::cron_registry::AriaCronFunction;
use crate::aria::ids::{uuid_hyphenated, uuid_text};
use crate::aria::types::{CronPayload, CronSchedule, CronSessionTarget};
use crate::json::JsonValue;
use crate::text::str_equal;
use vstd::string::*;

verus! {

/// Errors from the bridge.
#[derive(Debug)]
pub enum BridgeError {
    InvalidConfig(String),
    RegistryError(String),
}

/// The value under `key`, or under `alt` when `key` is absent.
pub open spec fn member_or(data: JsonValue, key: Seq<char>, alt: Seq<char>) -> Option<JsonValue> {
    match data.get_spec(key) {
        Some(v) => Some(v),
        None => data.get_spec(alt),
    }
}

/// An integer member, read under `key` or else `alt`.
pub open spec fn int_member(data: JsonValue, key: Seq<char>, alt: Seq<char>) -> Option<i64> {
    match member_or(data, key, alt) {
        Some(v) => v.as_i64_spec(),
        None => None,
    }
}

/// A string member.
pub open spec fn str_member(data: JsonValue, key: Seq<char>) -> Option<Seq<char>> {
    match data.get_spec(key) {
        Some(v) => v.as_str_spec(),
        None => None,
    }
}

fn member_or_exec<'a>(data: &'a JsonValue, key: &str, alt: &str) -> (r: Option<&'a JsonValue>)
    ensures
        match r {
            Some(v) => member_or(*data, key@, alt@) == Some(*v),
            None => member_or(*data, key@, alt@) is None,
        },
{
    match data.get(key) {
        Some(v) => Some(v),
        None => data.get(alt),
    }
}

fn int_member_exec(data: &JsonValue, key: &str, alt: &str) -> (r: Option<i64>)
    ensures
        r == int_member(*data, key@, alt@),
{
    match member_or_exec(data, key, alt) {
        Some(v) => v.as_i64(),
        None => None,
    }
}

fn str_member_exec(data: &JsonValue, key: &str) -> (r: Option<String>)
    ensures
        match r {
            Some(s) => str_member(*data, key@) == Some(s@),
            None => str_member(*data, key@) is None,
        },
{
    match data.get(key) {
        Some(v) => match v.as_str() {
            Some(s) => Some(s.to_owned()),
            None => None,
        },
        None => None,
    }
}

/// The error message a schedule kind's missing field produces.
pub open spec fn missing_schedule_field(kind: Seq<char>) -> Seq<char> {
    if kind == "at"@ {
        "at schedule missing atMs"@
    } else if kind == "every"@ {
        "every schedule missing everyMs"@
    } else {
        "cron schedule missing expr"@
    }
}

/// The schedule a cron function describes:
/// - `at`: `atMs` (or `at_ms`), an integer;
/// - `every`: `everyMs` (or `every_ms`), an integer, and optionally
///   `anchorMs` (or `anchor_ms`);
/// - `cron`: `expr`, a string, and optionally a string `tz`.
pub open spec fn schedule_ok(func: AriaCronFunction, s: CronSchedule) -> bool {
    let k = func.schedule_kind@;
    let d = func.schedule_data;
    if k == "at"@ {
        int_member(d, "atMs"@, "at_ms"@) == Some(s->at_ms) && s is At
    } else if k == "every"@ {
        s is Every && int_member(d, "everyMs"@, "every_ms"@) == Some(s->every_ms) && s->anchor_ms
            == int_member(d, "anchorMs"@, "anchor_ms"@)
    } else {
        s is Cron && str_member(d, "expr"@) == Some(s->expr@) && match s->tz {
            Some(t) => str_member(d, "tz"@) == Some(t@),
            None => str_member(d, "tz"@) is None,
        }
    }
}

/// The schedule kind is known and its required field is present.
pub open spec fn schedule_parses(func: AriaCronFunction) -> bool {
    let k = func.schedule_kind@;
    let d = func.schedule_data;
    if k == "at"@ {
        int_member(d, "atMs"@, "at_ms"@) is Some
    } else if k == "every"@ {
        int_member(d, "everyMs"@, "every_ms"@) is Some
    } else if k == "cron"@ {
        str_member(d, "expr"@) is Some
    } else {
        false
    }
}

pub open spec fn known_schedule_kind(k: Seq<char>) -> bool {
    k == "at"@ || k == "every"@ || k == "cron"@
}

/// Reads the schedule of a cron function.
pub fn parse_schedule(func: &AriaCronFunction) -> (r: Result<CronSchedule, BridgeError>)
    ensures
        r is Ok <==> schedule_parses(*func),
        r matches Ok(s) ==> schedule_ok(*func, s),
        r matches Err(e) ==> (e matches BridgeError::InvalidConfig(m) && if known_schedule_kind(
            func.schedule_kind@,
        ) {
            m@ == missing_schedule_field(func.schedule_kind@)
        } else {
            m@ == "unknown schedule kind: "@ + func.schedule_kind@
        }),
{
    let kind = func.schedule_kind.as_str();
    let data = &func.schedule_data;
    if str_equal(kind, "at") {
        match int_member_exec(data, "atMs", "at_ms") {
            Some(at_ms) => Ok(CronSchedule::At { at_ms }),
            None => Err(BridgeError::InvalidConfig(String::from_str("at schedule missing atMs"))),
        }
    } else if str_equal(kind, "every") {
        match int_member_exec(data, "everyMs", "every_ms") {
            Some(every_ms) => {
                let anchor_ms = int_member_exec(data, "anchorMs", "anchor_ms");
                Ok(CronSchedule::Every { every_ms, anchor_ms })
            },
            None => Err(
                BridgeError::InvalidConfig(String::from_str("every schedule missing everyMs")),
            ),
        }
    } else if str_equal(kind, "cron") {
        match str_member_exec(data, "expr") {
            Some(expr) => {
                let tz = str_member_exec(data, "tz");
                Ok(CronSchedule::Cron { expr, tz })
            },
            None => Err(BridgeError::InvalidConfig(String::from_str("cron schedule missing expr"))),
        }
    } else {
        Err(
            BridgeError::InvalidConfig(
                String::from_str("unknown schedule kind: ").concat(func.schedule_kind.as_str()),
            ),
        )
    }
}

/// An optional string member carried over as it is.
pub open spec fn opt_str_ok(data: JsonValue, key: Seq<char>, v: Option<String>) -> bool {
    match v {
        Some(t) => str_member(data, key) == Some(t@),
        None => str_member(data, key) is None,
    }
}

/// The payload a cron function describes:
/// - `system_event`: `text`, a string;
/// - `agent_turn`: `message`, a string, and optionally `model`,
///   `thinking`, `timeoutSeconds` (or `timeout_seconds`) and `deliver`.
pub open spec fn payload_ok(func: AriaCronFunction, p: CronPayload) -> bool {
    let d = func.payload_data;
    if func.payload_kind@ == "system_event"@ {
        p is SystemEvent && str_member(d, "text"@) == Some(p->text@)
    } else {
        &&& p is AgentTurn
        &&& str_member(d, "message"@) == Some(p->message@)
        &&& opt_str_ok(d, "model"@, p->model)
        &&& opt_str_ok(d, "thinking"@, p->thinking)
        &&& p->timeout_seconds == match member_or(d, "timeoutSeconds"@, "timeout_seconds"@) {
            Some(v) => v.as_u64_spec(),
            None => None,
        }
        &&& p->deliver == match d.get_spec("deliver"@) {
            Some(v) => v.as_bool_spec(),
            None => None,
        }
    }
}

/// For an `agent_turn` payload, the model asked for is the `model` member
/// of the payload data when that member is a string, and there is none
/// otherwise; the message is the `message` member.
pub proof fn lemma_agent_turn_model(func: AriaCronFunction, p: CronPayload)
    requires
        func.payload_kind@ == "agent_turn"@,
        payload_ok(func, p),
    ensures
        p matches CronPayload::AgentTurn { message, model, .. } && (func.payload_data.get_spec("message"@)
            matches Some(JsonValue::String(s)) && s@ == message@) && match model {
            Some(m) => func.payload_data.get_spec("model"@) matches Some(JsonValue::String(s)) && s@ == m@,
            None => !(func.payload_data.get_spec("model"@) matches Some(JsonValue::String(_))),
        },
{
    reveal_strlit("agent_turn");
    reveal_strlit("system_event");
    assert("agent_turn"@[0] != "system_event"@[0]);
}

/// The payload kind is known and its required field is present.
pub open spec fn payload_parses(func: AriaCronFunction) -> bool {
    let k = func.payload_kind@;
    if k == "system_event"@ {
        str_member(func.payload_data, "text"@) is Some
    } else if k == "agent_turn"@ {
        str_member(func.payload_data, "message"@) is Some
    } else {
        false
    }
}

pub open spec fn payload_error(k: Seq<char>) -> Seq<char> {
    if k == "system_event"@ {
        "system_event payload missing text"@
    } else if k == "agent_turn"@ {
        "agent_turn payload missing message"@
    } else {
        "unknown payload kind: "@ + k
    }
}

/// Reads the payload of a cron function.
pub fn parse_payload(func: &AriaCronFunction) -> (r: Result<CronPayload, BridgeError>)
    ensures
        r is Ok <==> payload_parses(*func),
        r matches Ok(p) ==> payload_ok(*func, p),
        r matches Err(e) ==> (e matches BridgeError::InvalidConfig(m) && m@ == payload_error(
            func.payload_kind@,
        )),
{
    let kind = func.payload_kind.as_str();
    let data = &func.payload_data;
    if str_equal(kind, "system_event") {
        match str_member_exec(data, "text") {
            Some(text) => Ok(CronPayload::SystemEvent { text }),
            None => Err(
                BridgeError::InvalidConfig(String::from_str("system_event payload missing text")),
            ),
        }
    } else if str_equal(kind, "agent_turn") {
        match str_member_exec(data, "message") {
            Some(message) => {
                let model = str_member_exec(data, "model");
                let thinking = str_member_exec(data, "thinking");
                let timeout_seconds = match member_or_exec(data, "timeoutSeconds", "timeout_seconds") {
                    Some(v) => v.as_u64(),
                    None => None,
                };
                let deliver = match data.get("deliver") {
                    Some(v) => v.as_bool(),
                    None => None,
                };
                Ok(CronPayload::AgentTurn { message, model, thinking, timeout_seconds, deliver })
            },
            None => Err(
                BridgeError::InvalidConfig(String::from_str("agent_turn payload missing message")),
            ),
        }
    } else {
        Err(
            BridgeError::InvalidConfig(
                String::from_str("unknown payload kind: ").concat(func.payload_kind.as_str()),
            ),
        )
    }
}

/// The job name of a cron function's job.
pub fn cron_job_name(name: &str) -> (s: String)
    ensures
        s@ == "cron-func:"@ + name@,
{
    String::from_str("cron-func:").concat(name)
}

/// Convert a cron function into a job creation request. The schedule is
/// read first, then the payload, then the session target; the first that
/// fails gives the error.
pub fn cron_func_to_input(func: &AriaCronFunction) -> (r: Result<CronJobCreate, BridgeError>)
    ensures
        r is Ok <==> schedule_parses(*func) && payload_parses(*func) && CronSessionTarget::from_name(
            func.session_target@,
        ) is Some,
        r matches Ok(input) ==> input.name@ == "cron-func:"@ + func.name@ && schedule_ok(*func, input.schedule)
            && payload_ok(*func, input.payload) && CronSessionTarget::from_name(func.session_target@)
            == Some(input.session_target) && input.delete_after_run == (func.schedule_kind@ == "at"@)
            && match (input.agent_id, func.agent_id) {
            (Some(t), Some(a)) => t@ == uuid_hyphenated(a),
            (None, None) => true,
            _ => false,
        },
{
    let schedule = parse_schedule(func)?;
    let payload = parse_payload(func)?;
    let session_target = match CronSessionTarget::parse_str(func.session_target.as_str()) {
        Ok(t) => t,
        Err(e) => {
            return Err(BridgeError::InvalidConfig(e));
        },
    };
    let agent_id = match func.agent_id {
        Some(a) => Some(uuid_text(a)),
        None => None,
    };
    Ok(
        CronJobCreate {
            name: cron_job_name(func.name.as_str()),
            schedule,
            session_target,
            payload,
            agent_id,
            delete_after_run: str_equal(func.schedule_kind.as_str(), "at"),
        },
    )
}

/// How a cron function is brought in line with the job table.
#[derive(Debug)]
pub enum SyncPlan {
    /// Its job exists: rename and reschedule that job.
    Update { job_id: String, name: String, schedule: CronSchedule },
    /// It has no job (or its job is gone): add this job and record the
    /// new job's id on the cron function.
    Create { input: CronJobCreate },
}

/// Whether `ids` holds the id `id`.
pub fn contains_id(ids: &Vec<String>, id: &str) -> (b: bool)
    ensures
        b == exists|k: int| 0 <= k < ids@.len() && ids@[k]@ == id@,
{
    let n = ids.len();
    let mut i: usize = 0;
    while i < n
        invariant
            n == ids@.len(),
            i <= n,
            forall|k: int| 0 <= k < i ==> ids@[k]@ != id@,
        decreases n - i,
    {
        if str_equal(ids[i].as_str(), id) {
            return true;
        }
        i = i + 1;
    }
    false
}

/// Decides how to sync a cron function, given the ids of the jobs that
/// currently exist. A function whose recorded job still exists updates
/// it; any other gets a new job.
pub fn plan_sync(func: &AriaCronFunction, existing_job_ids: &Vec<String>) -> (r: Result<
    SyncPlan,
    BridgeError,
>)
    ensures
        r is Ok <==> schedule_parses(*func) && payload_parses(*func) && CronSessionTarget::from_name(
            func.session_target@,
        ) is Some,
        r matches Ok(SyncPlan::Update { job_id, name, schedule }) ==> (func.cron_job_id matches Some(j)
            && j@ == job_id@ && (exists|k: int|
            0 <= k < existing_job_ids@.len() && existing_job_ids@[k]@ == j@) && name@ == "cron-func:"@
            + func.name@ && schedule_ok(*func, schedule)),
        r matches Ok(SyncPlan::Create { input }) ==> (match func.cron_job_id {
            Some(j) => !(exists|k: int| 0 <= k < existing_job_ids@.len() && existing_job_ids@[k]@ == j@),
            None => true,
        } && input.name@ == "cron-func:"@ + func.name@ && schedule_ok(*func, input.schedule)
            && payload_ok(*func, input.payload) && CronSessionTarget::from_name(func.session_target@)
            == Some(input.session_target) && input.delete_after_run == (func.schedule_kind@ == "at"@)
            && match (input.agent_id, func.agent_id) {
            (Some(t), Some(a)) => t@ == uuid_hyphenated(a),
            (None, None) => true,
            _ => false,
        }),
{
    let input = cron_func_to_input(func)?;
    match &func.cron_job_id {
        Some(existing) => {
            if contains_id(existing_job_ids, existing.as_str()) {
                let schedule = parse_schedule(func)?;
                return Ok(SyncPlan::Update { job_id: existing.clone(), name: input.name, schedule });
            }
            Ok(SyncPlan::Create { input })
        },
        None => Ok(SyncPlan::Create { input }),
    }
}

} // verus!
