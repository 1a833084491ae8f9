//! The decisions the SDK routes make: which tenant a request acts for,
//! how a registry error or a malformed request is answered, which team
//! members an execution loads, and what a list or an execution reports.

use vstd::prelude::*;
use vstd::string::*;
use crate::afw::pipeline_executor::PipelineStatus;
use crate::aria::ids::{uuid_hyphenated, uuid_parse, uuid_parsed};
use crate::aria::registry::RegistryError;
use crate::aria::types::{ContainerState, MemoryTier, TaskStatus};
use crate::json::JsonValue;
use crate::sdk::types::{ErrorResponse, MutationResponse, PaginationParams};
use crate::text::texts;

verus! {

/// HTTP 200 OK.
pub const STATUS_OK: u16 = 200;

/// HTTP 201 Created.
pub const STATUS_CREATED: u16 = 201;

/// HTTP 400 Bad Request.
pub const STATUS_BAD_REQUEST: u16 = 400;

/// HTTP 404 Not Found.
pub const STATUS_NOT_FOUND: u16 = 404;

/// HTTP 409 Conflict.
pub const STATUS_CONFLICT: u16 = 409;

/// HTTP 500 Internal Server Error.
pub const STATUS_INTERNAL_SERVER_ERROR: u16 = 500;

/// HTTP 501 Not Implemented.
pub const STATUS_NOT_IMPLEMENTED: u16 = 501;

/// An error answer: its HTTP status and body.
pub type ApiError = (u16, ErrorResponse);

/// The tenant a request acts for: the `x-tenant-id` header's text (given
/// here when the header is present and readable), else `default`.
pub fn tenant_id(header: Option<&str>) -> (t: String)
    ensures
        t@ == match header {
            Some(h) => h@,
            None => "default"@,
        },
{
    match header {
        Some(h) => h.to_owned(),
        None => String::from_str("default"),
    }
}

/// The answer to a registry error: 404 `NOT_FOUND`, 409 `DUPLICATE`,
/// 400 `INVALID_INPUT`, and 500 without a code for a database or
/// serialization failure; the body carries the error's message.
pub fn registry_err(e: RegistryError) -> (r: ApiError)
    ensures
        r.1.error@ == e.text(),
        match e {
            RegistryError::NotFound { .. } => r.0 == STATUS_NOT_FOUND && (r.1.code matches Some(c)
                && c@ == "NOT_FOUND"@),
            RegistryError::Duplicate { .. } => r.0 == STATUS_CONFLICT && (r.1.code matches Some(c)
                && c@ == "DUPLICATE"@),
            RegistryError::InvalidInput(_) => r.0 == STATUS_BAD_REQUEST && (r.1.code matches Some(c)
                && c@ == "INVALID_INPUT"@),
            _ => r.0 == STATUS_INTERNAL_SERVER_ERROR && r.1.code is None,
        },
{
    let message = e.message();
    match e {
        RegistryError::NotFound { .. } => (
            STATUS_NOT_FOUND,
            ErrorResponse::with_code(message.as_str(), "NOT_FOUND"),
        ),
        RegistryError::Duplicate { .. } => (
            STATUS_CONFLICT,
            ErrorResponse::with_code(message.as_str(), "DUPLICATE"),
        ),
        RegistryError::InvalidInput(_) => (
            STATUS_BAD_REQUEST,
            ErrorResponse::with_code(message.as_str(), "INVALID_INPUT"),
        ),
        _ => (STATUS_INTERNAL_SERVER_ERROR, ErrorResponse::new(message.as_str())),
    }
}

/// A 400 answer with this message and code.
pub fn bad_request(message: &str, code: &str) -> (r: ApiError)
    ensures
        r.0 == STATUS_BAD_REQUEST,
        r.1.error@ == message@,
        r.1.code matches Some(c) && c@ == code@,
{
    (STATUS_BAD_REQUEST, ErrorResponse::with_code(message, code))
}

/// Reads an id from a path: the UUID the text denotes, else a 400
/// `INVALID_UUID` answer that quotes the text. The printed form of an id
/// reads back as that id.
pub fn parse_uuid(s: &str) -> (r: Result<u128, ApiError>)
    ensures
        forall|v: u128| #[trigger] uuid_hyphenated(v) == s@ ==> r == Ok::<u128, ApiError>(v),
        match uuid_parsed(s@) {
            Some(v) => r == Ok::<u128, ApiError>(v),
            None => r matches Err(e) && e.0 == STATUS_BAD_REQUEST && e.1.error@ == "Invalid UUID: "@
                + s@ && (e.1.code matches Some(c) && c@ == "INVALID_UUID"@),
        },
{
    match uuid_parse(s) {
        Some(v) => Ok(v),
        None => {
            let message = String::from_str("Invalid UUID: ").concat(s);
            Err(bad_request(message.as_str(), "INVALID_UUID"))
        },
    }
}

/// The answer to a mutation that kept the entry.
pub fn ok_mutation(id: u128) -> (r: MutationResponse)
    ensures
        r.id == id,
        r.status@ == "ok"@,
{
    MutationResponse { id, status: "ok" }
}

/// The answer to a deletion.
pub fn ok_deleted(id: u128) -> (r: MutationResponse)
    ensures
        r.id == id,
        r.status@ == "deleted"@,
{
    MutationResponse { id, status: "deleted" }
}

/// A 501 `NOT_CONFIGURED` answer: the server lacks what the route needs.
pub fn not_configured(message: &str) -> (r: ApiError)
    ensures
        r.0 == STATUS_NOT_IMPLEMENTED,
        r.1.error@ == message@,
        r.1.code matches Some(c) && c@ == "NOT_CONFIGURED"@,
{
    (STATUS_NOT_IMPLEMENTED, ErrorResponse::with_code(message, "NOT_CONFIGURED"))
}

/// A 500 answer without a code.
pub fn internal_error(message: &str) -> (r: ApiError)
    ensures
        r.0 == STATUS_INTERNAL_SERVER_ERROR,
        r.1.error@ == message@,
        r.1.code is None,
{
    (STATUS_INTERNAL_SERVER_ERROR, ErrorResponse::new(message))
}

/// Reads the status of a task status update; an unknown status is a 400
/// `INVALID_STATUS` answer with the parse error.
pub fn requested_task_status(s: &str) -> (r: Result<TaskStatus, ApiError>)
    ensures
        match TaskStatus::from_name(s@) {
            Some(v) => r == Ok::<TaskStatus, ApiError>(v),
            None => r matches Err(e) && e.0 == STATUS_BAD_REQUEST && e.1.error@ == "invalid task status: "@
                + s@ && (e.1.code matches Some(c) && c@ == "INVALID_STATUS"@),
        },
{
    match TaskStatus::parse_str(s) {
        Ok(v) => Ok(v),
        Err(m) => Err(bad_request(m.as_str(), "INVALID_STATUS")),
    }
}

/// Reads the tier of a memory set request; an unknown tier is a 400
/// `INVALID_TIER` answer with the parse error.
pub fn requested_memory_tier(s: &str) -> (r: Result<MemoryTier, ApiError>)
    ensures
        match MemoryTier::from_name(s@) {
            Some(v) => r == Ok::<MemoryTier, ApiError>(v),
            None => r matches Err(e) && e.0 == STATUS_BAD_REQUEST && e.1.error@ == "invalid memory tier: "@
                + s@ && (e.1.code matches Some(c) && c@ == "INVALID_TIER"@),
        },
{
    match MemoryTier::parse_str(s) {
        Ok(v) => Ok(v),
        Err(m) => Err(bad_request(m.as_str(), "INVALID_TIER")),
    }
}

/// Reads the state of a container runtime update; an unknown state is a
/// 400 `INVALID_STATE` answer with the parse error.
pub fn requested_container_state(s: &str) -> (r: Result<ContainerState, ApiError>)
    ensures
        match ContainerState::from_name(s@) {
            Some(v) => r == Ok::<ContainerState, ApiError>(v),
            None => r matches Err(e) && e.0 == STATUS_BAD_REQUEST && e.1.error@ == "invalid container state: "@
                + s@ && (e.1.code matches Some(c) && c@ == "INVALID_STATE"@),
        },
{
    match ContainerState::parse_str(s) {
        Ok(v) => Ok(v),
        Err(m) => Err(bad_request(m.as_str(), "INVALID_STATE")),
    }
}

/// The offset and limit a list answer reports: as asked, 0 and 100 by
/// default.
pub fn list_window(params: &PaginationParams) -> (r: (i64, i64))
    ensures
        r.0 == match params.offset {
            Some(o) => o,
            None => 0,
        },
        r.1 == match params.limit {
            Some(l) => l,
            None => 100,
        },
{
    (
        match params.offset {
            Some(o) => o,
            None => 0,
        },
        match params.limit {
            Some(l) => l,
            None => 100,
        },
    )
}

/// How many feed items or runs a listing returns: as asked (50 by
/// default), at most 200.
pub fn history_limit(params: &PaginationParams) -> (n: i64)
    ensures
        n == {
            let l = match params.limit {
                Some(l) => l,
                None => 50,
            };
            if l <= 200 {
                l
            } else {
                200
            }
        },
{
    let l = match params.limit {
        Some(l) => l,
        None => 50,
    };
    if l <= 200 {
        l
    } else {
        200
    }
}

/// The name a team member entry gives: the text of a string entry, or the
/// `name` member of an object entry when it is a string.
pub open spec fn member_name(m: JsonValue) -> Option<Seq<char>> {
    match m {
        JsonValue::String(s) => Some(s@),
        JsonValue::Object(_) => match m.get_spec("name"@) {
            Some(n) => n.as_str_spec(),
            None => None,
        },
        _ => None,
    }
}

/// The names of the members that give one, in order.
pub open spec fn member_names(members: Seq<JsonValue>) -> Seq<Seq<char>>
    decreases members.len(),
{
    if members.len() == 0 {
        Seq::empty()
    } else {
        let rest = member_names(members.drop_last());
        match member_name(members.last()) {
            Some(n) => rest.push(n),
            None => rest,
        }
    }
}

/// The agent names a team execution loads: the members given as names or
/// as objects with a name, in order; other members are skipped.
pub fn team_member_names(members: &Vec<JsonValue>) -> (names: Vec<String>)
    ensures
        texts(names@) == member_names(members@),
{
    let mut names: Vec<String> = Vec::new();
    let n = members.len();
    let mut i: usize = 0;
    while i < n
        invariant
            n == members@.len(),
            i <= n,
            texts(names@) == member_names(members@.take(i as int)),
        decreases n - i,
    {
        let m = &members[i];
        let found: Option<String> = match m {
            JsonValue::String(s) => Some(s.clone()),
            JsonValue::Object(_) => match m.get("name") {
                Some(v) => match v.as_str() {
                    Some(t) => Some(t.to_owned()),
                    None => None,
                },
                None => None,
            },
            _ => None,
        };
        proof {
            assert(members@.take(i + 1).drop_last() =~= members@.take(i as int));
            assert(members@.take(i + 1).last() == members@[i as int]);
        }
        match found {
            Some(name) => {
                proof {
                    crate::text::lemma_texts_push(names@, name);
                }
                names.push(name);
            },
            None => {},
        }
        i = i + 1;
    }
    proof {
        assert(members@.take(n as int) =~= members@);
    }
    names
}

/// The 400 `AGENT_NOT_FOUND` answer of a team member that names no agent.
pub fn agent_not_found(name: &str, error: &str) -> (r: ApiError)
    ensures
        r.0 == STATUS_BAD_REQUEST,
        r.1.error@ == "Agent '"@ + name@ + "' not found: "@ + error@,
        r.1.code matches Some(c) && c@ == "AGENT_NOT_FOUND"@,
{
    let message = String::from_str("Agent '").concat(name).concat("' not found: ").concat(error);
    bad_request(message.as_str(), "AGENT_NOT_FOUND")
}

/// The variables a pipeline execution starts with: those of the request,
/// else `{"input": <the request's input>}`.
pub fn pipeline_variables(variables: Option<JsonValue>, input: &str) -> (v: JsonValue)
    ensures
        match variables {
            Some(given) => v == given,
            None => v matches JsonValue::Object(m) && m@.len() == 1 && m@[0].0@ == "input"@ && (m@[0].1 matches JsonValue::String(t)
                && t@ == input@),
        },
{
    match variables {
        Some(given) => given,
        None => {
            let mut members: Vec<(String, JsonValue)> = Vec::new();
            members.push((String::from_str("input"), JsonValue::String(input.to_owned())));
            JsonValue::Object(members)
        },
    }
}

/// The status text an execution answer reports for a pipeline run.
pub fn pipeline_status_text(status: PipelineStatus) -> (s: &'static str)
    ensures
        s@ == match status {
            PipelineStatus::Completed => "completed"@,
            PipelineStatus::Failed => "failed"@,
            PipelineStatus::PartialSuccess => "partial"@,
        },
{
    match status {
        PipelineStatus::Completed => "completed",
        PipelineStatus::Failed => "failed",
        PipelineStatus::PartialSuccess => "partial",
    }
}

} // verus!
