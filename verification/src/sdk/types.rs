//! SDK request and response types, and the pagination a list request asks
//! for.

use vstd::prelude::*;
use vstd::string::*;
use crate::aria::types::Pagination;
use crate::json::JsonValue;

verus! {

/// Generic success response for mutations.
#[derive(Debug)]
pub struct MutationResponse {
    pub id: u128,
    pub status: &'static str,
}

/// Error response body.
#[derive(Debug)]
pub struct ErrorResponse {
    pub error: String,
    pub code: Option<String>,
}

impl ErrorResponse {
    pub fn new(error: &str) -> (r: ErrorResponse)
        ensures
            r.error@ == error@,
            r.code is None,
    {
        ErrorResponse { error: error.to_owned(), code: None }
    }

    pub fn with_code(error: &str, code: &str) -> (r: ErrorResponse)
        ensures
            r.error@ == error@,
            r.code matches Some(c) && c@ == code@,
    {
        ErrorResponse { error: error.to_owned(), code: Some(code.to_owned()) }
    }
}

/// Pagination query parameters.
#[derive(Debug)]
pub struct PaginationParams {
    pub offset: Option<i64>,
    pub limit: Option<i64>,
}

impl PaginationParams {
    /// The page asked for: from the given offset (the start by default),
    /// of the given size (100 by default), at most 1000 entries.
    pub fn to_pagination(&self) -> (p: Pagination)
        ensures
            p.offset == match self.offset {
                Some(o) => o,
                None => 0,
            },
            p.limit == {
                let l = match self.limit {
                    Some(l) => l,
                    None => 100,
                };
                if l <= 1000 {
                    l
                } else {
                    1000
                }
            },
    {
        let limit = match self.limit {
            Some(l) => l,
            None => 100,
        };
        Pagination {
            offset: match self.offset {
                Some(o) => o,
                None => 0,
            },
            limit: if limit <= 1000 {
                limit
            } else {
                1000
            },
        }
    }
}

/// Task status update request.
#[derive(Debug)]
pub struct TaskStatusUpdate {
    pub status: String,
    pub result: Option<JsonValue>,
    pub error: Option<String>,
}

/// Feed status update request.
#[derive(Debug)]
pub struct StatusUpdate {
    pub status: String,
}

/// Container runtime state update request.
#[derive(Debug)]
pub struct ContainerRuntimeUpdate {
    pub state: String,
    pub ip: Option<String>,
    pub pid: Option<i32>,
}

/// Route context extracted from auth token.
#[derive(Debug, Clone)]
pub struct RouteContext {
    pub tenant_id: String,
    pub user_id: String,
}

/// Memory set request.
#[derive(Debug)]
pub struct MemorySetRequest {
    pub key: String,
    pub value: JsonValue,
    pub tier: String,
    pub session_id: Option<String>,
    pub ttl_seconds: Option<i64>,
}

/// Tier of a memory set request that names none.
pub fn default_tier() -> (s: String)
    ensures
        s@ == "longterm"@,
{
    String::from_str("longterm")
}

/// KV set request.
#[derive(Debug)]
pub struct KvSetRequest {
    pub key: String,
    pub value: JsonValue,
}

/// KV query request.
#[derive(Debug)]
pub struct KvQueryParams {
    pub prefix: String,
}

/// Cron job ID link request.
#[derive(Debug)]
pub struct CronJobIdUpdate {
    pub cron_job_id: String,
}

} // verus!
