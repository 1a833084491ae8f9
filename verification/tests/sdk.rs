use aria::afw::pipeline_executor::PipelineStatus;
use aria::aria::registry::RegistryError;
use aria::aria::types::{MemoryTier, TaskStatus};
use aria::json::JsonValue;
use aria::sdk::routes::{
    agent_not_found, history_limit, list_window, not_configured, ok_deleted, ok_mutation, parse_uuid,
    pipeline_status_text, pipeline_variables, registry_err, requested_memory_tier, requested_task_status,
    team_member_names, tenant_id, STATUS_BAD_REQUEST, STATUS_CONFLICT, STATUS_INTERNAL_SERVER_ERROR,
    STATUS_NOT_FOUND, STATUS_NOT_IMPLEMENTED,
};
use aria::sdk::types::{default_tier, ErrorResponse, PaginationParams};

#[test]
fn tenant_id_from_header() {
    assert_eq!(tenant_id(Some("my-tenant")), "my-tenant");
}

#[test]
fn tenant_id_defaults_to_default() {
    assert_eq!(tenant_id(None), "default");
}

#[test]
fn parse_uuid_valid() {
    let id: u128 = 0x67e5_5044_10b1_426f_9247_bb68_0e5f_e0c8;
    assert_eq!(parse_uuid("67e55044-10b1-426f-9247-bb680e5fe0c8").unwrap(), id);
}

#[test]
fn parse_uuid_invalid() {
    let r = parse_uuid("not-a-uuid");
    assert!(r.is_err());
    let (status, body) = r.unwrap_err();
    assert_eq!(status, STATUS_BAD_REQUEST);
    assert_eq!(body.error, "Invalid UUID: not-a-uuid");
    assert_eq!(body.code, Some("INVALID_UUID".to_string()));
}

#[test]
fn error_response_not_found() {
    let err = RegistryError::NotFound { entity: "tool".into(), id: "abc".into() };
    let (status, body) = registry_err(err);
    assert_eq!(status, STATUS_NOT_FOUND);
    assert_eq!(body.error, "Not found: tool with id abc");
    assert_eq!(body.code, Some("NOT_FOUND".to_string()));
}

#[test]
fn error_response_duplicate() {
    let err = RegistryError::Duplicate { entity: "tool".into(), name: "test".into(), tenant_id: "t1".into() };
    let (status, _) = registry_err(err);
    assert_eq!(status, STATUS_CONFLICT);
}

#[test]
fn error_response_invalid_input() {
    let err = RegistryError::InvalidInput("bad data".into());
    let (status, _) = registry_err(err);
    assert_eq!(status, STATUS_BAD_REQUEST);
}

#[test]
fn error_response_database() {
    let err = RegistryError::Database("connection failed".into());
    let (status, body) = registry_err(err);
    assert_eq!(status, STATUS_INTERNAL_SERVER_ERROR);
    assert_eq!(body.code, None);
}

#[test]
fn mutation_response_ok() {
    let id: u128 = 42;
    let resp = ok_mutation(id);
    assert_eq!(resp.id, id);
    assert_eq!(resp.status, "ok");
}

#[test]
fn mutation_response_deleted() {
    let id: u128 = 43;
    let resp = ok_deleted(id);
    assert_eq!(resp.id, id);
    assert_eq!(resp.status, "deleted");
}

#[test]
fn error_response_constructors() {
    let e = ErrorResponse::new("oops");
    assert_eq!(e.error, "oops");
    assert_eq!(e.code, None);
    let c = ErrorResponse::with_code("oops", "CODE");
    assert_eq!(c.code, Some("CODE".to_string()));
    let (status, body) = not_configured("Execute not available (no LLM configured)");
    assert_eq!(status, STATUS_NOT_IMPLEMENTED);
    assert_eq!(body.code, Some("NOT_CONFIGURED".to_string()));
}

#[test]
fn pagination_defaults_and_cap() {
    let p = PaginationParams { offset: None, limit: None }.to_pagination();
    assert_eq!((p.offset, p.limit), (0, 100));
    let q = PaginationParams { offset: Some(20), limit: Some(5000) }.to_pagination();
    assert_eq!((q.offset, q.limit), (20, 1000));
    assert_eq!(list_window(&PaginationParams { offset: None, limit: Some(5000) }), (0, 5000));
    assert_eq!(history_limit(&PaginationParams { offset: None, limit: None }), 50);
    assert_eq!(history_limit(&PaginationParams { offset: None, limit: Some(999) }), 200);
}

#[test]
fn malformed_requests_are_bad_requests() {
    assert_eq!(requested_task_status("running").unwrap(), TaskStatus::Running);
    let (status, body) = requested_task_status("sleeping").unwrap_err();
    assert_eq!(status, STATUS_BAD_REQUEST);
    assert_eq!(body.error, "invalid task status: sleeping");
    assert_eq!(body.code, Some("INVALID_STATUS".to_string()));
    assert_eq!(requested_memory_tier("scratchpad").unwrap(), MemoryTier::Scratchpad);
    assert!(requested_memory_tier("forever").is_err());
    assert_eq!(default_tier(), "longterm");
}

#[test]
fn team_members_by_name_or_object() {
    let members = vec![
        JsonValue::String("alice".into()),
        JsonValue::Object(vec![("name".into(), JsonValue::String("bob".into()))]),
        JsonValue::Object(vec![("agent_name".into(), JsonValue::String("carol".into()))]),
        JsonValue::Bool(true),
    ];
    assert_eq!(team_member_names(&members), vec!["alice".to_string(), "bob".to_string()]);
    let (status, body) = agent_not_found("dave", "Not found: agent with id t1:dave");
    assert_eq!(status, STATUS_BAD_REQUEST);
    assert_eq!(body.error, "Agent 'dave' not found: Not found: agent with id t1:dave");
}

#[test]
fn pipeline_execution_defaults() {
    let v = pipeline_variables(None, "hello");
    assert_eq!(v.get("input").unwrap().as_str(), Some("hello"));
    let given = pipeline_variables(Some(JsonValue::Null), "hello");
    assert!(matches!(given, JsonValue::Null));
    assert_eq!(pipeline_status_text(PipelineStatus::PartialSuccess), "partial");
    assert_eq!(pipeline_status_text(PipelineStatus::Completed), "completed");
}

#[test]
fn parse_uuid_reads_back_printed_ids() {
    for id in [0u128, 1, u128::MAX, 0xa1a2a3a4_b1b2_c1c2_d1d2_d3d4d5d6d7d8] {
        let printed = uuid::Uuid::from_u128(id).to_string();
        assert_eq!(parse_uuid(&printed).unwrap(), id);
    }
}
