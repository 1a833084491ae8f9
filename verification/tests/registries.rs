use aria::aria::agent_registry::{
    agent_prompt_section, default_max_retries, default_runtime_injections, default_timeout_secs, default_tools,
    AgentSummary,
};
use aria::aria::container_registry::{container_not_found, default_restart_policy, stored_container_state, stored_restart_policy};
use aria::aria::kv_registry::like_prefix_pattern;
use aria::aria::memory_registry::{default_tier, memory_not_found, memory_prompt_section, TierCount};
use aria::aria::network_registry::{default_driver, default_isolation};
use aria::aria::registry::RegistryError;
use aria::aria::tool_registry::{default_params_schema, handler_hash, tool_prompt_section, ToolSummary};
use aria::aria::types::{ContainerState, MemoryTier, RestartPolicy};
use aria::json::JsonValue;

#[test]
fn default_tools_is_empty_array() {
    match default_tools() {
        JsonValue::Array(a) => assert!(a.is_empty()),
        _ => panic!("expected an array"),
    }
}

#[test]
fn default_runtime_injections_is_empty_array() {
    match default_runtime_injections() {
        JsonValue::Array(a) => assert!(a.is_empty()),
        _ => panic!("expected an array"),
    }
}

#[test]
fn default_max_retries_value() {
    assert_eq!(default_max_retries(), 3);
}

#[test]
fn default_timeout_secs_value() {
    assert_eq!(default_timeout_secs(), 300);
}

#[test]
fn agent_section_lists_tool_counts() {
    assert_eq!(agent_prompt_section(&vec![]), "");
    let rows = vec![AgentSummary {
        name: "coder".into(),
        description: "writes code".into(),
        model: "gpt-4".into(),
        tools: JsonValue::Array(vec![JsonValue::Null, JsonValue::Null, JsonValue::Null, JsonValue::Null, JsonValue::Null, JsonValue::Null, JsonValue::Null, JsonValue::Null, JsonValue::Null, JsonValue::Null, JsonValue::Null, JsonValue::Null]),
    }, AgentSummary {
        name: "bare".into(),
        description: "no tools".into(),
        model: "m".into(),
        tools: JsonValue::Null,
    }];
    assert_eq!(
        agent_prompt_section(&rows),
        "## Available Agents\n\n- **coder**: writes code (model: gpt-4, tools: 12)\n- **bare**: no tools (model: m, tools: 0)\n"
    );
}

#[test]
fn default_restart_policy_is_no() {
    assert_eq!(default_restart_policy(), RestartPolicy::No);
    assert_eq!(stored_restart_policy("always"), RestartPolicy::Always);
    assert_eq!(stored_restart_policy("sometimes"), RestartPolicy::No);
}

#[test]
fn container_state_roundtrip() {
    for state in &[
        ContainerState::Pending,
        ContainerState::Starting,
        ContainerState::Running,
        ContainerState::Stopped,
        ContainerState::Exited,
        ContainerState::Error,
    ] {
        let parsed: ContainerState = state.as_str().parse().unwrap();
        assert_eq!(*state, parsed);
    }
}

#[test]
fn stored_container_state_defaults_to_pending() {
    assert_eq!(stored_container_state("running"), ContainerState::Running);
    assert_eq!(stored_container_state("??"), ContainerState::Pending);
}

#[test]
fn missing_container_error() {
    match container_not_found(0) {
        RegistryError::NotFound { entity, id } => {
            assert_eq!(entity, "container");
            assert_eq!(id, "00000000-0000-0000-0000-000000000000");
        },
        _ => panic!("expected not found"),
    }
}

#[test]
fn prefix_escaping_handles_special_chars() {
    let prefix = "config:%_test\\";
    let pattern = like_prefix_pattern(prefix);
    assert_eq!(pattern, "config:\\%\\_test\\\\%");
}

#[test]
fn plain_prefix_gets_a_wildcard() {
    assert_eq!(like_prefix_pattern("user."), "user.%");
    assert_eq!(like_prefix_pattern(""), "%");
}

#[test]
fn default_tier_is_longterm() {
    assert_eq!(default_tier(), MemoryTier::Longterm);
}

#[test]
fn memory_section_counts_tiers() {
    let counts = vec![
        TierCount { tier: "ephemeral".into(), count: 2 },
        TierCount { tier: "longterm".into(), count: 10 },
    ];
    let keys = vec!["a".to_string(), "b".to_string()];
    assert_eq!(
        memory_prompt_section(&counts, &keys),
        "## Memory Store\n\n- **ephemeral**: 2 entries\n- **longterm**: 10 entries\n\nRecent longterm keys: a, b\n"
    );
    let one = vec![TierCount { tier: "ephemeral".into(), count: 2 }];
    assert_eq!(memory_prompt_section(&one, &vec![]), "## Memory Store\n\n- **ephemeral**: 2 entries\n");
    assert_eq!(memory_prompt_section(&vec![], &keys), "");
}

#[test]
fn missing_memory_error() {
    let e = memory_not_found("t1", "user.theme");
    assert_eq!(e.message(), "Not found: memory with id t1:user.theme");
}

#[test]
fn network_defaults() {
    assert_eq!(default_driver(), "bridge");
    assert_eq!(default_isolation(), "default");
}

#[test]
fn default_params_schema_is_valid() {
    let schema = default_params_schema();
    assert_eq!(schema.get("type").unwrap().as_str(), Some("object"));
}

#[test]
fn tool_registry_handler_hash_is_deterministic() {
    let code = "async function execute(params) { return params; }";
    let h1 = handler_hash(code);
    let h2 = handler_hash(code);
    assert_eq!(h1, h2);
    assert_eq!(h1.len(), 64);
}

#[test]
fn tool_section_lists_tools() {
    let rows = vec![ToolSummary { name: "grep".into(), description: "search".into() }];
    assert_eq!(tool_prompt_section(&rows), "## Available Custom Tools\n\n- **grep**: search\n");
}

#[test]
fn registry_error_messages() {
    let e = RegistryError::Duplicate { entity: "tool".into(), name: "test".into(), tenant_id: "t1".into() };
    assert_eq!(e.message(), "Duplicate: tool 'test' already exists for tenant t1");
    assert_eq!(RegistryError::InvalidInput("bad".into()).message(), "Invalid input: bad");
    assert_eq!(RegistryError::Database("down".into()).message(), "Database error: down");
    assert_eq!(RegistryError::Serialization("eof".into()).message(), "Serialization error: eof");
}
