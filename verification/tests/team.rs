use aria::afw::team_executor::{build_agent_messages, TeamAction, TeamError, TeamExecutor, TeamPhase};
use aria::aria::agent_registry::AriaAgent;
use aria::aria::team_registry::{stored_team_mode, AriaTeam};
use aria::aria::types::TeamMode;
use aria::json::JsonValue;
use aria::llm::Role;

fn agent(name: &str, description: &str, system_prompt: &str) -> AriaAgent {
    AriaAgent {
        id: 1,
        tenant_id: "test".into(),
        name: name.into(),
        description: description.into(),
        model: "gpt-4".into(),
        system_prompt: system_prompt.into(),
        tools: JsonValue::Array(vec![]),
        thinking_level: None,
        max_retries: 3,
        timeout_secs: 300,
        runtime_injections: JsonValue::Array(vec![]),
        status: "active".into(),
    }
}

fn team(mode: TeamMode, max_turns: Option<i64>) -> AriaTeam {
    AriaTeam {
        id: 2,
        tenant_id: "test".into(),
        name: "team".into(),
        description: "a team".into(),
        mode,
        members: vec![],
        shared_context: None,
        timeout_secs: None,
        max_turns,
        status: "active".into(),
    }
}

fn run_agent(a: &TeamAction) -> (usize, String) {
    match a {
        TeamAction::RunAgent { agent, input } => (*agent, input.clone()),
        other => panic!("expected an agent run, got {:?}", other),
    }
}

fn done(a: &TeamAction) -> (String, u32) {
    match a {
        TeamAction::Done { final_output, total_turns } => (final_output.clone(), *total_turns),
        other => panic!("expected the end, got {:?}", other),
    }
}

#[test]
fn build_messages_with_system_prompt() {
    let a = agent("test-agent", "A test agent", "You are helpful.");
    let messages = build_agent_messages(&a, "hello");
    assert_eq!(messages.len(), 2);
    assert_eq!(messages[0].content, "You are helpful.");
    assert_eq!(messages[1].content, "hello");
    assert_eq!(messages[0].role, Role::System);
    assert_eq!(messages[1].role, Role::User);
}

#[test]
fn build_messages_without_system_prompt() {
    let a = agent("test-agent", "A test agent", "");
    let messages = build_agent_messages(&a, "hello");
    assert_eq!(messages.len(), 1);
    assert_eq!(messages[0].content, "hello");
}

#[test]
fn team_without_agents_is_refused() {
    let exec = TeamExecutor::new();
    match exec.start(&team(TeamMode::Coordinator, None), &vec![], "x") {
        Err(TeamError::InvalidConfig(m)) => assert_eq!(m, "coordinator mode requires at least one agent"),
        _ => panic!("expected a configuration error"),
    }
    match exec.start(&team(TeamMode::Sequential, None), &vec![], "x") {
        Err(TeamError::InvalidConfig(m)) => assert_eq!(m, "no agents in team"),
        _ => panic!("expected a configuration error"),
    }
}

#[test]
fn sequential_feeds_each_agent_the_previous_output() {
    let exec = TeamExecutor::new();
    let agents = vec![agent("a", "first", ""), agent("b", "second", "")];
    let (mut run, first) = exec.start(&team(TeamMode::Sequential, None), &agents, "in").unwrap();
    assert_eq!(run_agent(&first), (0, "in".to_string()));
    let second = run.step(Ok("out-a".to_string())).unwrap();
    assert_eq!(run_agent(&second), (1, "out-a".to_string()));
    let end = run.step(Ok("out-b".to_string())).unwrap();
    assert_eq!(done(&end), ("out-b".to_string(), 2));
    let outs = run.outputs();
    assert_eq!(outs.len(), 2);
    assert_eq!(outs[0].agent_name, "a");
    assert_eq!(outs[1].turn_number, 2);
    assert_eq!(run.phase(), TeamPhase::Finished);
}

#[test]
fn round_robin_is_capped_by_max_turns() {
    let exec = TeamExecutor::new();
    let agents = vec![agent("a", "", ""), agent("b", "", ""), agent("c", "", "")];
    let (mut run, first) = exec.start(&team(TeamMode::RoundRobin, Some(2)), &agents, "go").unwrap();
    assert_eq!(run_agent(&first).0, 0);
    run.step(Ok("1".to_string())).unwrap();
    let end = run.step(Ok("2".to_string())).unwrap();
    assert_eq!(done(&end), ("2".to_string(), 2));

    let (_, zero) = exec.start(&team(TeamMode::RoundRobin, Some(0)), &agents, "go").unwrap();
    assert_eq!(done(&zero), (String::new(), 0));
}

#[test]
fn coordinator_delegates_then_finishes() {
    let exec = TeamExecutor::new();
    let agents = vec![agent("boss", "routes", ""), agent("coder", "writes code", ""), agent("writer", "writes prose", "")];
    let (mut run, first) = exec.start(&team(TeamMode::Coordinator, None), &agents, "build it").unwrap();
    let (k, prompt) = run_agent(&first);
    assert_eq!(k, 0);
    assert!(prompt.contains("- coder: writes code\n- writer: writes prose"));
    assert!(prompt.ends_with("User request: build it"));

    let to_coder = run.step(Ok("DELEGATE: coder ".to_string())).unwrap();
    assert_eq!(run_agent(&to_coder), (1, "build it".to_string()));
    let back = run.step(Ok("done".to_string())).unwrap();
    let (k2, ctx) = run_agent(&back);
    assert_eq!(k2, 0);
    assert_eq!(
        ctx,
        "Specialist 'coder' responded:\ndone\n\nBased on this, provide your FINAL: answer or DELEGATE: to another specialist."
    );
    let end = run.step(Ok("FINAL:  all good ".to_string())).unwrap();
    assert_eq!(done(&end), ("all good".to_string(), 3));
    let turns: Vec<u32> = run.outputs().iter().map(|o| o.turn_number).collect();
    assert_eq!(turns, vec![1, 2, 3]);
}

#[test]
fn coordinator_unknown_specialist_and_turn_limit() {
    let exec = TeamExecutor::new();
    let agents = vec![agent("boss", "", ""), agent("coder", "writes code", "")];
    let (mut run, _) = exec.start(&team(TeamMode::Coordinator, Some(1)), &agents, "q").unwrap();
    let end = run.step(Ok("DELEGATE: nobody".to_string())).unwrap();
    assert_eq!(done(&end), ("DELEGATE: nobody".to_string(), 2));

    let (mut run2, _) = exec.start(&team(TeamMode::Coordinator, Some(5)), &agents, "q").unwrap();
    let again = run2.step(Ok("DELEGATE: nobody".to_string())).unwrap();
    assert_eq!(
        run_agent(&again).1,
        "Unknown specialist 'nobody'. Available: - coder: writes code\nTry again with DELEGATE: or provide FINAL:"
    );
    let plain = run2.step(Ok("just an answer".to_string())).unwrap();
    assert_eq!(done(&plain), ("just an answer".to_string(), 2));
}

#[test]
fn coordinator_alone_runs_once() {
    let exec = TeamExecutor::new();
    let agents = vec![agent("solo", "", "")];
    let (mut run, first) = exec.start(&team(TeamMode::Coordinator, None), &agents, "hi").unwrap();
    assert_eq!(run_agent(&first), (0, "hi".to_string()));
    let end = run.step(Ok("answer".to_string())).unwrap();
    assert_eq!(done(&end), ("answer".to_string(), 1));
}

#[test]
fn delegate_falls_back_to_first_agent() {
    let exec = TeamExecutor::new();
    let agents = vec![agent("a", "alpha", ""), agent("b", "beta", "")];
    let (mut run, first) = exec.start(&team(TeamMode::Delegate, None), &agents, "task").unwrap();
    match &first {
        TeamAction::Complete { prompt } => assert!(prompt.ends_with("- a: alpha\n- b: beta\n\nTask: task")),
        _ => panic!("expected a selection prompt"),
    }
    let chosen = run.step(Ok(" b\n".to_string())).unwrap();
    assert_eq!(run_agent(&chosen), (1, "task".to_string()));
    let end = run.step(Ok("res".to_string())).unwrap();
    assert_eq!(done(&end), ("res".to_string(), 1));

    let (mut run2, _) = exec.start(&team(TeamMode::Delegate, None), &agents, "task").unwrap();
    let fallback = run2.step(Ok("zeta".to_string())).unwrap();
    assert_eq!(run_agent(&fallback).0, 0);
}

#[test]
fn parallel_combines_sections_and_errors() {
    let exec = TeamExecutor::new();
    let agents = vec![agent("a", "", ""), agent("b", "", "")];
    let (mut run, first) = exec.start(&team(TeamMode::Parallel, None), &agents, "x").unwrap();
    assert!(matches!(first, TeamAction::RunAll { .. }));
    let end = run.gather(vec![Ok("one".to_string()), Err("boom".to_string())]);
    assert_eq!(done(&end), ("## a\none\n\n## b\n[Error from b: boom]".to_string(), 2));
    assert_eq!(run.outputs()[1].output, "[Error from b: boom]");
}

#[test]
fn failed_agent_call_ends_the_run() {
    let exec = TeamExecutor::new();
    let agents = vec![agent("a", "", "")];
    let (mut run, _) = exec.start(&team(TeamMode::Sequential, None), &agents, "x").unwrap();
    match run.step(Err("timeout".to_string())) {
        Err(TeamError::ExecutionFailed(m)) => assert_eq!(m, "agent 'a': timeout"),
        _ => panic!("expected a failure"),
    }
    assert_eq!(run.phase(), TeamPhase::Finished);
}

#[test]
fn team_mode_roundtrip() {
    for mode in &[
        TeamMode::Coordinator,
        TeamMode::RoundRobin,
        TeamMode::Delegate,
        TeamMode::Parallel,
        TeamMode::Sequential,
    ] {
        let parsed: TeamMode = mode.as_str().parse().unwrap();
        assert_eq!(*mode, parsed);
    }
}

#[test]
fn stored_team_mode_defaults_to_coordinator() {
    assert_eq!(stored_team_mode("parallel"), TeamMode::Parallel);
    assert_eq!(stored_team_mode("delegate_to_best"), TeamMode::Delegate);
    assert_eq!(stored_team_mode("bogus"), TeamMode::Coordinator);
}

#[test]
fn coordinator_with_negative_limit_has_no_practical_limit() {
    let exec = TeamExecutor::new();
    let agents = vec![agent("boss", "", ""), agent("coder", "writes code", "")];
    let (mut run, first) = exec.start(&team(TeamMode::Coordinator, Some(-1)), &agents, "q").unwrap();
    assert_eq!(run_agent(&first).0, 0);
    assert_eq!(run.turn(), 1);
    let again = run.step(Ok("DELEGATE: nobody".to_string())).unwrap();
    assert_eq!(run_agent(&again).0, 0);
    assert_eq!(run.turn(), 2);
    let end = run.step(Ok("FINAL: ok".to_string())).unwrap();
    assert_eq!(done(&end), ("ok".to_string(), 2));
}
