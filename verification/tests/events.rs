use aria::agent::events::{EventStream, RunSequences, StopReason, TurnUsage};
use aria::llm::FinishReason;

#[test]
fn turn_usage_add_llm_call() {
    let mut usage = TurnUsage { model: "gpt-4".into(), provider: "anthropic".into(), ..Default::default() };
    usage.add_llm_call(100, 50);
    assert_eq!(usage.input_tokens, 100);
    assert_eq!(usage.output_tokens, 50);
    assert_eq!(usage.total_tokens, 150);

    usage.add_llm_call(200, 100);
    assert_eq!(usage.input_tokens, 300);
    assert_eq!(usage.output_tokens, 150);
    assert_eq!(usage.total_tokens, 450);
}

#[test]
fn stop_reason_from_finish_reason() {
    assert_eq!(StopReason::from(FinishReason::Stop), StopReason::EndTurn);
    assert_eq!(StopReason::from(FinishReason::Length), StopReason::MaxTokens);
    assert_eq!(StopReason::from(FinishReason::ToolUse), StopReason::ToolUse);
    assert_eq!(StopReason::from(FinishReason::ContentFilter), StopReason::ContentFilter);
    assert_eq!(StopReason::from(FinishReason::Unknown), StopReason::Unknown);
}

#[test]
fn stop_reason_display() {
    assert_eq!(StopReason::EndTurn.to_string(), "end_turn");
    assert_eq!(StopReason::ToolUse.to_string(), "tool_use");
    assert_eq!(StopReason::ContentFilter.to_string(), "content_filter");
    assert_eq!(StopReason::Aborted.to_string(), "aborted");
}

#[test]
fn event_bus_sequence_numbers_increment() {
    let mut seqs = RunSequences::new();
    assert_eq!(seqs.next_seq("run-1"), 1);
    assert_eq!(seqs.next_seq("run-1"), 2);
}

#[test]
fn event_bus_separate_runs_have_separate_seqs() {
    let mut seqs = RunSequences::new();
    assert_eq!(seqs.next_seq("run-1"), 1);
    assert_eq!(seqs.next_seq("run-2"), 1);
    assert_eq!(seqs.next_seq("run-1"), 2);
}

#[test]
fn event_bus_finish_run_cleans_up() {
    let mut seqs = RunSequences::new();
    seqs.next_seq("run-1");
    assert!(seqs.tracks("run-1"));
    seqs.finish_run("run-1");
    assert!(!seqs.tracks("run-1"));
    assert_eq!(seqs.current("run-1"), 0);
    assert_eq!(seqs.next_seq("run-1"), 1);
}

#[test]
fn event_streams_compare_by_variant() {
    assert_eq!(EventStream::Lifecycle, EventStream::Lifecycle);
    assert_ne!(EventStream::Tool, EventStream::Assistant);
}
