//! Agent events: the streams events belong to, why a model stopped, the
//! usage a turn accumulates, and the per-run sequence numbers that order a
//! run's events for its consumers.

use vstd::prelude::*;
use vstd::string::*;
use crate::llm::FinishReason;

verus! {

#[verifier::external_type_specification]
#[verifier::external_body]
pub struct ExDecimal(rust_decimal::Decimal);

#[verifier::external_type_specification]
#[verifier::external_body]
#[verifier::reject_recursive_types(K)]
#[verifier::reject_recursive_types(V)]
#[verifier::reject_recursive_types(S)]
pub struct ExDashMap<K, V, S>(dashmap::DashMap<K, V, S>);

/// Classification of event streams: each maps to a rendering surface
/// (status bar, tool panels, chat bubble, reasoning section, errors).
#[derive(Debug, Clone, Copy, PartialEq, Eq, Hash, Structural)]
pub enum EventStream {
    Lifecycle,
    Tool,
    Assistant,
    Thinking,
    Error,
}

/// Why the model stopped generating.
#[derive(Debug, Clone, Copy, PartialEq, Eq, Structural)]
pub enum StopReason {
    /// Natural end of response.
    EndTurn,
    /// Max tokens reached.
    MaxTokens,
    /// Model wants to call tools.
    ToolUse,
    /// Content filter triggered.
    ContentFilter,
    /// External abort signal.
    Aborted,
    /// Timeout.
    Timeout,
    /// Unknown or unrecognized.
    Unknown,
}

impl StopReason {
    /// The name a stop reason is shown and stored under.
    pub open spec fn name(self) -> Seq<char> {
        match self {
            StopReason::EndTurn => "end_turn"@,
            StopReason::MaxTokens => "max_tokens"@,
            StopReason::ToolUse => "tool_use"@,
            StopReason::ContentFilter => "content_filter"@,
            StopReason::Aborted => "aborted"@,
            StopReason::Timeout => "timeout"@,
            StopReason::Unknown => "unknown"@,
        }
    }

    /// The stop reason's name as text.
    pub fn to_string(&self) -> (s: String)
        ensures
            s@ == self.name(),
    {
        String::from_str(
            match self {
                StopReason::EndTurn => "end_turn",
                StopReason::MaxTokens => "max_tokens",
                StopReason::ToolUse => "tool_use",
                StopReason::ContentFilter => "content_filter",
                StopReason::Aborted => "aborted",
                StopReason::Timeout => "timeout",
                StopReason::Unknown => "unknown",
            },
        )
    }
}

/// The stop reason a provider's finish reason stands for.
pub open spec fn stop_reason_of(reason: FinishReason) -> StopReason {
    match reason {
        FinishReason::Stop => StopReason::EndTurn,
        FinishReason::Length => StopReason::MaxTokens,
        FinishReason::ToolUse => StopReason::ToolUse,
        FinishReason::ContentFilter => StopReason::ContentFilter,
        FinishReason::Unknown => StopReason::Unknown,
    }
}

impl From<FinishReason> for StopReason {
    fn from(reason: FinishReason) -> (r: StopReason) {
        match reason {
            FinishReason::Stop => StopReason::EndTurn,
            FinishReason::Length => StopReason::MaxTokens,
            FinishReason::ToolUse => StopReason::ToolUse,
            FinishReason::ContentFilter => StopReason::ContentFilter,
            FinishReason::Unknown => StopReason::Unknown,
        }
    }
}

impl vstd::std_specs::convert::FromSpecImpl<FinishReason> for StopReason {
    open spec fn obeys_from_spec() -> bool {
        true
    }

    open spec fn from_spec(reason: FinishReason) -> StopReason {
        stop_reason_of(reason)
    }
}

/// Aggregated token usage for a single turn (may span multiple LLM calls).
#[derive(Debug)]
pub struct TurnUsage {
    /// Input/prompt tokens.
    pub input_tokens: u32,
    /// Output/completion tokens.
    pub output_tokens: u32,
    /// Tokens read from cache (Anthropic prompt caching).
    pub cache_read_tokens: Option<u32>,
    /// Tokens written to cache.
    pub cache_write_tokens: Option<u32>,
    /// Tokens consumed by extended thinking.
    pub thinking_tokens: Option<u32>,
    /// Combined total.
    pub total_tokens: u32,
    /// Model used for this turn (after any fallback).
    pub model: String,
    /// Provider used for this turn.
    pub provider: String,
    /// Estimated cost in USD.
    pub cost_usd: Option<rust_decimal::Decimal>,
    /// Wall-clock duration of the turn in milliseconds.
    pub duration_ms: u64,
}

impl Clone for TurnUsage {
    fn clone(&self) -> (r: TurnUsage)
        ensures
            r.input_tokens == self.input_tokens,
            r.output_tokens == self.output_tokens,
            r.cache_read_tokens == self.cache_read_tokens,
            r.cache_write_tokens == self.cache_write_tokens,
            r.thinking_tokens == self.thinking_tokens,
            r.total_tokens == self.total_tokens,
            r.model@ == self.model@,
            r.provider@ == self.provider@,
            r.cost_usd == self.cost_usd,
            r.duration_ms == self.duration_ms,
    {
        TurnUsage {
            input_tokens: self.input_tokens,
            output_tokens: self.output_tokens,
            cache_read_tokens: self.cache_read_tokens,
            cache_write_tokens: self.cache_write_tokens,
            thinking_tokens: self.thinking_tokens,
            total_tokens: self.total_tokens,
            model: self.model.clone(),
            provider: self.provider.clone(),
            cost_usd: self.cost_usd,
            duration_ms: self.duration_ms,
        }
    }
}

impl Default for TurnUsage {
    /// No usage: every count zero, no model or provider, no cost.
    fn default() -> (u: TurnUsage)
        ensures
            u.input_tokens == 0,
            u.output_tokens == 0,
            u.cache_read_tokens is None,
            u.cache_write_tokens is None,
            u.thinking_tokens is None,
            u.total_tokens == 0,
            u.model@.len() == 0,
            u.provider@.len() == 0,
            u.cost_usd is None,
            u.duration_ms == 0,
    {
        TurnUsage {
            input_tokens: 0,
            output_tokens: 0,
            cache_read_tokens: None,
            cache_write_tokens: None,
            thinking_tokens: None,
            total_tokens: 0,
            model: String::new(),
            provider: String::new(),
            cost_usd: None,
            duration_ms: 0,
        }
    }
}

impl TurnUsage {
    /// Add usage from a single LLM call into the aggregate: the input and
    /// output counts grow by the call's, and the total becomes their sum.
    pub fn add_llm_call(&mut self, input: u32, output: u32)
        requires
            old(self).input_tokens + input + old(self).output_tokens + output <= u32::MAX,
        ensures
            final(self).input_tokens == old(self).input_tokens + input,
            final(self).output_tokens == old(self).output_tokens + output,
            final(self).total_tokens == final(self).input_tokens + final(self).output_tokens,
            final(self).cache_read_tokens == old(self).cache_read_tokens,
            final(self).cache_write_tokens == old(self).cache_write_tokens,
            final(self).thinking_tokens == old(self).thinking_tokens,
            final(self).model == old(self).model,
            final(self).provider == old(self).provider,
            final(self).cost_usd == old(self).cost_usd,
            final(self).duration_ms == old(self).duration_ms,
    {
        self.input_tokens = self.input_tokens + input;
        self.output_tokens = self.output_tokens + output;
        self.total_tokens = self.input_tokens + self.output_tokens;
    }
}

/// A table of run counters: run id to the last sequence number handed out.
pub type CounterMap = dashmap::DashMap<String, u64>;

/// The entries of a run counter table.
pub uninterp spec fn counter_entries(m: CounterMap) -> Map<Seq<char>, u64>;

/// Calls `DashMap::new`; the map starts empty.
#[verifier::external_body]
fn counters_new() -> (r: CounterMap)
    ensures
        counter_entries(r).dom() == Set::<Seq<char>>::empty(),
{
    dashmap::DashMap::new()
}

/// Calls `DashMap::get` and copies the value out of the returned guard;
/// the value held under the key, if any.
#[verifier::external_body]
fn counters_get(m: &CounterMap, key: &str) -> (r: Option<u64>)
    ensures
        r == counter_entries(*m).get(key@),
{
    m.get(key).map(|v| *v)
}

/// Calls `DashMap::insert`: the key now holds the value, the rest stays.
#[verifier::external_body]
fn counters_insert(m: &mut CounterMap, key: String, value: u64)
    ensures
        counter_entries(*final(m)) == counter_entries(*old(m)).insert(key@, value),
{
    m.insert(key, value);
}

/// Calls `DashMap::remove`: the key no longer holds a value, the rest stays.
#[verifier::external_body]
fn counters_remove(m: &mut CounterMap, key: &str)
    ensures
        counter_entries(*final(m)) == counter_entries(*old(m)).remove(key@),
{
    m.remove(key);
}

/// Calls `DashMap::contains_key`.
#[verifier::external_body]
fn counters_contains(m: &CounterMap, key: &str) -> (b: bool)
    ensures
        b == counter_entries(*m).contains_key(key@),
{
    m.contains_key(key)
}

/// The sequence number the next event of `run` gets, and the table after.
pub open spec fn after_emit(m: Map<Seq<char>, u64>, run: Seq<char>) -> (Map<Seq<char>, u64>, int) {
    let last: int = match m.get(run) {
        Some(n) => n as int,
        None => 0,
    };
    (m.insert(run, (last + 1) as u64), last + 1)
}

/// Per-run sequence counters: each run's events are numbered 1, 2, 3, ...
/// in the order they are emitted, independently of other runs.
pub struct RunSequences {
    counters: CounterMap,
}

impl View for RunSequences {
    type V = Map<Seq<char>, u64>;

    closed spec fn view(&self) -> Map<Seq<char>, u64> {
        counter_entries(self.counters)
    }
}

impl RunSequences {
    pub fn new() -> (s: RunSequences)
        ensures
            s@ == Map::<Seq<char>, u64>::empty(),
    {
        let s = RunSequences { counters: counters_new() };
        proof {
            assert(s@ =~= Map::<Seq<char>, u64>::empty());
        }
        s
    }

    /// The last sequence number handed out for `run_id` (0 when none was).
    pub fn current(&self, run_id: &str) -> (n: u64)
        ensures
            n == match self@.get(run_id@) {
                Some(k) => k,
                None => 0,
            },
    {
        match counters_get(&self.counters, run_id) {
            Some(k) => k,
            None => 0,
        }
    }

    /// The sequence number of the next event of `run_id`: one more than the
    /// last one handed out for the run, or 1 for a run without one.
    pub fn next_seq(&mut self, run_id: &str) -> (seq: u64)
        requires
            old(self)@.get(run_id@) matches Some(k) ==> k < u64::MAX,
        ensures
            (final(self)@, seq as int) == after_emit(old(self)@, run_id@),
    {
        let last = self.current(run_id);
        let seq = last + 1;
        counters_insert(&mut self.counters, run_id.to_owned(), seq);
        seq
    }

    /// Forget a completed run's counter.
    pub fn finish_run(&mut self, run_id: &str)
        ensures
            final(self)@ == old(self)@.remove(run_id@),
    {
        counters_remove(&mut self.counters, run_id);
    }

    /// Whether `run_id` has a counter.
    pub fn tracks(&self, run_id: &str) -> (b: bool)
        ensures
            b == self@.contains_key(run_id@),
    {
        counters_contains(&self.counters, run_id)
    }
}

/// The first event of a run without a counter is numbered 1.
pub proof fn lemma_first_event_is_one(m: Map<Seq<char>, u64>, run: Seq<char>)
    requires
        !m.contains_key(run),
    ensures
        after_emit(m, run).1 == 1,
{
}

/// Two events of one run in a row get consecutive numbers.
pub proof fn lemma_sequence_increments(m: Map<Seq<char>, u64>, run: Seq<char>)
    requires
        m.get(run) matches Some(k) ==> k < u64::MAX - 1,
    ensures
        after_emit(after_emit(m, run).0, run).1 == after_emit(m, run).1 + 1,
{
}

/// An event of one run leaves the numbering of every other run alone.
pub proof fn lemma_runs_independent(m: Map<Seq<char>, u64>, a: Seq<char>, b: Seq<char>)
    requires
        a != b,
    ensures
        after_emit(after_emit(m, a).0, b).1 == after_emit(m, b).1,
{
}

/// Once a run is finished, its numbering starts again at 1.
pub proof fn lemma_finish_restarts(m: Map<Seq<char>, u64>, run: Seq<char>)
    ensures
        after_emit(m.remove(run), run).1 == 1,
        !m.remove(run).contains_key(run),
{
}

} // verus!
