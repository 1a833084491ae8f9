//! Team runs: the decisions of the five team modes (coordinator, round
//! robin, delegate, parallel, sequential) as a state machine. Each step
//! asks for one model call (or, in parallel mode, one call per agent);
//! the caller makes it and hands the reply back.

use vstd::prelude::*;
use vstd::string::*;
use crate::aria::agent_registry::AriaAgent;
use crate::aria::team_registry::AriaTeam;
use crate::aria::types::TeamMode;
use crate::llm::ChatMessage;
use crate::text::{texts, lemma_texts_push, join_strings, join_texts, skip_chars, starts_with, str_equal, trim, trim_text};

verus! {

/// Output from a single agent within a team.
#[derive(Debug, Clone)]
pub struct AgentOutput {
    pub agent_name: String,
    pub output: String,
    pub turn_number: u32,
}

/// The texts of an agent output.
pub struct AgentOutputView {
    pub agent_name: Seq<char>,
    pub output: Seq<char>,
    pub turn_number: u32,
}

impl View for AgentOutput {
    type V = AgentOutputView;

    open spec fn view(&self) -> AgentOutputView {
        AgentOutputView {
            agent_name: self.agent_name@,
            output: self.output@,
            turn_number: self.turn_number,
        }
    }
}

/// The views of a list of agent outputs.
pub open spec fn outputs_view(v: Seq<AgentOutput>) -> Seq<AgentOutputView> {
    v.map_values(|o: AgentOutput| o@)
}

/// Errors from team execution.
#[derive(Debug)]
pub enum TeamError {
    InvalidConfig(String),
    ExecutionFailed(String),
    Timeout(std::time::Duration),
}

/// Starts team runs.
pub struct TeamExecutor {}

/// What a team run waits for.
#[derive(Debug, Clone, Copy, PartialEq, Eq, Structural)]
pub enum TeamPhase {
    /// The coordinator's reply.
    Coordinating,
    /// The reply of the specialist at this index of the agents.
    Consulting(usize),
    /// The reply of the agent at this index, whose output feeds the next
    /// agent (sequential and round-robin modes, a lone coordinator).
    Chaining(usize),
    /// The model's choice of agent (delegate mode).
    Selecting,
    /// The reply of the chosen agent (delegate mode).
    Delegated(usize),
    /// The replies of all agents at once (parallel mode).
    Gathering,
    /// Nothing: the run is over.
    Finished,
}

/// What the caller does next.
#[derive(Debug)]
pub enum TeamAction {
    /// Run the agent at this index of the agents on `input`.
    RunAgent { agent: usize, input: String },
    /// Ask the model directly, with this prompt as the user message.
    Complete { prompt: String },
    /// Run every agent on `input`, and hand back the replies in order.
    RunAll { input: String },
    /// The run is over.
    Done { final_output: String, total_turns: u32 },
}

/// The state of a team run.
pub struct TeamRunView {
    pub mode: TeamMode,
    pub max_turns: u32,
    /// How many agents a chain runs.
    pub chain: nat,
    /// The turn count a finished chain reports.
    pub total: u32,
    pub input: Seq<char>,
    pub names: Seq<Seq<char>>,
    /// The agent list shown to the coordinator or the selecting model.
    pub roster: Seq<char>,
    pub phase: TeamPhase,
    pub turn: u32,
    pub outputs: Seq<AgentOutputView>,
}

/// A team run in progress.
pub struct TeamRun {
    mode: TeamMode,
    max_turns: u32,
    chain: usize,
    total: u32,
    input: String,
    names: Vec<String>,
    roster: String,
    phase: TeamPhase,
    turn: u32,
    outputs: Vec<AgentOutput>,
}

impl View for TeamRun {
    type V = TeamRunView;

    closed spec fn view(&self) -> TeamRunView {
        TeamRunView {
            mode: self.mode,
            max_turns: self.max_turns,
            chain: self.chain as nat,
            total: self.total,
            input: self.input@,
            names: texts(self.names@),
            roster: self.roster@,
            phase: self.phase,
            turn: self.turn,
            outputs: outputs_view(self.outputs@),
        }
    }
}

/// The turn limit of a team: ten when it sets none (truncated to 32 bits).
pub open spec fn team_max_turns(team: AriaTeam) -> u32 {
    (match team.max_turns {
        Some(m) => m,
        None => 10,
    }) as u32
}

/// The line of the roster for one agent.
pub open spec fn agent_line(a: AriaAgent) -> Seq<char> {
    "- "@ + a.name@ + ": "@ + a.description@
}

/// The roster of agents, one line each.
pub open spec fn roster_of(agents: Seq<AriaAgent>) -> Seq<char> {
    join_texts(agents.map_values(|a: AriaAgent| agent_line(a)), "\n"@)
}

/// The names of the agents.
pub open spec fn agent_names(agents: Seq<AriaAgent>) -> Seq<Seq<char>> {
    agents.map_values(|a: AriaAgent| a.name@)
}

/// The first prompt of the coordinator.
pub open spec fn coordinator_prompt(roster: Seq<char>, input: Seq<char>) -> Seq<char> {
    "You are the coordinator of a team. Your job is to route the user's request to the most appropriate specialist, then synthesize their responses.\n\nAvailable specialists:\n"@
        + roster
        + "\n\nRespond with the specialist name to delegate to, prefixed with DELEGATE: or respond with FINAL: followed by your synthesized answer.\n\nUser request: "@
        + input
}

/// The coordinator's next prompt after a specialist replied.
pub open spec fn consult_context(name: Seq<char>, output: Seq<char>) -> Seq<char> {
    "Specialist '"@ + name + "' responded:\n"@ + output
        + "\n\nBased on this, provide your FINAL: answer or DELEGATE: to another specialist."@
}

/// The coordinator's next prompt after it named no specialist.
pub open spec fn unknown_context(name: Seq<char>, roster: Seq<char>) -> Seq<char> {
    "Unknown specialist '"@ + name + "'. Available: "@ + roster
        + "\nTry again with DELEGATE: or provide FINAL:"@
}

/// The prompt that asks the model to choose an agent.
pub open spec fn selection_prompt(roster: Seq<char>, input: Seq<char>) -> Seq<char> {
    "Given this "@ + "task, which agent is best suited to handle it? Respond with ONLY the agent name.\n\nAvailable agents:\n"@
        + roster + "\n\nTask: "@ + input
}

/// The error of an agent whose model call failed.
pub open spec fn agent_failure(name: Seq<char>, e: Seq<char>) -> Seq<char> {
    "agent '"@ + name + "': "@ + e
}

/// What parallel mode records for an agent whose model call failed.
pub open spec fn error_output(name: Seq<char>, e: Seq<char>) -> Seq<char> {
    "[Error from "@ + name + ": "@ + e + "]"@
}

/// The output parallel mode records for one reply.
pub open spec fn gathered_output(name: Seq<char>, reply: Result<String, String>) -> Seq<char> {
    match reply {
        Ok(c) => c@,
        Err(e) => error_output(name, e@),
    }
}

/// The section of the combined output for one agent.
pub open spec fn section(name: Seq<char>, output: Seq<char>) -> Seq<char> {
    "## "@ + name + "\n"@ + output
}

/// `s` begins with `p`.
pub open spec fn has_prefix(s: Seq<char>, p: Seq<char>) -> bool {
    p.len() <= s.len() && s.take(p.len() as int) == p
}

/// The first index from `lo` on whose name is `wanted`.
pub open spec fn first_named(names: Seq<Seq<char>>, wanted: Seq<char>, lo: int) -> Option<int>
    decreases names.len() - lo,
{
    if lo < 0 || lo >= names.len() {
        None
    } else if names[lo] == wanted {
        Some(lo)
    } else {
        first_named(names, wanted, lo + 1)
    }
}

/// `a` asks to run agent `k` on `input`.
pub open spec fn runs(a: TeamAction, k: int, input: Seq<char>) -> bool {
    a matches TeamAction::RunAgent { agent, input: i } && agent == k && i@ == input
}

/// `a` ends the run with this output and turn count.
pub open spec fn ends(a: TeamAction, output: Seq<char>, turns: u32) -> bool {
    a matches TeamAction::Done { final_output, total_turns } && final_output@ == output && total_turns
        == turns
}

/// `w` is `v` with new outputs, turn and phase.
pub open spec fn moved(
    v: TeamRunView,
    w: TeamRunView,
    outputs: Seq<AgentOutputView>,
    turn: u32,
    phase: TeamPhase,
) -> bool {
    &&& w.mode == v.mode
    &&& w.max_turns == v.max_turns
    &&& w.chain == v.chain
    &&& w.total == v.total
    &&& w.input == v.input
    &&& w.names == v.names
    &&& w.roster == v.roster
    &&& w.outputs == outputs
    &&& w.turn == turn
    &&& w.phase == phase
}

/// The output record of an agent.
pub open spec fn output_of(name: Seq<char>, output: Seq<char>, turn: u32) -> AgentOutputView {
    AgentOutputView { agent_name: name, output, turn_number: turn }
}

/// The coordinator's next turn: past the turn limit the run ends with the
/// last output, else the coordinator is asked again with `context`.
pub open spec fn coordinate_again(
    v: TeamRunView,
    outputs: Seq<AgentOutputView>,
    context: Seq<char>,
    last: Seq<char>,
    w: TeamRunView,
    a: TeamAction,
) -> bool {
    let t = (v.turn + 1) as u32;
    if t > v.max_turns {
        moved(v, w, outputs, t, TeamPhase::Finished) && ends(a, last, t)
    } else {
        moved(v, w, outputs, t, TeamPhase::Coordinating) && runs(a, 0, context)
    }
}

/// How a run in state `v` moves to `w` and asks for `a` on the reply `r`.
pub open spec fn reply_step(v: TeamRunView, r: Seq<char>, w: TeamRunView, a: TeamAction) -> bool {
    match v.phase {
        TeamPhase::Coordinating => {
            let outs = v.outputs.push(output_of(v.names[0], r, v.turn));
            if has_prefix(r, "FINAL:"@) {
                moved(v, w, outs, v.turn, TeamPhase::Finished) && ends(
                    a,
                    trim_text(r.skip("FINAL:"@.len() as int)),
                    v.turn,
                )
            } else if has_prefix(r, "DELEGATE:"@) {
                let wanted = trim_text(r.skip("DELEGATE:"@.len() as int));
                match first_named(v.names, wanted, 1) {
                    Some(k) => moved(v, w, outs, (v.turn + 1) as u32, TeamPhase::Consulting(k as usize))
                        && runs(a, k, v.input),
                    None => coordinate_again(v, outs, unknown_context(wanted, v.roster), r, w, a),
                }
            } else {
                moved(v, w, outs, v.turn, TeamPhase::Finished) && ends(a, r, v.turn)
            }
        },
        TeamPhase::Consulting(k) => {
            let outs = v.outputs.push(output_of(v.names[k as int], r, v.turn));
            coordinate_again(v, outs, consult_context(v.names[k as int], r), r, w, a)
        },
        TeamPhase::Chaining(i) => {
            let outs = v.outputs.push(output_of(v.names[i as int], r, (i + 1) as u32));
            if i + 1 == v.chain {
                moved(v, w, outs, v.turn, TeamPhase::Finished) && ends(a, r, v.total)
            } else {
                moved(v, w, outs, v.turn, TeamPhase::Chaining((i + 1) as usize)) && runs(
                    a,
                    i + 1,
                    r,
                )
            }
        },
        TeamPhase::Selecting => {
            let k = match first_named(v.names, trim_text(r), 0) {
                Some(k) => k,
                None => 0,
            };
            moved(v, w, v.outputs, v.turn, TeamPhase::Delegated(k as usize)) && runs(a, k, v.input)
        },
        TeamPhase::Delegated(k) => {
            moved(v, w, seq![output_of(v.names[k as int], r, 1)], v.turn, TeamPhase::Finished)
                && ends(a, r, 1)
        },
        _ => false,
    }
}

/// In a chain (sequential or round-robin, whatever the mode), when another
/// agent follows agent `i`, the reply of agent `i` is what the next agent
/// runs on, and the run goes on to that agent.
pub proof fn lemma_chain_passes_reply_on(v: TeamRunView, r: Seq<char>, w: TeamRunView, a: TeamAction, i: usize)
    requires
        v.phase == TeamPhase::Chaining(i),
        i + 1 < v.chain,
        reply_step(v, r, w, a),
    ensures
        a matches TeamAction::RunAgent { agent, input } && agent == i + 1 && input@ == r,
        w.phase == TeamPhase::Chaining((i + 1) as usize),
        w.outputs.len() == v.outputs.len() + 1,
        w.outputs.last().output == r,
        w.outputs.last().agent_name == v.names[i as int],
{
}

/// The error a failed model call ends the run with.
pub open spec fn failure_text(v: TeamRunView, e: Seq<char>) -> Seq<char> {
    match v.phase {
        TeamPhase::Coordinating => agent_failure(v.names[0], e),
        TeamPhase::Consulting(k) => agent_failure(v.names[k as int], e),
        TeamPhase::Chaining(i) => agent_failure(v.names[i as int], e),
        TeamPhase::Delegated(k) => agent_failure(v.names[k as int], e),
        _ => e,
    }
}

/// The run waits for a single reply.
pub open spec fn awaits_reply(phase: TeamPhase) -> bool {
    phase is Coordinating || phase is Consulting || phase is Chaining || phase is Selecting
        || phase is Delegated
}

impl TeamRun {
    /// The run's state is consistent with its phase.
    pub open spec fn wf(&self) -> bool {
        let v = self@;
        &&& v.names.len() >= 1
        &&& v.chain <= v.names.len()
        &&& match v.phase {
            TeamPhase::Coordinating => v.names.len() >= 2 && 1 <= v.turn <= v.max_turns,
            TeamPhase::Consulting(k) => 1 <= k < v.names.len() && 2 <= v.turn <= v.max_turns + 1,
            TeamPhase::Chaining(i) => i < v.chain,
            TeamPhase::Delegated(k) => k < v.names.len(),
            _ => true,
        }
    }

    /// The outputs recorded so far.
    pub fn outputs(&self) -> (o: &Vec<AgentOutput>)
        ensures
            outputs_view(o@) == self@.outputs,
    {
        &self.outputs
    }

    /// The coordinator's turn counter.
    pub fn turn(&self) -> (t: u32)
        ensures
            t == self@.turn,
    {
        self.turn
    }

    /// What the run waits for.
    pub fn phase(&self) -> (p: TeamPhase)
        ensures
            p == self@.phase,
    {
        self.phase
    }

    /// Ends the run.
    fn finish(&mut self, final_output: String, total_turns: u32) -> (a: TeamAction)
        ensures
            final(self)@ == (TeamRunView { phase: TeamPhase::Finished, ..old(self)@ }),
            a == (TeamAction::Done { final_output, total_turns }),
    {
        self.phase = TeamPhase::Finished;
        TeamAction::Done { final_output, total_turns }
    }

    /// Appends an output.
    fn record(&mut self, name_index: usize, output: &String, turn_number: u32)
        requires
            name_index < old(self)@.names.len(),
        ensures
            final(self)@ == (TeamRunView {
                outputs: old(self)@.outputs.push(
                    output_of(old(self)@.names[name_index as int], output@, turn_number),
                ),
                ..old(self)@
            }),
    {
        let o = AgentOutput {
            agent_name: self.names[name_index].clone(),
            output: output.clone(),
            turn_number,
        };
        self.outputs.push(o);
        proof {
            assert(outputs_view(self.outputs@) =~= outputs_view(old(self).outputs@).push(
                output_of(old(self)@.names[name_index as int], output@, turn_number),
            ));
            assert(self@.names =~= old(self)@.names);
        }
    }

    /// The coordinator's next turn, once `outputs` are recorded.
    fn coordinate_again(&mut self, context: String, last: String) -> (a: TeamAction)
        requires
            old(self).wf(),
            old(self)@.turn <= old(self)@.max_turns + 1,
            old(self)@.turn < u32::MAX,
            old(self)@.names.len() >= 2,
        ensures
            final(self).wf(),
            coordinate_again(
                old(self)@,
                old(self)@.outputs,
                context@,
                last@,
                final(self)@,
                a,
            ),
    {
        let t = self.turn + 1;
        if t > self.max_turns {
            self.turn = t;
            self.finish(last, t)
        } else {
            self.turn = t;
            self.phase = TeamPhase::Coordinating;
            TeamAction::RunAgent { agent: 0, input: context }
        }
    }

    /// Hands the run the reply to the call it asked for: the reply text,
    /// or the error text of a failed call, which ends the run.
    pub fn step(&mut self, reply: Result<String, String>) -> (r: Result<TeamAction, TeamError>)
        requires
            old(self).wf(),
            awaits_reply(old(self)@.phase),
            old(self)@.phase is Coordinating || old(self)@.phase is Consulting ==> old(self)@.turn
                < u32::MAX,
        ensures
            final(self).wf(),
            match reply {
                Ok(t) => r matches Ok(a) && reply_step(old(self)@, t@, final(self)@, a),
                Err(e) => (r matches Err(TeamError::ExecutionFailed(m)) && m@ == failure_text(
                    old(self)@,
                    e@,
                )) && final(self)@ == (TeamRunView { phase: TeamPhase::Finished, ..old(self)@ }),
            },
    {
        let t = match reply {
            Ok(t) => t,
            Err(e) => {
                let m = match self.phase {
                    TeamPhase::Coordinating => self.failure(0, e),
                    TeamPhase::Consulting(k) => self.failure(k, e),
                    TeamPhase::Chaining(i) => self.failure(i, e),
                    TeamPhase::Delegated(k) => self.failure(k, e),
                    _ => e,
                };
                self.phase = TeamPhase::Finished;
                return Err(TeamError::ExecutionFailed(m));
            },
        };
        match self.phase {
            TeamPhase::Coordinating => {
                let turn = self.turn;
                self.record(0, &t, turn);
                let final_len = "FINAL:".unicode_len();
                let delegate_len = "DELEGATE:".unicode_len();
                if starts_with(t.as_str(), "FINAL:") {
                    let f = trim(skip_chars(t.as_str(), final_len));
                    return Ok(self.finish(f, turn));
                }
                if starts_with(t.as_str(), "DELEGATE:") {
                    let wanted = trim(skip_chars(t.as_str(), delegate_len));
                    let found = find_named(&self.names, wanted.as_str(), 1);
                    proof {
                        lemma_first_named(self@.names, wanted@, 1);
                    }
                    match found {
                        Some(k) => {
                            self.turn = turn + 1;
                            self.phase = TeamPhase::Consulting(k);
                            return Ok(TeamAction::RunAgent { agent: k, input: self.input.clone() });
                        },
                        None => {
                            let context = String::from_str("Unknown specialist '").concat(
                                wanted.as_str(),
                            ).concat("'. Available: ").concat(self.roster.as_str()).concat(
                                "\nTry again with DELEGATE: or provide FINAL:",
                            );
                            return Ok(self.coordinate_again(context, t));
                        },
                    }
                }
                Ok(self.finish(t, turn))
            },
            TeamPhase::Consulting(k) => {
                let turn = self.turn;
                self.record(k, &t, turn);
                let context = String::from_str("Specialist '").concat(self.names[k].as_str()).concat(
                    "' responded:\n",
                ).concat(t.as_str()).concat(
                    "\n\nBased on this, provide your FINAL: answer or DELEGATE: to another specialist.",
                );
                Ok(self.coordinate_again(context, t))
            },
            TeamPhase::Chaining(i) => {
                self.record(i, &t, (i + 1) as u32);
                if i + 1 == self.chain {
                    let total = self.total;
                    Ok(self.finish(t, total))
                } else {
                    self.phase = TeamPhase::Chaining(i + 1);
                    Ok(TeamAction::RunAgent { agent: i + 1, input: t })
                }
            },
            TeamPhase::Selecting => {
                let selected = trim(t.as_str());
                let found = find_named(&self.names, selected.as_str(), 0);
                proof {
                    lemma_first_named(self@.names, selected@, 0);
                }
                let k = match found {
                    Some(k) => k,
                    None => 0,
                };
                self.phase = TeamPhase::Delegated(k);
                Ok(TeamAction::RunAgent { agent: k, input: self.input.clone() })
            },
            TeamPhase::Delegated(k) => {
                self.outputs = Vec::new();
                self.record(k, &t, 1);
                proof {
                    assert(self@.outputs =~= seq![output_of(old(self)@.names[k as int], t@, 1)]);
                }
                Ok(self.finish(t, 1))
            },
            _ => Ok(self.finish(t, 0)),
        }
    }

    /// The error text of a failed call to the agent at `k`.
    fn failure(&self, k: usize, e: String) -> (m: String)
        requires
            k < self@.names.len(),
        ensures
            m@ == agent_failure(self@.names[k as int], e@),
    {
        String::from_str("agent '").concat(self.names[k].as_str()).concat("': ").concat(e.as_str())
    }

    /// Hands a parallel run every agent's reply, in the agents' order; a
    /// failed call is recorded as an error note in place of an output.
    pub fn gather(&mut self, replies: Vec<Result<String, String>>) -> (a: TeamAction)
        requires
            old(self).wf(),
            old(self)@.phase is Gathering,
            replies@.len() == old(self)@.names.len(),
        ensures
            final(self).wf(),
            ({
                let v = old(self)@;
                let outs = Seq::new(
                    v.names.len(),
                    |i: int| output_of(v.names[i], gathered_output(v.names[i], replies@[i]), (i + 1) as u32),
                );
                moved(v, final(self)@, outs, v.turn, TeamPhase::Finished) && ends(
                    a,
                    join_texts(Seq::new(v.names.len(), |i: int| section(v.names[i], outs[i].output)), "\n\n"@),
                    v.names.len() as u32,
                )
            }),
    {
        let n = self.names.len();
        let ghost v = self@;
        let ghost outs = Seq::new(
            v.names.len(),
            |i: int| output_of(v.names[i], gathered_output(v.names[i], replies@[i]), (i + 1) as u32),
        );
        let ghost secs = Seq::new(v.names.len(), |i: int| section(v.names[i], outs[i].output));
        let mut sections: Vec<String> = Vec::new();
        self.outputs = Vec::new();
        proof {
            assert(self@.outputs =~= outs.take(0));
            assert(texts(sections@) =~= secs.take(0));
        }
        let mut i: usize = 0;
        while i < n
            invariant
                n == self@.names.len(),
                n == replies@.len(),
                i <= n,
                self@.names == v.names,
                outs == Seq::new(
                    v.names.len(),
                    |i: int| output_of(v.names[i], gathered_output(v.names[i], replies@[i]), (i + 1) as u32),
                ),
                secs == Seq::new(v.names.len(), |i: int| section(v.names[i], outs[i].output)),
                moved(v, self@, outs.take(i as int), v.turn, TeamPhase::Gathering),
                texts(sections@) == secs.take(i as int),
                self.wf(),
            decreases n - i,
        {
            let name = self.names[i].as_str();
            let output = match &replies[i] {
                Ok(c) => c.clone(),
                Err(e) => String::from_str("[Error from ").concat(name).concat(": ").concat(
                    e.as_str(),
                ).concat("]"),
            };
            let sec = String::from_str("## ").concat(name).concat("\n").concat(output.as_str());
            self.record(i, &output, (i + 1) as u32);
            proof {
                lemma_texts_push(sections@, sec);
                assert(outs.take(i + 1) =~= outs.take(i as int).push(outs[i as int]));
                assert(secs.take(i + 1) =~= secs.take(i as int).push(sec@));
            }
            sections.push(sec);
            i = i + 1;
        }
        proof {
            assert(outs.take(n as int) =~= outs);
            assert(secs.take(n as int) =~= secs);
        }
        let combined = join_strings(&sections, "\n\n");
        self.finish(combined, n as u32)
    }
}

/// The first index from `lo` on whose name is `wanted`.
fn find_named(names: &Vec<String>, wanted: &str, lo: usize) -> (r: Option<usize>)
    ensures
        r matches Some(k) ==> first_named(texts(names@), wanted@, lo as int) == Some(k as int),
        r is None ==> first_named(texts(names@), wanted@, lo as int) is None,
{
    let ghost all = texts(names@);
    let n = names.len();
    let mut i = lo;
    while i < n
        invariant
            n == names@.len(),
            all == texts(names@),
            lo <= i,
            first_named(all, wanted@, lo as int) == first_named(all, wanted@, i as int),
        decreases n - i,
    {
        if str_equal(names[i].as_str(), wanted) {
            return Some(i);
        }
        i = i + 1;
    }
    None
}

/// The roster line of every agent in `agents[from..]`, joined by newlines.
fn roster_text(agents: &Vec<AriaAgent>, from: usize) -> (r: String)
    requires
        from <= agents@.len(),
    ensures
        r@ == roster_of(agents@.skip(from as int)),
{
    let n = agents.len();
    let mut lines: Vec<String> = Vec::new();
    let ghost want = agents@.skip(from as int).map_values(|a: AriaAgent| agent_line(a));
    let mut i = from;
    while i < n
        invariant
            n == agents@.len(),
            from <= i <= n,
            want == agents@.skip(from as int).map_values(|a: AriaAgent| agent_line(a)),
            texts(lines@) == want.take(i - from),
        decreases n - i,
    {
        let line = String::from_str("- ").concat(agents[i].name.as_str()).concat(": ").concat(
            agents[i].description.as_str(),
        );
        proof {
            lemma_texts_push(lines@, line);
            assert(want[i - from] == agent_line(agents@[i as int]));
            assert(want.take(i + 1 - from) =~= want.take(i - from).push(line@));
        }
        lines.push(line);
        i = i + 1;
    }
    proof {
        assert(want.take(n - from) =~= want);
    }
    join_strings(&lines, "\n")
}

/// The first index with that name lies in range and has it.
pub proof fn lemma_first_named(names: Seq<Seq<char>>, wanted: Seq<char>, lo: int)
    ensures
        first_named(names, wanted, lo) matches Some(k) ==> lo <= k < names.len() && names[k]
            == wanted,
    decreases names.len() - lo,
{
    if 0 <= lo < names.len() && names[lo] != wanted {
        lemma_first_named(names, wanted, lo + 1);
    }
}

/// The state a run starts in and its first request.
pub open spec fn start_step(
    mode: TeamMode,
    max_turns: u32,
    agents: Seq<AriaAgent>,
    input: Seq<char>,
    v: TeamRunView,
    a: TeamAction,
) -> bool {
    let n = agents.len();
    &&& v.mode == mode
    &&& v.max_turns == max_turns
    &&& v.input == input
    &&& v.names == agent_names(agents)
    &&& v.outputs.len() == 0
    &&& match mode {
        TeamMode::Coordinator => if n == 1 {
            v.phase == TeamPhase::Chaining(0) && v.chain == 1 && v.total == 1 && runs(a, 0, input)
        } else {
            &&& v.roster == roster_of(agents.skip(1))
            &&& v.turn == 1
            &&& if max_turns < 1 {
                v.phase == TeamPhase::Finished && ends(a, Seq::empty(), 1)
            } else {
                v.phase == TeamPhase::Coordinating && runs(a, 0, coordinator_prompt(v.roster, input))
            }
        },
        TeamMode::RoundRobin => {
            let turns = if max_turns <= n as u32 {
                max_turns
            } else {
                n as u32
            };
            &&& v.chain == turns
            &&& v.total == turns
            &&& if turns == 0 {
                v.phase == TeamPhase::Finished && ends(a, Seq::empty(), 0)
            } else {
                v.phase == TeamPhase::Chaining(0) && runs(a, 0, input)
            }
        },
        TeamMode::Sequential => v.chain == n && v.total == n as u32 && v.phase
            == TeamPhase::Chaining(0) && runs(a, 0, input),
        TeamMode::Delegate => v.roster == roster_of(agents) && v.phase == TeamPhase::Selecting
            && (a matches TeamAction::Complete { prompt } && prompt@ == selection_prompt(
            v.roster,
            input,
        )),
        TeamMode::Parallel => v.phase == TeamPhase::Gathering && (a matches TeamAction::RunAll {
            input: i,
        } && i@ == input),
    }
}

impl TeamExecutor {
    pub fn new() -> (e: TeamExecutor) {
        TeamExecutor {  }
    }

    /// Starts a run of `team` with `agents` (the team's members, in
    /// order) on `input`. A team with no agents is refused.
    pub fn start(&self, team: &AriaTeam, agents: &Vec<AriaAgent>, input: &str) -> (r: Result<
        (TeamRun, TeamAction),
        TeamError,
    >)
        ensures
            r is Err <==> agents@.len() == 0,
            r matches Err(e) ==> (e matches TeamError::InvalidConfig(m) && m@ == if team.mode
                == TeamMode::Coordinator {
                "coordinator mode requires at least one agent"@
            } else {
                "no agents in team"@
            }),
            r matches Ok(p) ==> p.0.wf() && start_step(
                team.mode,
                team_max_turns(*team),
                agents@,
                input@,
                p.0@,
                p.1,
            ),
    {
        let n = agents.len();
        if n == 0 {
            return Err(
                TeamError::InvalidConfig(
                    match team.mode {
                        TeamMode::Coordinator => String::from_str(
                            "coordinator mode requires at least one agent",
                        ),
                        _ => String::from_str("no agents in team"),
                    },
                ),
            );
        }
        let max_turns: u32 = match team.max_turns {
            Some(m) => m as u32,
            None => 10,
        };
        let mut names: Vec<String> = Vec::new();
        let mut i: usize = 0;
        while i < n
            invariant
                n == agents@.len(),
                i <= n,
                texts(names@) == agent_names(agents@).take(i as int),
            decreases n - i,
        {
            let name = agents[i].name.clone();
            proof {
                lemma_texts_push(names@, name);
                assert(agent_names(agents@).take(i + 1) =~= agent_names(agents@).take(i as int).push(
                    name@,
                ));
            }
            names.push(name);
            i = i + 1;
        }
        proof {
            assert(agent_names(agents@).take(n as int) =~= agent_names(agents@));
        }
        let mut run = TeamRun {
            mode: team.mode,
            max_turns,
            chain: 0,
            total: 0,
            input: input.to_owned(),
            names,
            roster: String::new(),
            phase: TeamPhase::Finished,
            turn: 0,
            outputs: Vec::new(),
        };
        let action = match team.mode {
            TeamMode::Coordinator => {
                if n == 1 {
                    run.chain = 1;
                    run.total = 1;
                    run.phase = TeamPhase::Chaining(0);
                    TeamAction::RunAgent { agent: 0, input: input.to_owned() }
                } else {
                    run.roster = roster_text(agents, 1);
                    run.turn = 1;
                    if max_turns < 1 {
                        TeamAction::Done { final_output: String::new(), total_turns: 1 }
                    } else {
                        run.phase = TeamPhase::Coordinating;
                        let prompt = String::from_str(
                            "You are the coordinator of a team. Your job is to route the user's request to the most appropriate specialist, then synthesize their responses.\n\nAvailable specialists:\n",
                        ).concat(run.roster.as_str()).concat(
                            "\n\nRespond with the specialist name to delegate to, prefixed with DELEGATE: or respond with FINAL: followed by your synthesized answer.\n\nUser request: ",
                        ).concat(input);
                        TeamAction::RunAgent { agent: 0, input: prompt }
                    }
                }
            },
            TeamMode::RoundRobin => {
                let cap = n as u32;
                let turns = if max_turns <= cap { max_turns } else { cap };
                run.chain = turns as usize;
                run.total = turns;
                if turns == 0 {
                    TeamAction::Done { final_output: String::new(), total_turns: 0 }
                } else {
                    run.phase = TeamPhase::Chaining(0);
                    TeamAction::RunAgent { agent: 0, input: input.to_owned() }
                }
            },
            TeamMode::Sequential => {
                run.chain = n;
                run.total = n as u32;
                run.phase = TeamPhase::Chaining(0);
                TeamAction::RunAgent { agent: 0, input: input.to_owned() }
            },
            TeamMode::Delegate => {
                run.roster = roster_text(agents, 0);
                run.phase = TeamPhase::Selecting;
                let prompt = String::from_str("Given this ").concat(
                    "task, which agent is best suited to handle it? Respond with ONLY the agent name.\n\nAvailable agents:\n",
                ).concat(run.roster.as_str()).concat("\n\nTask: ").concat(input);
                TeamAction::Complete { prompt }
            },
            TeamMode::Parallel => {
                run.phase = TeamPhase::Gathering;
                TeamAction::RunAll { input: input.to_owned() }
            },
        };
        proof {
            assert(agents@.skip(0) =~= agents@);
        }
        Ok((run, action))
    }
}

/// The messages of one agent call: the agent's system prompt, when it has
/// one, then the input as the user message.
pub fn build_agent_messages(agent: &AriaAgent, input: &str) -> (m: Vec<ChatMessage>)
    ensures
        if agent.system_prompt@.len() == 0 {
            m@.len() == 1 && m@[0].role == crate::llm::Role::User && m@[0].content@ == input@
        } else {
            &&& m@.len() == 2
            &&& m@[0].role == crate::llm::Role::System
            &&& m@[0].content@ == agent.system_prompt@
            &&& m@[1].role == crate::llm::Role::User
            &&& m@[1].content@ == input@
        },
{
    let mut messages: Vec<ChatMessage> = Vec::new();
    if agent.system_prompt.unicode_len() > 0 {
        messages.push(ChatMessage::system(agent.system_prompt.as_str()));
    }
    messages.push(ChatMessage::user(input));
    messages
}

} // verus!
