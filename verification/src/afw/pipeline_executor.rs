//! Pipeline Executor — DAG-based workflow scheduling.
//!
//! Pipelines chain agents, tools, and teams into multi-step workflows with
//! dependency graphs and conditional execution. This module orders the
//! steps, checks their conditions and dependencies, and decides the outcome
//! of a run; the steps themselves run elsewhere.

use vstd::prelude::*;
use crate::aria::types::PipelineStep;
use crate::json::{JsonValue, member};
use crate::text::{texts, text_lt, lemma_text_lt_irreflexive, lemma_text_lt_total, lemma_text_lt_transitive, str_equal, str_lt, vec_contains_str, split_whitespace, split_ws, find_char, is_first_char};
use vstd::string::*;

verus! {

broadcast use vstd::seq_lib::group_seq_properties;

/// Result of a single pipeline step.
#[derive(Debug, Clone)]
pub struct StepResult {
    pub step_name: String,
    pub status: String,
    pub output: Option<String>,
    pub error: Option<String>,
    pub duration_ms: u64,
    pub retries_used: u32,
}

/// Status of a pipeline run.
#[derive(Debug, Clone, Copy, PartialEq, Eq, Structural)]
pub enum PipelineStatus {
    Completed,
    Failed,
    PartialSuccess,
}

/// Errors from pipeline execution.
#[derive(Debug)]
pub enum PipelineError {
    InvalidConfig(String),
    StepFailed { step: String, reason: String },
    DependencyFailed { step: String, dependency: String },
    RegistryError(String),
    Timeout(std::time::Duration),
}

/// The names of the steps, in order.
pub open spec fn names_of(steps: Seq<PipelineStep>) -> Seq<Seq<char>> {
    steps.map_values(|s: PipelineStep| s.name@)
}

/// The names a step depends on.
pub open spec fn deps_of(step: PipelineStep) -> Seq<Seq<char>> {
    texts(step.depends_on@)
}

/// Every dependency of `step` is in `done`.
pub open spec fn deps_within(step: PipelineStep, done: Seq<Seq<char>>) -> bool {
    forall|t: int| 0 <= t < deps_of(step).len() ==> done.contains(#[trigger] deps_of(step)[t])
}

/// `d` occurs in `order` before `x`.
pub open spec fn comes_before(order: Seq<Seq<char>>, d: Seq<char>, x: Seq<char>) -> bool {
    exists|a: int, b: int| 0 <= a < b < order.len() && #[trigger] order[a] == d && #[trigger] order[b] == x
}

/// `order` runs every step once, each after all the steps it depends on.
pub open spec fn valid_order(steps: Seq<PipelineStep>, order: Seq<Seq<char>>) -> bool {
    &&& order.len() == steps.len()
    &&& order.no_duplicates()
    &&& forall|k: int| 0 <= k < order.len() ==> names_of(steps).contains(#[trigger] order[k])
    &&& forall|i: int| 0 <= i < steps.len() ==> order.contains(#[trigger] steps[i].name@)
    &&& forall|i: int, t: int|
        0 <= i < steps.len() && 0 <= t < deps_of(steps[i]).len() ==> comes_before(
            order,
            #[trigger] deps_of(steps[i])[t],
            steps[i].name@,
        )
}

/// The steps can be run in some dependency order: their names are distinct,
/// every dependency names a step, and there is no cycle.
pub open spec fn has_valid_order(steps: Seq<PipelineStep>) -> bool {
    exists|order: Seq<Seq<char>>| valid_order(steps, order)
}

pub open spec fn no_steps_message() -> Seq<char> {
    "pipeline has no steps"@
}

pub open spec fn cycle_message() -> Seq<char> {
    "cycle detected in pipeline steps"@
}

/// A sequence without duplicates whose elements all occur in `b` is no
/// longer than `b`'s set of elements.
proof fn lemma_distinct_within(a: Seq<Seq<char>>, b: Seq<Seq<char>>)
    requires
        a.no_duplicates(),
        forall|k: int| 0 <= k < a.len() ==> b.contains(#[trigger] a[k]),
    ensures
        a.len() <= b.to_set().len() <= b.len(),
{
    a.unique_seq_to_set();
    b.lemma_cardinality_of_set();
    assert(a.to_set().subset_of(b.to_set()));
    vstd::set_lib::lemma_len_subset(a.to_set(), b.to_set());
}

/// A sequence without duplicates, drawn from `b` and as long as `b`, holds
/// every element of `b`; and `b` has no duplicates either.
proof fn lemma_distinct_covers(a: Seq<Seq<char>>, b: Seq<Seq<char>>)
    requires
        a.no_duplicates(),
        forall|k: int| 0 <= k < a.len() ==> b.contains(#[trigger] a[k]),
        a.len() == b.len(),
    ensures
        forall|k: int| 0 <= k < b.len() ==> a.contains(#[trigger] b[k]),
        b.no_duplicates(),
{
    lemma_distinct_within(a, b);
    b.lemma_cardinality_of_set();
    b.lemma_no_dup_set_cardinality();
    assert forall|k: int| 0 <= k < b.len() implies a.contains(#[trigger] b[k]) by {
        if !a.contains(b[k]) {
            let y = b[k];
            assert(a.to_set().subset_of(b.to_set().remove(y)));
            vstd::set_lib::lemma_len_subset(a.to_set(), b.to_set().remove(y));
            a.unique_seq_to_set();
            assert(b.to_set().contains(y));
        }
    }
}

/// The first position of `o` holding something outside `r`.
proof fn lemma_first_outside(o: Seq<Seq<char>>, r: Seq<Seq<char>>, k: int) -> (m: int)
    requires
        0 <= k < o.len(),
        !r.contains(o[k]),
    ensures
        0 <= m <= k,
        !r.contains(o[m]),
        forall|j: int| 0 <= j < m ==> r.contains(#[trigger] o[j]),
    decreases k,
{
    if exists|j: int| 0 <= j < k && !r.contains(o[j]) {
        let j = choose|j: int| 0 <= j < k && !r.contains(o[j]);
        lemma_first_outside(o, r, j)
    } else {
        k
    }
}

/// The scheduling state of Kahn's algorithm over `steps`: `done` holds the
/// names already ordered, `ready` the names whose dependencies are all done.
pub open spec fn kahn_inv(steps: Seq<PipelineStep>, done: Seq<Seq<char>>, ready: Seq<Seq<char>>) -> bool {
    &&& done.no_duplicates()
    &&& ready.no_duplicates()
    &&& forall|k: int| 0 <= k < ready.len() ==> !done.contains(#[trigger] ready[k])
    &&& forall|k: int| 0 <= k < done.len() ==> names_of(steps).contains(#[trigger] done[k])
    &&& forall|k: int| 0 <= k < ready.len() ==> names_of(steps).contains(#[trigger] ready[k])
    &&& forall|p: int|
        #![trigger done[p]]
        0 <= p < done.len() ==> exists|i: int|
            0 <= i < steps.len() && #[trigger] steps[i].name@ == done[p] && deps_within(
                steps[i],
                done.take(p),
            )
    &&& forall|k: int|
        0 <= k < ready.len() ==> exists|i: int|
            0 <= i < steps.len() && steps[i].name@ == #[trigger] ready[k] && deps_within(steps[i], done)
}

/// Every step whose dependencies are done and that is not done itself is ready.
pub open spec fn kahn_complete(steps: Seq<PipelineStep>, done: Seq<Seq<char>>, ready: Seq<Seq<char>>) -> bool {
    forall|i: int|
        0 <= i < steps.len() && deps_within(steps[i], done) && !done.contains(steps[i].name@)
            ==> ready.contains(#[trigger] steps[i].name@)
}

/// The waiting names after `x` has been ordered and the first `i` steps
/// looked at: in step order, each step that depends on `x`, is neither
/// ordered nor waiting, and has all its dependencies ordered joins the top
/// of `waiting`. `done` already ends with `x`.
pub open spec fn released(
    steps: Seq<PipelineStep>,
    done: Seq<Seq<char>>,
    waiting: Seq<Seq<char>>,
    x: Seq<char>,
    i: int,
) -> Seq<Seq<char>>
    decreases i,
{
    if i <= 0 {
        waiting
    } else {
        let w = released(steps, done, waiting, x, i - 1);
        let s = steps[i - 1];
        if deps_of(s).contains(x) && !done.contains(s.name@) && !w.contains(s.name@) && deps_within(s, done) {
            w.push(s.name@)
        } else {
            w
        }
    }
}

/// The order Kahn's algorithm gives from this state: while steps remain
/// (`fuel`) and a name waits, the name on top is ordered next and releases
/// the steps it was the last dependency of.
pub open spec fn kahn_from(
    steps: Seq<PipelineStep>,
    done: Seq<Seq<char>>,
    waiting: Seq<Seq<char>>,
    fuel: nat,
) -> Seq<Seq<char>>
    decreases fuel,
{
    if fuel == 0 || waiting.len() == 0 {
        done
    } else {
        let x = waiting.last();
        let d = done.push(x);
        kahn_from(steps, d, released(steps, d, waiting.drop_last(), x, steps.len() as int), (fuel - 1) as nat)
    }
}

/// The order of the steps: Kahn's algorithm with a stack of waiting names
/// that starts with the steps without dependencies in ascending order.
pub open spec fn kahn_order(steps: Seq<PipelineStep>) -> Seq<Seq<char>> {
    kahn_from(steps, Seq::empty(), roots_ascending(steps), steps.len())
}

/// When no step is ready and not every step is done, no dependency order exists.
proof fn lemma_stuck_has_no_order(steps: Seq<PipelineStep>, done: Seq<Seq<char>>)
    requires
        kahn_inv(steps, done, Seq::empty()),
        kahn_complete(steps, done, Seq::empty()),
        done.len() < steps.len(),
    ensures
        !has_valid_order(steps),
{
    if has_valid_order(steps) {
        let o = choose|order: Seq<Seq<char>>| valid_order(steps, order);
        let names = names_of(steps);
        lemma_distinct_covers(o, names);
        // Some name is not done.
        if forall|k: int| 0 <= k < names.len() ==> done.contains(#[trigger] names[k]) {
            lemma_distinct_within(names, done);
        }
        let y = choose|k: int| 0 <= k < names.len() && !done.contains(#[trigger] names[k]);
        assert(o.contains(names[y]));
        let ky = choose|k: int| 0 <= k < o.len() && o[k] == names[y];
        let m = lemma_first_outside(o, done, ky);
        assert(names.contains(o[m]));
        let i = choose|i: int| 0 <= i < names.len() && names[i] == o[m];
        assert(steps[i].name@ == o[m]);
        assert(!deps_within(steps[i], done));
        let t = choose|t: int| 0 <= t < deps_of(steps[i]).len() && !done.contains(#[trigger] deps_of(steps[i])[t]);
        assert(comes_before(o, deps_of(steps[i])[t], steps[i].name@));
        let (a, b) = choose|a: int, b: int|
            0 <= a < b < o.len() && #[trigger] o[a] == deps_of(steps[i])[t] && #[trigger] o[b] == steps[i].name@;
        assert(o[b] == o[m]);
        assert(b == m);
        assert(done.contains(o[a]));
    }
}

/// Each name comes before the next in text order (so none repeats).
pub open spec fn ascending(q: Seq<Seq<char>>) -> bool {
    forall|a: int, b: int| 0 <= a < b < q.len() ==> text_lt(#[trigger] q[a], #[trigger] q[b])
}

/// `name` is the name of a step without dependencies.
pub open spec fn is_root(steps: Seq<PipelineStep>, name: Seq<char>) -> bool {
    exists|i: int| 0 <= i < steps.len() && #[trigger] steps[i].name@ == name && deps_of(steps[i]).len() == 0
}

/// The names of the steps without dependencies, each once, in ascending
/// text order.
pub open spec fn roots_ascending(steps: Seq<PipelineStep>) -> Seq<Seq<char>> {
    choose|q: Seq<Seq<char>>| ascending(q) && forall|x: Seq<char>| q.contains(x) <==> is_root(steps, x)
}

/// Two ascending sequences with the same elements are equal.
proof fn lemma_ascending_unique(p: Seq<Seq<char>>, q: Seq<Seq<char>>)
    requires
        ascending(p),
        ascending(q),
        forall|x: Seq<char>| p.contains(x) <==> q.contains(x),
    ensures
        p == q,
    decreases p.len(),
{
    if p.len() == 0 {
        if q.len() > 0 {
            assert(q.contains(q[0]));
        }
        assert(p =~= q);
    } else {
        assert(p.contains(p[0]));
        assert(q.len() > 0);
        assert(q.contains(q[0]));
        if p[0] != q[0] {
            let i = choose|i: int| 0 <= i < p.len() && p[i] == q[0];
            let j = choose|j: int| 0 <= j < q.len() && q[j] == p[0];
            assert(i > 0 && j > 0);
            assert(text_lt(p[0], p[i]));
            assert(text_lt(q[0], q[j]));
            lemma_text_lt_transitive(p[0], q[0], p[0]);
            lemma_text_lt_irreflexive(p[0]);
        }
        let p1 = p.drop_first();
        let q1 = q.drop_first();
        assert forall|x: Seq<char>| p1.contains(x) <==> q1.contains(x) by {
            if p1.contains(x) {
                let i = choose|i: int| 0 <= i < p1.len() && p1[i] == x;
                assert(text_lt(p[0], p[i + 1]));
                lemma_text_lt_irreflexive(x);
                assert(q.contains(x));
                let j = choose|j: int| 0 <= j < q.len() && q[j] == x;
                assert(j != 0);
                assert(q1[j - 1] == x);
            }
            if q1.contains(x) {
                let j = choose|j: int| 0 <= j < q1.len() && q1[j] == x;
                assert(text_lt(q[0], q[j + 1]));
                lemma_text_lt_irreflexive(x);
                assert(p.contains(x));
                let i = choose|i: int| 0 <= i < p.len() && p[i] == x;
                assert(i != 0);
                assert(p1[i - 1] == x);
            }
        }
        assert forall|a: int, b: int| 0 <= a < b < p1.len() implies text_lt(#[trigger] p1[a], #[trigger] p1[b]) by {
            assert(p1[a] == p[a + 1] && p1[b] == p[b + 1]);
        }
        assert forall|a: int, b: int| 0 <= a < b < q1.len() implies text_lt(#[trigger] q1[a], #[trigger] q1[b]) by {
            assert(q1[a] == q[a + 1] && q1[b] == q[b + 1]);
        }
        lemma_ascending_unique(p1, q1);
        assert(p =~= seq![p[0]] + p1);
        assert(q =~= seq![q[0]] + q1);
    }
}

/// Inserting a name at the place where it fits keeps a sequence ascending.
proof fn lemma_insert_ascending(q: Seq<Seq<char>>, p: int, x: Seq<char>)
    requires
        ascending(q),
        0 <= p <= q.len(),
        forall|k: int| 0 <= k < p ==> text_lt(#[trigger] q[k], x),
        forall|k: int| p <= k < q.len() ==> text_lt(x, #[trigger] q[k]),
    ensures
        ascending(q.insert(p, x)),
{
    let r = q.insert(p, x);
    assert forall|a: int, b: int| 0 <= a < b < r.len() implies text_lt(#[trigger] r[a], #[trigger] r[b]) by {
        if b < p {
            assert(r[a] == q[a] && r[b] == q[b]);
        } else if b == p {
            assert(r[a] == q[a]);
        } else if a < p {
            assert(r[a] == q[a] && r[b] == q[b - 1]);
            assert(text_lt(q[a], x));
            assert(text_lt(x, q[b - 1]));
            lemma_text_lt_transitive(q[a], x, q[b - 1]);
        } else if a == p {
            assert(r[b] == q[b - 1]);
        } else {
            assert(r[a] == q[a - 1] && r[b] == q[b - 1]);
        }
    }
}

/// The step names with no dependencies, without repeats, in ascending order.
fn initial_ready(steps: &Vec<PipelineStep>) -> (q: Vec<String>)
    ensures
        kahn_inv(steps@, Seq::empty(), texts(q@)),
        kahn_complete(steps@, Seq::empty(), texts(q@)),
        texts(q@) == roots_ascending(steps@),
{
    let n = steps.len();
    let mut q: Vec<String> = Vec::new();
    let mut i: usize = 0;
    let ghost empty: Seq<Seq<char>> = Seq::empty();
    while i < n
        invariant
            n == steps@.len(),
            i <= n,
            empty == Seq::<Seq<char>>::empty(),
            kahn_inv(steps@, empty, texts(q@)),
            ascending(texts(q@)),
            forall|j: int|
                0 <= j < i && deps_within(steps@[j], empty) ==> texts(q@).contains(#[trigger] steps@[j].name@),
        decreases n - i,
    {
        let s = &steps[i];
        if s.depends_on.len() == 0 && !vec_contains_str(&q, s.name.as_str()) {
            let m = q.len();
            let mut p: usize = 0;
            while p < m && str_lt(q[p].as_str(), s.name.as_str())
                invariant
                    m == q@.len(),
                    p <= m,
                    forall|k: int| 0 <= k < p ==> text_lt(#[trigger] texts(q@)[k], s.name@),
                decreases m - p,
            {
                proof {
                    assert(texts(q@)[p as int] == q@[p as int]@);
                }
                p = p + 1;
            }
            let ghost before = texts(q@);
            proof {
                let x = s.name@;
                assert forall|k: int| p <= k < before.len() implies text_lt(x, #[trigger] before[k]) by {
                    assert(before[p as int] == q@[p as int]@);
                    assert(before[p as int] != x);
                    lemma_text_lt_total(before[p as int], x);
                    if k > p {
                        lemma_text_lt_transitive(x, before[p as int], before[k]);
                    }
                }
                lemma_insert_ascending(before, p as int, x);
            }
            q.insert(p, s.name.clone());
            proof {
                assert(texts(q@) =~= before.insert(p as int, steps@[i as int].name@));
                assert(names_of(steps@)[i as int] == steps@[i as int].name@);
                assert(deps_of(steps@[i as int]).len() == 0);
                let after = texts(q@);
                assert forall|k: int| 0 <= k < after.len() implies exists|j: int|
                    0 <= j < steps@.len() && steps@[j].name@ == #[trigger] after[k] && deps_within(
                        steps@[j],
                        empty,
                    ) by {
                    if k < p {
                        assert(after[k] == before[k]);
                    } else if k == p {
                        assert(steps@[i as int].name@ == after[k]);
                    } else {
                        assert(after[k] == before[k - 1]);
                    }
                }
                assert forall|j: int|
                    0 <= j < i + 1 && deps_within(steps@[j], empty) implies after.contains(
                    #[trigger] steps@[j].name@,
                ) by {
                    if j < i {
                        assert(before.contains(steps@[j].name@));
                    } else {
                        assert(after[p as int] == steps@[j].name@);
                    }
                }
            }
        } else {
            proof {
                assert forall|j: int|
                    0 <= j < i + 1 && deps_within(steps@[j], empty) implies texts(q@).contains(
                    #[trigger] steps@[j].name@,
                ) by {
                    if j == i && deps_within(steps@[j], empty) {
                        if deps_of(steps@[j]).len() > 0 {
                            assert(empty.contains(deps_of(steps@[j])[0]));
                        }
                    }
                }
            }
        }
        i = i + 1;
    }
    proof {
        let t = texts(q@);
        assert forall|x: Seq<char>| t.contains(x) <==> is_root(steps@, x) by {
            if t.contains(x) {
                let k = choose|k: int| 0 <= k < t.len() && t[k] == x;
                let j = choose|j: int|
                    0 <= j < steps@.len() && steps@[j].name@ == #[trigger] t[k] && deps_within(steps@[j], empty);
                if deps_of(steps@[j]).len() > 0 {
                    assert(empty.contains(deps_of(steps@[j])[0]));
                }
            }
            if is_root(steps@, x) {
                let j = choose|j: int| 0 <= j < steps@.len() && #[trigger] steps@[j].name@ == x && deps_of(steps@[j]).len() == 0;
                assert(deps_within(steps@[j], empty));
            }
        }
        let c = roots_ascending(steps@);
        assert(ascending(c) && forall|x: Seq<char>| c.contains(x) <==> is_root(steps@, x));
        lemma_ascending_unique(t, c);
    }
    q
}

/// Whether every dependency of `step` is among `done`.
fn deps_done(step: &PipelineStep, done: &Vec<String>) -> (b: bool)
    ensures
        b == deps_within(*step, texts(done@)),
{
    let m = step.depends_on.len();
    let mut t: usize = 0;
    while t < m
        invariant
            m == step.depends_on@.len(),
            t <= m,
            forall|u: int| 0 <= u < t ==> texts(done@).contains(#[trigger] deps_of(*step)[u]),
        decreases m - t,
    {
        if !vec_contains_str(done, step.depends_on[t].as_str()) {
            proof {
                assert(deps_of(*step)[t as int] == step.depends_on@[t as int]@);
            }
            return false;
        }
        t = t + 1;
    }
    true
}

/// Executes pipelines as DAGs of steps.
pub struct PipelineExecutor {}

impl PipelineExecutor {
    pub fn new() -> (e: PipelineExecutor) {
        PipelineExecutor {  }
    }

    /// Topological sort of steps (Kahn's algorithm). Ready steps wait in a
    /// stack that starts in ascending name order; a step becomes ready when
    /// the last of its dependencies has been ordered.
    pub fn topological_sort(&self, steps: &Vec<PipelineStep>) -> (r: Result<Vec<String>, PipelineError>)
        ensures
            r is Ok <==> has_valid_order(steps@),
            r matches Ok(order) ==> valid_order(steps@, texts(order@)) && texts(order@) == kahn_order(steps@),
            r matches Err(e) ==> (e matches PipelineError::InvalidConfig(m) && m@ == cycle_message()),
    {
        let n = steps.len();
        let mut queue = initial_ready(steps);
        let mut result: Vec<String> = Vec::new();
        proof {
            assert(texts(result@) =~= Seq::<Seq<char>>::empty());
        }
        while result.len() < n && queue.len() > 0
            invariant
                n == steps@.len(),
                result@.len() <= n,
                kahn_inv(steps@, texts(result@), texts(queue@)),
                kahn_complete(steps@, texts(result@), texts(queue@)),
                kahn_from(steps@, texts(result@), texts(queue@), (n - result@.len()) as nat) == kahn_order(steps@),
            decreases n - result@.len(),
        {
            let ghost r0 = texts(result@);
            let ghost q0 = texts(queue@);
            let x = queue.pop().unwrap();
            result.push(x.clone());
            let ghost r1 = texts(result@);
            proof {
                assert(q0 =~= texts(queue@).push(x@));
                assert(r1 =~= r0.push(x@));
                assert(r1.take(r0.len() as int) =~= r0);
                // The newly ordered name was ready.
                assert(q0[q0.len() - 1] == x@);
                assert forall|p: int|
                    #![trigger r1[p]]
                    0 <= p < r1.len() implies exists|i: int|
                        0 <= i < steps@.len() && #[trigger] steps@[i].name@ == r1[p] && deps_within(
                            steps@[i],
                            r1.take(p),
                        ) by {
                    if p < r0.len() {
                        assert(r1.take(p) =~= r0.take(p));
                        assert(r1[p] == r0[p]);
                    } else {
                        let i = choose|i: int|
                            0 <= i < steps@.len() && steps@[i].name@ == #[trigger] q0[q0.len() - 1] && deps_within(
                                steps@[i],
                                r0,
                            );
                        assert(steps@[i].name@ == r1[p]);
                    }
                }
                assert forall|k: int| 0 <= k < texts(queue@).len() implies exists|i: int|
                    0 <= i < steps@.len() && steps@[i].name@ == #[trigger] texts(queue@)[k] && deps_within(
                        steps@[i],
                        r1,
                    ) by {
                    assert(texts(queue@)[k] == q0[k]);
                    let i = choose|i: int|
                        0 <= i < steps@.len() && steps@[i].name@ == #[trigger] q0[k] && deps_within(steps@[i], r0);
                    assert forall|t: int| 0 <= t < deps_of(steps@[i]).len() implies r1.contains(
                        #[trigger] deps_of(steps@[i])[t],
                    ) by {
                        assert(r0.contains(deps_of(steps@[i])[t]));
                    }
                }
                assert(r1.no_duplicates());
                assert(texts(queue@) =~= q0.take(q0.len() - 1));
                assert(texts(queue@).no_duplicates());
                assert(names_of(steps@).contains(q0[q0.len() - 1]));
                assert forall|k: int| 0 <= k < r1.len() implies names_of(steps@).contains(#[trigger] r1[k]) by {
                    if k < r0.len() {
                        assert(r1[k] == r0[k]);
                    }
                }
                assert forall|k: int| 0 <= k < texts(queue@).len() implies names_of(steps@).contains(#[trigger] texts(queue@)[k]) by {
                    assert(texts(queue@)[k] == q0[k]);
                }
                assert forall|k: int| 0 <= k < texts(queue@).len() implies !r1.contains(
                    #[trigger] texts(queue@)[k],
                ) by {
                    assert(texts(queue@)[k] == q0[k]);
                    assert(q0[k] != q0[q0.len() - 1]);
                }
            }
            proof {
                assert(texts(queue@) =~= q0.drop_last());
                assert(kahn_from(steps@, r0, q0, (n - r0.len()) as nat) == kahn_from(
                    steps@,
                    r1,
                    released(steps@, r1, q0.drop_last(), x@, n as int),
                    (n - r1.len()) as nat,
                ));
            }
            let mut i: usize = 0;
            while i < n
                invariant
                    n == steps@.len(),
                    i <= n,
                    r1 == texts(result@),
                    r1 == r0.push(x@),
                    kahn_inv(steps@, r1, texts(queue@)),
                    kahn_complete(steps@, r0, q0),
                    forall|j: int|
                        0 <= j < n && deps_within(steps@[j], r1) && !r1.contains(steps@[j].name@) && (j < i
                            || !deps_of(steps@[j]).contains(x@)) ==> texts(queue@).contains(
                            #[trigger] steps@[j].name@,
                        ),
                    forall|k: int| 0 <= k < q0.len() - 1 ==> texts(queue@).contains(#[trigger] q0[k]),
                    q0.len() > 0,
                    q0[q0.len() - 1] == x@,
                    texts(queue@) == released(steps@, r1, q0.drop_last(), x@, i as int),
                decreases n - i,
            {
                let s = &steps[i];
                if vec_contains_str(&s.depends_on, x.as_str()) && !vec_contains_str(&result, s.name.as_str())
                    && !vec_contains_str(&queue, s.name.as_str()) && deps_done(s, &result) {
                    let ghost qb = texts(queue@);
                    queue.push(s.name.clone());
                    proof {
                        assert(texts(queue@) =~= qb.push(steps@[i as int].name@));
                        assert(names_of(steps@)[i as int] == steps@[i as int].name@);
                        let qa = texts(queue@);
                        assert forall|k: int| 0 <= k < qa.len() implies exists|j: int|
                            0 <= j < steps@.len() && steps@[j].name@ == #[trigger] qa[k] && deps_within(
                                steps@[j],
                                r1,
                            ) by {
                            if k < qb.len() {
                                assert(qa[k] == qb[k]);
                            } else {
                                assert(steps@[i as int].name@ == qa[k]);
                            }
                        }
                        assert forall|k: int| 0 <= k < q0.len() - 1 implies qa.contains(#[trigger] q0[k]) by {
                            assert(qb.contains(q0[k]));
                        }
                        assert forall|j: int|
                            0 <= j < n && deps_within(steps@[j], r1) && !r1.contains(steps@[j].name@) && (j < i + 1
                                || !deps_of(steps@[j]).contains(x@)) implies qa.contains(
                            #[trigger] steps@[j].name@,
                        ) by {
                            if j == i {
                                assert(qa[qb.len() as int] == steps@[j].name@);
                            } else {
                                assert(qb.contains(steps@[j].name@));
                            }
                        }
                    }
                } else {
                    proof {
                        let qa = texts(queue@);
                        assert forall|j: int|
                            0 <= j < n && deps_within(steps@[j], r1) && !r1.contains(steps@[j].name@) && (j < i + 1
                                || !deps_of(steps@[j]).contains(x@)) implies qa.contains(
                            #[trigger] steps@[j].name@,
                        ) by {
                            if j == i && deps_of(steps@[j]).contains(x@) {
                                assert(texts(steps@[j].depends_on@) == deps_of(steps@[j]));
                            }
                        }
                    }
                }
                i = i + 1;
            }
            proof {
                // Steps not depending on the new name were already ready.
                assert forall|j: int|
                    0 <= j < n && deps_within(steps@[j], r1) && !r1.contains(steps@[j].name@) && !deps_of(
                        steps@[j],
                    ).contains(x@) implies texts(queue@).contains(#[trigger] steps@[j].name@) by {
                    assert forall|t: int| 0 <= t < deps_of(steps@[j]).len() implies r0.contains(
                        #[trigger] deps_of(steps@[j])[t],
                    ) by {
                        assert(r1.contains(deps_of(steps@[j])[t]));
                        if deps_of(steps@[j])[t] == x@ {
                            assert(deps_of(steps@[j]).contains(x@));
                        }
                    }
                    assert(q0.contains(steps@[j].name@));
                    let k = choose|k: int| 0 <= k < q0.len() && q0[k] == steps@[j].name@;
                    assert(k != q0.len() - 1);
                }
            }
        }
        if result.len() == n {
            proof {
                let r = texts(result@);
                let names = names_of(steps@);
                lemma_distinct_covers(r, names);
                assert forall|i: int| 0 <= i < steps@.len() implies r.contains(#[trigger] steps@[i].name@) by {
                    assert(names[i] == steps@[i].name@);
                }
                assert forall|i: int, t: int|
                    0 <= i < steps@.len() && 0 <= t < deps_of(steps@[i]).len() implies comes_before(
                        r,
                        #[trigger] deps_of(steps@[i])[t],
                        steps@[i].name@,
                    ) by {
                    assert(r.contains(steps@[i].name@));
                    let p = choose|p: int| 0 <= p < r.len() && r[p] == steps@[i].name@;
                    let j = choose|j: int|
                        0 <= j < steps@.len() && #[trigger] steps@[j].name@ == r[p] && deps_within(
                            steps@[j],
                            r.take(p),
                        );
                    assert(names[j] == names[i]);
                    assert(j == i);
                    assert(r.take(p).contains(deps_of(steps@[i])[t]));
                    let a = choose|a: int| 0 <= a < p && r.take(p)[a] == deps_of(steps@[i])[t];
                    assert(r[a] == deps_of(steps@[i])[t]);
                }
                assert(r.len() == steps@.len());
                assert(r.no_duplicates());
                assert(forall|k: int| 0 <= k < r.len() ==> names_of(steps@).contains(#[trigger] r[k]));
                assert(forall|i: int| 0 <= i < steps@.len() ==> r.contains(#[trigger] steps@[i].name@));
                assert(valid_order(steps@, r));
            }
            Ok(result)
        } else {
            proof {
                assert(texts(queue@) =~= Seq::<Seq<char>>::empty());
                lemma_stuck_has_no_order(steps@, texts(result@));
            }
            Err(PipelineError::InvalidConfig(String::from_str("cycle detected in pipeline steps")))
        }
    }

    /// A pipeline must have at least one step.
    pub fn require_steps(&self, steps: &Vec<PipelineStep>) -> (r: Result<(), PipelineError>)
        ensures
            r is Ok <==> steps@.len() > 0,
            r matches Err(e) ==> (e matches PipelineError::InvalidConfig(m) && m@ == no_steps_message()),
    {
        if steps.len() == 0 {
            Err(PipelineError::InvalidConfig(String::from_str("pipeline has no steps")))
        } else {
            Ok(())
        }
    }

    /// Validate that the step graph is a DAG: every dependency names a
    /// step (the first that does not is reported), and the steps can be
    /// ordered.
    pub fn validate_dag(&self, steps: &Vec<PipelineStep>) -> (r: Result<(), PipelineError>)
        ensures
            r is Ok <==> all_deps_known(steps@) && has_valid_order(steps@),
            r matches Err(e) ==> (e matches PipelineError::InvalidConfig(m) && if all_deps_known(steps@) {
                m@ == cycle_message()
            } else {
                exists|i: int, t: int|
                    first_unknown(steps@, i, t) && m@ == unknown_dep_message(
                        steps@[i].name@,
                        #[trigger] deps_of(steps@[i])[t],
                    )
            }),
    {
        let n = steps.len();
        let mut names: Vec<String> = Vec::new();
        let mut k: usize = 0;
        while k < n
            invariant
                n == steps@.len(),
                k <= n,
                texts(names@) == names_of(steps@).take(k as int),
            decreases n - k,
        {
            names.push(steps[k].name.clone());
            proof {
                assert(names_of(steps@).take(k + 1) =~= names_of(steps@).take(k as int).push(steps@[k as int].name@));
            }
            k = k + 1;
        }
        proof {
            assert(names_of(steps@).take(n as int) =~= names_of(steps@));
        }
        let mut i: usize = 0;
        while i < n
            invariant
                n == steps@.len(),
                i <= n,
                texts(names@) == names_of(steps@),
                forall|i2: int, t2: int| 0 <= i2 < i ==> !unknown_at(steps@, i2, t2),
            decreases n - i,
        {
            let step = &steps[i];
            let m = step.depends_on.len();
            let mut t: usize = 0;
            while t < m
                invariant
                    n == steps@.len(),
                    i < n,
                    *step == steps@[i as int],
                    m == steps@[i as int].depends_on@.len(),
                    t <= m,
                    texts(names@) == names_of(steps@),
                    forall|i2: int, t2: int| 0 <= i2 < i ==> !unknown_at(steps@, i2, t2),
                    forall|t2: int| 0 <= t2 < t ==> !unknown_at(steps@, i as int, t2),
                decreases m - t,
            {
                let dep = step.depends_on[t].as_str();
                proof {
                    assert(deps_of(steps@[i as int])[t as int] == dep@);
                }
                if !vec_contains_str(&names, dep) {
                    let msg = String::from_str("step '").concat(step.name.as_str()).concat(
                        "' depends on unknown step '",
                    ).concat(dep).concat("'");
                    proof {
                        assert(first_unknown(steps@, i as int, t as int));
                        assert(!all_deps_known(steps@));
                        reveal_strlit("step '");
                        reveal_strlit("' depends on unknown step '");
                        reveal_strlit("'");
                        assert(msg@ =~= unknown_dep_message(steps@[i as int].name@, deps_of(steps@[i as int])[t as int]));
                    }
                    return Err(PipelineError::InvalidConfig(msg));
                }
                t = t + 1;
            }
            i = i + 1;
        }
        match self.topological_sort(steps) {
            Ok(_) => Ok(()),
            Err(e) => Err(e),
        }
    }

    /// Evaluate a simple condition expression of the form
    /// `step.status == value` (or `!=`) against the steps run so far.
    /// A condition about a step that has not run, or that does not have
    /// this form, holds; one about another property of a step does not.
    pub fn evaluate_condition(
        &self,
        condition: &str,
        completed: &Vec<StepResult>,
        _variables: &JsonValue,
    ) -> (b: bool)
        ensures
            b == condition_holds(condition@, results_view(completed@)),
    {
        let parts = split_whitespace(condition);
        if parts.len() >= 3 {
            let field = parts[0].as_str();
            let op = parts[1].as_str();
            let value = parts[2].as_str();
            match find_char(field, '.') {
                Some(dot) => {
                    let len = field.unicode_len();
                    let step_name = field.substring_char(0, dot);
                    let prop = field.substring_char(dot + 1, len);
                    proof {
                        assert(step_name@ =~= field@.take(dot as int));
                        assert(prop@ =~= field@.skip(dot + 1));
                        assert(first_dot(field@) == Some(dot as int));
                    }
                    match latest_result(completed, step_name) {
                        Some(k) => {
                            if !str_equal(prop, "status") {
                                return false;
                            }
                            let actual = completed[k].status.as_str();
                            if str_equal(op, "==") {
                                return str_equal(actual, value);
                            } else if str_equal(op, "!=") {
                                return !str_equal(actual, value);
                            } else {
                                return false;
                            }
                        },
                        None => {},
                    }
                },
                None => {
                    proof {
                        assert(first_dot(field@) is None);
                    }
                },
            }
        }
        true
    }

    /// Find the first step with the given name.
    pub fn find_step(&self, steps: &Vec<PipelineStep>, name: &str) -> (r: Result<usize, PipelineError>)
        ensures
            match r {
                Ok(i) => i < steps@.len() && steps@[i as int].name@ == name@ && forall|j: int|
                    0 <= j < i ==> steps@[j].name@ != name@,
                Err(e) => (forall|j: int| 0 <= j < steps@.len() ==> steps@[j].name@ != name@) && (
                e matches PipelineError::InvalidConfig(m) && m@ == "step '"@ + name@ + "' not found"@),
            },
    {
        let n = steps.len();
        let mut i: usize = 0;
        while i < n
            invariant
                n == steps@.len(),
                i <= n,
                forall|j: int| 0 <= j < i ==> steps@[j].name@ != name@,
            decreases n - i,
        {
            if str_equal(steps[i].name.as_str(), name) {
                return Ok(i);
            }
            i = i + 1;
        }
        Err(PipelineError::InvalidConfig(String::from_str("step '").concat(name).concat("' not found")))
    }
}

/// Every dependency of every step names a step.
pub open spec fn all_deps_known(steps: Seq<PipelineStep>) -> bool {
    forall|i: int, t: int| !unknown_at(steps, i, t)
}

/// Dependency `t` of step `i` names no step.
pub open spec fn unknown_at(steps: Seq<PipelineStep>, i: int, t: int) -> bool {
    0 <= i < steps.len() && 0 <= t < deps_of(steps[i]).len() && !names_of(steps).contains(
        deps_of(steps[i])[t],
    )
}

/// The first unknown dependency, scanning steps in order and each step's
/// dependencies in order.
pub open spec fn first_unknown(steps: Seq<PipelineStep>, i: int, t: int) -> bool {
    &&& unknown_at(steps, i, t)
    &&& forall|i2: int, t2: int| 0 <= i2 < i ==> !unknown_at(steps, i2, t2)
    &&& forall|t2: int| 0 <= t2 < t ==> !unknown_at(steps, i, t2)
}

pub open spec fn unknown_dep_message(step: Seq<char>, dep: Seq<char>) -> Seq<char> {
    "step '"@ + step + "' depends on unknown step '"@ + dep + "'"@
}

/// What the scheduler reads of a step's result.
pub struct StepResultView {
    pub step_name: Seq<char>,
    pub status: Seq<char>,
    pub output: Option<Seq<char>>,
    pub error: Option<Seq<char>>,
    pub duration_ms: u64,
    pub retries_used: u32,
}

pub open spec fn opt_text(o: Option<String>) -> Option<Seq<char>> {
    match o {
        Some(s) => Some(s@),
        None => None,
    }
}

impl View for StepResult {
    type V = StepResultView;

    open spec fn view(&self) -> StepResultView {
        StepResultView {
            step_name: self.step_name@,
            status: self.status@,
            output: opt_text(self.output),
            error: opt_text(self.error),
            duration_ms: self.duration_ms,
            retries_used: self.retries_used,
        }
    }
}

pub open spec fn results_view(v: Seq<StepResult>) -> Seq<StepResultView> {
    v.map_values(|r: StepResult| r@)
}

/// The most recent result recorded for the step `name`.
pub open spec fn latest(c: Seq<StepResultView>, name: Seq<char>) -> Option<StepResultView>
    decreases c.len(),
{
    if c.len() == 0 {
        None
    } else if c.last().step_name == name {
        Some(c.last())
    } else {
        latest(c.drop_last(), name)
    }
}

/// The position of the first `.` in a text.
pub open spec fn first_dot(s: Seq<char>) -> Option<int> {
    if exists|i: int| 0 <= i < s.len() && s[i] == '.' {
        Some(choose|i: int| 0 <= i < s.len() && s[i] == '.' && forall|j: int| 0 <= j < i ==> s[j] != '.')
    } else {
        None
    }
}

/// Whether a step condition holds given the results so far.
pub open spec fn condition_holds(cond: Seq<char>, c: Seq<StepResultView>) -> bool {
    let p = split_ws(cond);
    if p.len() >= 3 {
        match first_dot(p[0]) {
            Some(dot) => match latest(c, p[0].take(dot)) {
                Some(res) => if p[0].skip(dot + 1) != "status"@ {
                    false
                } else if p[1] == "=="@ {
                    res.status == p[2]
                } else if p[1] == "!="@ {
                    res.status != p[2]
                } else {
                    false
                },
                None => true,
            },
            None => true,
        }
    } else {
        true
    }
}

/// Finds the most recent result recorded for a step.
pub fn latest_result(completed: &Vec<StepResult>, name: &str) -> (r: Option<usize>)
    ensures
        match r {
            Some(k) => k < completed@.len() && latest(results_view(completed@), name@) == Some(
                completed@[k as int]@,
            ),
            None => latest(results_view(completed@), name@) is None,
        },
{
    let n = completed.len();
    let mut i: usize = n;
    let ghost c = results_view(completed@);
    proof {
        assert(c.take(n as int) =~= c);
    }
    while i > 0
        invariant
            n == completed@.len(),
            c == results_view(completed@),
            i <= n,
            latest(c, name@) == latest(c.take(i as int), name@),
        decreases i,
    {
        proof {
            assert(c.take(i as int).drop_last() =~= c.take(i - 1));
            assert(c.take(i as int).last() == completed@[i - 1]@);
        }
        if str_equal(completed[i - 1].step_name.as_str(), name) {
            return Some(i - 1);
        }
        i = i - 1;
    }
    None
}

/// The record of a step skipped with the given reason.
pub open spec fn skip_view(name: Seq<char>, error: Option<Seq<char>>) -> StepResultView {
    StepResultView {
        step_name: name,
        status: "skipped"@,
        output: None,
        error,
        duration_ms: 0,
        retries_used: 0,
    }
}

pub open spec fn dep_failed_message(dep: Seq<char>) -> Seq<char> {
    "dependency '"@ + dep + "' failed"@
}

/// Checking a step's dependencies in order against the results `c`: a
/// dependency without a result stops the check (it is returned); one whose
/// latest result failed adds a skip record for the step; others pass.
/// Returns the results after the check and the missing dependency, if any.
pub open spec fn check_deps(name: Seq<char>, c: Seq<StepResultView>, deps: Seq<Seq<char>>) -> (Seq<
    StepResultView,
>, Option<Seq<char>>)
    decreases deps.len(),
{
    if deps.len() == 0 {
        (c, None)
    } else {
        match latest(c, deps[0]) {
            None => (c, Some(deps[0])),
            Some(res) => {
                let c2 = if res.status == "failed"@ {
                    c.push(skip_view(name, Some(dep_failed_message(deps[0]))))
                } else {
                    c
                };
                check_deps(name, c2, deps.drop_first())
            },
        }
    }
}

/// Outcome of a pipeline run.
pub struct PipelineOutcome {
    pub status: PipelineStatus,
    /// The run status as stored: `completed`, `failed` or `partial`.
    pub status_str: &'static str,
    /// The output of the last recorded step.
    pub final_output: Option<String>,
    /// Set when some step failed.
    pub error: Option<&'static str>,
}

pub open spec fn any_status(c: Seq<StepResultView>, st: Seq<char>) -> bool {
    exists|k: int| 0 <= k < c.len() && #[trigger] c[k].status == st
}

/// The status of a run from its step results: partial when some steps
/// failed and some completed, failed when steps failed and none completed,
/// completed otherwise.
pub open spec fn run_status(c: Seq<StepResultView>) -> PipelineStatus {
    let f = any_status(c, "failed"@);
    let ok = any_status(c, "completed"@);
    if f && ok {
        PipelineStatus::PartialSuccess
    } else if f {
        PipelineStatus::Failed
    } else {
        PipelineStatus::Completed
    }
}

/// A run is partial exactly when some step failed and some step completed,
/// failed when some step failed and none completed, and completed when no
/// step failed; results of any other status (skipped) count for neither.
pub proof fn lemma_run_status(c: Seq<StepResultView>)
    ensures
        run_status(c) == PipelineStatus::PartialSuccess <==> (exists|k: int|
            0 <= k < c.len() && #[trigger] c[k].status == "failed"@) && (exists|k: int|
            0 <= k < c.len() && #[trigger] c[k].status == "completed"@),
        run_status(c) == PipelineStatus::Failed <==> (exists|k: int|
            0 <= k < c.len() && #[trigger] c[k].status == "failed"@) && !(exists|k: int|
            0 <= k < c.len() && #[trigger] c[k].status == "completed"@),
        run_status(c) == PipelineStatus::Completed <==> !(exists|k: int|
            0 <= k < c.len() && #[trigger] c[k].status == "failed"@),
{
}

/// The progress of one pipeline run: the results per step (the latest
/// counts) and every result in the order it was recorded.
pub struct PipelineRun {
    completed: Vec<StepResult>,
    results: Vec<StepResult>,
}

impl PipelineRun {
    /// The results that conditions and dependencies are checked against.
    pub closed spec fn completed_view(&self) -> Seq<StepResultView> {
        results_view(self.completed@)
    }

    /// Every result, in the order recorded.
    pub closed spec fn results_view(&self) -> Seq<StepResultView> {
        results_view(self.results@)
    }

    /// Both logs hold the same records.
    pub closed spec fn wf(&self) -> bool {
        self.completed_view() == self.results_view()
    }

    pub fn new() -> (r: PipelineRun)
        ensures
            r.wf(),
            r.completed_view().len() == 0,
    {
        PipelineRun { completed: Vec::new(), results: Vec::new() }
    }

    /// The results recorded so far.
    pub fn results(&self) -> (v: &Vec<StepResult>)
        ensures
            results_view(v@) == self.results_view(),
    {
        &self.results
    }

    /// The results that conditions are evaluated against.
    pub fn completed(&self) -> (v: &Vec<StepResult>)
        ensures
            results_view(v@) == self.completed_view(),
    {
        &self.completed
    }

    /// Records the result of a step.
    pub fn record(&mut self, result: StepResult)
        requires
            old(self).wf(),
        ensures
            final(self).wf(),
            final(self).completed_view() == old(self).completed_view().push(result@),
    {
        let copy = clone_step_result(&result);
        self.completed.push(result);
        self.results.push(copy);
        proof {
            assert(results_view(self.completed@) =~= results_view(old(self).completed@).push(result@));
            assert(results_view(self.results@) =~= results_view(old(self).results@).push(result@));
        }
    }

    /// Decides whether a step runs. Its dependencies are checked in order:
    /// one that has no result yet fails the run; one whose latest result
    /// failed records a skip for the step. Then a false condition records a
    /// skip and the step does not run.
    pub fn gate(&mut self, exec: &PipelineExecutor, step: &PipelineStep, variables: &JsonValue) -> (r: Result<
        bool,
        PipelineError,
    >)
        requires
            old(self).wf(),
        ensures
            final(self).wf(),
            ({
                let (c2, missing) = check_deps(step.name@, old(self).completed_view(), deps_of(*step));
                match missing {
                    Some(d) => final(self).completed_view() == c2 && (r matches Err(
                        PipelineError::DependencyFailed { step: s, dependency: dep },
                    ) && s@ == step.name@ && dep@ == d),
                    None => match step.condition {
                        Some(cond) => if condition_holds(cond@, c2) {
                            r == Ok::<bool, PipelineError>(true) && final(self).completed_view() == c2
                        } else {
                            r == Ok::<bool, PipelineError>(false) && final(self).completed_view() == c2.push(
                                skip_view(step.name@, None),
                            )
                        },
                        None => r == Ok::<bool, PipelineError>(true) && final(self).completed_view() == c2,
                    },
                }
            }),
    {
        let m = step.depends_on.len();
        let mut t: usize = 0;
        let ghost name = step.name@;
        let ghost deps = deps_of(*step);
        proof {
            assert(deps.skip(0) =~= deps);
        }
        while t < m
            invariant
                m == step.depends_on@.len(),
                deps == deps_of(*step),
                name == step.name@,
                t <= m,
                self.wf(),
                check_deps(name, old(self).completed_view(), deps) == check_deps(
                    name,
                    self.completed_view(),
                    deps.skip(t as int),
                ),
            decreases m - t,
        {
            let dep = step.depends_on[t].as_str();
            proof {
                assert(deps[t as int] == dep@);
                assert(deps.skip(t as int)[0] == dep@);
                assert(deps.skip(t as int).drop_first() =~= deps.skip(t + 1));
            }
            match latest_result(&self.completed, dep) {
                None => {
                    return Err(
                        PipelineError::DependencyFailed {
                            step: step.name.clone(),
                            dependency: dep.to_owned(),
                        },
                    );
                },
                Some(k) => {
                    if str_equal(self.completed[k].status.as_str(), "failed") {
                        let msg = String::from_str("dependency '").concat(dep).concat("' failed");
                        proof {
                            reveal_strlit("dependency '");
                            reveal_strlit("' failed");
                            assert(msg@ =~= dep_failed_message(dep@));
                        }
                        self.record(skip_result(step.name.as_str(), Some(msg)));
                    }
                },
            }
            t = t + 1;
        }
        proof {
            assert(deps.skip(m as int) =~= Seq::<Seq<char>>::empty());
        }
        match &step.condition {
            Some(cond) => {
                if !exec.evaluate_condition(cond.as_str(), &self.completed, variables) {
                    self.record(skip_result(step.name.as_str(), None));
                    return Ok(false);
                }
                Ok(true)
            },
            None => Ok(true),
        }
    }

    /// The outcome once every step has been handled.
    pub fn outcome(&self) -> (o: PipelineOutcome)
        requires
            self.wf(),
        ensures
            o.status == run_status(self.results_view()),
            o.status_str@ == match o.status {
                PipelineStatus::Completed => "completed"@,
                PipelineStatus::Failed => "failed"@,
                PipelineStatus::PartialSuccess => "partial"@,
            },
            o.error is Some <==> any_status(self.results_view(), "failed"@),
            o.error matches Some(e) ==> e@ == "one or more steps failed"@,
            opt_text(o.final_output) == if self.results_view().len() == 0 {
                None
            } else {
                self.results_view().last().output
            },
    {
        let n = self.results.len();
        let mut has_failures = false;
        let mut has_successes = false;
        let mut i: usize = 0;
        let ghost c = self.results_view();
        while i < n
            invariant
                n == self.results@.len(),
                c == results_view(self.results@),
                i <= n,
                has_failures == exists|k: int| 0 <= k < i && #[trigger] c[k].status == "failed"@,
                has_successes == exists|k: int| 0 <= k < i && #[trigger] c[k].status == "completed"@,
            decreases n - i,
        {
            let st = self.results[i].status.as_str();
            proof {
                assert(c[i as int].status == st@);
            }
            if str_equal(st, "failed") {
                has_failures = true;
            }
            if str_equal(st, "completed") {
                has_successes = true;
            }
            i = i + 1;
        }
        let status = if has_failures && has_successes {
            PipelineStatus::PartialSuccess
        } else if has_failures {
            PipelineStatus::Failed
        } else {
            PipelineStatus::Completed
        };
        let status_str = match status {
            PipelineStatus::Completed => "completed",
            PipelineStatus::Failed => "failed",
            PipelineStatus::PartialSuccess => "partial",
        };
        let final_output = if n == 0 {
            None
        } else {
            match &self.results[n - 1].output {
                Some(o) => Some(o.clone()),
                None => None,
            }
        };
        PipelineOutcome {
            status,
            status_str,
            final_output,
            error: if has_failures {
                Some("one or more steps failed")
            } else {
                None
            },
        }
    }
}

/// A copy of a step result.
pub fn clone_step_result(r: &StepResult) -> (c: StepResult)
    ensures
        c@ == r@,
{
    StepResult {
        step_name: r.step_name.clone(),
        status: r.status.clone(),
        output: match &r.output {
            Some(o) => Some(o.clone()),
            None => None,
        },
        error: match &r.error {
            Some(e) => Some(e.clone()),
            None => None,
        },
        duration_ms: r.duration_ms,
        retries_used: r.retries_used,
    }
}

/// The record of a skipped step.
pub fn skip_result(name: &str, error: Option<String>) -> (r: StepResult)
    ensures
        r@ == skip_view(name@, opt_text(error)),
{
    StepResult {
        step_name: name.to_owned(),
        status: String::from_str("skipped"),
        output: None,
        error,
        duration_ms: 0,
        retries_used: 0,
    }
}

/// The record of a step whose every attempt failed.
pub fn failed_result(name: &str, error: String) -> (r: StepResult)
    ensures
        r@ == (StepResultView {
            step_name: name@,
            status: "failed"@,
            output: None,
            error: Some(error@),
            duration_ms: 0,
            retries_used: 0,
        }),
{
    StepResult {
        step_name: name.to_owned(),
        status: String::from_str("failed"),
        output: None,
        error: Some(error),
        duration_ms: 0,
        retries_used: 0,
    }
}

/// The attempts of one step: the first run, then up to the step's retry
/// count of retries while attempts fail.
pub struct StepAttempts {
    max_retries: u32,
    attempt: u32,
}

/// What follows an attempt of a step.
pub enum AttemptNext {
    /// Run the step again; this is its retry number `attempt`.
    Retry { attempt: u32 },
    /// The step is done: its result, or the error of its last attempt.
    Finished(Result<StepResult, PipelineError>),
}

impl StepAttempts {
    /// The retry count and the current attempt (0 for the first run).
    pub closed spec fn state(&self) -> (u32, u32) {
        (self.max_retries, self.attempt)
    }

    /// Attempts of `step`; a step without a retry policy is run once.
    pub fn new(step: &PipelineStep) -> (a: StepAttempts)
        ensures
            a.state().0 == match step.max_retries {
                Some(n) => n,
                None => 0,
            },
            a.state().1 == 0,
    {
        StepAttempts {
            max_retries: match step.max_retries {
                Some(n) => n,
                None => 0,
            },
            attempt: 0,
        }
    }

    /// Hands over the outcome of the current attempt: its output and the
    /// time it took, or its error. A success finishes the step as
    /// completed, with the number of retries used; a failure is retried
    /// while retries remain, and otherwise finishes the step with it.
    pub fn after(&mut self, step_name: &str, outcome: Result<(String, u64), PipelineError>) -> (n: AttemptNext)
        requires
            old(self).state().1 <= old(self).state().0,
        ensures
            final(self).state().0 == old(self).state().0,
            final(self).state().1 <= final(self).state().0,
            match outcome {
                Ok((out, ms)) => n matches AttemptNext::Finished(Ok(r)) && r@ == (StepResultView {
                    step_name: step_name@,
                    status: "completed"@,
                    output: Some(out@),
                    error: None,
                    duration_ms: ms,
                    retries_used: old(self).state().1,
                }),
                Err(e) => if old(self).state().1 < old(self).state().0 {
                    n matches AttemptNext::Retry { attempt } && attempt == old(self).state().1 + 1
                        && final(self).state().1 == attempt
                } else {
                    n == AttemptNext::Finished(Err(e))
                },
            },
    {
        match outcome {
            Ok((out, ms)) => AttemptNext::Finished(
                Ok(
                    StepResult {
                        step_name: step_name.to_owned(),
                        status: String::from_str("completed"),
                        output: Some(out),
                        error: None,
                        duration_ms: ms,
                        retries_used: self.attempt,
                    },
                ),
            ),
            Err(e) => {
                if self.attempt < self.max_retries {
                    self.attempt = self.attempt + 1;
                    AttemptNext::Retry { attempt: self.attempt }
                } else {
                    AttemptNext::Finished(Err(e))
                }
            },
        }
    }
}

/// How long one attempt of a step may take, in seconds: the step's
/// timeout, 300 by default.
pub fn step_timeout_secs(step: &PipelineStep) -> (s: u64)
    ensures
        s == match step.timeout_secs {
            Some(t) => t,
            None => 300,
        },
{
    match step.timeout_secs {
        Some(t) => t,
        None => 300,
    }
}

/// The prompt a step runs with, given its parameters and the variables as
/// pretty-printed JSON.
pub fn step_prompt(step: &PipelineStep, params_json: &str, variables_json: &str) -> (p: String)
    ensures
        p@ == "Execute step '"@ + step.name@ + "' of the pipeline.\n\nStep type: "@ + step.execute@
            + "\nParameters: "@ + params_json@ + "\nAvailable variables: "@ + variables_json@,
{
    String::from_str("Execute step '").concat(step.name.as_str()).concat(
        "' of the pipeline.\n\nStep type: ",
    ).concat(step.execute.as_str()).concat("\nParameters: ").concat(params_json).concat(
        "\nAvailable variables: ",
    ).concat(variables_json)
}

/// The members of an object with `key` set to `val`: the first member of
/// that name gets the value, or a member is appended when none has it.
pub open spec fn put_member(pairs: Seq<(String, JsonValue)>, key: String, val: JsonValue) -> Seq<
    (String, JsonValue),
>
    decreases pairs.len(),
{
    if pairs.len() == 0 {
        seq![(key, val)]
    } else if pairs[0].0@ == key@ {
        seq![(pairs[0].0, val)] + pairs.drop_first()
    } else {
        seq![pairs[0]] + put_member(pairs.drop_first(), key, val)
    }
}

/// After `key` is set, it holds `val` and every other name holds what it
/// held.
pub proof fn lemma_put_member(pairs: Seq<(String, JsonValue)>, key: String, val: JsonValue, k: Seq<char>)
    ensures
        member(put_member(pairs, key, val), k) == if k == key@ {
            Some(val)
        } else {
            member(pairs, k)
        },
    decreases pairs.len(),
{
    let p = put_member(pairs, key, val);
    if pairs.len() == 0 {
        assert(p.drop_first() =~= Seq::<(String, JsonValue)>::empty());
    } else if pairs[0].0@ == key@ {
        assert(p.drop_first() =~= pairs.drop_first());
    } else {
        assert(p.drop_first() =~= put_member(pairs.drop_first(), key, val));
        lemma_put_member(pairs.drop_first(), key, val, k);
    }
}

/// The variables after a step whose output reads as the JSON value `val`:
/// an object gets the value under the step's name (replacing any value it
/// had there); other variables stay as they are.
pub fn with_step_output(variables: JsonValue, step_name: &str, val: JsonValue) -> (v: JsonValue)
    ensures
        match variables {
            JsonValue::Object(_) => (v is Object && v.get_spec(step_name@) == Some(val) && forall|k: Seq<char>|
                k != step_name@ ==> #[trigger] v.get_spec(k) == variables.get_spec(k)),
            _ => v == variables,
        },
{
    match variables {
        JsonValue::Object(pairs) => {
            let key = step_name.to_owned();
            let ghost whole = put_member(pairs@, key, val);
            let mut src = pairs;
            let mut out: Vec<(String, JsonValue)> = Vec::new();
            let mut pending: Option<JsonValue> = Some(val);
            while src.len() > 0
                invariant
                    key@ == step_name@,
                    pending matches Some(x) ==> x == val && whole == out@ + put_member(src@, key, val),
                    pending is None ==> whole == out@ + src@,
                decreases src@.len(),
            {
                let ghost before = src@;
                let (k, x) = src.remove(0);
                proof {
                    assert(before.drop_first() =~= src@);
                }
                if pending.is_some() && crate::text::str_equal(k.as_str(), step_name) {
                    let v2 = pending.take().unwrap();
                    out.push((k, v2));
                    proof {
                        assert(whole =~= out@ + src@);
                    }
                } else {
                    out.push((k, x));
                    proof {
                        if pending is Some {
                            assert(whole =~= out@ + put_member(src@, key, val));
                        } else {
                            assert(whole =~= out@ + src@);
                        }
                    }
                }
            }
            match pending {
                Some(x) => {
                    out.push((key, x));
                    proof {
                        assert(whole =~= out@);
                    }
                },
                None => {
                    proof {
                        assert(whole =~= out@);
                    }
                },
            }
            let r = JsonValue::Object(out);
            proof {
                assert forall|k: Seq<char>| #[trigger] r.get_spec(k) == (if k == step_name@ {
                    Some(val)
                } else {
                    variables.get_spec(k)
                }) by {
                    lemma_put_member(pairs@, key, val, k);
                }
                assert(r.get_spec(step_name@) == Some(val));
            }
            r
        },
        other => other,
    }
}

} // verus!
