//! The cron job table: the state that the cron service's timer loop
//! drives. Three schedule kinds are supported:
//! - **At**: one-shot at a specific time
//! - **Every**: recurring interval
//! - **Cron**: full cron expressions
//!
//! Each tick of the loop is `begin_due` (claim the due jobs), one
//! `dispatch` per claimed job, `finish_job` for each, then `next_delay_ms`.

use vstd::prelude::*;
use crate::afw::schedule::{CHRONO_FIRST_MS, CHRONO_LAST_MS, CRON_EARLIEST_MS, CRON_LATEST_MS, compute_next_run, next_run, next_run_fits, every_next, trunc_div, fits_i64};
use crate::aria::types::{clone_opt_string, CronPayload, CronSchedule, CronSessionTarget};
use crate::text::str_equal;
use vstd::string::*;

verus! {

/// A scheduled cron job.
#[derive(Debug)]
pub struct CronJob {
    pub id: String,
    pub name: String,
    pub schedule: CronSchedule,
    pub session_target: CronSessionTarget,
    pub payload: CronPayload,
    pub enabled: bool,
    pub next_run_at_ms: Option<i64>,
    pub running_at_ms: Option<i64>,
    pub last_run_at_ms: Option<i64>,
    pub delete_after_run: bool,
    pub agent_id: Option<String>,
}

impl Clone for CronJob {
    fn clone(&self) -> (r: CronJob)
        ensures
            r == *self,
    {
        CronJob {
            id: self.id.clone(),
            name: self.name.clone(),
            schedule: self.schedule.clone(),
            session_target: self.session_target,
            payload: self.payload.clone(),
            enabled: self.enabled,
            next_run_at_ms: self.next_run_at_ms,
            running_at_ms: self.running_at_ms,
            last_run_at_ms: self.last_run_at_ms,
            delete_after_run: self.delete_after_run,
            agent_id: clone_opt_string(&self.agent_id),
        }
    }
}

/// Input for creating a cron job.
#[derive(Debug)]
pub struct CronJobCreate {
    pub name: String,
    pub schedule: CronSchedule,
    pub session_target: CronSessionTarget,
    pub payload: CronPayload,
    pub agent_id: Option<String>,
    pub delete_after_run: bool,
}

/// Events emitted by the cron service.
#[derive(Debug, Clone)]
pub enum CronEvent {
    Started { job_id: String, job_name: String },
    Completed { job_id: String, job_name: String },
    Failed { job_id: String, job_name: String, error: String },
}

/// Status of the cron service.
#[derive(Debug, Clone)]
pub struct CronServiceStatus {
    pub enabled: bool,
    pub job_count: usize,
    pub next_wake_at_ms: Option<i64>,
}

/// What running a claimed job amounts to.
#[derive(Debug)]
pub enum JobDispatch {
    /// Enqueue this text as a system event into the main session, then
    /// request an immediate heartbeat.
    EnqueueSystemEvent { text: String },
    /// Run an isolated agent job with this payload and agent.
    RunIsolated { payload: CronPayload, agent_id: Option<String> },
    /// The job cannot run; it fails with this message.
    Reject { error: String },
}

/// Maximum time a job can be "running" before we consider it stuck (2 hours).
pub const STUCK_THRESHOLD_MS: i64 = 7200000i64;

/// Delay before the next check when no job is waiting.
pub const IDLE_DELAY_MS: u64 = 60000u64;

/// Shortest delay between two checks.
pub const MIN_DELAY_MS: u64 = 100u64;

/// The job built from a creation request.
pub open spec fn job_from(input: CronJobCreate, id: String, now_ms: i64) -> CronJob {
    CronJob {
        id,
        name: input.name,
        schedule: input.schedule,
        session_target: input.session_target,
        payload: input.payload,
        enabled: true,
        next_run_at_ms: next_run(input.schedule, now_ms),
        running_at_ms: None,
        last_run_at_ms: None,
        delete_after_run: input.delete_after_run,
        agent_id: input.agent_id,
    }
}

/// The position of the job with the given id, if any.
pub open spec fn position(jobs: Seq<CronJob>, id: Seq<char>) -> Option<int> {
    if exists|i: int| 0 <= i < jobs.len() && jobs[i].id@ == id {
        Some(choose|i: int| 0 <= i < jobs.len() && jobs[i].id@ == id)
    } else {
        None
    }
}

/// No two jobs share an id.
pub open spec fn unique_ids(jobs: Seq<CronJob>) -> bool {
    forall|i: int, j: int| 0 <= i < jobs.len() && 0 <= j < jobs.len() && i != j ==> jobs[i].id@ != jobs[j].id@
}

/// A job is due when it is enabled, not running, and its next run is not
/// after `now_ms`.
pub open spec fn is_due(job: CronJob, now_ms: i64) -> bool {
    job.enabled && job.running_at_ms is None && (job.next_run_at_ms matches Some(n) && n <= now_ms)
}

/// A running marker older than the stuck threshold is dropped.
pub open spec fn is_stuck(job: CronJob, now_ms: i64) -> bool {
    job.running_at_ms matches Some(r) && now_ms - r > STUCK_THRESHOLD_MS
}

/// The job once stale running markers are cleared.
pub open spec fn unstuck(job: CronJob, now_ms: i64) -> CronJob {
    if is_stuck(job, now_ms) {
        CronJob { running_at_ms: None, ..job }
    } else {
        job
    }
}

/// Sort order of `list`: jobs without a next run first, then by next run.
pub open spec fn key_le(a: Option<i64>, b: Option<i64>) -> bool {
    match (a, b) {
        (None, _) => true,
        (Some(_), None) => false,
        (Some(x), Some(y)) => x <= y,
    }
}

pub open spec fn sorted_by_next_run(s: Seq<CronJob>) -> bool {
    forall|i: int, j: int| 0 <= i < j < s.len() ==> key_le(s[i].next_run_at_ms, s[j].next_run_at_ms)
}

/// The earliest next run among jobs that pass `wake`; nothing if none has one.
pub open spec fn min_next_run(s: Seq<CronJob>, running_counts: bool) -> Option<i64>
    decreases s.len(),
{
    if s.len() == 0 {
        None
    } else {
        let rest = min_next_run(s.drop_last(), running_counts);
        let j = s.last();
        let here: Option<i64> = if j.enabled && (running_counts || j.running_at_ms is None) {
            j.next_run_at_ms
        } else {
            None
        };
        match (rest, here) {
            (None, h) => h,
            (r, None) => r,
            (Some(a), Some(b)) => Some(if a <= b { a } else { b }),
        }
    }
}

/// The job after it has run at `now_ms`.
pub open spec fn finished(job: CronJob, now_ms: i64) -> CronJob {
    CronJob {
        running_at_ms: None,
        last_run_at_ms: Some(now_ms),
        next_run_at_ms: next_run(job.schedule, now_ms),
        enabled: if job.schedule is At { false } else { job.enabled },
        ..job
    }
}

pub open spec fn main_needs_system_event() -> Seq<char> {
    "main session target requires system_event payload"@
}

/// The in-memory table of cron jobs, keyed by job id.
pub struct CronJobs {
    jobs: Vec<CronJob>,
}

impl CronJobs {
    /// The jobs, in the order they were first added.
    pub closed spec fn view(&self) -> Seq<CronJob> {
        self.jobs@
    }

    /// No two jobs share an id.
    pub closed spec fn wf(&self) -> bool {
        unique_ids(self.jobs@)
    }

    /// An empty table.
    pub fn new() -> (t: CronJobs)
        ensures
            t.wf(),
            t.view().len() == 0,
    {
        CronJobs { jobs: Vec::new() }
    }

    /// Number of jobs.
    pub fn len(&self) -> (n: usize)
        ensures
            n == self.view().len(),
    {
        self.jobs.len()
    }

    /// Finds the position of a job by id.
    pub fn find(&self, id: &str) -> (r: Option<usize>)
        requires
            self.wf(),
        ensures
            match r {
                Some(i) => position(self.view(), id@) == Some(i as int) && i < self.view().len(),
                None => position(self.view(), id@) is None,
            },
    {
        let n = self.jobs.len();
        let mut i: usize = 0;
        while i < n
            invariant
                n == self.jobs@.len(),
                i <= n,
                unique_ids(self.jobs@),
                forall|k: int| 0 <= k < i ==> self.jobs@[k].id@ != id@,
            decreases n - i,
        {
            if str_equal(self.jobs[i].id.as_str(), id) {
                proof {
                    assert(0 <= i < self.jobs@.len() && self.jobs@[i as int].id@ == id@);
                    let c = choose|k: int| 0 <= k < self.jobs@.len() && self.jobs@[k].id@ == id@;
                    assert(c == i);
                }
                return Some(i);
            }
            i = i + 1;
        }
        None
    }

    /// A copy of the job with the given id.
    pub fn get(&self, id: &str) -> (r: Option<CronJob>)
        requires
            self.wf(),
        ensures
            match position(self.view(), id@) {
                Some(i) => r == Some(self.view()[i]),
                None => r is None,
            },
    {
        match self.find(id) {
            Some(i) => Some(self.jobs[i].clone()),
            None => None,
        }
    }

    /// Add a new job under the given id, scheduled from `now_ms`.
    /// An existing job with the same id is replaced.
    pub fn add(&mut self, input: CronJobCreate, id: String, now_ms: i64) -> (job: CronJob)
        requires
            old(self).wf(),
            next_run_fits(input.schedule, now_ms),
        ensures
            final(self).wf(),
            job == job_from(input, id, now_ms),
            match position(old(self).view(), id@) {
                Some(i) => final(self).view() == old(self).view().update(i, job),
                None => final(self).view() == old(self).view().push(job),
            },
    {
        let next_run = compute_next_run(&input.schedule, now_ms);
        let job = CronJob {
            id,
            name: input.name,
            schedule: input.schedule,
            session_target: input.session_target,
            payload: input.payload,
            enabled: true,
            next_run_at_ms: next_run,
            running_at_ms: None,
            last_run_at_ms: None,
            delete_after_run: input.delete_after_run,
            agent_id: input.agent_id,
        };
        let copy = job.clone();
        match self.find(copy.id.as_str()) {
            Some(i) => {
                self.jobs.set(i, job);
            },
            None => {
                self.jobs.push(job);
            },
        }
        copy
    }

    /// The job with the given id gets a new name, schedule or enabled
    /// flag where one is given; a new schedule is planned from `now_ms`.
    /// Without such a job nothing changes.
    pub fn update(
        &mut self,
        id: &str,
        name: Option<String>,
        schedule: Option<CronSchedule>,
        enabled: Option<bool>,
        now_ms: i64,
    )
        requires
            old(self).wf(),
            schedule matches Some(s) ==> next_run_fits(s, now_ms),
        ensures
            final(self).wf(),
            match position(old(self).view(), id@) {
                Some(i) => final(self).view() == old(self).view().update(
                    i,
                    updated(old(self).view()[i], name, schedule, enabled, now_ms),
                ),
                None => final(self).view() == old(self).view(),
            },
    {
        match self.find(id) {
            Some(i) => {
                let mut job = self.jobs[i].clone();
                match name {
                    Some(n) => {
                        job.name = n;
                    },
                    None => {},
                }
                match schedule {
                    Some(s) => {
                        job.next_run_at_ms = compute_next_run(&s, now_ms);
                        job.schedule = s;
                    },
                    None => {},
                }
                match enabled {
                    Some(e) => {
                        job.enabled = e;
                    },
                    None => {},
                }
                self.jobs.set(i, job);
                proof {
                    assert forall|a: int, b: int|
                        0 <= a < self.jobs@.len() && 0 <= b < self.jobs@.len() && a != b implies self.jobs@[a].id@
                        != self.jobs@[b].id@ by {
                        assert(old(self).view()[a].id@ != old(self).view()[b].id@);
                    }
                }
            },
            None => {},
        }
    }

    /// Remove a job; tells whether it was there.
    pub fn remove(&mut self, id: &str) -> (removed: bool)
        requires
            old(self).wf(),
        ensures
            final(self).wf(),
            removed == position(old(self).view(), id@) is Some,
            match position(old(self).view(), id@) {
                Some(i) => final(self).view() == old(self).view().remove(i),
                None => final(self).view() == old(self).view(),
            },
    {
        match self.find(id) {
            Some(i) => {
                self.jobs.remove(i);
                proof {
                    let o = old(self).view();
                    assert forall|a: int, b: int|
                        0 <= a < self.jobs@.len() && 0 <= b < self.jobs@.len() && a != b implies self.jobs@[a].id@
                        != self.jobs@[b].id@ by {
                        let a2 = if a < i { a } else { a + 1 };
                        let b2 = if b < i { b } else { b + 1 };
                        assert(self.jobs@[a] == o[a2]);
                        assert(self.jobs@[b] == o[b2]);
                    }
                }
                true
            },
            None => false,
        }
    }

    /// All jobs, ordered by next run (jobs without one first); jobs with
    /// equal next runs keep their table order.
    pub fn list(&self) -> (out: Vec<CronJob>)
        ensures
            out@.to_multiset() == self.view().to_multiset(),
            out@.len() == self.view().len(),
            sorted_by_next_run(out@),
    {
        let n = self.jobs.len();
        let mut out: Vec<CronJob> = Vec::new();
        let mut i: usize = 0;
        proof {
            assert(self.jobs@.take(0) =~= out@);
        }
        while i < n
            invariant
                n == self.jobs@.len(),
                i <= n,
                out@.to_multiset() == self.jobs@.take(i as int).to_multiset(),
                out@.len() == i,
                sorted_by_next_run(out@),
            decreases n - i,
        {
            let job = self.jobs[i].clone();
            let key = job.next_run_at_ms;
            let m = out.len();
            let mut p: usize = 0;
            while p < m && next_run_le(out[p].next_run_at_ms, key)
                invariant
                    m == out@.len(),
                    p <= m,
                    forall|k: int| 0 <= k < p ==> key_le(#[trigger] out@[k].next_run_at_ms, key),
                decreases m - p,
            {
                p = p + 1;
            }
            proof {
                // Everything from `p` on sorts after the new job.
                assert forall|k: int| p <= k < m implies !key_le(#[trigger] out@[k].next_run_at_ms, key) by {
                    if p < m {
                        assert(!key_le(out@[p as int].next_run_at_ms, key));
                        if k > p {
                            assert(key_le(out@[p as int].next_run_at_ms, out@[k].next_run_at_ms));
                        }
                    }
                }
            }
            let ghost before = out@;
            out.insert(p, job);
            proof {
                vstd::seq_lib::to_multiset_insert(before, p as int, self.jobs@[i as int]);
                assert(self.jobs@.take(i + 1) =~= self.jobs@.take(i as int).push(self.jobs@[i as int]));
                vstd::seq_lib::to_multiset_build(self.jobs@.take(i as int), self.jobs@[i as int]);
                assert forall|a: int, b: int| 0 <= a < b < out@.len() implies key_le(
                    out@[a].next_run_at_ms,
                    out@[b].next_run_at_ms,
                ) by {
                    if a < p && b < p {
                        assert(out@[a] == before[a] && out@[b] == before[b]);
                    } else if a < p && b == p {
                        assert(out@[a] == before[a]);
                    } else if a < p && b > p {
                        assert(out@[a] == before[a] && out@[b] == before[b - 1]);
                    } else if a == p {
                        assert(out@[b] == before[b - 1]);
                        assert(!key_le(before[b - 1].next_run_at_ms, key));
                    } else {
                        assert(out@[a] == before[a - 1] && out@[b] == before[b - 1]);
                    }
                }
            }
            i = i + 1;
        }
        proof {
            assert(self.jobs@.take(n as int) =~= self.jobs@);
        }
        out
    }

    /// The service status: whether the timer loop runs, how many jobs
    /// there are, and the earliest next run among enabled jobs.
    pub fn status(&self, running: bool) -> (st: CronServiceStatus)
        ensures
            st.enabled == running,
            st.job_count == self.view().len(),
            st.next_wake_at_ms == min_next_run(self.view(), true),
    {
        CronServiceStatus {
            enabled: running,
            job_count: self.jobs.len(),
            next_wake_at_ms: self.earliest_next_run(true),
        }
    }

    /// The earliest next run among enabled jobs, counting running jobs or not.
    fn earliest_next_run(&self, running_counts: bool) -> (r: Option<i64>)
        ensures
            r == min_next_run(self.view(), running_counts),
    {
        let n = self.jobs.len();
        let mut acc: Option<i64> = None;
        let mut i: usize = 0;
        proof {
            assert(self.jobs@.take(0) =~= Seq::<CronJob>::empty());
        }
        while i < n
            invariant
                n == self.jobs@.len(),
                i <= n,
                acc == min_next_run(self.jobs@.take(i as int), running_counts),
            decreases n - i,
        {
            let j = &self.jobs[i];
            let here: Option<i64> = if j.enabled && (running_counts || j.running_at_ms.is_none()) {
                j.next_run_at_ms
            } else {
                None
            };
            acc = match (acc, here) {
                (None, h) => h,
                (r, None) => r,
                (Some(a), Some(b)) => Some(if a <= b { a } else { b }),
            };
            proof {
                assert(self.jobs@.take(i + 1).drop_last() =~= self.jobs@.take(i as int));
            }
            i = i + 1;
        }
        proof {
            assert(self.jobs@.take(n as int) =~= self.jobs@);
        }
        acc
    }

    /// Start of a timer tick at `now_ms`: running markers older than the
    /// stuck threshold are cleared, then every due job is marked running
    /// from `now_ms`. Returns the ids of the claimed jobs, in table order.
    pub fn begin_due(&mut self, now_ms: i64) -> (ids: Vec<String>)
        requires
            old(self).wf(),
        ensures
            final(self).wf(),
            final(self).view().len() == old(self).view().len(),
            forall|k: int| 0 <= k < old(self).view().len() ==> #[trigger] final(self).view()[k] == claimed(
                old(self).view()[k],
                now_ms,
            ),
            ids@.map_values(|s: String| s@) == old(self).view().filter(|j: CronJob| claims(j, now_ms)).map_values(
                |j: CronJob| j.id@,
            ),
    {
        let n = self.jobs.len();
        let mut ids: Vec<String> = Vec::new();
        let mut i: usize = 0;
        let ghost old_jobs = self.jobs@;
        let ghost pred = |j: CronJob| claims(j, now_ms);
        let ghost idv = |j: CronJob| j.id@;
        let ghost sv = |s: String| s@;
        proof {
            assert(old_jobs.take(0).filter(pred) =~= Seq::<CronJob>::empty());
            assert(ids@.map_values(sv) =~= old_jobs.take(0).filter(pred).map_values(idv));
        }
        while i < n
            invariant
                n == self.jobs@.len(),
                n == old_jobs.len(),
                i <= n,
                pred == (|j: CronJob| claims(j, now_ms)),
                idv == (|j: CronJob| j.id@),
                sv == (|s: String| s@),
                forall|k: int| 0 <= k < i ==> #[trigger] self.jobs@[k] == claimed(old_jobs[k], now_ms),
                forall|k: int| i <= k < n ==> #[trigger] self.jobs@[k] == old_jobs[k],
                forall|k: int| 0 <= k < n ==> #[trigger] self.jobs@[k].id == old_jobs[k].id,
                ids@.map_values(sv) == old_jobs.take(i as int).filter(pred).map_values(idv),
            decreases n - i,
        {
            let mut job = self.jobs[i].clone();
            let stuck = match job.running_at_ms {
                Some(r) => (now_ms as i128) - (r as i128) > (STUCK_THRESHOLD_MS as i128),
                None => false,
            };
            if stuck {
                job.running_at_ms = None;
            }
            let due = job.enabled && job.running_at_ms.is_none() && match job.next_run_at_ms {
                Some(next) => next <= now_ms,
                None => false,
            };
            let ghost before_ids = ids@;
            if due {
                job.running_at_ms = Some(now_ms);
                ids.push(job.id.clone());
            }
            self.jobs.set(i, job);
            proof {
                let o = old_jobs[i as int];
                assert(old_jobs.take(i + 1) =~= old_jobs.take(i as int).push(o));
                old_jobs.take(i as int).lemma_filter_push(o, pred);
                if due {
                    assert(ids@ =~= before_ids.push(o.id));
                    assert(ids@.map_values(sv) =~= before_ids.map_values(sv).push(o.id@));
                    assert(old_jobs.take(i + 1).filter(pred) =~= old_jobs.take(i as int).filter(pred).push(o));
                    assert(old_jobs.take(i + 1).filter(pred).map_values(idv) =~= old_jobs.take(
                        i as int,
                    ).filter(pred).map_values(idv).push(o.id@));
                } else {
                    assert(old_jobs.take(i + 1).filter(pred) =~= old_jobs.take(i as int).filter(pred));
                }
            }
            i = i + 1;
        }
        proof {
            assert(old_jobs.take(n as int) =~= old_jobs);
            assert forall|a: int, b: int|
                0 <= a < self.jobs@.len() && 0 <= b < self.jobs@.len() && a != b implies self.jobs@[a].id@
                != self.jobs@[b].id@ by {
                assert(self.jobs@[a].id == old_jobs[a].id);
                assert(self.jobs@[b].id == old_jobs[b].id);
            }
        }
        ids
    }

    /// End of a job's run at `now_ms`: the running marker is cleared, the
    /// run recorded and the next run planned; a one-shot job is disabled,
    /// or removed when it asked to be. Without such a job nothing changes.
    pub fn finish_job(&mut self, id: &str, now_ms: i64)
        requires
            old(self).wf(),
            position(old(self).view(), id@) matches Some(i) ==> next_run_fits(
                old(self).view()[i].schedule,
                now_ms,
            ),
        ensures
            final(self).wf(),
            match position(old(self).view(), id@) {
                Some(i) => if old(self).view()[i].schedule is At && old(self).view()[i].delete_after_run {
                    final(self).view() == old(self).view().remove(i)
                } else {
                    final(self).view() == old(self).view().update(i, finished(old(self).view()[i], now_ms))
                },
                None => final(self).view() == old(self).view(),
            },
    {
        match self.find(id) {
            Some(i) => {
                let mut job = self.jobs[i].clone();
                job.running_at_ms = None;
                job.last_run_at_ms = Some(now_ms);
                job.next_run_at_ms = compute_next_run(&job.schedule, now_ms);
                let one_shot = match job.schedule {
                    CronSchedule::At { .. } => true,
                    _ => false,
                };
                if one_shot {
                    job.enabled = false;
                    if job.delete_after_run {
                        self.jobs.remove(i);
                        proof {
                            let o = old(self).view();
                            assert forall|a: int, b: int|
                                0 <= a < self.jobs@.len() && 0 <= b < self.jobs@.len() && a != b implies self.jobs@[a].id@
                                != self.jobs@[b].id@ by {
                                let a2 = if a < i { a } else { a + 1 };
                                let b2 = if b < i { b } else { b + 1 };
                                assert(self.jobs@[a] == o[a2]);
                                assert(self.jobs@[b] == o[b2]);
                            }
                        }
                        return ;
                    }
                }
                self.jobs.set(i, job);
                proof {
                    assert forall|a: int, b: int|
                        0 <= a < self.jobs@.len() && 0 <= b < self.jobs@.len() && a != b implies self.jobs@[a].id@
                        != self.jobs@[b].id@ by {
                        assert(old(self).view()[a].id@ != old(self).view()[b].id@);
                    }
                }
            },
            None => {},
        }
    }

    /// How long the timer sleeps after a tick ending at `now_ms`: until the
    /// earliest next run of an enabled, idle job, but at least the minimum
    /// delay; the idle delay when there is none.
    pub fn next_delay_ms(&self, now_ms: i64) -> (ms: u64)
        ensures
            ms == delay_until(min_next_run(self.view(), false), now_ms),
    {
        match self.earliest_next_run(false) {
            Some(next) => {
                let d: i128 = (next as i128) - (now_ms as i128);
                if d >= (MIN_DELAY_MS as i128) {
                    d as u64
                } else {
                    MIN_DELAY_MS
                }
            },
            None => IDLE_DELAY_MS,
        }
    }
}

/// The delay until `next` from `now_ms`, at least the minimum delay; the
/// idle delay when there is no next run.
pub open spec fn delay_until(next: Option<i64>, now_ms: i64) -> int {
    match next {
        Some(n) => if n - now_ms >= MIN_DELAY_MS {
            n - now_ms
        } else {
            MIN_DELAY_MS as int
        },
        None => IDLE_DELAY_MS as int,
    }
}

/// Whether `a` sorts no later than `b` in `list`.
pub fn next_run_le(a: Option<i64>, b: Option<i64>) -> (r: bool)
    ensures
        r == key_le(a, b),
{
    match (a, b) {
        (None, _) => true,
        (Some(_), None) => false,
        (Some(x), Some(y)) => x <= y,
    }
}

/// The job after a tick at `now_ms` has looked at it.
pub open spec fn claimed(job: CronJob, now_ms: i64) -> CronJob {
    let u = unstuck(job, now_ms);
    if is_due(u, now_ms) {
        CronJob { running_at_ms: Some(now_ms), ..u }
    } else {
        u
    }
}

/// A tick at `now_ms` claims the job.
pub open spec fn claims(job: CronJob, now_ms: i64) -> bool {
    is_due(unstuck(job, now_ms), now_ms)
}

/// The job with a new name, schedule or enabled flag where one is given.
pub open spec fn updated(
    job: CronJob,
    name: Option<String>,
    schedule: Option<CronSchedule>,
    enabled: Option<bool>,
    now_ms: i64,
) -> CronJob {
    CronJob {
        name: match name {
            Some(n) => n,
            None => job.name,
        },
        schedule: match schedule {
            Some(s) => s,
            None => job.schedule,
        },
        next_run_at_ms: match schedule {
            Some(s) => next_run(s, now_ms),
            None => job.next_run_at_ms,
        },
        enabled: match enabled {
            Some(e) => e,
            None => job.enabled,
        },
        ..job
    }
}

/// An update that gives an enabled flag sets the job's flag to it, one
/// that gives none leaves the flag as it was, and the job keeps its id;
/// a job disabled so is claimed by no tick, at any instant.
pub proof fn lemma_update_sets_enabled(
    job: CronJob,
    name: Option<String>,
    schedule: Option<CronSchedule>,
    enabled: Option<bool>,
    now_ms: i64,
    later_ms: i64,
)
    ensures
        enabled matches Some(e) ==> updated(job, name, schedule, enabled, now_ms).enabled == e,
        enabled is None ==> updated(job, name, schedule, enabled, now_ms).enabled == job.enabled,
        updated(job, name, schedule, enabled, now_ms).id == job.id,
        enabled == Some(false) ==> !claims(updated(job, name, schedule, enabled, now_ms), later_ms),
{
}

/// A job a tick has claimed is not claimed again by a tick at the same
/// instant, and that second tick leaves it as it is.
pub proof fn lemma_claim_once(job: CronJob, now_ms: i64)
    ensures
        !claims(claimed(job, now_ms), now_ms),
        claimed(claimed(job, now_ms), now_ms) == claimed(job, now_ms),
{
}

/// A job that has just run is not running, and a one-shot job is no
/// longer enabled, so no later tick claims it again.
pub proof fn lemma_one_shot_runs_once(job: CronJob, now_ms: i64, later_ms: i64)
    requires
        job.schedule is At,
    ensures
        !claims(finished(job, now_ms), later_ms),
        finished(job, now_ms).running_at_ms is None,
        finished(job, now_ms).last_run_at_ms == Some(now_ms),
{
}

/// What a job amounts to when it runs: a main-session job enqueues its
/// system event (any other payload is rejected); an isolated job runs its
/// payload as an agent job.
pub fn dispatch(job: &CronJob) -> (d: JobDispatch)
    ensures
        match (job.session_target, job.payload) {
            (CronSessionTarget::Main, CronPayload::SystemEvent { text }) => d matches JobDispatch::EnqueueSystemEvent {
                text: t,
            } && t == text,
            (CronSessionTarget::Main, _) => d matches JobDispatch::Reject { error } && error@
                == main_needs_system_event(),
            (CronSessionTarget::Isolated, p) => d matches JobDispatch::RunIsolated { payload, agent_id } && payload
                == p && agent_id == job.agent_id,
        },
{
    match job.session_target {
        CronSessionTarget::Main => match &job.payload {
            CronPayload::SystemEvent { text } => JobDispatch::EnqueueSystemEvent { text: text.clone() },
            _ => JobDispatch::Reject {
                error: String::from_str("main session target requires system_event payload"),
            },
        },
        CronSessionTarget::Isolated => JobDispatch::RunIsolated {
            payload: job.payload.clone(),
            agent_id: clone_opt_string(&job.agent_id),
        },
    }
}

/// Checks, without overflow, whether `compute_next_run` accepts these
/// inputs.
pub fn next_run_fits_check(schedule: &CronSchedule, now_ms: i64) -> (b: bool)
    ensures
        b == next_run_fits(*schedule, now_ms),
{
    match schedule {
        CronSchedule::Cron { .. } => now_ms < CHRONO_FIRST_MS || (CRON_EARLIEST_MS <= now_ms && now_ms
            < CRON_LATEST_MS) || now_ms > CHRONO_LAST_MS,
        CronSchedule::Every { every_ms, anchor_ms } => {
            if *every_ms <= 0 {
                return true;
            }
            let anchor: i128 = match anchor_ms {
                Some(a) => *a as i128,
                None => 0,
            };
            let e: i128 = (now_ms as i128) - anchor;
            let q: i128 = e / (*every_ms as i128);
            proof {
                assert(q == trunc_div(e as int, *every_ms as int));
                crate::afw::schedule::lemma_every_next_is_next_grid_point(*every_ms as int, anchor as int, now_ms as int);
            }
            let lo: i128 = i64::MIN as i128;
            let hi: i128 = i64::MAX as i128;
            if e < lo || e > hi {
                return false;
            }
            // |q| <= |e| < 2^63, so q + 1 and the products below fit in i128.
            proof {
                assert(-0x8000_0000_0000_0000 <= q <= 0x7fff_ffff_ffff_ffff) by {
                    vstd::arithmetic::div_mod::lemma_div_is_ordered_by_denominator(
                        if e >= 0 { e as int } else { -e },
                        1,
                        *every_ms as int,
                    );
                }
            }
            let q1: i128 = q + 1;
            if q1 < lo || q1 > hi {
                return false;
            }
            proof {
                assert(-0x8000_0000_0000_0000 * 0x7fff_ffff_ffff_ffff <= q1 * (*every_ms as int)
                    <= 0x7fff_ffff_ffff_ffff * 0x7fff_ffff_ffff_ffff) by (nonlinear_arith)
                    requires
                        -0x8000_0000_0000_0000 <= q1 <= 0x7fff_ffff_ffff_ffff,
                        0 < *every_ms <= 0x7fff_ffff_ffff_ffff,
                ;
            }
            let prod: i128 = q1 * (*every_ms as i128);
            if prod < lo || prod > hi {
                return false;
            }
            let next: i128 = anchor + prod;
            next >= lo && next <= hi
        },
        _ => true,
    }
}

} // verus!
