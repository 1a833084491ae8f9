//! Schedule computation for cron expressions, intervals, and one-shot times.

use vstd::prelude::*;
use crate::aria::types::CronSchedule;
use crate::text::{split_whitespace, split_ws, parse_u64, parse_u64_spec, starts_with, str_equal};
use vstd::string::*;

verus! {

/// The earliest instant, in milliseconds, on which a cron expression is
/// evaluated: two days after the start of `chrono`'s date range
/// (-262143-01-03), so that neither a zone offset nor croner's look at
/// the day before a candidate day leaves the range.
pub const CRON_EARLIEST_MS: i64 = -8334601142400000i64;

/// The instant, in milliseconds, before which a cron expression is
/// evaluated: 262142-11-30, a day before the last month of `chrono`'s date
/// range, so that croner's walk to the end of the start day's month and
/// its look a week ahead stay within the range.
pub const CRON_LATEST_MS: i64 = 8210264112000000i64;

/// The first instant, in milliseconds, that `chrono` represents:
/// -262143-01-01T00:00:00.000.
pub const CHRONO_FIRST_MS: i64 = -8334601315200000i64;

/// The last instant, in milliseconds, that `chrono` represents:
/// 262142-12-31T23:59:59.999.
pub const CHRONO_LAST_MS: i64 = 8210266876799999i64;

/// The instants on which croner evaluates a cron expression without
/// panicking: those `chrono` cannot represent, which give nothing, and
/// those clear of the edges of its range.
pub open spec fn cron_evaluable(now_ms: i64) -> bool {
    ||| now_ms < CHRONO_FIRST_MS
    ||| CRON_EARLIEST_MS <= now_ms < CRON_LATEST_MS
    ||| now_ms > CHRONO_LAST_MS
}

/// The instant, in milliseconds, of the first occurrence of the cron
/// expression `expr` strictly after `now_ms`, in UTC; nothing when the
/// expression does not parse or no occurrence can be represented.
pub uninterp spec fn cron_next_utc(expr: Seq<char>, now_ms: i64) -> Option<i64>;

/// As `cron_next_utc`, with the expression read in the IANA time zone `tz`;
/// nothing when the zone is unknown as well.
pub uninterp spec fn cron_next_zoned(expr: Seq<char>, tz: Seq<char>, now_ms: i64) -> Option<i64>;

/// Calls croner's `Cron::new(expr).parse()` and
/// `find_next_occurrence(start, false)` on `now_ms` as a UTC `chrono`
/// time, and returns the result in milliseconds. The contract names the
/// result, which depends on the expression and the instant alone, and
/// states that an instant `chrono` cannot represent gives nothing.
#[verifier::external_body]
fn cron_next_after_utc(expr: &str, now_ms: i64) -> (r: Option<i64>)
    requires
        cron_evaluable(now_ms),
    ensures
        r == cron_next_utc(expr@, now_ms),
        now_ms < CHRONO_FIRST_MS || now_ms > CHRONO_LAST_MS ==> r is None,
{
    let cron = croner::Cron::new(expr).parse().ok()?;
    let now = chrono::DateTime::from_timestamp_millis(now_ms)?;
    let next = cron.find_next_occurrence(&now, false).ok()?;
    Some(next.timestamp_millis())
}

/// Calls croner's `Cron::new(expr).parse()` and `find_next_occurrence`
/// on `now_ms` moved into the `chrono_tz` zone parsed from `tz`, and
/// returns the result in UTC milliseconds. The contract names the
/// result, which depends on the expression, the zone name and the instant,
/// and states that an instant `chrono` cannot represent gives nothing.
#[verifier::external_body]
fn cron_next_after_zoned(expr: &str, tz: &str, now_ms: i64) -> (r: Option<i64>)
    requires
        cron_evaluable(now_ms),
    ensures
        r == cron_next_zoned(expr@, tz@, now_ms),
        now_ms < CHRONO_FIRST_MS || now_ms > CHRONO_LAST_MS ==> r is None,
{
    let cron = croner::Cron::new(expr).parse().ok()?;
    let now = chrono::DateTime::from_timestamp_millis(now_ms)?;
    let zone: chrono_tz::Tz = tz.parse().ok()?;
    let next = cron.find_next_occurrence(&now.with_timezone(&zone), false).ok()?;
    Some(next.with_timezone(&chrono::Utc).timestamp_millis())
}

/// Integer division rounding toward zero, as `i64 /` does.
pub open spec fn trunc_div(a: int, b: int) -> int {
    if a >= 0 {
        a / b
    } else {
        -((-a) / b)
    }
}

/// The next point of the grid `anchor + k * every` after `now`, computed as
/// `anchor + ((now - anchor) / every + 1) * every` with division toward zero.
pub open spec fn every_next(every: int, anchor: int, now: int) -> int {
    anchor + (trunc_div(now - anchor, every) + 1) * every
}

pub open spec fn fits_i64(x: int) -> bool {
    i64::MIN <= x <= i64::MAX
}

/// The inputs `compute_next_run` accepts: for an interval, those on which
/// its arithmetic stays within `i64`; for a cron expression, instants
/// on which croner evaluates it without panicking (`cron_evaluable`).
pub open spec fn next_run_fits(schedule: CronSchedule, now_ms: i64) -> bool {
    match schedule {
        CronSchedule::Every { every_ms, anchor_ms } => {
            let anchor: int = match anchor_ms {
                Some(a) => a as int,
                None => 0,
            };
            every_ms <= 0 || (fits_i64(now_ms - anchor) && fits_i64(
                trunc_div(now_ms - anchor, every_ms as int) + 1,
            ) && fits_i64((trunc_div(now_ms - anchor, every_ms as int) + 1) * every_ms) && fits_i64(
                every_next(every_ms as int, anchor, now_ms as int),
            ))
        },
        CronSchedule::Cron { .. } => cron_evaluable(now_ms),
        _ => true,
    }
}

/// The next run of a schedule after `now_ms`.
pub open spec fn next_run(schedule: CronSchedule, now_ms: i64) -> Option<i64> {
    match schedule {
        CronSchedule::At { at_ms } => if at_ms > now_ms {
            Some(at_ms)
        } else {
            None
        },
        CronSchedule::Every { every_ms, anchor_ms } => {
            let anchor: int = match anchor_ms {
                Some(a) => a as int,
                None => 0,
            };
            if every_ms <= 0 {
                None
            } else {
                Some(every_next(every_ms as int, anchor, now_ms as int) as i64)
            }
        },
        CronSchedule::Cron { expr, tz } => match tz {
            Some(t) => cron_next_zoned(expr@, t@, now_ms),
            None => cron_next_utc(expr@, now_ms),
        },
    }
}

proof fn lemma_trunc_div_bounds(a: int, b: int)
    requires
        b > 0,
    ensures
        a >= 0 ==> b * trunc_div(a, b) <= a < b * trunc_div(a, b) + b,
        a < 0 ==> b * trunc_div(a, b) - b < a <= b * trunc_div(a, b),
{
    if a >= 0 {
        vstd::arithmetic::div_mod::lemma_fundamental_div_mod(a, b);
        vstd::arithmetic::div_mod::lemma_mod_bound(a, b);
    } else {
        vstd::arithmetic::div_mod::lemma_fundamental_div_mod(-a, b);
        vstd::arithmetic::div_mod::lemma_mod_bound(-a, b);
        let q = (-a) / b;
        assert(b * trunc_div(a, b) == -(b * q)) by (nonlinear_arith)
            requires
                trunc_div(a, b) == -q,
        ;
    }
}

/// An interval schedule's next run lies strictly after `now`, within one
/// interval of it; from the anchor on, it lies on the anchor's grid.
pub proof fn lemma_every_next_is_next_grid_point(every: int, anchor: int, now: int)
    requires
        every > 0,
    ensures
        now < every_next(every, anchor, now),
        anchor <= now ==> every_next(every, anchor, now) <= now + every,
        anchor <= now ==> (every_next(every, anchor, now) - anchor) % every == 0,
        anchor <= now ==> every_next(every, anchor, now) - every <= now,
{
    lemma_trunc_div_bounds(now - anchor, every);
    let q = trunc_div(now - anchor, every);
    assert((q + 1) * every == q * every + every) by (nonlinear_arith);
    assert(every * q == q * every) by (nonlinear_arith);
    if anchor <= now {
        vstd::arithmetic::div_mod::lemma_mod_multiples_basic(q + 1, every);
    }
}

/// Compute the next run time for a schedule.
///
/// Returns `None` if the schedule has no future runs (e.g., a one-shot that's past).
pub fn compute_next_run(schedule: &CronSchedule, now_ms: i64) -> (r: Option<i64>)
    requires
        next_run_fits(*schedule, now_ms),
    ensures
        r == next_run(*schedule, now_ms),
        schedule is At ==> (r is Some <==> schedule->at_ms > now_ms),
        schedule is Every && schedule->every_ms > 0 ==> (r matches Some(n) && now_ms < n),
        schedule is Every && schedule->every_ms <= 0 ==> r is None,
        schedule is Cron && (now_ms < CHRONO_FIRST_MS || now_ms > CHRONO_LAST_MS) ==> r is None,
{
    match schedule {
        CronSchedule::At { at_ms } => {
            if *at_ms > now_ms {
                Some(*at_ms)
            } else {
                None
            }
        },
        CronSchedule::Every { every_ms, anchor_ms } => {
            let anchor: i64 = match anchor_ms {
                Some(a) => *a,
                None => 0,
            };
            if *every_ms <= 0 {
                return None;
            }
            let elapsed: i64 = now_ms - anchor;
            let periods: i64 = elapsed / *every_ms;
            proof {
                assert(periods == trunc_div(elapsed as int, *every_ms as int));
            }
            let next: i64 = anchor + (periods + 1) * *every_ms;
            proof {
                lemma_every_next_is_next_grid_point(*every_ms as int, anchor as int, now_ms as int);
            }
            Some(next)
        },
        CronSchedule::Cron { expr, tz } => match tz {
            Some(t) => cron_next_after_zoned(expr.as_str(), t.as_str(), now_ms),
            None => cron_next_after_utc(expr.as_str(), now_ms),
        },
    }
}

/// The refresh interval, in seconds, that a cron-style schedule string
/// stands for: `*/N * * * *` is N minutes, `M * * * *` an hour and
/// `M H * * *` a day; anything else, or fewer than five fields, an hour.
pub open spec fn interval_secs(s: Seq<char>) -> int {
    let p = split_ws(s);
    if p.len() < 5 {
        3600
    } else if p[0].len() >= 2 && p[0].take(2) == "*/"@ && parse_u64_spec(p[0].skip(2)) is Some {
        parse_u64_spec(p[0].skip(2))->0 * 60
    } else if parse_u64_spec(p[0]) is Some && p[1] == "*"@ {
        3600
    } else if parse_u64_spec(p[0]) is Some && parse_u64_spec(p[1]) is Some && p[2] == "*"@ {
        86400
    } else {
        3600
    }
}

/// Parse a simple cron-style schedule string into a refresh interval in seconds.
///
/// Supports basic patterns:
/// - `*/N * * * *` → every N minutes
/// - `M * * * *`   → every hour (at minute M)
/// - `M H * * *`   → every day (at H:M)
///
/// Falls back to 3600 (1 hour) for unparseable expressions.
pub fn schedule_to_interval_secs(schedule: &str) -> (secs: u64)
    requires
        interval_secs(schedule@) <= u64::MAX,
    ensures
        secs == interval_secs(schedule@),
{
    let parts = split_whitespace(schedule);
    if parts.len() < 5 {
        return 3600;
    }
    let first = parts[0].as_str();
    proof {
        reveal_strlit("*/");
    }
    if starts_with(first, "*/") {
        let rest = first.substring_char(2, first.unicode_len());
        proof {
            reveal_strlit("*/");
            assert(rest@ =~= parts@[0]@.skip(2));
        }
        if let Some(n) = parse_u64(rest) {
            return n * 60;
        }
    }
    proof {
        reveal_strlit("*/");
    }
    if parse_u64(first).is_some() && str_equal(parts[1].as_str(), "*") {
        return 3600;
    }
    if parse_u64(first).is_some() && parse_u64(parts[1].as_str()).is_some() && str_equal(
        parts[2].as_str(),
        "*",
    ) {
        return 86400;
    }
    3600
}

/// Whether the interval a schedule string stands for fits in 64 bits (a
/// `*/N` schedule whose N minutes overflow in seconds does not).
pub fn interval_secs_fits(schedule: &str) -> (b: bool)
    ensures
        b == (interval_secs(schedule@) <= u64::MAX),
{
    let parts = split_whitespace(schedule);
    if parts.len() < 5 {
        return true;
    }
    let first = parts[0].as_str();
    proof {
        reveal_strlit("*/");
    }
    if starts_with(first, "*/") {
        let rest = first.substring_char(2, first.unicode_len());
        proof {
            assert(rest@ =~= parts@[0]@.skip(2));
        }
        if let Some(n) = parse_u64(rest) {
            return n <= u64::MAX / 60;
        }
    }
    true
}

} // verus!
