//! Feed scheduling decisions: how often a feed runs, whether a scheduled
//! feed keeps running, what a run's result is stored as, and what an
//! immediate run answers.

use vstd::prelude::*;
use vstd::string::*;
use crate::afw::schedule::{interval_secs, schedule_to_interval_secs};
use crate::aria::feed_registry::AriaFeed;
use crate::aria::types::{FeedItem, FeedResult};
use crate::json::JsonValue;
use crate::text::str_equal;

verus! {

/// Minimum refresh interval (60 seconds) to prevent busy-spinning.
pub const MIN_INTERVAL_SECS: u64 = 60;

/// The interval a feed asks for: its refresh seconds when positive, else
/// the interval of its schedule string.
pub open spec fn raw_interval(refresh_seconds: i32, schedule: Seq<char>) -> int {
    if refresh_seconds > 0 {
        refresh_seconds as int
    } else {
        interval_secs(schedule)
    }
}

/// The interval a feed is run at: what it asks for, but at least a minute.
pub open spec fn feed_interval(refresh_seconds: i32, schedule: Seq<char>) -> int {
    let raw = raw_interval(refresh_seconds, schedule);
    if raw < MIN_INTERVAL_SECS {
        MIN_INTERVAL_SECS as int
    } else {
        raw
    }
}

/// The interval, in seconds, between two runs of a feed.
pub fn feed_interval_secs(feed: &AriaFeed) -> (secs: u64)
    requires
        feed.refresh_seconds <= 0 ==> interval_secs(feed.schedule@) <= u64::MAX,
    ensures
        secs == feed_interval(feed.refresh_seconds, feed.schedule@),
        secs >= MIN_INTERVAL_SECS,
{
    let raw: u64 = if feed.refresh_seconds > 0 {
        feed.refresh_seconds as u64
    } else {
        schedule_to_interval_secs(feed.schedule.as_str())
    };
    if raw < MIN_INTERVAL_SECS {
        MIN_INTERVAL_SECS
    } else {
        raw
    }
}

/// A scheduled feed keeps running while the scheduler runs and the feed,
/// read again, is still active.
pub fn feed_keeps_running(scheduler_running: bool, current: Option<&AriaFeed>) -> (b: bool)
    ensures
        b == (scheduler_running && (current matches Some(f) && f.status@ == "active"@)),
{
    if !scheduler_running {
        return false;
    }
    match current {
        Some(f) => str_equal(f.status.as_str(), "active"),
        None => false,
    }
}

/// The retention limits of a feed: its `max_items` and `max_age_days`
/// members, where they are integers.
pub open spec fn retention_limit(retention: Option<JsonValue>, key: Seq<char>) -> Option<i64> {
    match retention {
        Some(r) => match r.get_spec(key) {
            Some(v) => v.as_i64_spec(),
            None => None,
        },
        None => None,
    }
}

/// What a scheduled run of a feed does with its result.
pub struct FeedRunPlan {
    /// Store the run's items, then prune by the limits below.
    pub store: bool,
    pub max_items: Option<i64>,
    pub max_age_days: Option<i64>,
}

/// The number held in the member `key`, if any.
fn limit_of(retention: &Option<JsonValue>, key: &str) -> (r: Option<i64>)
    ensures
        r == retention_limit(*retention, key@),
{
    match retention {
        Some(r) => match r.get(key) {
            Some(v) => v.as_i64(),
            None => None,
        },
        None => None,
    }
}

/// A run that succeeded with items stores them and prunes the feed by its
/// retention limits; any other run stores nothing.
pub fn plan_feed_run(result: &FeedResult, retention: &Option<JsonValue>) -> (p: FeedRunPlan)
    ensures
        p.store == (result.success && result.items@.len() > 0),
        p.max_items == retention_limit(*retention, "max_items"@),
        p.max_age_days == retention_limit(*retention, "max_age_days"@),
{
    FeedRunPlan {
        store: result.success && result.items.len() > 0,
        max_items: limit_of(retention, "max_items"),
        max_age_days: limit_of(retention, "max_age_days"),
    }
}

/// What an immediate run of a feed answers: its items when it succeeded,
/// else its error (or `unknown error`). The items are stored when it
/// succeeded with some.
pub fn immediate_run_answer(result: FeedResult) -> (r: (bool, Result<Vec<FeedItem>, String>))
    ensures
        r.0 == (result.success && result.items@.len() > 0),
        result.success ==> r.1 == Ok::<Vec<FeedItem>, String>(result.items),
        !result.success ==> (r.1 matches Err(e) && e@ == match result.error {
            Some(m) => m@,
            None => "unknown error"@,
        }),
{
    let store = result.success && result.items.len() > 0;
    if result.success {
        (store, Ok(result.items))
    } else {
        match result.error {
            Some(m) => (store, Err(m)),
            None => (store, Err(String::from_str("unknown error"))),
        }
    }
}

} // verus!
