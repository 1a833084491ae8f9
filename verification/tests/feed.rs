use aria::afw::feed_executor::{extract_has_no_result, extract_json_array, FeedExecutor, FeedResponse};
use aria::afw::feed_scheduler::{feed_keeps_running, immediate_run_answer, plan_feed_run};
use aria::aria::feed_registry::{default_category, default_refresh_seconds, handler_hash, AriaFeed};
use aria::aria::types::{FeedItem, FeedResult};
use aria::json::{JsonNumber, JsonValue};

fn feed() -> AriaFeed {
    AriaFeed {
        id: 1,
        tenant_id: "t1".into(),
        name: "News".into(),
        description: "Top stories".into(),
        handler_code: "fetch()".into(),
        handler_hash: String::new(),
        schedule: "0 * * * *".into(),
        refresh_seconds: 0,
        category: "general".into(),
        retention: None,
        display: None,
        status: "active".into(),
    }
}

fn item(title: &str) -> FeedItem {
    FeedItem {
        card_type: "news".into(),
        title: title.into(),
        body: None,
        source: None,
        url: None,
        metadata: None,
        timestamp: None,
    }
}

#[test]
fn extract_json_from_markdown() {
    let text = "Here are the items:\n```json\n[{\"card_type\":\"news\",\"title\":\"Hello\"}]\n```\n";
    let result = extract_json_array(text);
    assert!(result.starts_with('['));
    let items: Vec<serde_json::Value> = serde_json::from_str(&result).unwrap();
    assert_eq!(items.len(), 1);
    assert_eq!(items[0]["title"], "Hello");
}

#[test]
fn extract_json_raw_array() {
    let text = "Some text [{\"card_type\":\"article\",\"title\":\"Test\"}] more text";
    let result = extract_json_array(text);
    let items: Vec<serde_json::Value> = serde_json::from_str(&result).unwrap();
    assert_eq!(items.len(), 1);
}

#[test]
fn extract_json_plain_fence_and_fallback() {
    assert_eq!(extract_json_array("x ```\n [1] \n``` y"), "[1]");
    assert_eq!(extract_json_array("no json here"), "no json here");
    assert_eq!(extract_json_array("```json\n[2]"), "[2]");
    assert!(!extract_has_no_result("a [1] b"));
    assert!(extract_has_no_result("b ] a ["));
}

#[test]
fn feed_prompt_names_the_feed() {
    let p = FeedExecutor::new().prompt(&feed());
    assert!(p.starts_with("You are a feed content generator. Generate content items for the 'News' feed.\n\nCategory: general\nDescription: Top stories\n\nHandler code (for context about what to generate):\n```\nfetch()\n```\n\n"));
    assert!(p.ends_with("Respond with ONLY the JSON array, no markdown wrapping."));
}

#[test]
fn unparsed_reply_is_kept_as_one_article() {
    let r = FeedExecutor::new().result(
        "News",
        FeedResponse::Unparsed { content: "raw".into(), error: "expected value".into() },
    );
    assert!(!r.success);
    assert_eq!(r.items.len(), 1);
    assert_eq!(r.items[0].card_type, "article");
    assert_eq!(r.items[0].title, "News");
    assert_eq!(r.items[0].body, Some("raw".to_string()));
    assert_eq!(r.summary, Some("Failed to parse structured items (expected value), used raw text".to_string()));
    assert_eq!(r.error, Some("parse_degraded: expected value".to_string()));
}

#[test]
fn failed_and_timed_out_runs() {
    let exec = FeedExecutor::new();
    let r = exec.result("News", FeedResponse::LlmFailed("503".into()));
    assert_eq!(r.error, Some("LLM error: 503".to_string()));
    assert!(r.items.is_empty());
    let t = exec.result("News", FeedResponse::TimedOut);
    assert_eq!(t.error, Some("Feed execution timed out".to_string()));
    let ok = exec.result("News", FeedResponse::Items(vec![item("a")]));
    assert!(ok.success);
    assert_eq!(ok.items[0].title, "a");
}

#[test]
fn feed_run_plan_stores_only_successful_items() {
    let retention = Some(JsonValue::Object(vec![
        ("max_items".to_string(), JsonValue::Number(JsonNumber::PosInt(50))),
        ("max_age_days".to_string(), JsonValue::String("7".to_string())),
    ]));
    let good = FeedResult { success: true, items: vec![item("a")], summary: None, metadata: None, error: None };
    let plan = plan_feed_run(&good, &retention);
    assert!(plan.store);
    assert_eq!(plan.max_items, Some(50));
    assert_eq!(plan.max_age_days, None);
    let empty = FeedResult { success: true, items: vec![], summary: None, metadata: None, error: None };
    assert!(!plan_feed_run(&empty, &None).store);
}

#[test]
fn immediate_run_answers() {
    let bad = FeedResult { success: false, items: vec![], summary: None, metadata: None, error: None };
    let (store, answer) = immediate_run_answer(bad);
    assert!(!store);
    assert_eq!(answer.unwrap_err(), "unknown error");
    let good = FeedResult { success: true, items: vec![item("a")], summary: None, metadata: None, error: None };
    let (store, answer) = immediate_run_answer(good);
    assert!(store);
    assert_eq!(answer.unwrap().len(), 1);
}

#[test]
fn scheduled_feed_stops_when_inactive() {
    let f = feed();
    assert!(feed_keeps_running(true, Some(&f)));
    assert!(!feed_keeps_running(false, Some(&f)));
    assert!(!feed_keeps_running(true, None));
    let mut paused = feed();
    paused.status = "paused".into();
    assert!(!feed_keeps_running(true, Some(&paused)));
}

#[test]
fn feed_registry_handler_hash_is_deterministic() {
    let code = "export default async function fetchFeed() { return []; }";
    let h1 = handler_hash(code);
    let h2 = handler_hash(code);
    assert_eq!(h1, h2);
    assert_eq!(h1.len(), 64);
}

#[test]
fn handler_hash_matches_known_digest() {
    assert_eq!(handler_hash("abc"), "ba7816bf8f01cfea414140de5dae2223b00361a396177a9cb410ff61f20015ad");
}

#[test]
fn default_refresh_seconds_is_one_hour() {
    assert_eq!(default_refresh_seconds(), 3600);
}

#[test]
fn default_category_is_general() {
    assert_eq!(default_category(), "general");
}
