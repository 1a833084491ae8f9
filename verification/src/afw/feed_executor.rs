//! Feed runs: the prompt a feed's model call is made with, the recovery
//! of a JSON array from the model's reply, and the result a reply gives.

use vstd::prelude::*;
use vstd::string::*;
use crate::aria::feed_registry::AriaFeed;
use crate::aria::types::{FeedItem, FeedResult};
use crate::text::{char_from, char_last, find_char, find_from, find_str, find_text, occurs_at, rfind_char, skip_chars, trim, trim_text};

verus! {

/// Builds feed prompts and turns model replies into feed results.
pub struct FeedExecutor {}

/// What came of a feed's model call, once the caller tried to read the
/// reply as a JSON array of items (first as it came, then as extracted by
/// `extract_json_array`).
pub enum FeedResponse {
    /// The reply, or the array extracted from it, read as these items.
    Items(Vec<FeedItem>),
    /// Neither read as items; `error` is the reader's error on the
    /// extracted text.
    Unparsed { content: String, error: String },
    /// The model call failed with this error.
    LlmFailed(String),
    /// The model did not answer in time.
    TimedOut,
}

/// The text between the first `open` fence and the next closing fence,
/// trimmed, if both occur.
pub open spec fn fenced(t: Seq<char>, open: Seq<char>) -> Option<Seq<char>> {
    match find_text(t, open) {
        Some(a) => {
            let rest = t.skip(a + open.len());
            match find_text(rest, "```"@) {
                Some(b) => Some(trim_text(rest.take(b))),
                None => None,
            }
        },
        None => None,
    }
}

/// The JSON array recovered from a reply: the body of a ```` ```json ````
/// block, else of a plain fenced block, else the text from the first `[`
/// to the last `]`, else the reply itself.
pub open spec fn extracted(t: Seq<char>) -> Seq<char> {
    match fenced(t, "```json"@) {
        Some(x) => x,
        None => match fenced(t, "```"@) {
            Some(x) => x,
            None => match (char_from(t, '[', 0), char_last(t, ']', t.len() as int)) {
                (Some(a), Some(b)) => t.subrange(a, b + 1),
                _ => t,
            },
        },
    }
}

/// The reply holds no fenced block and its last `]` comes before its first
/// `[`: the slice from one to the other does not exist.
pub open spec fn brackets_reversed(t: Seq<char>) -> bool {
    &&& fenced(t, "```json"@) is None
    &&& fenced(t, "```"@) is None
    &&& match (char_from(t, '[', 0), char_last(t, ']', t.len() as int)) {
        (Some(a), Some(b)) => b < a,
        _ => false,
    }
}

/// The first `c` from `i` on is at `a` when none comes between.
proof fn lemma_char_from_at(s: Seq<char>, c: char, i: int, a: int)
    requires
        0 <= i <= a < s.len(),
        s[a] == c,
        forall|k: int| i <= k < a ==> s[k] != c,
    ensures
        char_from(s, c, i) == Some(a),
    decreases a - i,
{
    if i < a {
        lemma_char_from_at(s, c, i + 1, a);
    }
}

/// The last `c` before `n` is at `b` when none comes after it.
proof fn lemma_char_last_at(s: Seq<char>, c: char, n: int, b: int)
    requires
        0 <= b < n <= s.len(),
        s[b] == c,
        forall|k: int| b < k < n ==> s[k] != c,
    ensures
        char_last(s, c, n) == Some(b),
    decreases n - b,
{
    if b < n - 1 {
        lemma_char_last_at(s, c, n - 1, b);
    }
}

/// A text that never holds the first character of `p` holds no `p`.
proof fn lemma_find_from_none(s: Seq<char>, p: Seq<char>, i: int)
    requires
        p.len() > 0,
        forall|k: int| 0 <= k < s.len() ==> s[k] != p[0],
    ensures
        find_from(s, p, i) is None,
    decreases s.len() - i,
{
    if 0 <= i && i + p.len() <= s.len() {
        if occurs_at(s, p, i) {
            assert(s.subrange(i, i + p.len())[0] == s[i]);
        }
        lemma_find_from_none(s, p, i + 1);
    }
}

/// A reply without fences whose first `[` is at `a` and whose last `]` is
/// at `b`, after it, yields exactly the text from `a` through `b`.
pub proof fn lemma_extract_first_to_last_bracket(t: Seq<char>, a: int, b: int)
    requires
        forall|k: int| 0 <= k < t.len() ==> t[k] != '`',
        0 <= a < b < t.len(),
        t[a] == '[',
        t[b] == ']',
        forall|k: int| 0 <= k < a ==> t[k] != '[',
        forall|k: int| b < k < t.len() ==> t[k] != ']',
    ensures
        !brackets_reversed(t),
        extracted(t) == t.subrange(a, b + 1),
{
    reveal_strlit("```json");
    reveal_strlit("```");
    lemma_find_from_none(t, "```json"@, 0);
    lemma_find_from_none(t, "```"@, 0);
    lemma_char_from_at(t, '[', 0, a);
    lemma_char_last_at(t, ']', t.len() as int, b);
}

/// The body of the first block that opens with `open`.
fn fenced_block(text: &str, open: &str) -> (r: Option<String>)
    requires
        open@.len() > 0,
    ensures
        r matches Some(x) ==> fenced(text@, open@) == Some(x@),
        r is None ==> fenced(text@, open@) is None,
{
    proof {
        reveal_strlit("```");
    }
    let _n = text.unicode_len();
    let m = open.unicode_len();
    match find_str(text, open) {
        Some(start) => {
            let rest = skip_chars(text, start + m);
            match find_str(rest, "```") {
                Some(end) => {
                    let body = rest.substring_char(0, end);
                    proof {
                        assert(body@ =~= rest@.take(end as int));
                    }
                    Some(trim(body))
                },
                None => None,
            }
        },
        None => None,
    }
}

/// Whether a reply would have its brackets reversed (see
/// `brackets_reversed`), where `extract_json_array` has no result.
pub fn extract_has_no_result(text: &str) -> (b: bool)
    ensures
        b == brackets_reversed(text@),
{
    proof {
        reveal_strlit("```json");
        reveal_strlit("```");
    }
    if fenced_block(text, "```json").is_some() || fenced_block(text, "```").is_some() {
        return false;
    }
    match (find_char(text, '['), rfind_char(text, ']')) {
        (Some(a), Some(b)) => b < a,
        _ => false,
    }
}

/// Extract a JSON array from text that may be wrapped in markdown code blocks.
pub fn extract_json_array(text: &str) -> (r: String)
    requires
        !brackets_reversed(text@),
    ensures
        r@ == extracted(text@),
{
    proof {
        reveal_strlit("```json");
        reveal_strlit("```");
    }
    if let Some(x) = fenced_block(text, "```json") {
        return x;
    }
    if let Some(x) = fenced_block(text, "```") {
        return x;
    }
    let _n = text.unicode_len();
    if let Some(start) = find_char(text, '[') {
        if let Some(end) = rfind_char(text, ']') {
            let r = text.substring_char(start, end + 1).to_owned();
            return r;
        }
    }
    text.to_owned()
}

/// The prompt a feed's model call is made with.
pub open spec fn feed_prompt(f: AriaFeed) -> Seq<char> {
    "You are a feed content generator. Generate content items for the '"@ + f.name@
        + "' feed.\n\nCategory: "@ + f.category@ + "\nDescription: "@ + f.description@
        + "\n\nHandler code (for context about what to generate):\n```\n"@ + f.handler_code@
        + "\n```\n\nGenerate a JSON array of feed items. Each item should have:\n- card_type: string (e.g., \"article\", \"news\", \"weather\")\n- title: string\n- body: string (optional)\n- source: string (optional)\n- url: string (optional)\n\nRespond with ONLY the JSON array, no markdown wrapping."@
}

/// The result a feed run reports for a model reply.
pub open spec fn feed_result_ok(feed_name: Seq<char>, response: FeedResponse, r: FeedResult) -> bool {
    match response {
        FeedResponse::Items(items) => r.success && r.items == items && r.summary is None
            && r.metadata is None && r.error is None,
        FeedResponse::Unparsed { content, error } => {
            &&& !r.success
            &&& r.items@.len() == 1
            &&& r.items@[0].card_type@ == "article"@
            &&& r.items@[0].title@ == feed_name
            &&& r.items@[0].body matches Some(b) && b@ == content@
            &&& r.items@[0].source is None
            &&& r.items@[0].url is None
            &&& r.items@[0].metadata is None
            &&& r.items@[0].timestamp is None
            &&& r.summary matches Some(s) && s@ == "Failed to parse structured items ("@ + error@
                + "), used raw text"@
            &&& r.metadata is None
            &&& r.error matches Some(e) && e@ == "parse_degraded: "@ + error@
        },
        FeedResponse::LlmFailed(e) => !r.success && r.items@.len() == 0 && r.summary is None
            && r.metadata is None && (r.error matches Some(m) && m@ == "LLM error: "@ + e@),
        FeedResponse::TimedOut => !r.success && r.items@.len() == 0 && r.summary is None
            && r.metadata is None && (r.error matches Some(m) && m@
            == "Feed execution timed out"@),
    }
}

impl FeedExecutor {
    pub fn new() -> (e: FeedExecutor) {
        FeedExecutor {  }
    }

    /// The prompt for a run of `feed`.
    pub fn prompt(&self, feed: &AriaFeed) -> (p: String)
        ensures
            p@ == feed_prompt(*feed),
    {
        String::from_str("You are a feed content generator. Generate content items for the '").concat(
            feed.name.as_str(),
        ).concat("' feed.\n\nCategory: ").concat(feed.category.as_str()).concat(
            "\nDescription: ",
        ).concat(feed.description.as_str()).concat(
            "\n\nHandler code (for context about what to generate):\n```\n",
        ).concat(feed.handler_code.as_str()).concat(
            "\n```\n\nGenerate a JSON array of feed items. Each item should have:\n- card_type: string (e.g., \"article\", \"news\", \"weather\")\n- title: string\n- body: string (optional)\n- source: string (optional)\n- url: string (optional)\n\nRespond with ONLY the JSON array, no markdown wrapping.",
        )
    }

    /// The result of a run of the feed named `feed_name`. A reply that does
    /// not read as items is kept whole as one article, and the run is
    /// marked as not clean.
    pub fn result(&self, feed_name: &str, response: FeedResponse) -> (r: FeedResult)
        ensures
            feed_result_ok(feed_name@, response, r),
    {
        match response {
            FeedResponse::Items(items) => FeedResult {
                success: true,
                items,
                summary: None,
                metadata: None,
                error: None,
            },
            FeedResponse::Unparsed { content, error } => {
                let item = FeedItem {
                    card_type: String::from_str("article"),
                    title: feed_name.to_owned(),
                    body: Some(content),
                    source: None,
                    url: None,
                    metadata: None,
                    timestamp: None,
                };
                let mut items: Vec<FeedItem> = Vec::new();
                items.push(item);
                FeedResult {
                    success: false,
                    items,
                    summary: Some(
                        String::from_str("Failed to parse structured items (").concat(
                            error.as_str(),
                        ).concat("), used raw text"),
                    ),
                    metadata: None,
                    error: Some(String::from_str("parse_degraded: ").concat(error.as_str())),
                }
            },
            FeedResponse::LlmFailed(e) => FeedResult {
                success: false,
                items: Vec::new(),
                summary: None,
                metadata: None,
                error: Some(String::from_str("LLM error: ").concat(e.as_str())),
            },
            FeedResponse::TimedOut => FeedResult {
                success: false,
                items: Vec::new(),
                summary: None,
                metadata: None,
                error: Some(String::from_str("Feed execution timed out")),
            },
        }
    }
}

} // verus!
