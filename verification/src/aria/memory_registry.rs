//! The memory store: the tier an entry lands in by default, the prompt
//! section that summarises the store, and the error of a missing key.

use vstd::prelude::*;
use vstd::string::*;
use crate::aria::registry::RegistryError;
use crate::aria::types::MemoryTier;
use crate::text::{join_strings, join_texts, signed_decimal, signed_decimal_text, texts};

verus! {

/// The tier of a memory entry set without one.
pub fn default_tier() -> (t: MemoryTier)
    ensures
        t == MemoryTier::Longterm,
{
    MemoryTier::Longterm
}

/// The number of entries stored in one tier.
pub struct TierCount {
    pub tier: String,
    pub count: i64,
}

/// The lines of the tier counts.
pub open spec fn tier_lines(rows: Seq<TierCount>) -> Seq<char>
    decreases rows.len(),
{
    if rows.len() == 0 {
        Seq::empty()
    } else {
        tier_lines(rows.drop_last()) + "- **"@ + rows.last().tier@ + "**: "@ + signed_decimal(
            rows.last().count as int,
        ) + " entries\n"@
    }
}

/// The memory section of a system prompt: empty when the store is empty,
/// else the count of each tier, then the recent long-term keys if any.
pub fn memory_prompt_section(counts: &Vec<TierCount>, recent_keys: &Vec<String>) -> (s: String)
    ensures
        s@ == if counts@.len() == 0 {
            Seq::empty()
        } else {
            "## Memory Store\n\n"@ + tier_lines(counts@) + if recent_keys@.len() == 0 {
                Seq::<char>::empty()
            } else {
                "\nRecent longterm keys: "@ + join_texts(texts(recent_keys@), ", "@) + "\n"@
            }
        },
{
    if counts.len() == 0 {
        return String::new();
    }
    let mut section = String::from_str("## Memory Store\n\n");
    let ghost head = section@;
    let n = counts.len();
    let mut i: usize = 0;
    while i < n
        invariant
            n == counts@.len(),
            i <= n,
            head == "## Memory Store\n\n"@,
            section@ == head + tier_lines(counts@.take(i as int)),
        decreases n - i,
    {
        let row = &counts[i];
        section.append("- **");
        section.append(row.tier.as_str());
        section.append("**: ");
        let count_text = signed_decimal_text(row.count);
        section.append(count_text.as_str());
        section.append(" entries\n");
        proof {
            assert(counts@.take(i + 1).drop_last() =~= counts@.take(i as int));
            assert(counts@.take(i + 1).last() == counts@[i as int]);
            assert(section@ =~= head + tier_lines(counts@.take(i + 1)));
        }
        i = i + 1;
    }
    proof {
        assert(counts@.take(n as int) =~= counts@);
    }
    if recent_keys.len() > 0 {
        section.append("\nRecent longterm keys: ");
        let keys = join_strings(recent_keys, ", ");
        section.append(keys.as_str());
        section.append("\n");
    }
    section
}

/// The error of a key that holds no memory entry for the tenant.
pub fn memory_not_found(tenant_id: &str, key: &str) -> (e: RegistryError)
    ensures
        e matches RegistryError::NotFound { entity, id } && entity@ == "memory"@ && id@ == tenant_id@
            + ":"@ + key@,
{
    RegistryError::NotFound {
        entity: String::from_str("memory"),
        id: String::from_str(tenant_id).concat(":").concat(key),
    }
}

} // verus!
