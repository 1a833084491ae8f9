//! The key-value store's prefix query: the SQL `LIKE` pattern a prefix is
//! matched with.

use vstd::prelude::*;
use vstd::string::*;

verus! {

/// A character as it stands in a `LIKE` pattern: the wildcards `%` and `_`
/// and the escape character `\` are escaped with `\`.
pub open spec fn like_escaped(c: char) -> Seq<char> {
    if c == '\\' || c == '%' || c == '_' {
        seq!['\\', c]
    } else {
        seq![c]
    }
}

/// A text with every character escaped for a `LIKE` pattern.
pub open spec fn like_escape(s: Seq<char>) -> Seq<char>
    decreases s.len(),
{
    if s.len() == 0 {
        Seq::empty()
    } else {
        like_escape(s.drop_last()) + like_escaped(s.last())
    }
}

/// The `LIKE` pattern that matches the keys beginning with `prefix`: the
/// prefix, escaped, then `%`.
pub fn like_prefix_pattern(prefix: &str) -> (p: String)
    ensures
        p@ == like_escape(prefix@) + seq!['%'],
{
    proof {
        reveal_strlit("\\\\");
        reveal_strlit("\\%");
        reveal_strlit("\\_");
        reveal_strlit("%");
    }
    let n = prefix.unicode_len();
    let mut out = String::new();
    let mut i: usize = 0;
    while i < n
        invariant
            n == prefix@.len(),
            i <= n,
            out@ == like_escape(prefix@.take(i as int)),
        decreases n - i,
    {
        let c = prefix.get_char(i);
        let ghost before = out@;
        proof {
            reveal_strlit("\\\\");
            reveal_strlit("\\%");
            reveal_strlit("\\_");
        }
        if c == '\\' {
            out.append("\\\\");
        } else if c == '%' {
            out.append("\\%");
        } else if c == '_' {
            out.append("\\_");
        } else {
            let one = prefix.substring_char(i, i + 1);
            proof {
                assert(one@ =~= seq![c]);
            }
            out.append(one);
        }
        assert(out@ =~= before + like_escaped(c));
        proof {
            assert(prefix@.take(i + 1).drop_last() =~= prefix@.take(i as int));
            assert(prefix@.take(i + 1).last() == c);
            assert(out@ =~= like_escape(prefix@.take(i + 1)));
        }
        i = i + 1;
    }
    out.append("%");
    proof {
        assert(prefix@.take(n as int) =~= prefix@);
    }
    out
}

} // verus!
