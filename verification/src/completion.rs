//! What is made of the reply of the narrative service: when the summary
//! derived from the metrics takes its place, and where in a reply the
//! structured answer stands.

use vstd::prelude::*;
use vstd::string::StrSliceExecFns;
use crate::names::{has_prefix, same_run};

verus! {

/// The character is white space.
pub open spec fn is_space(c: char) -> bool {
    let u = c as u32;
    (9 <= u <= 13) || u == 32 || u == 0x85 || u == 0xA0 || u == 0x1680 || (0x2000 <= u <= 0x200A)
        || u == 0x2028 || u == 0x2029 || u == 0x202F || u == 0x205F || u == 0x3000
}

/// Whether the character is white space.
pub fn is_whitespace(c: char) -> (b: bool)
    ensures
        b == is_space(c),
{
    let u = c as u32;
    (9 <= u && u <= 13) || u == 32 || u == 0x85 || u == 0xA0 || u == 0x1680 || (0x2000 <= u && u
        <= 0x200A) || u == 0x2028 || u == 0x2029 || u == 0x202F || u == 0x205F || u == 0x3000
}

/// Position of the first character from `from` on that is not white
/// space, or the length where there is none.
pub open spec fn first_solid(s: Seq<char>, from: int) -> int
    decreases s.len() - from,
{
    if from >= s.len() {
        s.len() as int
    } else if from >= 0 && is_space(s[from]) {
        first_solid(s, from + 1)
    } else {
        from
    }
}

/// End of the last character before `to` that is not white space, or zero
/// where there is none.
pub open spec fn last_solid_end(s: Seq<char>, to: int) -> int
    decreases to,
{
    if to <= 0 {
        0
    } else if to <= s.len() && is_space(s[to - 1]) {
        last_solid_end(s, to - 1)
    } else {
        to
    }
}

/// The text without white space at either end.
pub open spec fn trimmed(s: Seq<char>) -> Seq<char> {
    let a = first_solid(s, 0);
    let b = last_solid_end(s, s.len() as int);
    if a >= b {
        Seq::empty()
    } else {
        s.subrange(a, b)
    }
}

/// Three backticks stand at `i`.
pub open spec fn is_fence_at(s: Seq<char>, i: int) -> bool {
    0 <= i && i + 3 <= s.len() && s[i] == '`' && s[i + 1] == '`' && s[i + 2] == '`'
}

/// Position of the last three backticks that start before `k`, or `-1`
/// where there are none.
pub open spec fn last_fence(s: Seq<char>, k: int) -> int
    decreases k,
{
    if k <= 0 {
        -1
    } else if is_fence_at(s, k - 1) {
        k - 1
    } else {
        last_fence(s, k - 1)
    }
}

/// The structured answer in a reply. A reply that, white space aside,
/// begins with three backticks and perhaps the word `json` holds the answer
/// between that opening and the last three backticks of the reply; there is
/// none where the last three backticks are those of the opening. Any other
/// reply is the answer itself. The answer is taken without white space at
/// either end.
pub open spec fn json_block(content: Seq<char>) -> Option<Seq<char>> {
    let t = trimmed(content);
    let a = first_solid(content, 0);
    let end = last_fence(content, content.len() as int);
    if has_prefix(t, "```json"@) {
        if a + "```json"@.len() <= end {
            Some(trimmed(content.subrange(a + "```json"@.len(), end)))
        } else {
            None
        }
    } else if has_prefix(t, "```"@) {
        if a + "```"@.len() <= end {
            Some(trimmed(content.subrange(a + "```"@.len(), end)))
        } else {
            None
        }
    } else {
        Some(t)
    }
}

/// The bounds of the text without white space at either end.
pub fn trim_bounds(s: &str) -> (r: (usize, usize))
    ensures
        r.0 == first_solid(s@, 0),
        r.1 == last_solid_end(s@, s@.len() as int),
        r.0 <= s@.len(),
        r.1 <= s@.len(),
{
    let n = s.unicode_len();
    let mut a: usize = 0;
    while a < n && is_whitespace(s.get_char(a))
        invariant
            n == s@.len(),
            a <= n,
            first_solid(s@, 0) == first_solid(s@, a as int),
        decreases n - a,
    {
        a = a + 1;
    }
    let mut b: usize = n;
    while b > 0 && is_whitespace(s.get_char(b - 1))
        invariant
            n == s@.len(),
            b <= n,
            last_solid_end(s@, n as int) == last_solid_end(s@, b as int),
        decreases b,
    {
        b = b - 1;
    }
    (a, b)
}

/// The text without white space at either end.
pub fn trim(s: &str) -> (t: &str)
    ensures
        t@ == trimmed(s@),
{
    let (a, b) = trim_bounds(s);
    if a >= b {
        let t = s.substring_char(0, 0);
        proof {
            assert(s@.subrange(0, 0) =~= Seq::<char>::empty());
        }
        t
    } else {
        s.substring_char(a, b)
    }
}

/// The position of the last three backticks, or `None` where there are
/// none.
pub fn find_last_fence(s: &str) -> (at: Option<usize>)
    ensures
        match at {
            Some(i) => last_fence(s@, s@.len() as int) == i && i + 3 <= s@.len(),
            None => last_fence(s@, s@.len() as int) == -1,
        },
{
    let n = s.unicode_len();
    let mut k: usize = n;
    while k > 0
        invariant
            n == s@.len(),
            k <= n,
            last_fence(s@, n as int) == last_fence(s@, k as int),
        decreases k,
    {
        let i = k - 1;
        if i <= usize::MAX - 3 && i + 3 <= n && s.get_char(i) == '`' && s.get_char(i + 1) == '`'
            && s.get_char(i + 2) == '`' {
            return Some(i);
        }
        k = k - 1;
    }
    None
}

/// Whether the text from `from` on begins with `prefix`.
fn begins_at(s: &str, from: usize, to: usize, prefix: &str) -> (b: bool)
    requires
        from <= to <= s@.len(),
        to <= usize::MAX,
    ensures
        b == has_prefix(s@.subrange(from as int, to as int), prefix@),
{
    let p = prefix.unicode_len();
    if p > to - from {
        return false;
    }
    proof {
        assert(prefix@.subrange(0, p as int) =~= prefix@);
        assert(s@.subrange(from as int, to as int).subrange(0, p as int) =~= s@.subrange(
            from as int,
            from + p,
        ));
    }
    same_run(s, from, prefix, p)
}

/// The structured answer in a reply; `None` where the reply opens with
/// three backticks that nothing closes.
pub fn extract_json_block(content: &str) -> (block: Option<String>)
    ensures
        match block {
            Some(b) => json_block(content@) == Some(b@),
            None => json_block(content@) is None,
        },
{
    let n = content.unicode_len();
    let (a, b) = trim_bounds(content);
    let end = find_last_fence(content);
    let opening: usize = if a < b && begins_at(content, a, b, "```json") {
        "```json".unicode_len()
    } else if a < b && begins_at(content, a, b, "```") {
        "```".unicode_len()
    } else {
        0
    };
    proof {
        if a >= b {
            assert("```json"@.len() > 0 && "```"@.len() > 0) by {
                reveal_strlit("```json");
                reveal_strlit("```");
            }
        }
    }
    if opening == 0 {
        proof {
            reveal_strlit("```json");
            reveal_strlit("```");
        }
        return Some(trim(content).to_owned());
    }
    match end {
        Some(e) => {
            if opening <= usize::MAX - a && a + opening <= e {
                let inner = content.substring_char(a + opening, e);
                Some(trim(inner).to_owned())
            } else {
                None
            }
        },
        None => None,
    }
}

/// What came back from the narrative service.
#[derive(Clone, Debug)]
pub enum Completion {
    /// No key for the service is at hand.
    MissingKey,
    /// The service could not be reached, or did not answer in time.
    Unreachable,
    /// The service answered with a failure.
    HttpFailure,
    /// The answer cannot be read.
    Unreadable,
    /// The answer holds no list of choices.
    NoChoices,
    /// The list of choices is empty.
    EmptyChoices,
    /// The first choice holds no content.
    NoContent,
    /// The content of the first choice.
    Content(String),
}

/// What to do with a reply.
#[derive(Clone, Debug)]
pub enum InsightStep {
    /// Use the summary derived from the metrics.
    Fallback,
    /// Read this text as the structured answer, and use the summary
    /// derived from the metrics where it cannot be read.
    Parse(String),
}

/// The structured answer that is read from what came back; `None` where
/// the summary derived from the metrics takes its place: for every
/// failure of the service, for a reply without content, for a blank
/// content, and for a content whose opening backticks nothing closes.
pub open spec fn answer_of(c: Completion) -> Option<Seq<char>> {
    match c {
        Completion::Content(text) => if trimmed(text@).len() == 0 {
            None
        } else {
            json_block(text@)
        },
        _ => None,
    }
}

/// Decides what to do with a reply: the structured answer is read where
/// there is one, and the summary takes the place of everything else. No
/// reply is an error.
pub fn after_completion(c: &Completion) -> (step: InsightStep)
    ensures
        match answer_of(*c) {
            Some(b) => step matches InsightStep::Parse(t) && t@ == b,
            None => step is Fallback,
        },
{
    match c {
        Completion::Content(text) => {
            if trim(text.as_str()).is_empty() {
                InsightStep::Fallback
            } else {
                match extract_json_block(text.as_str()) {
                    Some(block) => InsightStep::Parse(block),
                    None => InsightStep::Fallback,
                }
            }
        },
        _ => InsightStep::Fallback,
    }
}

/// The free text of a reply, with `derived` in place of every reply that
/// holds no content.
pub open spec fn narrative_text(c: Completion, derived: Seq<char>) -> Seq<char> {
    match c {
        Completion::Content(text) => text@,
        _ => derived,
    }
}

/// The free text of a reply, or `derived` where the reply holds none.
pub fn narrative_or(c: Completion, derived: String) -> (t: String)
    ensures
        t@ == narrative_text(c, derived@),
{
    match c {
        Completion::Content(text) => text,
        _ => derived,
    }
}

} // verus!
