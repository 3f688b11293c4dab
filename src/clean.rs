use vstd::prelude::*;

use crate::text::{chars_of, trim, trimmed};

verus! {

broadcast use vstd::string::group_string_axioms;

/// `s` with every `<think>…</think>` or `<thinking>…</thinking>` block taken out, each
/// block ending at the first closing tag after its opening tag.
pub uninterp spec fn without_thinking_blocks(s: Seq<char>) -> Seq<char>;

/// Relies on `regex::Regex::new` and `Regex::replace_all`: every leftmost non-greedy match
/// of `(?s)<think(?:ing)?>.*?</think(?:ing)?>` is replaced by nothing. The pattern is
/// fixed and valid, so `Regex::new` does not fail.
#[verifier::external_body]
fn remove_thinking_blocks(s: &str) -> (r: String)
    ensures
        r@ == without_thinking_blocks(s@),
{
    let re = regex::Regex::new(r"(?s)<think(?:ing)?>.*?</think(?:ing)?>").unwrap();
    re.replace_all(s, "").into_owned()
}

/// The delimiter of a fenced block.
pub const FENCE: &'static str = "```";

/// Position of the first line break in `t` at or after `i`; `-1` when there is none.
pub open spec fn newline_from(t: Seq<char>, i: int) -> int
    decreases t.len() - i,
{
    if i < 0 || i >= t.len() {
        -1
    } else if t[i] == '\n' {
        i
    } else {
        newline_from(t, i + 1)
    }
}

/// Whether `t` opens and closes with a fence.
pub open spec fn is_fenced(t: Seq<char>) -> bool {
    t.len() >= 3 && t.subrange(0, 3) == FENCE@ && t.subrange(t.len() - 3, t.len() as int)
        == FENCE@
}

/// `t` without the outer fence: the text between the end of the opening fence line and
/// the closing fence, trimmed. Text that is not fenced, or has no line break, is kept.
pub open spec fn unfenced(t: Seq<char>) -> Seq<char> {
    let nl = newline_from(t, 0);
    if is_fenced(t) && nl >= 0 {
        trimmed(t.subrange(nl + 1, t.len() - 3))
    } else {
        t
    }
}

/// The tidied form of a model's answer: trimmed, then freed of an outer fence.
pub open spec fn tidied(s: Seq<char>) -> Seq<char> {
    unfenced(trimmed(s))
}

/// Trims a model's answer and strips a single fence around the whole of it.
pub fn tidy_llm_output(text: &str) -> (r: String)
    ensures
        r@ == tidied(text@),
{
    let t = trim(text);
    let chars = chars_of(t.as_str());
    let n = chars.len();
    let ghost ts = t@;
    proof {
        reveal_strlit("```");
    }
    if n >= 3 && chars[0] == '`' && chars[1] == '`' && chars[2] == '`' && chars[n - 3] == '`'
        && chars[n - 2] == '`' && chars[n - 1] == '`' {
        assert(ts.subrange(0, 3) =~= FENCE@);
        assert(ts.subrange(n - 3, n as int) =~= FENCE@);
        let mut i: usize = 0;
        while i < n && chars[i] != '\n'
            invariant
                chars@ == ts,
                n == ts.len(),
                i <= n,
                newline_from(ts, i as int) == newline_from(ts, 0),
            decreases n - i,
        {
            i += 1;
        }
        if i < n {
            let inner = t.as_str().substring_char(i + 1, n - 3);
            return trim(inner);
        }
        return t;
    }
    assert(!is_fenced(ts)) by {
        if is_fenced(ts) {
            assert(ts.subrange(0, 3)[0] == FENCE@[0]);
            assert(ts.subrange(0, 3)[1] == FENCE@[1]);
            assert(ts.subrange(0, 3)[2] == FENCE@[2]);
            assert(ts.subrange(n - 3, n as int)[0] == FENCE@[0]);
            assert(ts.subrange(n - 3, n as int)[1] == FENCE@[1]);
            assert(ts.subrange(n - 3, n as int)[2] == FENCE@[2]);
        }
    }
    t
}

/// Cleans a model's answer: removes the thinking blocks, trims it and strips a single
/// fence around the whole of it.
pub fn clean_llm_markdown_output(markdown: &str) -> (r: String)
    ensures
        r@ == tidied(without_thinking_blocks(markdown@)),
{
    let without = remove_thinking_blocks(markdown);
    tidy_llm_output(without.as_str())
}

} // verus!
