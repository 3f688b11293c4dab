use vstd::prelude::*;

use crate::clean::newline_from;
use crate::text::{chars_of, trim, trimmed};

verus! {

broadcast use vstd::string::group_string_axioms;

/// Marker of a first-level heading.
pub const HEADING_MARK: &'static str = "# ";

/// Whether `line` begins with the heading marker.
pub open spec fn is_heading(line: Seq<char>) -> bool {
    line.len() >= 2 && line[0] == '#' && line[1] == ' '
}

/// `line` with every leading heading marker removed.
pub open spec fn strip_marks(line: Seq<char>) -> Seq<char>
    decreases line.len(),
{
    if is_heading(line) {
        strip_marks(line.subrange(2, line.len() as int))
    } else {
        line
    }
}

/// Where the line that begins at `i` ends: at the next line break, or at the end of `s`.
pub open spec fn line_end(s: Seq<char>, i: int) -> int {
    let nl = newline_from(s, i);
    if nl < 0 {
        s.len() as int
    } else {
        nl
    }
}

/// The text of the first heading line at or after the line that begins at `i`, without
/// its markers and trimmed; `None` when no line there is a heading.
pub open spec fn heading_from(s: Seq<char>, i: int) -> Option<Seq<char>>
    decreases s.len() - i,
{
    let e = line_end(s, i);
    if i < 0 || i >= s.len() || e < i || e > s.len() {
        None
    } else {
        let line = s.subrange(i, e);
        if is_heading(line) {
            Some(trimmed(strip_marks(line)))
        } else if e >= s.len() {
            None
        } else {
            heading_from(s, e + 1)
        }
    }
}

proof fn lemma_newline_from_bounds(t: Seq<char>, i: int)
    requires
        0 <= i,
    ensures
        newline_from(t, i) == -1 || (i <= newline_from(t, i) < t.len() && t[newline_from(t, i)]
            == '\n'),
    decreases t.len() - i,
{
    if i < t.len() && t[i] != '\n' {
        lemma_newline_from_bounds(t, i + 1);
    }
}

/// Removes every leading heading marker from `line`.
fn strip_heading_marks(line: &str) -> (r: String)
    ensures
        r@ == strip_marks(line@),
{
    let chars = chars_of(line);
    let n = chars.len();
    let mut i: usize = 0;
    assert(line@.subrange(0, n as int) =~= line@);
    while n - i >= 2 && chars[i] == '#' && chars[i + 1] == ' '
        invariant
            chars@ == line@,
            n == line@.len(),
            i <= n,
            strip_marks(line@) == strip_marks(line@.subrange(i as int, n as int)),
        decreases n - i,
    {
        assert(line@.subrange(i as int, n as int).subrange(2, n - i) =~= line@.subrange(
            i + 2 as int,
            n as int,
        ));
        i += 2;
    }
    assert(!is_heading(line@.subrange(i as int, n as int)));
    String::from_str(line.substring_char(i, n))
}

/// The title of a report: the text of its first line that begins with `# `, without the
/// markers and trimmed; `None` when no line does.
pub fn extract_meeting_name_from_markdown(markdown: &str) -> (r: Option<String>)
    ensures
        match r {
            Some(name) => heading_from(markdown@, 0) == Some(name@),
            None => heading_from(markdown@, 0) is None,
        },
{
    let chars = chars_of(markdown);
    let n = chars.len();
    let ghost s = markdown@;
    let mut i: usize = 0;
    while i < n
        invariant
            chars@ == s,
            s == markdown@,
            n == s.len(),
            i <= n,
            heading_from(s, i as int) == heading_from(s, 0),
        decreases n - i,
    {
        let mut e: usize = i;
        while e < n && chars[e] != '\n'
            invariant
                chars@ == s,
                s == markdown@,
                n == s.len(),
                i <= e <= n,
                newline_from(s, e as int) == newline_from(s, i as int),
            decreases n - e,
        {
            e += 1;
        }
        proof {
            lemma_newline_from_bounds(s, i as int);
        }
        assert(e as int == line_end(s, i as int));
        if e - i >= 2 && chars[i] == '#' && chars[i + 1] == ' ' {
            let line = markdown.substring_char(i, e);
            let stripped = strip_heading_marks(line);
            return Some(trim(stripped.as_str()));
        }
        if e >= n {
            return None;
        }
        i = e + 1;
    }
    None
}

} // verus!
