use vstd::prelude::*;

use crate::text::{chars_of, is_whitespace, whitespace_of};
use crate::tokens::estimate_tokens;

verus! {

broadcast use vstd::string::group_string_axioms;

/// Walking back from `b` towards `start`, the first position that holds whitespace;
/// `start` when there is none after it.
pub open spec fn whitespace_cut(t: Seq<char>, start: int, b: int) -> int
    decreases b - start,
{
    if b <= start {
        start
    } else if whitespace_of(t[b]) {
        b
    } else {
        whitespace_cut(t, start, b - 1)
    }
}

/// Where the window that starts at `start` ends: `size` characters on, moved back to the
/// nearest whitespace when that cut would fall inside the text.
pub open spec fn window_end(t: Seq<char>, start: int, size: int) -> int {
    if start + size >= t.len() {
        t.len() as int
    } else {
        let b = whitespace_cut(t, start, start + size);
        if b > start {
            b
        } else {
            start + size
        }
    }
}

/// How far each window starts after the previous one: the window size less the overlap,
/// and at least one character.
pub open spec fn window_step(size: int, overlap: int) -> int {
    if size - overlap >= 1 {
        size - overlap
    } else {
        1
    }
}

/// The windows cut from `t`, beginning at `pos` and advancing by `step`, up to the first
/// one that reaches the end of the text.
pub open spec fn windows_from(t: Seq<char>, pos: int, size: int, step: int) -> Seq<Seq<char>>
    decreases t.len() - pos,
{
    if pos < 0 || pos >= t.len() || size <= 0 || step <= 0 {
        Seq::empty()
    } else {
        let e = window_end(t, pos, size);
        if e >= t.len() {
            seq![t.subrange(pos, t.len() as int)]
        } else if pos + step >= t.len() {
            seq![t.subrange(pos, e)]
        } else {
            seq![t.subrange(pos, e)].add(windows_from(t, pos + step, size, step))
        }
    }
}

/// The chunks of `t` for a budget of `size_tokens` tokens per chunk and `overlap_tokens`
/// tokens of overlap, at four characters per token.
pub open spec fn chunks_of(t: Seq<char>, size_tokens: nat, overlap_tokens: nat) -> Seq<Seq<char>> {
    if t.len() == 0 || size_tokens == 0 {
        Seq::empty()
    } else if t.len() <= 4 * size_tokens {
        seq![t]
    } else {
        windows_from(
            t,
            0,
            (4 * size_tokens) as int,
            window_step((4 * size_tokens) as int, (4 * overlap_tokens) as int),
        )
    }
}

/// The texts of a list of strings.
pub open spec fn texts(v: Seq<String>) -> Seq<Seq<char>> {
    v.map_values(|s: String| s@)
}

/// Splits `text` into overlapping windows of about `chunk_size_tokens` tokens, cutting at
/// whitespace where the text allows it.
pub fn chunk_text(text: &str, chunk_size_tokens: usize, overlap_tokens: usize) -> (r: Vec<String>)
    ensures
        texts(r@) == chunks_of(text@, chunk_size_tokens as nat, overlap_tokens as nat),
        text@.len() > 0 && estimate_tokens(text@.len()) <= chunk_size_tokens ==> r@.len() == 1
            && r@[0]@ == text@,
{
    if text.is_empty() || chunk_size_tokens == 0 {
        let r: Vec<String> = Vec::new();
        assert(texts(r@) =~= Seq::empty());
        return r;
    }
    let chars = chars_of(text);
    let total = chars.len();
    let needed = total / 4 + if total % 4 == 0 { 0 } else { 1 };
    if chunk_size_tokens >= needed {
        let mut r: Vec<String> = Vec::new();
        r.push(String::from_str(text));
        assert(texts(r@) =~= seq![text@]);
        return r;
    }
    let chunk_chars: usize = chunk_size_tokens * 4;
    let step: usize = if overlap_tokens >= chunk_size_tokens {
        1
    } else {
        chunk_chars - overlap_tokens * 4
    };
    let ghost t = text@;
    let ghost all = windows_from(t, 0, chunk_chars as int, step as int);
    assert(step as int == window_step(4 * chunk_size_tokens as int, 4 * overlap_tokens as int));
    let mut chunks: Vec<String> = Vec::new();
    let mut pos: usize = 0;
    while pos < total
        invariant
            chars@ == t,
            total == t.len(),
            t == text@,
            0 < chunk_chars < total,
            1 <= step <= chunk_chars,
            pos <= total,
            all == windows_from(t, 0, chunk_chars as int, step as int),
            texts(chunks@) + windows_from(t, pos as int, chunk_chars as int, step as int) == all,
        decreases total - pos,
    {
        let ghost before = texts(chunks@);
        let mut end: usize = if chunk_chars >= total - pos {
            total
        } else {
            pos + chunk_chars
        };
        if end < total {
            let raw_end = end;
            let mut b = end;
            while b > pos && !is_whitespace(chars[b])
                invariant
                    chars@ == t,
                    total == t.len(),
                    pos <= b <= raw_end < total,
                    whitespace_cut(t, pos as int, b as int) == whitespace_cut(
                        t,
                        pos as int,
                        raw_end as int,
                    ),
                decreases b,
            {
                b -= 1;
            }
            if b > pos {
                end = b;
            }
        }
        assert(end == window_end(t, pos as int, chunk_chars as int));
        let piece = String::from_str(text.substring_char(pos, end));
        chunks.push(piece);
        assert(texts(chunks@) =~= before.push(t.subrange(pos as int, end as int)));
        if end == total {
            pos = total;
        } else {
            pos = pos + step;
        }
    }
    assert(texts(chunks@) =~= all);
    chunks
}

/// Position `k` of the text lies in one of the windows `w`, window `i` starting at
/// `i * step`.
pub open spec fn covered(w: Seq<Seq<char>>, step: int, k: int) -> bool {
    exists|i: int| 0 <= i < w.len() && i * step <= k < i * step + (#[trigger] w[i]).len()
}

proof fn lemma_window_end_bounds(t: Seq<char>, start: int, size: int)
    requires
        0 <= start < t.len(),
        size > 0,
    ensures
        start < window_end(t, start, size) <= t.len(),
        window_end(t, start, size) < t.len() ==> start + size < t.len(),
{
    if start + size < t.len() {
        lemma_whitespace_cut_bounds(t, start, start + size);
    }
}

proof fn lemma_whitespace_cut_bounds(t: Seq<char>, start: int, b: int)
    requires
        start <= b,
    ensures
        start <= whitespace_cut(t, start, b) <= b,
    decreases b - start,
{
    if b > start && !whitespace_of(t[b]) {
        lemma_whitespace_cut_bounds(t, start, b - 1);
    }
}

/// The windows from `pos` on: the `i`-th is the text from `pos + i * step`, none is
/// empty, and the last one ends where the text ends.
proof fn lemma_windows_from(t: Seq<char>, pos: int, size: int, step: int)
    requires
        0 <= pos < t.len(),
        0 < step <= size,
    ensures
        ({
            let w = windows_from(t, pos, size, step);
            &&& w.len() > 0
            &&& forall|i: int|
                0 <= i < w.len() ==> #[trigger] w[i] == t.subrange(
                    pos + i * step,
                    pos + i * step + w[i].len(),
                ) && w[i].len() > 0
            &&& pos + (w.len() - 1) * step + w.last().len() == t.len()
        }),
    decreases t.len() - pos,
{
    let w = windows_from(t, pos, size, step);
    let e = window_end(t, pos, size);
    lemma_window_end_bounds(t, pos, size);
    if e < t.len() {
        let rest = windows_from(t, pos + step, size, step);
        lemma_windows_from(t, pos + step, size, step);
        assert(w == seq![t.subrange(pos, e)] + rest);
        assert forall|i: int| 0 <= i < w.len() implies #[trigger] w[i] == t.subrange(
            pos + i * step,
            pos + i * step + w[i].len(),
        ) && w[i].len() > 0 by {
            if i > 0 {
                assert(w[i] == rest[i - 1]);
                assert(pos + step + (i - 1) * step == pos + i * step) by (nonlinear_arith);
            } else {
                assert(pos + i * step == pos) by (nonlinear_arith)
                    requires
                        i == 0,
                ;
            }
        }
        assert(pos + step + (rest.len() - 1) * step == pos + (w.len() - 1) * step)
            by (nonlinear_arith)
            requires
                w.len() == rest.len() + 1,
        ;
    }
}

/// Chunking a text longer than one chunk: chunk `i` is the text from `i * step`, where
/// `step` is the chunk size less the overlap (at least one character); no chunk is empty;
/// the last one ends where the text ends. And where no cut at whitespace moved a chunk's
/// end back by more than the overlap, every character of the text lies in some chunk.
pub proof fn lemma_chunks_cover(t: Seq<char>, size_tokens: nat, overlap_tokens: nat)
    requires
        size_tokens > 0,
        t.len() > 4 * size_tokens,
    ensures
        ({
            let w = chunks_of(t, size_tokens, overlap_tokens);
            let step = window_step(4 * size_tokens as int, 4 * overlap_tokens as int);
            &&& w.len() > 0
            &&& forall|i: int|
                0 <= i < w.len() ==> #[trigger] w[i] == t.subrange(
                    i * step,
                    i * step + w[i].len(),
                ) && w[i].len() > 0
            &&& (w.len() - 1) * step + w.last().len() == t.len()
            &&& (forall|i: int|
                0 <= i < w.len() - 1 ==> #[trigger] w[i].len() + 4 * overlap_tokens >= 4
                    * size_tokens) ==> forall|k: int| 0 <= k < t.len() ==> #[trigger] covered(w, step, k)
        }),
{
    let w = chunks_of(t, size_tokens, overlap_tokens);
    let size = 4 * size_tokens as int;
    let step = window_step(size, 4 * overlap_tokens as int);
    lemma_windows_from(t, 0, size, step);
    assert forall|i: int| 0 <= i < w.len() implies #[trigger] w[i] == t.subrange(
        i * step,
        i * step + w[i].len(),
    ) && w[i].len() > 0 by {
        assert(0 + i * step == i * step);
    }
    if forall|i: int|
        0 <= i < w.len() - 1 ==> #[trigger] w[i].len() + 4 * overlap_tokens >= 4 * size_tokens {
        assert forall|k: int| 0 <= k < t.len() implies #[trigger] covered(w, step, k) by {
            let n = w.len() as int;
            let q = k / step;
            vstd::arithmetic::div_mod::lemma_fundamental_div_mod(k, step);
            assert(0 <= k % step < step);
            assert(q >= 0) by (nonlinear_arith)
                requires
                    k >= 0,
                    step > 0,
                    q == k / step,
            ;
            if q < n - 1 {
                assert(w[q].len() >= step);
                assert(q * step <= k < (q + 1) * step) by (nonlinear_arith)
                    requires
                        k == step * q + k % step,
                        0 <= k % step < step,
                ;
                assert((q + 1) * step == q * step + step) by (nonlinear_arith);
                assert(q * step <= k < q * step + w[q].len());
            } else {
                let i = n - 1;
                assert(i * step <= q * step) by (nonlinear_arith)
                    requires
                        i <= q,
                        step > 0,
                ;
                assert(q * step <= k) by (nonlinear_arith)
                    requires
                        k == step * q + k % step,
                        0 <= k % step,
                ;
                assert(i * step + w[i].len() == t.len());
                assert(i * step <= k < i * step + w[i].len());
            }
        }
    }
}

} // verus!
