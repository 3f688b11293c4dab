use vstd::prelude::*;

use crate::text::chars_of;

verus! {

/// Approximate token count of a text of `n` characters: one token per four characters,
/// rounded up.
pub open spec fn estimate_tokens(n: nat) -> nat {
    (n + 3) / 4
}

/// Rough token count of `s` (four characters count as one token).
pub fn rough_token_count(s: &str) -> (r: usize)
    ensures
        r == estimate_tokens(s@.len()),
{
    let n = chars_of(s).len();
    n / 4 + if n % 4 == 0 { 0 } else { 1 }
}

} // verus!
