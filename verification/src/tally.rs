//! Counting the characters of a text that belong to a script.

use crate::script::Script;
use vstd::prelude::*;
use vstd::utf8::encode_utf8;

verus! {

impl Script {
    /// Membership in this script, as a predicate on characters.
    pub open spec fn members(self) -> spec_fn(char) -> bool {
        |ch: char| self.contains(ch)
    }
}

/// What one character adds to the count of `script`: one where it belongs
/// to the script, nothing where it does not.
pub open spec fn weight(ch: char, script: Script) -> nat {
    if script.contains(ch) {
        1
    } else {
        0
    }
}

/// The number of characters of `text` that belong to `script`.
pub open spec fn tally(text: Seq<char>, script: Script) -> nat {
    text.filter(script.members()).len()
}

/// `count` holds a strict majority over `other`: it is positive and
/// greater than `other`.
pub open spec fn strict_majority(count: nat, other: nat) -> bool {
    count > 0 && count > other
}

/// One more character raises the count by its weight.
pub proof fn lemma_tally_push(text: Seq<char>, ch: char, script: Script)
    ensures
        tally(text.push(ch), script) == tally(text, script) + weight(ch, script),
{
    text.lemma_filter_len_push(script.members(), ch);
}

/// A text counts zero for a script exactly where none of its characters
/// belongs to the script.
pub proof fn lemma_tally_zero(text: Seq<char>, script: Script)
    ensures
        tally(text, script) == 0 <==> forall|i: int|
            0 <= i < text.len() ==> !script.contains(#[trigger] text[i]),
{
    let kept = text.filter(script.members());
    if kept.len() > 0 {
        // The first character that was kept belongs to the script, and it
        // stands in the text.
        text.lemma_filter_contains_rev(script.members(), kept[0]);
    } else {
        // A character of the script would have been kept.
        assert forall|i: int| 0 <= i < text.len() implies !script.contains(#[trigger] text[i]) by {
            if script.contains(text[i]) {
                text.lemma_filter_contains(script.members(), i);
            }
        }
    }
}

/// The count over the first `n + 1` characters, from the count over the
/// first `n`.
pub proof fn lemma_tally_take_next(text: Seq<char>, n: int, script: Script)
    requires
        0 <= n < text.len(),
    ensures
        tally(text.take(n + 1), script) == tally(text.take(n), script) + weight(text[n], script),
{
    assert(text.take(n + 1) =~= text.take(n).push(text[n]));
    lemma_tally_push(text.take(n), text[n], script);
}

/// Every character takes at least one byte of the UTF-8 form of a text.
pub proof fn lemma_chars_at_most_bytes(text: Seq<char>)
    ensures
        text.len() <= encode_utf8(text).len(),
    decreases text.len(),
{
    if text.len() > 0 {
        // The first character takes one to four bytes, the rest follows.
        lemma_chars_at_most_bytes(text.drop_first());
    }
}

} // verus!
