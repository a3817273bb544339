//! What holds of the classifier and of the detector for every input.

use crate::script::{cyrillic, dominant_script, latin, Script};
use crate::tally::{lemma_tally_zero, tally};
use vstd::prelude::*;

verus! {

/// Every basic letter, `a` to `z` and `A` to `Z`, is Latin.
pub proof fn lemma_basic_letters_are_latin(ch: char)
    requires
        'a' <= ch <= 'z' || 'A' <= ch <= 'Z',
    ensures
        Script::Latin.contains(ch),
{
}

/// Every code point of the four Cyrillic ranges, and each of the three
/// letters that stand apart from them, is Cyrillic.
pub proof fn lemma_cyrillic_ranges_are_cyrillic(ch: char)
    requires
        ({
            ||| '\u{0400}' <= ch <= '\u{0484}'
            ||| '\u{0487}' <= ch <= '\u{052F}'
            ||| '\u{2DE0}' <= ch <= '\u{2DFF}'
            ||| '\u{A640}' <= ch <= '\u{A69D}'
            ||| ch == '\u{1D2B}'
            ||| ch == '\u{1D78}'
            ||| ch == '\u{A69F}'
        }),
    ensures
        Script::Cyrillic.contains(ch),
{
}

/// No Latin letter is Cyrillic.
pub proof fn lemma_latin_is_not_cyrillic(ch: char)
    requires
        Script::Latin.contains(ch),
    ensures
        !Script::Cyrillic.contains(ch),
{
}

/// Every code point of the Georgian block, U+10A0 to U+10FF, is Georgian.
pub proof fn lemma_georgian_block_is_georgian(ch: char)
    requires
        '\u{10A0}' <= ch <= '\u{10FF}',
    ensures
        Script::KAT.contains(ch),
{
}

/// No Cyrillic character is Georgian.
pub proof fn lemma_cyrillic_is_not_georgian(ch: char)
    requires
        Script::Cyrillic.contains(ch),
    ensures
        !Script::KAT.contains(ch),
{
}

/// The empty text holds no character of any script.
pub proof fn lemma_tally_empty(script: Script)
    ensures
        tally(Seq::<char>::empty(), script) == 0,
{
    Seq::<char>::empty().lemma_filter_len(script.members());
}

/// A text holds no more characters of a script than it holds characters.
pub proof fn lemma_tally_bound(text: Seq<char>, script: Script)
    ensures
        tally(text, script) <= text.len(),
{
    text.lemma_filter_len(script.members());
}

/// The count over two texts joined is the sum of the counts over each.
pub proof fn lemma_tally_concat(head: Seq<char>, tail: Seq<char>, script: Script)
    ensures
        tally(head + tail, script) == tally(head, script) + tally(tail, script),
{
    Seq::filter_distributes_over_add(head, tail, script.members());
}

/// Latin is named exactly where the Latin characters outnumber the Cyrillic
/// ones, Cyrillic exactly where the Cyrillic ones outnumber the Latin ones,
/// and no script exactly where the two counts are equal.
pub proof fn lemma_dominant_script_by_counts(text: Seq<char>)
    ensures
        ({
            let latin_count = tally(text, Script::Latin);
            let cyrillic_count = tally(text, Script::Cyrillic);
            &&& dominant_script(text) == Some(Script::Latin) <==> latin_count > cyrillic_count
            &&& dominant_script(text) == Some(Script::Cyrillic) <==> cyrillic_count > latin_count
            &&& dominant_script(text) is None <==> latin_count == cyrillic_count
        }),
{
}

/// A text without a Latin and without a Cyrillic character names no script.
/// The empty text is one such.
pub proof fn lemma_no_evidence_no_script(text: Seq<char>)
    requires
        forall|i: int| 0 <= i < text.len() ==> !latin(#[trigger] text[i]) && !cyrillic(text[i]),
    ensures
        dominant_script(text) is None,
{
    lemma_tally_zero(text, Script::Latin);
    lemma_tally_zero(text, Script::Cyrillic);
}

/// The script that is named is Latin or Cyrillic, and at least one character
/// of the text belongs to it.
pub proof fn lemma_named_script_occurs(text: Seq<char>, script: Script)
    requires
        dominant_script(text) == Some(script),
    ensures
        script == Script::Latin || script == Script::Cyrillic,
        exists|i: int| 0 <= i < text.len() && script.contains(#[trigger] text[i]),
{
    lemma_tally_zero(text, script);
}

/// Detection is a function of the characters of the text: two runs over the
/// same text name the same script.
pub proof fn lemma_detection_repeats(
    text: Seq<char>,
    first: Option<Script>,
    second: Option<Script>,
)
    requires
        first == dominant_script(text),
        second == dominant_script(text),
    ensures
        first == second,
{
}

} // verus!
