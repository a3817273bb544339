//! Writing scripts, the code points that belong to them, and the detector
//! that names the dominant script of a text.

use crate::tally::{lemma_chars_at_most_bytes, lemma_tally_take_next, strict_majority, tally};
use vstd::prelude::*;

verus! {

/// A writing system, known by the code points assigned to it.
#[derive(PartialEq, Eq, Debug, Structural)]
pub enum Script {
    Cyrillic,
    Latin,
    /// Mandarin.
    CMN,
    /// Georgian.
    KAT,
}

/// `ch` lies in the inclusive range of code points from `low` to `high`.
pub open spec fn within(ch: char, low: char, high: char) -> bool {
    low <= ch <= high
}

/// The Cyrillic code points: four ranges, which lie in the Cyrillic block
/// with its supplement and in the two extended blocks, and three single
/// letters outside those ranges.
pub open spec fn cyrillic(ch: char) -> bool {
    ||| within(ch, '\u{0400}', '\u{0484}')
    ||| within(ch, '\u{0487}', '\u{052F}')
    ||| within(ch, '\u{2DE0}', '\u{2DFF}')
    ||| within(ch, '\u{A640}', '\u{A69D}')
    ||| ch == '\u{1D2B}'
    ||| ch == '\u{1D78}'
    ||| ch == '\u{A69F}'
}

/// The Latin code points that are recognized: the basic letters `a` to `z`
/// and `A` to `Z`. Letters with diacritics and ligatures are not among them.
pub open spec fn latin(ch: char) -> bool {
    within(ch, 'a', 'z') || within(ch, 'A', 'Z')
}

/// The Mandarin code points that are recognized: the single letter `x`,
/// which stands in for the Han ranges.
pub open spec fn mandarin(ch: char) -> bool {
    ch == 'x'
}

/// The Georgian code points: the one block from U+10A0 to U+10FF.
pub open spec fn georgian(ch: char) -> bool {
    within(ch, '\u{10A0}', '\u{10FF}')
}

impl Script {
    /// The set of code points that this script owns.
    pub open spec fn contains(self, ch: char) -> bool {
        match self {
            Script::Cyrillic => cyrillic(ch),
            Script::Latin => latin(ch),
            Script::CMN => mandarin(ch),
            Script::KAT => georgian(ch),
        }
    }

    /// Does `ch` belong to this script?
    pub fn has_char(&self, ch: char) -> (res: bool)
        ensures
            res == self.contains(ch),
    {
        match *self {
            Script::Cyrillic => is_cyrillic(ch),
            Script::Latin => is_latin(ch),
            Script::CMN => is_cmn(ch),
            Script::KAT => is_kat(ch),
        }
    }
}

/// Is `ch` a Cyrillic character?
pub fn is_cyrillic(ch: char) -> (res: bool)
    ensures
        res == cyrillic(ch),
{
    match ch {
        '\u{0400}'..='\u{0484}'
        | '\u{0487}'..='\u{052F}'
        | '\u{2DE0}'..='\u{2DFF}'
        | '\u{A640}'..='\u{A69D}'
        | '\u{1D2B}'
        | '\u{1D78}'
        | '\u{A69F}' => true,
        _ => false,
    }
}

/// Is `ch` one of the recognized Latin letters?
pub fn is_latin(ch: char) -> (res: bool)
    ensures
        res == latin(ch),
{
    match ch {
        'a'..='z' | 'A'..='Z' => true,
        _ => false,
    }
}

/// Is `ch` the one recognized Mandarin character?
pub fn is_cmn(ch: char) -> (res: bool)
    ensures
        res == mandarin(ch),
{
    ch == 'x'
}

/// Is `ch` a Georgian character?
pub fn is_kat(ch: char) -> (res: bool)
    ensures
        res == georgian(ch),
{
    match ch {
        '\u{10A0}'..='\u{10FF}' => true,
        _ => false,
    }
}

/// The script that holds a strict majority among the Latin and the Cyrillic
/// characters of `text`, if one of the two does.
///
/// Characters of no script, and those of the other scripts, weigh nothing.
/// Where both counts are zero, or equal, no script is named.
pub open spec fn dominant_script(text: Seq<char>) -> Option<Script> {
    let latin_count = tally(text, Script::Latin);
    let cyrillic_count = tally(text, Script::Cyrillic);
    if strict_majority(latin_count, cyrillic_count) {
        Some(Script::Latin)
    } else if strict_majority(cyrillic_count, latin_count) {
        Some(Script::Cyrillic)
    } else {
        None
    }
}

/// Names the dominant script of `text`, or `None` where the text gives no
/// script a strict majority.
#[allow(unused_variables)]
pub fn detect_script(text: String) -> (res: Option<Script>)
    ensures
        res == dominant_script(text@),
{
    // A character takes at least one byte, and the bytes of a text are
    // counted by a `usize`: so are its characters, and the two counters.
    // Only the proof reads `bytes`.
    let bytes = text.as_str().as_bytes();
    proof {
        lemma_chars_at_most_bytes(text@);
        assert(text@.len() <= bytes@.len() == bytes.len());
    }

    let mut latin_count: usize = 0;
    let mut cyrillic_count: usize = 0;

    for ch in it: text.as_str().chars()
        invariant
            it.seq() == text@,
            text@.len() <= usize::MAX,
            latin_count == tally(text@.take(it.index()), Script::Latin),
            cyrillic_count == tally(text@.take(it.index()), Script::Cyrillic),
    {
        proof {
            let seen: int = it.index();
            lemma_tally_take_next(text@, seen, Script::Latin);
            lemma_tally_take_next(text@, seen, Script::Cyrillic);
        }
        if Script::Cyrillic.has_char(ch) {
            cyrillic_count += 1;
        }
        if Script::Latin.has_char(ch) {
            latin_count += 1;
        }
    }

    proof {
        assert(text@.take(text@.len() as int) =~= text@);
    }
    if latin_count > 0 && latin_count > cyrillic_count {
        Some(Script::Latin)
    } else if cyrillic_count > 0 && cyrillic_count > latin_count {
        Some(Script::Cyrillic)
    } else {
        None
    }
}

} // verus!
