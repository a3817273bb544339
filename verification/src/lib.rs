//! Detection of the dominant writing script of a short text.
//!
//! A [`script::Script`] owns a fixed set of inclusive code-point ranges.
//! [`script::Script::has_char`] decides whether one character lies in that
//! set, and [`script::detect_script`] counts the Latin and the Cyrillic
//! characters of a text and names the script that holds a strict majority.
//!
//! [`tally`] defines the count that the detector is measured against, and
//! [`laws`] states what follows for every character and every text.

#![allow(unused_imports)]

pub mod laws;
pub mod script;
pub mod tally;
