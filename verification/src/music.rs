//! A melody kept in textual note form together with its tempo. The text form
//! is read with the parsers in [`crate::note`]; the shipped melodies are
//! compiled-in data in [`crate::melody`] instead.

use vstd::prelude::*;

verus! {

/// A tempo and a melody written as comma-separated textual notes.
pub struct Music<'a> {
    pub tempo: u32,
    pub melody: &'a str,
}

impl<'a> Music<'a> {
    /// Wraps a tempo and a textual melody.
    pub fn new(tempo: u32, melody: &'a str) -> (m: Music<'a>)
        ensures
            m.tempo == tempo,
            m.melody@ == melody@,
    {
        Music { tempo, melody }
    }
}

} // verus!
