//! Immutable melodies: a whole-note duration plus a dense sequence of
//! `(Tone, divisor)` pairs, decoded on lookup into integer milliseconds.

use vstd::prelude::*;

use crate::tone::Tone;

verus! {

/// Largest admissible whole-note duration in milliseconds. A dotted whole
/// note decodes to `3 * whole / 2`, which must still fit in a `u32`.
pub const WHOLE_NOTE_MS_MAX: u32 = 2863311530;

/// An immutable note sequence with tempo metadata.
///
/// `whole_note_delay_ms` is the duration of a whole note, derived from the
/// tempo as `60_000 * beat / tempo`. Each note stores a small signed
/// `divisor`: `|divisor|` is the denominator (4 = quarter note, 8 = eighth,
/// ...), and a negative sign marks a dotted note lasting 1.5 times longer.
pub struct Melody {
    pub whole_note_delay_ms: u32,
    pub notes: Vec<(Tone, i8)>,
}

/// Duration in milliseconds of one note: the whole-note duration divided by
/// `|divisor|`, times 1.5 when dotted, truncated toward zero.
pub open spec fn spec_note_ms(whole_ms: u32, divisor: i8) -> int
    recommends
        divisor != 0,
{
    if divisor < 0 {
        (3 * whole_ms) / (2 * -(divisor as int))
    } else {
        (whole_ms as int) / (divisor as int)
    }
}

impl Melody {
    /// Validity: a positive, bounded whole-note duration, and no zero divisor.
    pub open spec fn wf(self) -> bool {
        &&& 1 <= self.whole_note_delay_ms <= WHOLE_NOTE_MS_MAX
        &&& forall|i: int|
            0 <= i < self.notes@.len() ==> (#[trigger] self.notes@[i]).1 != 0
    }

    /// The decoded note at `pos`, or `None` past the end.
    pub open spec fn spec_get(self, pos: int) -> Option<(Tone, u32)> {
        if 0 <= pos < self.notes@.len() {
            Some(
                (
                    self.notes@[pos].0,
                    spec_note_ms(self.whole_note_delay_ms, self.notes@[pos].1) as u32,
                ),
            )
        } else {
            None
        }
    }

    /// Decoded duration of every note fits in a `u32`.
    pub proof fn lemma_note_ms_bounded(self, pos: int)
        requires
            self.wf(),
            0 <= pos < self.notes@.len(),
        ensures
            0 <= spec_note_ms(self.whole_note_delay_ms, self.notes@[pos].1) <= u32::MAX,
    {
        let w = self.whole_note_delay_ms as int;
        let d = self.notes@[pos].1 as int;
        if d < 0 {
            assert((3 * w) / (2 * -d) <= (3 * w) / 2) by (nonlinear_arith)
                requires
                    w >= 0,
                    d <= -1,
            ;
        } else {
            assert(w / d <= w) by (nonlinear_arith)
                requires
                    w >= 0,
                    d >= 1,
            ;
        }
    }

    /// Decodes the note at `pos`. Pure: the result is a function of the
    /// melody and the position alone.
    pub fn get(&self, pos: usize) -> (r: Option<(Tone, u32)>)
        requires
            self.wf(),
        ensures
            r == self.spec_get(pos as int),
    {
        if pos < self.notes.len() {
            let (tone, div) = self.notes[pos];
            proof {
                self.lemma_note_ms_bounded(pos as int);
            }
            let ms: u64 = if div < 0 {
                let d = (-(div as i64)) as u64;
                (3u64 * (self.whole_note_delay_ms as u64)) / (2u64 * d)
            } else {
                (self.whole_note_delay_ms as u64) / (div as u64)
            };
            Some((tone, ms as u32))
        } else {
            None
        }
    }

    /// Number of notes in the sequence.
    pub fn len(&self) -> (r: usize)
        ensures
            r == self.notes@.len(),
    {
        self.notes.len()
    }
}

/// Appends one note, keeping every stored divisor nonzero.
fn push_note(notes: &mut Vec<(Tone, i8)>, tone: Tone, divisor: i8)
    requires
        divisor != 0,
        forall|i: int|
            0 <= i < old(notes)@.len() ==> (#[trigger] old(notes)@[i]).1 != 0,
    ensures
        final(notes)@ == old(notes)@.push((tone, divisor)),
        forall|i: int|
            0 <= i < final(notes)@.len() ==> (#[trigger] final(notes)@[i]).1 != 0,
{
    notes.push((tone, divisor));
}

/// The note data of "Happy Birthday": the exact (tone, divisor) pairs
/// the constructor compiles in.
pub open spec fn happy_birthday_notes() -> Seq<(Tone, i8)> {
    Seq::empty()
        .push((Tone::C4, 4i8))
        .push((Tone::C4, 8i8))
        .push((Tone::D4, -4i8))
        .push((Tone::C4, -4i8))
        .push((Tone::F4, -4i8))
        .push((Tone::E4, -2i8))
        .push((Tone::C4, 4i8))
        .push((Tone::C4, 8i8))
        .push((Tone::D4, -4i8))
        .push((Tone::C4, -4i8))
        .push((Tone::G4, -4i8))
        .push((Tone::F4, -2i8))
        .push((Tone::C4, 4i8))
        .push((Tone::C4, 8i8))
        .push((Tone::C5, -4i8))
        .push((Tone::A4, -4i8))
        .push((Tone::F4, -4i8))
        .push((Tone::E4, -4i8))
        .push((Tone::D4, -4i8))
        .push((Tone::AS4, 4i8))
        .push((Tone::AS4, 8i8))
        .push((Tone::A4, -4i8))
        .push((Tone::F4, -4i8))
        .push((Tone::G4, -4i8))
        .push((Tone::F4, -2i8))
}

/// The compiled-in melody "Happy Birthday": 140 BPM, 4 beats, with
/// exactly the notes of `happy_birthday_notes`.
pub fn happy_birthday() -> (m: Melody)
    ensures
        m.whole_note_delay_ms == 60000 * 4 / 140,
        m.notes@ == happy_birthday_notes(),
        m.notes@.len() == 25,
        m.wf(),
{
    let mut notes: Vec<(Tone, i8)> = Vec::new();
    push_note(&mut notes, Tone::C4, 4);
    push_note(&mut notes, Tone::C4, 8);
    push_note(&mut notes, Tone::D4, -4);
    push_note(&mut notes, Tone::C4, -4);
    push_note(&mut notes, Tone::F4, -4);
    push_note(&mut notes, Tone::E4, -2);
    push_note(&mut notes, Tone::C4, 4);
    push_note(&mut notes, Tone::C4, 8);
    push_note(&mut notes, Tone::D4, -4);
    push_note(&mut notes, Tone::C4, -4);
    push_note(&mut notes, Tone::G4, -4);
    push_note(&mut notes, Tone::F4, -2);
    push_note(&mut notes, Tone::C4, 4);
    push_note(&mut notes, Tone::C4, 8);
    push_note(&mut notes, Tone::C5, -4);
    push_note(&mut notes, Tone::A4, -4);
    push_note(&mut notes, Tone::F4, -4);
    push_note(&mut notes, Tone::E4, -4);
    push_note(&mut notes, Tone::D4, -4);
    push_note(&mut notes, Tone::AS4, 4);
    push_note(&mut notes, Tone::AS4, 8);
    push_note(&mut notes, Tone::A4, -4);
    push_note(&mut notes, Tone::F4, -4);
    push_note(&mut notes, Tone::G4, -4);
    push_note(&mut notes, Tone::F4, -2);
    Melody { whole_note_delay_ms: 60000 * 4 / 140, notes }
}

/// The note data of "We Wish You a Merry Christmas": the exact (tone, divisor) pairs
/// the constructor compiles in.
pub open spec fn merry_christmas_notes() -> Seq<(Tone, i8)> {
    Seq::empty()
        .push((Tone::C5, 4i8))
        .push((Tone::F5, 4i8))
        .push((Tone::F5, 8i8))
        .push((Tone::G5, 8i8))
        .push((Tone::F5, 8i8))
        .push((Tone::E5, 8i8))
        .push((Tone::D5, 4i8))
        .push((Tone::D5, 4i8))
        .push((Tone::D5, 4i8))
        .push((Tone::G5, 4i8))
        .push((Tone::G5, 8i8))
        .push((Tone::A5, 8i8))
        .push((Tone::G5, 8i8))
        .push((Tone::F5, 8i8))
        .push((Tone::E5, 4i8))
        .push((Tone::C5, 4i8))
        .push((Tone::C5, 4i8))
        .push((Tone::A5, 4i8))
        .push((Tone::A5, 8i8))
        .push((Tone::AS5, 8i8))
        .push((Tone::A5, 8i8))
        .push((Tone::G5, 8i8))
        .push((Tone::F5, 4i8))
        .push((Tone::D5, 4i8))
        .push((Tone::C5, 8i8))
        .push((Tone::C5, 8i8))
        .push((Tone::D5, 4i8))
        .push((Tone::G5, 4i8))
        .push((Tone::E5, 4i8))
        .push((Tone::F5, 2i8))
        .push((Tone::C5, 4i8))
        .push((Tone::F5, 4i8))
        .push((Tone::F5, 8i8))
        .push((Tone::G5, 8i8))
        .push((Tone::F5, 8i8))
        .push((Tone::E5, 8i8))
        .push((Tone::D5, 4i8))
        .push((Tone::D5, 4i8))
        .push((Tone::D5, 4i8))
        .push((Tone::G5, 4i8))
        .push((Tone::G5, 8i8))
        .push((Tone::A5, 8i8))
        .push((Tone::G5, 8i8))
        .push((Tone::F5, 8i8))
        .push((Tone::E5, 4i8))
        .push((Tone::C5, 4i8))
        .push((Tone::C5, 4i8))
        .push((Tone::A5, 4i8))
        .push((Tone::A5, 8i8))
        .push((Tone::AS5, 8i8))
        .push((Tone::A5, 8i8))
        .push((Tone::G5, 8i8))
        .push((Tone::F5, 4i8))
        .push((Tone::D5, 4i8))
        .push((Tone::C5, 8i8))
        .push((Tone::C5, 8i8))
        .push((Tone::D5, 4i8))
        .push((Tone::G5, 4i8))
        .push((Tone::E5, 4i8))
        .push((Tone::F5, 2i8))
        .push((Tone::C5, 4i8))
        .push((Tone::F5, 4i8))
        .push((Tone::F5, 4i8))
        .push((Tone::F5, 4i8))
        .push((Tone::E5, 2i8))
        .push((Tone::E5, 4i8))
        .push((Tone::F5, 4i8))
        .push((Tone::E5, 4i8))
        .push((Tone::D5, 4i8))
        .push((Tone::C5, 2i8))
        .push((Tone::A5, 4i8))
        .push((Tone::AS5, 4i8))
        .push((Tone::A5, 4i8))
        .push((Tone::G5, 4i8))
        .push((Tone::C6, 4i8))
        .push((Tone::C5, 4i8))
        .push((Tone::C5, 8i8))
        .push((Tone::C5, 8i8))
        .push((Tone::D5, 4i8))
        .push((Tone::G5, 4i8))
        .push((Tone::E5, 4i8))
        .push((Tone::F5, 2i8))
        .push((Tone::C5, 4i8))
        .push((Tone::F5, 4i8))
        .push((Tone::F5, 8i8))
        .push((Tone::G5, 8i8))
        .push((Tone::F5, 8i8))
        .push((Tone::E5, 8i8))
        .push((Tone::D5, 4i8))
        .push((Tone::D5, 4i8))
        .push((Tone::D5, 4i8))
        .push((Tone::G5, 4i8))
        .push((Tone::G5, 8i8))
        .push((Tone::A5, 8i8))
        .push((Tone::G5, 8i8))
        .push((Tone::F5, 8i8))
        .push((Tone::E5, 4i8))
        .push((Tone::C5, 4i8))
        .push((Tone::C5, 4i8))
        .push((Tone::A5, 4i8))
        .push((Tone::A5, 8i8))
        .push((Tone::AS5, 8i8))
        .push((Tone::A5, 8i8))
        .push((Tone::G5, 8i8))
        .push((Tone::F5, 4i8))
        .push((Tone::D5, 4i8))
        .push((Tone::C5, 8i8))
        .push((Tone::C5, 8i8))
        .push((Tone::D5, 4i8))
        .push((Tone::G5, 4i8))
        .push((Tone::E5, 4i8))
        .push((Tone::F5, 2i8))
        .push((Tone::C5, 4i8))
        .push((Tone::F5, 4i8))
        .push((Tone::F5, 4i8))
        .push((Tone::F5, 4i8))
        .push((Tone::E5, 2i8))
        .push((Tone::E5, 4i8))
        .push((Tone::F5, 4i8))
        .push((Tone::E5, 4i8))
        .push((Tone::D5, 4i8))
        .push((Tone::C5, 2i8))
        .push((Tone::A5, 4i8))
        .push((Tone::AS5, 4i8))
        .push((Tone::A5, 4i8))
        .push((Tone::G5, 4i8))
        .push((Tone::C6, 4i8))
        .push((Tone::C5, 4i8))
        .push((Tone::C5, 8i8))
        .push((Tone::C5, 8i8))
        .push((Tone::D5, 4i8))
        .push((Tone::G5, 4i8))
        .push((Tone::E5, 4i8))
        .push((Tone::F5, 2i8))
        .push((Tone::C5, 4i8))
        .push((Tone::F5, 4i8))
        .push((Tone::F5, 8i8))
        .push((Tone::G5, 8i8))
        .push((Tone::F5, 8i8))
        .push((Tone::E5, 8i8))
        .push((Tone::D5, 4i8))
        .push((Tone::D5, 4i8))
        .push((Tone::D5, 4i8))
        .push((Tone::G5, 4i8))
        .push((Tone::G5, 8i8))
        .push((Tone::A5, 8i8))
        .push((Tone::G5, 8i8))
        .push((Tone::F5, 8i8))
        .push((Tone::E5, 4i8))
        .push((Tone::C5, 4i8))
        .push((Tone::C5, 4i8))
        .push((Tone::A5, 4i8))
        .push((Tone::A5, 8i8))
        .push((Tone::AS5, 8i8))
        .push((Tone::A5, 8i8))
        .push((Tone::G5, 8i8))
        .push((Tone::F5, 4i8))
        .push((Tone::D5, 4i8))
        .push((Tone::C5, 8i8))
        .push((Tone::C5, 8i8))
        .push((Tone::D5, 4i8))
        .push((Tone::G5, 4i8))
        .push((Tone::E5, 4i8))
        .push((Tone::F5, 2i8))
        .push((Tone::C5, 4i8))
        .push((Tone::F5, 4i8))
        .push((Tone::F5, 8i8))
        .push((Tone::G5, 8i8))
        .push((Tone::F5, 8i8))
        .push((Tone::E5, 8i8))
        .push((Tone::D5, 4i8))
        .push((Tone::D5, 4i8))
        .push((Tone::D5, 4i8))
        .push((Tone::G5, 4i8))
        .push((Tone::G5, 8i8))
        .push((Tone::A5, 8i8))
        .push((Tone::G5, 8i8))
        .push((Tone::F5, 8i8))
        .push((Tone::E5, 4i8))
        .push((Tone::C5, 4i8))
        .push((Tone::C5, 4i8))
        .push((Tone::A5, 4i8))
        .push((Tone::A5, 8i8))
        .push((Tone::AS5, 8i8))
        .push((Tone::A5, 8i8))
        .push((Tone::G5, 8i8))
        .push((Tone::F5, 4i8))
        .push((Tone::D5, 4i8))
        .push((Tone::C5, 8i8))
        .push((Tone::C5, 8i8))
        .push((Tone::D5, 4i8))
        .push((Tone::G5, 4i8))
        .push((Tone::E5, 4i8))
        .push((Tone::F5, 2i8))
        .push((Tone::REST, 4i8))
}

/// The compiled-in melody "We Wish You a Merry Christmas": 140 BPM, 4 beats, with
/// exactly the notes of `merry_christmas_notes`.
#[verifier::rlimit(100)]
pub fn merry_christmas() -> (m: Melody)
    ensures
        m.whole_note_delay_ms == 60000 * 4 / 140,
        m.notes@ == merry_christmas_notes(),
        m.notes@.len() == 195,
        m.wf(),
{
    let mut notes: Vec<(Tone, i8)> = Vec::new();
    push_note(&mut notes, Tone::C5, 4);
    push_note(&mut notes, Tone::F5, 4);
    push_note(&mut notes, Tone::F5, 8);
    push_note(&mut notes, Tone::G5, 8);
    push_note(&mut notes, Tone::F5, 8);
    push_note(&mut notes, Tone::E5, 8);
    push_note(&mut notes, Tone::D5, 4);
    push_note(&mut notes, Tone::D5, 4);
    push_note(&mut notes, Tone::D5, 4);
    push_note(&mut notes, Tone::G5, 4);
    push_note(&mut notes, Tone::G5, 8);
    push_note(&mut notes, Tone::A5, 8);
    push_note(&mut notes, Tone::G5, 8);
    push_note(&mut notes, Tone::F5, 8);
    push_note(&mut notes, Tone::E5, 4);
    push_note(&mut notes, Tone::C5, 4);
    push_note(&mut notes, Tone::C5, 4);
    push_note(&mut notes, Tone::A5, 4);
    push_note(&mut notes, Tone::A5, 8);
    push_note(&mut notes, Tone::AS5, 8);
    push_note(&mut notes, Tone::A5, 8);
    push_note(&mut notes, Tone::G5, 8);
    push_note(&mut notes, Tone::F5, 4);
    push_note(&mut notes, Tone::D5, 4);
    push_note(&mut notes, Tone::C5, 8);
    push_note(&mut notes, Tone::C5, 8);
    push_note(&mut notes, Tone::D5, 4);
    push_note(&mut notes, Tone::G5, 4);
    push_note(&mut notes, Tone::E5, 4);
    push_note(&mut notes, Tone::F5, 2);
    push_note(&mut notes, Tone::C5, 4);
    push_note(&mut notes, Tone::F5, 4);
    push_note(&mut notes, Tone::F5, 8);
    push_note(&mut notes, Tone::G5, 8);
    push_note(&mut notes, Tone::F5, 8);
    push_note(&mut notes, Tone::E5, 8);
    push_note(&mut notes, Tone::D5, 4);
    push_note(&mut notes, Tone::D5, 4);
    push_note(&mut notes, Tone::D5, 4);
    push_note(&mut notes, Tone::G5, 4);
    push_note(&mut notes, Tone::G5, 8);
    push_note(&mut notes, Tone::A5, 8);
    push_note(&mut notes, Tone::G5, 8);
    push_note(&mut notes, Tone::F5, 8);
    push_note(&mut notes, Tone::E5, 4);
    push_note(&mut notes, Tone::C5, 4);
    push_note(&mut notes, Tone::C5, 4);
    push_note(&mut notes, Tone::A5, 4);
    push_note(&mut notes, Tone::A5, 8);
    push_note(&mut notes, Tone::AS5, 8);
    push_note(&mut notes, Tone::A5, 8);
    push_note(&mut notes, Tone::G5, 8);
    push_note(&mut notes, Tone::F5, 4);
    push_note(&mut notes, Tone::D5, 4);
    push_note(&mut notes, Tone::C5, 8);
    push_note(&mut notes, Tone::C5, 8);
    push_note(&mut notes, Tone::D5, 4);
    push_note(&mut notes, Tone::G5, 4);
    push_note(&mut notes, Tone::E5, 4);
    push_note(&mut notes, Tone::F5, 2);
    push_note(&mut notes, Tone::C5, 4);
    push_note(&mut notes, Tone::F5, 4);
    push_note(&mut notes, Tone::F5, 4);
    push_note(&mut notes, Tone::F5, 4);
    push_note(&mut notes, Tone::E5, 2);
    push_note(&mut notes, Tone::E5, 4);
    push_note(&mut notes, Tone::F5, 4);
    push_note(&mut notes, Tone::E5, 4);
    push_note(&mut notes, Tone::D5, 4);
    push_note(&mut notes, Tone::C5, 2);
    push_note(&mut notes, Tone::A5, 4);
    push_note(&mut notes, Tone::AS5, 4);
    push_note(&mut notes, Tone::A5, 4);
    push_note(&mut notes, Tone::G5, 4);
    push_note(&mut notes, Tone::C6, 4);
    push_note(&mut notes, Tone::C5, 4);
    push_note(&mut notes, Tone::C5, 8);
    push_note(&mut notes, Tone::C5, 8);
    push_note(&mut notes, Tone::D5, 4);
    push_note(&mut notes, Tone::G5, 4);
    push_note(&mut notes, Tone::E5, 4);
    push_note(&mut notes, Tone::F5, 2);
    push_note(&mut notes, Tone::C5, 4);
    push_note(&mut notes, Tone::F5, 4);
    push_note(&mut notes, Tone::F5, 8);
    push_note(&mut notes, Tone::G5, 8);
    push_note(&mut notes, Tone::F5, 8);
    push_note(&mut notes, Tone::E5, 8);
    push_note(&mut notes, Tone::D5, 4);
    push_note(&mut notes, Tone::D5, 4);
    push_note(&mut notes, Tone::D5, 4);
    push_note(&mut notes, Tone::G5, 4);
    push_note(&mut notes, Tone::G5, 8);
    push_note(&mut notes, Tone::A5, 8);
    push_note(&mut notes, Tone::G5, 8);
    push_note(&mut notes, Tone::F5, 8);
    push_note(&mut notes, Tone::E5, 4);
    push_note(&mut notes, Tone::C5, 4);
    push_note(&mut notes, Tone::C5, 4);
    push_note(&mut notes, Tone::A5, 4);
    push_note(&mut notes, Tone::A5, 8);
    push_note(&mut notes, Tone::AS5, 8);
    push_note(&mut notes, Tone::A5, 8);
    push_note(&mut notes, Tone::G5, 8);
    push_note(&mut notes, Tone::F5, 4);
    push_note(&mut notes, Tone::D5, 4);
    push_note(&mut notes, Tone::C5, 8);
    push_note(&mut notes, Tone::C5, 8);
    push_note(&mut notes, Tone::D5, 4);
    push_note(&mut notes, Tone::G5, 4);
    push_note(&mut notes, Tone::E5, 4);
    push_note(&mut notes, Tone::F5, 2);
    push_note(&mut notes, Tone::C5, 4);
    push_note(&mut notes, Tone::F5, 4);
    push_note(&mut notes, Tone::F5, 4);
    push_note(&mut notes, Tone::F5, 4);
    push_note(&mut notes, Tone::E5, 2);
    push_note(&mut notes, Tone::E5, 4);
    push_note(&mut notes, Tone::F5, 4);
    push_note(&mut notes, Tone::E5, 4);
    push_note(&mut notes, Tone::D5, 4);
    push_note(&mut notes, Tone::C5, 2);
    push_note(&mut notes, Tone::A5, 4);
    push_note(&mut notes, Tone::AS5, 4);
    push_note(&mut notes, Tone::A5, 4);
    push_note(&mut notes, Tone::G5, 4);
    push_note(&mut notes, Tone::C6, 4);
    push_note(&mut notes, Tone::C5, 4);
    push_note(&mut notes, Tone::C5, 8);
    push_note(&mut notes, Tone::C5, 8);
    push_note(&mut notes, Tone::D5, 4);
    push_note(&mut notes, Tone::G5, 4);
    push_note(&mut notes, Tone::E5, 4);
    push_note(&mut notes, Tone::F5, 2);
    push_note(&mut notes, Tone::C5, 4);
    push_note(&mut notes, Tone::F5, 4);
    push_note(&mut notes, Tone::F5, 8);
    push_note(&mut notes, Tone::G5, 8);
    push_note(&mut notes, Tone::F5, 8);
    push_note(&mut notes, Tone::E5, 8);
    push_note(&mut notes, Tone::D5, 4);
    push_note(&mut notes, Tone::D5, 4);
    push_note(&mut notes, Tone::D5, 4);
    push_note(&mut notes, Tone::G5, 4);
    push_note(&mut notes, Tone::G5, 8);
    push_note(&mut notes, Tone::A5, 8);
    push_note(&mut notes, Tone::G5, 8);
    push_note(&mut notes, Tone::F5, 8);
    push_note(&mut notes, Tone::E5, 4);
    push_note(&mut notes, Tone::C5, 4);
    push_note(&mut notes, Tone::C5, 4);
    push_note(&mut notes, Tone::A5, 4);
    push_note(&mut notes, Tone::A5, 8);
    push_note(&mut notes, Tone::AS5, 8);
    push_note(&mut notes, Tone::A5, 8);
    push_note(&mut notes, Tone::G5, 8);
    push_note(&mut notes, Tone::F5, 4);
    push_note(&mut notes, Tone::D5, 4);
    push_note(&mut notes, Tone::C5, 8);
    push_note(&mut notes, Tone::C5, 8);
    push_note(&mut notes, Tone::D5, 4);
    push_note(&mut notes, Tone::G5, 4);
    push_note(&mut notes, Tone::E5, 4);
    push_note(&mut notes, Tone::F5, 2);
    push_note(&mut notes, Tone::C5, 4);
    push_note(&mut notes, Tone::F5, 4);
    push_note(&mut notes, Tone::F5, 8);
    push_note(&mut notes, Tone::G5, 8);
    push_note(&mut notes, Tone::F5, 8);
    push_note(&mut notes, Tone::E5, 8);
    push_note(&mut notes, Tone::D5, 4);
    push_note(&mut notes, Tone::D5, 4);
    push_note(&mut notes, Tone::D5, 4);
    push_note(&mut notes, Tone::G5, 4);
    push_note(&mut notes, Tone::G5, 8);
    push_note(&mut notes, Tone::A5, 8);
    push_note(&mut notes, Tone::G5, 8);
    push_note(&mut notes, Tone::F5, 8);
    push_note(&mut notes, Tone::E5, 4);
    push_note(&mut notes, Tone::C5, 4);
    push_note(&mut notes, Tone::C5, 4);
    push_note(&mut notes, Tone::A5, 4);
    push_note(&mut notes, Tone::A5, 8);
    push_note(&mut notes, Tone::AS5, 8);
    push_note(&mut notes, Tone::A5, 8);
    push_note(&mut notes, Tone::G5, 8);
    push_note(&mut notes, Tone::F5, 4);
    push_note(&mut notes, Tone::D5, 4);
    push_note(&mut notes, Tone::C5, 8);
    push_note(&mut notes, Tone::C5, 8);
    push_note(&mut notes, Tone::D5, 4);
    push_note(&mut notes, Tone::G5, 4);
    push_note(&mut notes, Tone::E5, 4);
    push_note(&mut notes, Tone::F5, 2);
    push_note(&mut notes, Tone::REST, 4);
    Melody { whole_note_delay_ms: 60000 * 4 / 140, notes }
}

/// The note data of "Super Mario Bros": the exact (tone, divisor) pairs
/// the constructor compiles in.
pub open spec fn super_mariobros_notes() -> Seq<(Tone, i8)> {
    Seq::empty()
        .push((Tone::E5, 8i8))
        .push((Tone::E5, 8i8))
        .push((Tone::REST, 8i8))
        .push((Tone::E5, 8i8))
        .push((Tone::REST, 8i8))
        .push((Tone::C5, 8i8))
        .push((Tone::E5, 8i8))
        .push((Tone::G5, 4i8))
        .push((Tone::REST, 4i8))
        .push((Tone::G4, 8i8))
        .push((Tone::REST, 4i8))
        .push((Tone::C5, -4i8))
        .push((Tone::G4, 8i8))
        .push((Tone::REST, 4i8))
        .push((Tone::E4, -4i8))
        .push((Tone::A4, 4i8))
        .push((Tone::B4, 4i8))
        .push((Tone::AS4, 8i8))
        .push((Tone::A4, 4i8))
        .push((Tone::G4, -8i8))
        .push((Tone::E5, -8i8))
        .push((Tone::G5, -8i8))
        .push((Tone::A5, 4i8))
        .push((Tone::F5, 8i8))
        .push((Tone::G5, 8i8))
        .push((Tone::REST, 8i8))
        .push((Tone::E5, 4i8))
        .push((Tone::C5, 8i8))
        .push((Tone::D5, 8i8))
        .push((Tone::B4, -4i8))
        .push((Tone::C5, -4i8))
        .push((Tone::G4, 8i8))
        .push((Tone::REST, 4i8))
        .push((Tone::E4, -4i8))
        .push((Tone::A4, 4i8))
        .push((Tone::B4, 4i8))
        .push((Tone::AS4, 8i8))
        .push((Tone::A4, 4i8))
        .push((Tone::G4, -8i8))
        .push((Tone::E5, -8i8))
        .push((Tone::G5, -8i8))
        .push((Tone::A5, 4i8))
        .push((Tone::F5, 8i8))
        .push((Tone::G5, 8i8))
        .push((Tone::REST, 8i8))
        .push((Tone::E5, 4i8))
        .push((Tone::C5, 8i8))
        .push((Tone::D5, 8i8))
        .push((Tone::B4, -4i8))
        .push((Tone::REST, 4i8))
        .push((Tone::G5, 8i8))
        .push((Tone::FS5, 8i8))
        .push((Tone::F5, 8i8))
        .push((Tone::DS5, 4i8))
        .push((Tone::E5, 8i8))
        .push((Tone::REST, 8i8))
        .push((Tone::GS4, 8i8))
        .push((Tone::A4, 8i8))
        .push((Tone::C4, 8i8))
        .push((Tone::REST, 8i8))
        .push((Tone::A4, 8i8))
        .push((Tone::C5, 8i8))
        .push((Tone::D5, 8i8))
        .push((Tone::REST, 4i8))
        .push((Tone::DS5, 4i8))
        .push((Tone::REST, 8i8))
        .push((Tone::D5, -4i8))
        .push((Tone::C5, 2i8))
        .push((Tone::REST, 2i8))
        .push((Tone::REST, 4i8))
        .push((Tone::G5, 8i8))
        .push((Tone::FS5, 8i8))
        .push((Tone::F5, 8i8))
        .push((Tone::DS5, 4i8))
        .push((Tone::E5, 8i8))
        .push((Tone::REST, 8i8))
        .push((Tone::GS4, 8i8))
        .push((Tone::A4, 8i8))
        .push((Tone::C4, 8i8))
        .push((Tone::REST, 8i8))
        .push((Tone::A4, 8i8))
        .push((Tone::C5, 8i8))
        .push((Tone::D5, 8i8))
        .push((Tone::REST, 4i8))
        .push((Tone::DS5, 4i8))
        .push((Tone::REST, 8i8))
        .push((Tone::D5, -4i8))
        .push((Tone::C5, 2i8))
        .push((Tone::REST, 2i8))
        .push((Tone::C5, 8i8))
        .push((Tone::C5, 4i8))
        .push((Tone::C5, 8i8))
        .push((Tone::REST, 8i8))
        .push((Tone::C5, 8i8))
        .push((Tone::D5, 4i8))
        .push((Tone::E5, 8i8))
        .push((Tone::C5, 4i8))
        .push((Tone::A4, 8i8))
        .push((Tone::G4, 2i8))
        .push((Tone::C5, 8i8))
        .push((Tone::C5, 4i8))
        .push((Tone::C5, 8i8))
        .push((Tone::REST, 8i8))
        .push((Tone::C5, 8i8))
        .push((Tone::D5, 8i8))
        .push((Tone::E5, 8i8))
        .push((Tone::REST, 1i8))
        .push((Tone::C5, 8i8))
        .push((Tone::C5, 4i8))
        .push((Tone::C5, 8i8))
        .push((Tone::REST, 8i8))
        .push((Tone::C5, 8i8))
        .push((Tone::D5, 4i8))
        .push((Tone::E5, 8i8))
        .push((Tone::C5, 4i8))
        .push((Tone::A4, 8i8))
        .push((Tone::G4, 2i8))
        .push((Tone::E5, 8i8))
        .push((Tone::E5, 8i8))
        .push((Tone::REST, 8i8))
        .push((Tone::E5, 8i8))
        .push((Tone::REST, 8i8))
        .push((Tone::C5, 8i8))
        .push((Tone::E5, 4i8))
        .push((Tone::G5, 4i8))
        .push((Tone::REST, 4i8))
        .push((Tone::G4, 4i8))
        .push((Tone::REST, 4i8))
        .push((Tone::C5, -4i8))
        .push((Tone::G4, 8i8))
        .push((Tone::REST, 4i8))
        .push((Tone::E4, -4i8))
        .push((Tone::A4, 4i8))
        .push((Tone::B4, 4i8))
        .push((Tone::AS4, 8i8))
        .push((Tone::A4, 4i8))
        .push((Tone::G4, -8i8))
        .push((Tone::E5, -8i8))
        .push((Tone::G5, -8i8))
        .push((Tone::A5, 4i8))
        .push((Tone::F5, 8i8))
        .push((Tone::G5, 8i8))
        .push((Tone::REST, 8i8))
        .push((Tone::E5, 4i8))
        .push((Tone::C5, 8i8))
        .push((Tone::D5, 8i8))
        .push((Tone::B4, -4i8))
        .push((Tone::C5, -4i8))
        .push((Tone::G4, 8i8))
        .push((Tone::REST, 4i8))
        .push((Tone::E4, -4i8))
        .push((Tone::A4, 4i8))
        .push((Tone::B4, 4i8))
        .push((Tone::AS4, 8i8))
        .push((Tone::A4, 4i8))
        .push((Tone::G4, -8i8))
        .push((Tone::E5, -8i8))
        .push((Tone::G5, -8i8))
        .push((Tone::A5, 4i8))
        .push((Tone::F5, 8i8))
        .push((Tone::G5, 8i8))
        .push((Tone::REST, 8i8))
        .push((Tone::E5, 4i8))
        .push((Tone::C5, 8i8))
        .push((Tone::D5, 8i8))
        .push((Tone::B4, -4i8))
        .push((Tone::E5, 8i8))
        .push((Tone::C5, 4i8))
        .push((Tone::G4, 8i8))
        .push((Tone::REST, 4i8))
        .push((Tone::GS4, 4i8))
        .push((Tone::A4, 8i8))
        .push((Tone::F5, 4i8))
        .push((Tone::F5, 8i8))
        .push((Tone::A4, 2i8))
        .push((Tone::D5, -8i8))
        .push((Tone::A5, -8i8))
        .push((Tone::A5, -8i8))
        .push((Tone::A5, -8i8))
        .push((Tone::G5, -8i8))
        .push((Tone::F5, -8i8))
        .push((Tone::E5, 8i8))
        .push((Tone::C5, 4i8))
        .push((Tone::A4, 8i8))
        .push((Tone::G4, 2i8))
        .push((Tone::E5, 8i8))
        .push((Tone::C5, 4i8))
        .push((Tone::G4, 8i8))
        .push((Tone::REST, 4i8))
        .push((Tone::GS4, 4i8))
        .push((Tone::A4, 8i8))
        .push((Tone::F5, 4i8))
        .push((Tone::F5, 8i8))
        .push((Tone::A4, 2i8))
        .push((Tone::B4, 8i8))
        .push((Tone::F5, 4i8))
        .push((Tone::F5, 8i8))
        .push((Tone::F5, -8i8))
        .push((Tone::E5, -8i8))
        .push((Tone::D5, -8i8))
        .push((Tone::C5, 8i8))
        .push((Tone::E4, 4i8))
        .push((Tone::E4, 8i8))
        .push((Tone::C4, 2i8))
        .push((Tone::E5, 8i8))
        .push((Tone::C5, 4i8))
        .push((Tone::G4, 8i8))
        .push((Tone::REST, 4i8))
        .push((Tone::GS4, 4i8))
        .push((Tone::A4, 8i8))
        .push((Tone::F5, 4i8))
        .push((Tone::F5, 8i8))
        .push((Tone::A4, 2i8))
        .push((Tone::D5, -8i8))
        .push((Tone::A5, -8i8))
        .push((Tone::A5, -8i8))
        .push((Tone::A5, -8i8))
        .push((Tone::G5, -8i8))
        .push((Tone::F5, -8i8))
        .push((Tone::E5, 8i8))
        .push((Tone::C5, 4i8))
        .push((Tone::A4, 8i8))
        .push((Tone::G4, 2i8))
        .push((Tone::E5, 8i8))
        .push((Tone::C5, 4i8))
        .push((Tone::G4, 8i8))
        .push((Tone::REST, 4i8))
        .push((Tone::GS4, 4i8))
        .push((Tone::A4, 8i8))
        .push((Tone::F5, 4i8))
        .push((Tone::F5, 8i8))
        .push((Tone::A4, 2i8))
        .push((Tone::B4, 8i8))
        .push((Tone::F5, 4i8))
        .push((Tone::F5, 8i8))
        .push((Tone::F5, -8i8))
        .push((Tone::E5, -8i8))
        .push((Tone::D5, -8i8))
        .push((Tone::C5, 8i8))
        .push((Tone::E4, 4i8))
        .push((Tone::E4, 8i8))
        .push((Tone::C4, 2i8))
        .push((Tone::C5, 8i8))
        .push((Tone::C5, 4i8))
        .push((Tone::C5, 8i8))
        .push((Tone::REST, 8i8))
        .push((Tone::C5, 8i8))
        .push((Tone::D5, 8i8))
        .push((Tone::E5, 8i8))
        .push((Tone::REST, 1i8))
        .push((Tone::C5, 8i8))
        .push((Tone::C5, 4i8))
        .push((Tone::C5, 8i8))
        .push((Tone::REST, 8i8))
        .push((Tone::C5, 8i8))
        .push((Tone::D5, 4i8))
        .push((Tone::E5, 8i8))
        .push((Tone::C5, 4i8))
        .push((Tone::A4, 8i8))
        .push((Tone::G4, 2i8))
        .push((Tone::E5, 8i8))
        .push((Tone::E5, 8i8))
        .push((Tone::REST, 8i8))
        .push((Tone::E5, 8i8))
        .push((Tone::REST, 8i8))
        .push((Tone::C5, 8i8))
        .push((Tone::E5, 4i8))
        .push((Tone::G5, 4i8))
        .push((Tone::REST, 4i8))
        .push((Tone::G4, 4i8))
        .push((Tone::REST, 4i8))
        .push((Tone::E5, 8i8))
        .push((Tone::C5, 4i8))
        .push((Tone::G4, 8i8))
        .push((Tone::REST, 4i8))
        .push((Tone::GS4, 4i8))
        .push((Tone::A4, 8i8))
        .push((Tone::F5, 4i8))
        .push((Tone::F5, 8i8))
        .push((Tone::A4, 2i8))
        .push((Tone::D5, -8i8))
        .push((Tone::A5, -8i8))
        .push((Tone::A5, -8i8))
        .push((Tone::A5, -8i8))
        .push((Tone::G5, -8i8))
        .push((Tone::F5, -8i8))
        .push((Tone::E5, 8i8))
        .push((Tone::C5, 4i8))
        .push((Tone::A4, 8i8))
        .push((Tone::G4, 2i8))
        .push((Tone::E5, 8i8))
        .push((Tone::C5, 4i8))
        .push((Tone::G4, 8i8))
        .push((Tone::REST, 4i8))
        .push((Tone::GS4, 4i8))
        .push((Tone::A4, 8i8))
        .push((Tone::F5, 4i8))
        .push((Tone::F5, 8i8))
        .push((Tone::A4, 2i8))
        .push((Tone::B4, 8i8))
        .push((Tone::F5, 4i8))
        .push((Tone::F5, 8i8))
        .push((Tone::F5, -8i8))
        .push((Tone::E5, -8i8))
        .push((Tone::D5, -8i8))
        .push((Tone::C5, 8i8))
        .push((Tone::E4, 4i8))
        .push((Tone::E4, 8i8))
        .push((Tone::C4, 2i8))
        .push((Tone::C5, -4i8))
        .push((Tone::G4, -4i8))
        .push((Tone::E4, 4i8))
        .push((Tone::A4, -8i8))
        .push((Tone::B4, -8i8))
        .push((Tone::A4, -8i8))
        .push((Tone::GS4, -8i8))
        .push((Tone::AS4, -8i8))
        .push((Tone::GS4, -8i8))
        .push((Tone::G4, 8i8))
        .push((Tone::D4, 8i8))
        .push((Tone::E4, -2i8))
}

/// The compiled-in melody "Super Mario Bros": 200 BPM, 4 beats, with
/// exactly the notes of `super_mariobros_notes`.
#[verifier::rlimit(100)]
pub fn super_mariobros() -> (m: Melody)
    ensures
        m.whole_note_delay_ms == 60000 * 4 / 200,
        m.notes@ == super_mariobros_notes(),
        m.notes@.len() == 321,
        m.wf(),
{
    let mut notes: Vec<(Tone, i8)> = Vec::new();
    push_note(&mut notes, Tone::E5, 8);
    push_note(&mut notes, Tone::E5, 8);
    push_note(&mut notes, Tone::REST, 8);
    push_note(&mut notes, Tone::E5, 8);
    push_note(&mut notes, Tone::REST, 8);
    push_note(&mut notes, Tone::C5, 8);
    push_note(&mut notes, Tone::E5, 8);
    push_note(&mut notes, Tone::G5, 4);
    push_note(&mut notes, Tone::REST, 4);
    push_note(&mut notes, Tone::G4, 8);
    push_note(&mut notes, Tone::REST, 4);
    push_note(&mut notes, Tone::C5, -4);
    push_note(&mut notes, Tone::G4, 8);
    push_note(&mut notes, Tone::REST, 4);
    push_note(&mut notes, Tone::E4, -4);
    push_note(&mut notes, Tone::A4, 4);
    push_note(&mut notes, Tone::B4, 4);
    push_note(&mut notes, Tone::AS4, 8);
    push_note(&mut notes, Tone::A4, 4);
    push_note(&mut notes, Tone::G4, -8);
    push_note(&mut notes, Tone::E5, -8);
    push_note(&mut notes, Tone::G5, -8);
    push_note(&mut notes, Tone::A5, 4);
    push_note(&mut notes, Tone::F5, 8);
    push_note(&mut notes, Tone::G5, 8);
    push_note(&mut notes, Tone::REST, 8);
    push_note(&mut notes, Tone::E5, 4);
    push_note(&mut notes, Tone::C5, 8);
    push_note(&mut notes, Tone::D5, 8);
    push_note(&mut notes, Tone::B4, -4);
    push_note(&mut notes, Tone::C5, -4);
    push_note(&mut notes, Tone::G4, 8);
    push_note(&mut notes, Tone::REST, 4);
    push_note(&mut notes, Tone::E4, -4);
    push_note(&mut notes, Tone::A4, 4);
    push_note(&mut notes, Tone::B4, 4);
    push_note(&mut notes, Tone::AS4, 8);
    push_note(&mut notes, Tone::A4, 4);
    push_note(&mut notes, Tone::G4, -8);
    push_note(&mut notes, Tone::E5, -8);
    push_note(&mut notes, Tone::G5, -8);
    push_note(&mut notes, Tone::A5, 4);
    push_note(&mut notes, Tone::F5, 8);
    push_note(&mut notes, Tone::G5, 8);
    push_note(&mut notes, Tone::REST, 8);
    push_note(&mut notes, Tone::E5, 4);
    push_note(&mut notes, Tone::C5, 8);
    push_note(&mut notes, Tone::D5, 8);
    push_note(&mut notes, Tone::B4, -4);
    push_note(&mut notes, Tone::REST, 4);
    push_note(&mut notes, Tone::G5, 8);
    push_note(&mut notes, Tone::FS5, 8);
    push_note(&mut notes, Tone::F5, 8);
    push_note(&mut notes, Tone::DS5, 4);
    push_note(&mut notes, Tone::E5, 8);
    push_note(&mut notes, Tone::REST, 8);
    push_note(&mut notes, Tone::GS4, 8);
    push_note(&mut notes, Tone::A4, 8);
    push_note(&mut notes, Tone::C4, 8);
    push_note(&mut notes, Tone::REST, 8);
    push_note(&mut notes, Tone::A4, 8);
    push_note(&mut notes, Tone::C5, 8);
    push_note(&mut notes, Tone::D5, 8);
    push_note(&mut notes, Tone::REST, 4);
    push_note(&mut notes, Tone::DS5, 4);
    push_note(&mut notes, Tone::REST, 8);
    push_note(&mut notes, Tone::D5, -4);
    push_note(&mut notes, Tone::C5, 2);
    push_note(&mut notes, Tone::REST, 2);
    push_note(&mut notes, Tone::REST, 4);
    push_note(&mut notes, Tone::G5, 8);
    push_note(&mut notes, Tone::FS5, 8);
    push_note(&mut notes, Tone::F5, 8);
    push_note(&mut notes, Tone::DS5, 4);
    push_note(&mut notes, Tone::E5, 8);
    push_note(&mut notes, Tone::REST, 8);
    push_note(&mut notes, Tone::GS4, 8);
    push_note(&mut notes, Tone::A4, 8);
    push_note(&mut notes, Tone::C4, 8);
    push_note(&mut notes, Tone::REST, 8);
    push_note(&mut notes, Tone::A4, 8);
    push_note(&mut notes, Tone::C5, 8);
    push_note(&mut notes, Tone::D5, 8);
    push_note(&mut notes, Tone::REST, 4);
    push_note(&mut notes, Tone::DS5, 4);
    push_note(&mut notes, Tone::REST, 8);
    push_note(&mut notes, Tone::D5, -4);
    push_note(&mut notes, Tone::C5, 2);
    push_note(&mut notes, Tone::REST, 2);
    push_note(&mut notes, Tone::C5, 8);
    push_note(&mut notes, Tone::C5, 4);
    push_note(&mut notes, Tone::C5, 8);
    push_note(&mut notes, Tone::REST, 8);
    push_note(&mut notes, Tone::C5, 8);
    push_note(&mut notes, Tone::D5, 4);
    push_note(&mut notes, Tone::E5, 8);
    push_note(&mut notes, Tone::C5, 4);
    push_note(&mut notes, Tone::A4, 8);
    push_note(&mut notes, Tone::G4, 2);
    push_note(&mut notes, Tone::C5, 8);
    push_note(&mut notes, Tone::C5, 4);
    push_note(&mut notes, Tone::C5, 8);
    push_note(&mut notes, Tone::REST, 8);
    push_note(&mut notes, Tone::C5, 8);
    push_note(&mut notes, Tone::D5, 8);
    push_note(&mut notes, Tone::E5, 8);
    push_note(&mut notes, Tone::REST, 1);
    push_note(&mut notes, Tone::C5, 8);
    push_note(&mut notes, Tone::C5, 4);
    push_note(&mut notes, Tone::C5, 8);
    push_note(&mut notes, Tone::REST, 8);
    push_note(&mut notes, Tone::C5, 8);
    push_note(&mut notes, Tone::D5, 4);
    push_note(&mut notes, Tone::E5, 8);
    push_note(&mut notes, Tone::C5, 4);
    push_note(&mut notes, Tone::A4, 8);
    push_note(&mut notes, Tone::G4, 2);
    push_note(&mut notes, Tone::E5, 8);
    push_note(&mut notes, Tone::E5, 8);
    push_note(&mut notes, Tone::REST, 8);
    push_note(&mut notes, Tone::E5, 8);
    push_note(&mut notes, Tone::REST, 8);
    push_note(&mut notes, Tone::C5, 8);
    push_note(&mut notes, Tone::E5, 4);
    push_note(&mut notes, Tone::G5, 4);
    push_note(&mut notes, Tone::REST, 4);
    push_note(&mut notes, Tone::G4, 4);
    push_note(&mut notes, Tone::REST, 4);
    push_note(&mut notes, Tone::C5, -4);
    push_note(&mut notes, Tone::G4, 8);
    push_note(&mut notes, Tone::REST, 4);
    push_note(&mut notes, Tone::E4, -4);
    push_note(&mut notes, Tone::A4, 4);
    push_note(&mut notes, Tone::B4, 4);
    push_note(&mut notes, Tone::AS4, 8);
    push_note(&mut notes, Tone::A4, 4);
    push_note(&mut notes, Tone::G4, -8);
    push_note(&mut notes, Tone::E5, -8);
    push_note(&mut notes, Tone::G5, -8);
    push_note(&mut notes, Tone::A5, 4);
    push_note(&mut notes, Tone::F5, 8);
    push_note(&mut notes, Tone::G5, 8);
    push_note(&mut notes, Tone::REST, 8);
    push_note(&mut notes, Tone::E5, 4);
    push_note(&mut notes, Tone::C5, 8);
    push_note(&mut notes, Tone::D5, 8);
    push_note(&mut notes, Tone::B4, -4);
    push_note(&mut notes, Tone::C5, -4);
    push_note(&mut notes, Tone::G4, 8);
    push_note(&mut notes, Tone::REST, 4);
    push_note(&mut notes, Tone::E4, -4);
    push_note(&mut notes, Tone::A4, 4);
    push_note(&mut notes, Tone::B4, 4);
    push_note(&mut notes, Tone::AS4, 8);
    push_note(&mut notes, Tone::A4, 4);
    push_note(&mut notes, Tone::G4, -8);
    push_note(&mut notes, Tone::E5, -8);
    push_note(&mut notes, Tone::G5, -8);
    push_note(&mut notes, Tone::A5, 4);
    push_note(&mut notes, Tone::F5, 8);
    push_note(&mut notes, Tone::G5, 8);
    push_note(&mut notes, Tone::REST, 8);
    push_note(&mut notes, Tone::E5, 4);
    push_note(&mut notes, Tone::C5, 8);
    push_note(&mut notes, Tone::D5, 8);
    push_note(&mut notes, Tone::B4, -4);
    push_note(&mut notes, Tone::E5, 8);
    push_note(&mut notes, Tone::C5, 4);
    push_note(&mut notes, Tone::G4, 8);
    push_note(&mut notes, Tone::REST, 4);
    push_note(&mut notes, Tone::GS4, 4);
    push_note(&mut notes, Tone::A4, 8);
    push_note(&mut notes, Tone::F5, 4);
    push_note(&mut notes, Tone::F5, 8);
    push_note(&mut notes, Tone::A4, 2);
    push_note(&mut notes, Tone::D5, -8);
    push_note(&mut notes, Tone::A5, -8);
    push_note(&mut notes, Tone::A5, -8);
    push_note(&mut notes, Tone::A5, -8);
    push_note(&mut notes, Tone::G5, -8);
    push_note(&mut notes, Tone::F5, -8);
    push_note(&mut notes, Tone::E5, 8);
    push_note(&mut notes, Tone::C5, 4);
    push_note(&mut notes, Tone::A4, 8);
    push_note(&mut notes, Tone::G4, 2);
    push_note(&mut notes, Tone::E5, 8);
    push_note(&mut notes, Tone::C5, 4);
    push_note(&mut notes, Tone::G4, 8);
    push_note(&mut notes, Tone::REST, 4);
    push_note(&mut notes, Tone::GS4, 4);
    push_note(&mut notes, Tone::A4, 8);
    push_note(&mut notes, Tone::F5, 4);
    push_note(&mut notes, Tone::F5, 8);
    push_note(&mut notes, Tone::A4, 2);
    push_note(&mut notes, Tone::B4, 8);
    push_note(&mut notes, Tone::F5, 4);
    push_note(&mut notes, Tone::F5, 8);
    push_note(&mut notes, Tone::F5, -8);
    push_note(&mut notes, Tone::E5, -8);
    push_note(&mut notes, Tone::D5, -8);
    push_note(&mut notes, Tone::C5, 8);
    push_note(&mut notes, Tone::E4, 4);
    push_note(&mut notes, Tone::E4, 8);
    push_note(&mut notes, Tone::C4, 2);
    push_note(&mut notes, Tone::E5, 8);
    push_note(&mut notes, Tone::C5, 4);
    push_note(&mut notes, Tone::G4, 8);
    push_note(&mut notes, Tone::REST, 4);
    push_note(&mut notes, Tone::GS4, 4);
    push_note(&mut notes, Tone::A4, 8);
    push_note(&mut notes, Tone::F5, 4);
    push_note(&mut notes, Tone::F5, 8);
    push_note(&mut notes, Tone::A4, 2);
    push_note(&mut notes, Tone::D5, -8);
    push_note(&mut notes, Tone::A5, -8);
    push_note(&mut notes, Tone::A5, -8);
    push_note(&mut notes, Tone::A5, -8);
    push_note(&mut notes, Tone::G5, -8);
    push_note(&mut notes, Tone::F5, -8);
    push_note(&mut notes, Tone::E5, 8);
    push_note(&mut notes, Tone::C5, 4);
    push_note(&mut notes, Tone::A4, 8);
    push_note(&mut notes, Tone::G4, 2);
    push_note(&mut notes, Tone::E5, 8);
    push_note(&mut notes, Tone::C5, 4);
    push_note(&mut notes, Tone::G4, 8);
    push_note(&mut notes, Tone::REST, 4);
    push_note(&mut notes, Tone::GS4, 4);
    push_note(&mut notes, Tone::A4, 8);
    push_note(&mut notes, Tone::F5, 4);
    push_note(&mut notes, Tone::F5, 8);
    push_note(&mut notes, Tone::A4, 2);
    push_note(&mut notes, Tone::B4, 8);
    push_note(&mut notes, Tone::F5, 4);
    push_note(&mut notes, Tone::F5, 8);
    push_note(&mut notes, Tone::F5, -8);
    push_note(&mut notes, Tone::E5, -8);
    push_note(&mut notes, Tone::D5, -8);
    push_note(&mut notes, Tone::C5, 8);
    push_note(&mut notes, Tone::E4, 4);
    push_note(&mut notes, Tone::E4, 8);
    push_note(&mut notes, Tone::C4, 2);
    push_note(&mut notes, Tone::C5, 8);
    push_note(&mut notes, Tone::C5, 4);
    push_note(&mut notes, Tone::C5, 8);
    push_note(&mut notes, Tone::REST, 8);
    push_note(&mut notes, Tone::C5, 8);
    push_note(&mut notes, Tone::D5, 8);
    push_note(&mut notes, Tone::E5, 8);
    push_note(&mut notes, Tone::REST, 1);
    push_note(&mut notes, Tone::C5, 8);
    push_note(&mut notes, Tone::C5, 4);
    push_note(&mut notes, Tone::C5, 8);
    push_note(&mut notes, Tone::REST, 8);
    push_note(&mut notes, Tone::C5, 8);
    push_note(&mut notes, Tone::D5, 4);
    push_note(&mut notes, Tone::E5, 8);
    push_note(&mut notes, Tone::C5, 4);
    push_note(&mut notes, Tone::A4, 8);
    push_note(&mut notes, Tone::G4, 2);
    push_note(&mut notes, Tone::E5, 8);
    push_note(&mut notes, Tone::E5, 8);
    push_note(&mut notes, Tone::REST, 8);
    push_note(&mut notes, Tone::E5, 8);
    push_note(&mut notes, Tone::REST, 8);
    push_note(&mut notes, Tone::C5, 8);
    push_note(&mut notes, Tone::E5, 4);
    push_note(&mut notes, Tone::G5, 4);
    push_note(&mut notes, Tone::REST, 4);
    push_note(&mut notes, Tone::G4, 4);
    push_note(&mut notes, Tone::REST, 4);
    push_note(&mut notes, Tone::E5, 8);
    push_note(&mut notes, Tone::C5, 4);
    push_note(&mut notes, Tone::G4, 8);
    push_note(&mut notes, Tone::REST, 4);
    push_note(&mut notes, Tone::GS4, 4);
    push_note(&mut notes, Tone::A4, 8);
    push_note(&mut notes, Tone::F5, 4);
    push_note(&mut notes, Tone::F5, 8);
    push_note(&mut notes, Tone::A4, 2);
    push_note(&mut notes, Tone::D5, -8);
    push_note(&mut notes, Tone::A5, -8);
    push_note(&mut notes, Tone::A5, -8);
    push_note(&mut notes, Tone::A5, -8);
    push_note(&mut notes, Tone::G5, -8);
    push_note(&mut notes, Tone::F5, -8);
    push_note(&mut notes, Tone::E5, 8);
    push_note(&mut notes, Tone::C5, 4);
    push_note(&mut notes, Tone::A4, 8);
    push_note(&mut notes, Tone::G4, 2);
    push_note(&mut notes, Tone::E5, 8);
    push_note(&mut notes, Tone::C5, 4);
    push_note(&mut notes, Tone::G4, 8);
    push_note(&mut notes, Tone::REST, 4);
    push_note(&mut notes, Tone::GS4, 4);
    push_note(&mut notes, Tone::A4, 8);
    push_note(&mut notes, Tone::F5, 4);
    push_note(&mut notes, Tone::F5, 8);
    push_note(&mut notes, Tone::A4, 2);
    push_note(&mut notes, Tone::B4, 8);
    push_note(&mut notes, Tone::F5, 4);
    push_note(&mut notes, Tone::F5, 8);
    push_note(&mut notes, Tone::F5, -8);
    push_note(&mut notes, Tone::E5, -8);
    push_note(&mut notes, Tone::D5, -8);
    push_note(&mut notes, Tone::C5, 8);
    push_note(&mut notes, Tone::E4, 4);
    push_note(&mut notes, Tone::E4, 8);
    push_note(&mut notes, Tone::C4, 2);
    push_note(&mut notes, Tone::C5, -4);
    push_note(&mut notes, Tone::G4, -4);
    push_note(&mut notes, Tone::E4, 4);
    push_note(&mut notes, Tone::A4, -8);
    push_note(&mut notes, Tone::B4, -8);
    push_note(&mut notes, Tone::A4, -8);
    push_note(&mut notes, Tone::GS4, -8);
    push_note(&mut notes, Tone::AS4, -8);
    push_note(&mut notes, Tone::GS4, -8);
    push_note(&mut notes, Tone::G4, 8);
    push_note(&mut notes, Tone::D4, 8);
    push_note(&mut notes, Tone::E4, -2);
    Melody { whole_note_delay_ms: 60000 * 4 / 200, notes }
}

/// The note data of "Game of Thrones": the exact (tone, divisor) pairs
/// the constructor compiles in.
pub open spec fn game_of_thrones_notes() -> Seq<(Tone, i8)> {
    Seq::empty()
        .push((Tone::G4, 8i8))
        .push((Tone::C4, 8i8))
        .push((Tone::DS4, 16i8))
        .push((Tone::F4, 16i8))
        .push((Tone::G4, 8i8))
        .push((Tone::C4, 8i8))
        .push((Tone::DS4, 16i8))
        .push((Tone::F4, 16i8))
        .push((Tone::G4, 8i8))
        .push((Tone::C4, 8i8))
        .push((Tone::DS4, 16i8))
        .push((Tone::F4, 16i8))
        .push((Tone::G4, 8i8))
        .push((Tone::C4, 8i8))
        .push((Tone::DS4, 16i8))
        .push((Tone::F4, 16i8))
        .push((Tone::G4, 8i8))
        .push((Tone::C4, 8i8))
        .push((Tone::E4, 16i8))
        .push((Tone::F4, 16i8))
        .push((Tone::G4, 8i8))
        .push((Tone::C4, 8i8))
        .push((Tone::E4, 16i8))
        .push((Tone::F4, 16i8))
        .push((Tone::G4, 8i8))
        .push((Tone::C4, 8i8))
        .push((Tone::E4, 16i8))
        .push((Tone::F4, 16i8))
        .push((Tone::G4, 8i8))
        .push((Tone::C4, 8i8))
        .push((Tone::E4, 16i8))
        .push((Tone::F4, 16i8))
        .push((Tone::G4, -4i8))
        .push((Tone::C4, -4i8))
        .push((Tone::DS4, 16i8))
        .push((Tone::F4, 16i8))
        .push((Tone::G4, 4i8))
        .push((Tone::C4, 4i8))
        .push((Tone::DS4, 16i8))
        .push((Tone::F4, 16i8))
        .push((Tone::D4, -1i8))
        .push((Tone::F4, -4i8))
        .push((Tone::AS3, -4i8))
        .push((Tone::DS4, 16i8))
        .push((Tone::D4, 16i8))
        .push((Tone::F4, 4i8))
        .push((Tone::AS3, -4i8))
        .push((Tone::DS4, 16i8))
        .push((Tone::D4, 16i8))
        .push((Tone::C4, -1i8))
        .push((Tone::G4, -4i8))
        .push((Tone::C4, -4i8))
        .push((Tone::DS4, 16i8))
        .push((Tone::F4, 16i8))
        .push((Tone::G4, 4i8))
        .push((Tone::C4, 4i8))
        .push((Tone::DS4, 16i8))
        .push((Tone::F4, 16i8))
        .push((Tone::D4, -1i8))
        .push((Tone::F4, -4i8))
        .push((Tone::AS3, -4i8))
        .push((Tone::DS4, 16i8))
        .push((Tone::D4, 16i8))
        .push((Tone::F4, 4i8))
        .push((Tone::AS3, -4i8))
        .push((Tone::DS4, 16i8))
        .push((Tone::D4, 16i8))
        .push((Tone::C4, -1i8))
        .push((Tone::G4, -4i8))
        .push((Tone::C4, -4i8))
        .push((Tone::DS4, 16i8))
        .push((Tone::F4, 16i8))
        .push((Tone::G4, 4i8))
        .push((Tone::C4, 4i8))
        .push((Tone::DS4, 16i8))
        .push((Tone::F4, 16i8))
        .push((Tone::D4, -2i8))
        .push((Tone::F4, -4i8))
        .push((Tone::AS3, -4i8))
        .push((Tone::D4, -8i8))
        .push((Tone::DS4, -8i8))
        .push((Tone::D4, -8i8))
        .push((Tone::AS3, -8i8))
        .push((Tone::C4, -1i8))
        .push((Tone::C5, -2i8))
        .push((Tone::AS4, -2i8))
        .push((Tone::C4, -2i8))
        .push((Tone::G4, -2i8))
        .push((Tone::DS4, -2i8))
        .push((Tone::DS4, -4i8))
        .push((Tone::F4, -4i8))
        .push((Tone::G4, -1i8))
        .push((Tone::C5, -2i8))
        .push((Tone::AS4, -2i8))
        .push((Tone::C4, -2i8))
        .push((Tone::G4, -2i8))
        .push((Tone::DS4, -2i8))
        .push((Tone::DS4, -4i8))
        .push((Tone::D4, -4i8))
        .push((Tone::C5, 8i8))
        .push((Tone::G4, 8i8))
        .push((Tone::GS4, 16i8))
        .push((Tone::AS4, 16i8))
        .push((Tone::C5, 8i8))
        .push((Tone::G4, 8i8))
        .push((Tone::GS4, 16i8))
        .push((Tone::AS4, 16i8))
        .push((Tone::C5, 8i8))
        .push((Tone::G4, 8i8))
        .push((Tone::GS4, 16i8))
        .push((Tone::AS4, 16i8))
        .push((Tone::C5, 8i8))
        .push((Tone::G4, 8i8))
        .push((Tone::GS4, 16i8))
        .push((Tone::AS4, 16i8))
        .push((Tone::REST, 4i8))
        .push((Tone::GS5, 16i8))
        .push((Tone::AS5, 16i8))
        .push((Tone::C6, 8i8))
        .push((Tone::G5, 8i8))
        .push((Tone::GS5, 16i8))
        .push((Tone::AS5, 16i8))
        .push((Tone::C6, 8i8))
        .push((Tone::G5, 16i8))
        .push((Tone::GS5, 16i8))
        .push((Tone::AS5, 16i8))
        .push((Tone::C6, 8i8))
        .push((Tone::G5, 8i8))
        .push((Tone::GS5, 16i8))
        .push((Tone::AS5, 16i8))
}

/// The compiled-in melody "Game of Thrones": 85 BPM, 4 beats, with
/// exactly the notes of `game_of_thrones_notes`.
#[verifier::rlimit(100)]
pub fn game_of_thrones() -> (m: Melody)
    ensures
        m.whole_note_delay_ms == 60000 * 4 / 85,
        m.notes@ == game_of_thrones_notes(),
        m.notes@.len() == 130,
        m.wf(),
{
    let mut notes: Vec<(Tone, i8)> = Vec::new();
    push_note(&mut notes, Tone::G4, 8);
    push_note(&mut notes, Tone::C4, 8);
    push_note(&mut notes, Tone::DS4, 16);
    push_note(&mut notes, Tone::F4, 16);
    push_note(&mut notes, Tone::G4, 8);
    push_note(&mut notes, Tone::C4, 8);
    push_note(&mut notes, Tone::DS4, 16);
    push_note(&mut notes, Tone::F4, 16);
    push_note(&mut notes, Tone::G4, 8);
    push_note(&mut notes, Tone::C4, 8);
    push_note(&mut notes, Tone::DS4, 16);
    push_note(&mut notes, Tone::F4, 16);
    push_note(&mut notes, Tone::G4, 8);
    push_note(&mut notes, Tone::C4, 8);
    push_note(&mut notes, Tone::DS4, 16);
    push_note(&mut notes, Tone::F4, 16);
    push_note(&mut notes, Tone::G4, 8);
    push_note(&mut notes, Tone::C4, 8);
    push_note(&mut notes, Tone::E4, 16);
    push_note(&mut notes, Tone::F4, 16);
    push_note(&mut notes, Tone::G4, 8);
    push_note(&mut notes, Tone::C4, 8);
    push_note(&mut notes, Tone::E4, 16);
    push_note(&mut notes, Tone::F4, 16);
    push_note(&mut notes, Tone::G4, 8);
    push_note(&mut notes, Tone::C4, 8);
    push_note(&mut notes, Tone::E4, 16);
    push_note(&mut notes, Tone::F4, 16);
    push_note(&mut notes, Tone::G4, 8);
    push_note(&mut notes, Tone::C4, 8);
    push_note(&mut notes, Tone::E4, 16);
    push_note(&mut notes, Tone::F4, 16);
    push_note(&mut notes, Tone::G4, -4);
    push_note(&mut notes, Tone::C4, -4);
    push_note(&mut notes, Tone::DS4, 16);
    push_note(&mut notes, Tone::F4, 16);
    push_note(&mut notes, Tone::G4, 4);
    push_note(&mut notes, Tone::C4, 4);
    push_note(&mut notes, Tone::DS4, 16);
    push_note(&mut notes, Tone::F4, 16);
    push_note(&mut notes, Tone::D4, -1);
    push_note(&mut notes, Tone::F4, -4);
    push_note(&mut notes, Tone::AS3, -4);
    push_note(&mut notes, Tone::DS4, 16);
    push_note(&mut notes, Tone::D4, 16);
    push_note(&mut notes, Tone::F4, 4);
    push_note(&mut notes, Tone::AS3, -4);
    push_note(&mut notes, Tone::DS4, 16);
    push_note(&mut notes, Tone::D4, 16);
    push_note(&mut notes, Tone::C4, -1);
    push_note(&mut notes, Tone::G4, -4);
    push_note(&mut notes, Tone::C4, -4);
    push_note(&mut notes, Tone::DS4, 16);
    push_note(&mut notes, Tone::F4, 16);
    push_note(&mut notes, Tone::G4, 4);
    push_note(&mut notes, Tone::C4, 4);
    push_note(&mut notes, Tone::DS4, 16);
    push_note(&mut notes, Tone::F4, 16);
    push_note(&mut notes, Tone::D4, -1);
    push_note(&mut notes, Tone::F4, -4);
    push_note(&mut notes, Tone::AS3, -4);
    push_note(&mut notes, Tone::DS4, 16);
    push_note(&mut notes, Tone::D4, 16);
    push_note(&mut notes, Tone::F4, 4);
    push_note(&mut notes, Tone::AS3, -4);
    push_note(&mut notes, Tone::DS4, 16);
    push_note(&mut notes, Tone::D4, 16);
    push_note(&mut notes, Tone::C4, -1);
    push_note(&mut notes, Tone::G4, -4);
    push_note(&mut notes, Tone::C4, -4);
    push_note(&mut notes, Tone::DS4, 16);
    push_note(&mut notes, Tone::F4, 16);
    push_note(&mut notes, Tone::G4, 4);
    push_note(&mut notes, Tone::C4, 4);
    push_note(&mut notes, Tone::DS4, 16);
    push_note(&mut notes, Tone::F4, 16);
    push_note(&mut notes, Tone::D4, -2);
    push_note(&mut notes, Tone::F4, -4);
    push_note(&mut notes, Tone::AS3, -4);
    push_note(&mut notes, Tone::D4, -8);
    push_note(&mut notes, Tone::DS4, -8);
    push_note(&mut notes, Tone::D4, -8);
    push_note(&mut notes, Tone::AS3, -8);
    push_note(&mut notes, Tone::C4, -1);
    push_note(&mut notes, Tone::C5, -2);
    push_note(&mut notes, Tone::AS4, -2);
    push_note(&mut notes, Tone::C4, -2);
    push_note(&mut notes, Tone::G4, -2);
    push_note(&mut notes, Tone::DS4, -2);
    push_note(&mut notes, Tone::DS4, -4);
    push_note(&mut notes, Tone::F4, -4);
    push_note(&mut notes, Tone::G4, -1);
    push_note(&mut notes, Tone::C5, -2);
    push_note(&mut notes, Tone::AS4, -2);
    push_note(&mut notes, Tone::C4, -2);
    push_note(&mut notes, Tone::G4, -2);
    push_note(&mut notes, Tone::DS4, -2);
    push_note(&mut notes, Tone::DS4, -4);
    push_note(&mut notes, Tone::D4, -4);
    push_note(&mut notes, Tone::C5, 8);
    push_note(&mut notes, Tone::G4, 8);
    push_note(&mut notes, Tone::GS4, 16);
    push_note(&mut notes, Tone::AS4, 16);
    push_note(&mut notes, Tone::C5, 8);
    push_note(&mut notes, Tone::G4, 8);
    push_note(&mut notes, Tone::GS4, 16);
    push_note(&mut notes, Tone::AS4, 16);
    push_note(&mut notes, Tone::C5, 8);
    push_note(&mut notes, Tone::G4, 8);
    push_note(&mut notes, Tone::GS4, 16);
    push_note(&mut notes, Tone::AS4, 16);
    push_note(&mut notes, Tone::C5, 8);
    push_note(&mut notes, Tone::G4, 8);
    push_note(&mut notes, Tone::GS4, 16);
    push_note(&mut notes, Tone::AS4, 16);
    push_note(&mut notes, Tone::REST, 4);
    push_note(&mut notes, Tone::GS5, 16);
    push_note(&mut notes, Tone::AS5, 16);
    push_note(&mut notes, Tone::C6, 8);
    push_note(&mut notes, Tone::G5, 8);
    push_note(&mut notes, Tone::GS5, 16);
    push_note(&mut notes, Tone::AS5, 16);
    push_note(&mut notes, Tone::C6, 8);
    push_note(&mut notes, Tone::G5, 16);
    push_note(&mut notes, Tone::GS5, 16);
    push_note(&mut notes, Tone::AS5, 16);
    push_note(&mut notes, Tone::C6, 8);
    push_note(&mut notes, Tone::G5, 8);
    push_note(&mut notes, Tone::GS5, 16);
    push_note(&mut notes, Tone::AS5, 16);
    Melody { whole_note_delay_ms: 60000 * 4 / 85, notes }
}


} // verus!
