//! Pitch names and their equal-temperament frequencies.

use vstd::prelude::*;

verus! {

/// A named pitch spanning the octaves the compiled-in melodies use,
/// plus the distinguished silent tone `REST`.
#[derive(Clone, Copy, Debug, PartialEq, Eq, Structural)]
pub enum Tone {
    AS3,
    C4,
    CS4,
    D4,
    DS4,
    E4,
    F4,
    FS4,
    G4,
    GS4,
    A4,
    AS4,
    B4,
    C5,
    CS5,
    D5,
    DS5,
    E5,
    F5,
    FS5,
    G5,
    GS5,
    A5,
    AS5,
    B5,
    C6,
    REST,
}

impl Tone {
    /// Equal-temperament frequency in Hz, rounded to the nearest integer;
    /// the silent tone maps to 0.
    pub open spec fn spec_hz(self) -> u32 {
        match self {
            Tone::AS3 => 233,
            Tone::C4 => 262,
            Tone::CS4 => 277,
            Tone::D4 => 294,
            Tone::DS4 => 311,
            Tone::E4 => 330,
            Tone::F4 => 349,
            Tone::FS4 => 370,
            Tone::G4 => 392,
            Tone::GS4 => 415,
            Tone::A4 => 440,
            Tone::AS4 => 466,
            Tone::B4 => 494,
            Tone::C5 => 523,
            Tone::CS5 => 554,
            Tone::D5 => 587,
            Tone::DS5 => 622,
            Tone::E5 => 659,
            Tone::F5 => 698,
            Tone::FS5 => 740,
            Tone::G5 => 784,
            Tone::GS5 => 831,
            Tone::A5 => 880,
            Tone::AS5 => 932,
            Tone::B5 => 988,
            Tone::C6 => 1047,
            Tone::REST => 0,
        }
    }

    /// Frequency in Hz used to program the PWM period; 0 for `REST`.
    pub fn hz(&self) -> (r: u32)
        ensures
            r == self.spec_hz(),
    {
        match *self {
            Tone::AS3 => 233,
            Tone::C4 => 262,
            Tone::CS4 => 277,
            Tone::D4 => 294,
            Tone::DS4 => 311,
            Tone::E4 => 330,
            Tone::F4 => 349,
            Tone::FS4 => 370,
            Tone::G4 => 392,
            Tone::GS4 => 415,
            Tone::A4 => 440,
            Tone::AS4 => 466,
            Tone::B4 => 494,
            Tone::C5 => 523,
            Tone::CS5 => 554,
            Tone::D5 => 587,
            Tone::DS5 => 622,
            Tone::E5 => 659,
            Tone::F5 => 698,
            Tone::FS5 => 740,
            Tone::G5 => 784,
            Tone::GS5 => 831,
            Tone::A5 => 880,
            Tone::AS5 => 932,
            Tone::B5 => 988,
            Tone::C6 => 1047,
            Tone::REST => 0,
        }
    }
}

} // verus!
