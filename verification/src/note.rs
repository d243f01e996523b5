//! Textual note names: keys with accidentals, note durations, and the
//! `KO:[-]D` note form (key, octave digit, colon, optional dot marker,
//! duration denominator), e.g. `C4:4` or `A♭5:-8`.

use vstd::prelude::*;
use vstd::string::{StrSliceExecFns, StringExecFns};

verus! {

/// A key name: the seven naturals plus the sharps and flats the note form
/// writes as `♯` and `♭`.
#[derive(Clone, Copy, Debug, PartialEq, Eq, Structural)]
pub enum Key {
    C,
    Cs,
    Df,
    D,
    Ds,
    Ef,
    E,
    F,
    Fs,
    Gf,
    G,
    Gs,
    Af,
    A,
    Bf,
    B,
}

/// A note duration denominator.
#[derive(Clone, Copy, Debug, PartialEq, Eq, Structural)]
pub enum Duration {
    /// Quarter note.
    Quarter,
    /// Eighth note.
    Eighth,
    /// Sixteenth note.
    Sixteenth,
}

/// A parsed note: key, octave 0-9, dotted marker, and duration.
#[derive(Clone, Copy, Debug, PartialEq, Eq, Structural)]
pub struct Note {
    /// Key name.
    pub key: Key,
    /// Octave digit, e.g. C4 is the C of the fourth octave.
    pub octave: u8,
    /// Whether the note is dotted (1.5 times its plain duration).
    pub dotted: bool,
    /// Duration denominator.
    pub duration: Duration,
}

/// Why a textual note failed to parse.
#[derive(Clone, Copy, Debug, PartialEq, Eq, Structural)]
pub enum Error {
    EmptyKey,
    InvalidKey,
    EmptyDuration,
    InvalidDuration,
    InvalidOctave,
    EmptyNote,
    MissingColon,
}

/// The key named by a character sequence, or the error telling it apart.
pub open spec fn spec_key_of(s: Seq<char>) -> Result<Key, Error> {
    if s.len() == 0 {
        Err(Error::EmptyKey)
    } else if s.len() == 1 {
        match s[0] {
            'C' => Ok(Key::C),
            'D' => Ok(Key::D),
            'E' => Ok(Key::E),
            'F' => Ok(Key::F),
            'G' => Ok(Key::G),
            'A' => Ok(Key::A),
            'B' => Ok(Key::B),
            _ => Err(Error::InvalidKey),
        }
    } else if s.len() == 2 && s[1] == '♯' {
        match s[0] {
            'C' => Ok(Key::Cs),
            'D' => Ok(Key::Ds),
            'F' => Ok(Key::Fs),
            'G' => Ok(Key::Gs),
            _ => Err(Error::InvalidKey),
        }
    } else if s.len() == 2 && s[1] == '♭' {
        match s[0] {
            'D' => Ok(Key::Df),
            'E' => Ok(Key::Ef),
            'G' => Ok(Key::Gf),
            'A' => Ok(Key::Af),
            'B' => Ok(Key::Bf),
            _ => Err(Error::InvalidKey),
        }
    } else {
        Err(Error::InvalidKey)
    }
}

/// The duration named by a character sequence: `4`, `8` or `16`.
pub open spec fn spec_duration_of(s: Seq<char>) -> Result<Duration, Error> {
    if s.len() == 0 {
        Err(Error::EmptyDuration)
    } else if s.len() == 1 && s[0] == '4' {
        Ok(Duration::Quarter)
    } else if s.len() == 1 && s[0] == '8' {
        Ok(Duration::Eighth)
    } else if s.len() == 2 && s[0] == '1' && s[1] == '6' {
        Ok(Duration::Sixteenth)
    } else {
        Err(Error::InvalidDuration)
    }
}

/// The value of a decimal digit character, or `None`.
pub open spec fn spec_digit_val(c: char) -> Option<u8> {
    match c {
        '0' => Some(0),
        '1' => Some(1),
        '2' => Some(2),
        '3' => Some(3),
        '4' => Some(4),
        '5' => Some(5),
        '6' => Some(6),
        '7' => Some(7),
        '8' => Some(8),
        '9' => Some(9),
        _ => None,
    }
}

/// Index of the first occurrence of `c` in `s`, or `None`.
pub open spec fn spec_find_char(s: Seq<char>, c: char) -> Option<int>
    decreases s.len(),
{
    if s.len() == 0 {
        None
    } else if s[0] == c {
        Some(0)
    } else {
        match spec_find_char(s.drop_first(), c) {
            Some(i) => Some(i + 1),
            None => None,
        }
    }
}

/// `spec_find_char` finds exactly the first occurrence: a hit is in range,
/// holds `c`, and nothing before it does; a miss means no position holds `c`.
pub proof fn lemma_find_char_first(s: Seq<char>, c: char)
    ensures
        match spec_find_char(s, c) {
            Some(i) => 0 <= i < s.len() && s[i] == c && forall|j: int| 0 <= j < i ==> s[j] != c,
            None => forall|j: int| 0 <= j < s.len() ==> s[j] != c,
        },
    decreases s.len(),
{
    if s.len() > 0 && s[0] != c {
        let d = s.drop_first();
        lemma_find_char_first(d, c);
        match spec_find_char(d, c) {
            Some(i) => {
                assert(s[i + 1] == d[i]);
                assert forall|j: int| 0 <= j < i + 1 implies s[j] != c by {
                    if j > 0 {
                        assert(s[j] == d[j - 1]);
                    }
                }
            },
            None => {
                assert forall|j: int| 0 <= j < s.len() implies s[j] != c by {
                    if j > 0 {
                        assert(s[j] == d[j - 1]);
                    }
                }
            },
        }
    }
}

/// The note denoted by a character sequence under the `KO:[-]D` form, or the
/// error naming the first part that fails: an empty text, a missing colon, a
/// bad or empty key, a non-digit octave, or a bad or empty duration.
pub open spec fn spec_note_of(s: Seq<char>) -> Result<Note, Error> {
    if s.len() == 0 {
        Err(Error::EmptyNote)
    } else {
        match spec_find_char(s, ':') {
            None => Err(Error::MissingColon),
            Some(colon) => {
                let prefix = s.subrange(0, colon);
                let suffix = s.subrange(colon + 1, s.len() as int);
                if prefix.len() == 0 {
                    Err(Error::EmptyKey)
                } else {
                    match spec_key_of(prefix.subrange(0, prefix.len() - 1)) {
                        Err(e) => Err(e),
                        Ok(key) => match spec_digit_val(prefix[prefix.len() - 1]) {
                            None => Err(Error::InvalidOctave),
                            Some(octave) => {
                                let dotted = suffix.len() > 0 && suffix[0] == '-';
                                let body = if dotted {
                                    suffix.drop_first()
                                } else {
                                    suffix
                                };
                                match spec_duration_of(body) {
                                    Err(e) => Err(e),
                                    Ok(duration) => Ok(
                                        Note { key, octave, dotted, duration },
                                    ),
                                }
                            },
                        },
                    }
                }
            },
        }
    }
}

impl Key {
    /// The text naming this key, as `spec_key_of` reads it back.
    pub open spec fn spec_symbol(self) -> Seq<char> {
        match self {
            Key::C => "C"@,
            Key::Cs => "C♯"@,
            Key::Df => "D♭"@,
            Key::D => "D"@,
            Key::Ds => "D♯"@,
            Key::Ef => "E♭"@,
            Key::E => "E"@,
            Key::F => "F"@,
            Key::Fs => "F♯"@,
            Key::Gf => "G♭"@,
            Key::G => "G"@,
            Key::Gs => "G♯"@,
            Key::Af => "A♭"@,
            Key::A => "A"@,
            Key::Bf => "B♭"@,
            Key::B => "B"@,
        }
    }

    /// Renders the key name.
    pub fn symbol(&self) -> (r: &'static str)
        ensures
            r@ == self.spec_symbol(),
    {
        match *self {
            Key::C => "C",
            Key::Cs => "C♯",
            Key::Df => "D♭",
            Key::D => "D",
            Key::Ds => "D♯",
            Key::Ef => "E♭",
            Key::E => "E",
            Key::F => "F",
            Key::Fs => "F♯",
            Key::Gf => "G♭",
            Key::G => "G",
            Key::Gs => "G♯",
            Key::Af => "A♭",
            Key::A => "A",
            Key::Bf => "B♭",
            Key::B => "B",
        }
    }

    /// Parses a key name; exactly the inverse of `symbol` on valid names.
    pub fn from_str(s: &str) -> (r: Result<Key, Error>)
        ensures
            r == spec_key_of(s@),
    {
        let n = s.unicode_len();
        if n == 0 {
            Err(Error::EmptyKey)
        } else if n == 1 {
            match s.get_char(0) {
                'C' => Ok(Key::C),
                'D' => Ok(Key::D),
                'E' => Ok(Key::E),
                'F' => Ok(Key::F),
                'G' => Ok(Key::G),
                'A' => Ok(Key::A),
                'B' => Ok(Key::B),
                _ => Err(Error::InvalidKey),
            }
        } else if n == 2 {
            let c0 = s.get_char(0);
            let c1 = s.get_char(1);
            if c1 == '♯' {
                match c0 {
                    'C' => Ok(Key::Cs),
                    'D' => Ok(Key::Ds),
                    'F' => Ok(Key::Fs),
                    'G' => Ok(Key::Gs),
                    _ => Err(Error::InvalidKey),
                }
            } else if c1 == '♭' {
                match c0 {
                    'D' => Ok(Key::Df),
                    'E' => Ok(Key::Ef),
                    'G' => Ok(Key::Gf),
                    'A' => Ok(Key::Af),
                    'B' => Ok(Key::Bf),
                    _ => Err(Error::InvalidKey),
                }
            } else {
                Err(Error::InvalidKey)
            }
        } else {
            Err(Error::InvalidKey)
        }
    }
}

impl Duration {
    /// The text naming this duration, as `spec_duration_of` reads it back.
    pub open spec fn spec_symbol(self) -> Seq<char> {
        match self {
            Duration::Quarter => "4"@,
            Duration::Eighth => "8"@,
            Duration::Sixteenth => "16"@,
        }
    }

    /// Renders the duration denominator.
    pub fn symbol(&self) -> (r: &'static str)
        ensures
            r@ == self.spec_symbol(),
    {
        match *self {
            Duration::Quarter => "4",
            Duration::Eighth => "8",
            Duration::Sixteenth => "16",
        }
    }

    /// Parses a duration denominator.
    pub fn from_str(s: &str) -> (r: Result<Duration, Error>)
        ensures
            r == spec_duration_of(s@),
    {
        let n = s.unicode_len();
        if n == 0 {
            Err(Error::EmptyDuration)
        } else if n == 1 {
            match s.get_char(0) {
                '4' => Ok(Duration::Quarter),
                '8' => Ok(Duration::Eighth),
                _ => Err(Error::InvalidDuration),
            }
        } else if n == 2 && s.get_char(0) == '1' && s.get_char(1) == '6' {
            Ok(Duration::Sixteenth)
        } else {
            Err(Error::InvalidDuration)
        }
    }
}

/// The text of a single octave digit.
pub open spec fn spec_octave_text(octave: u8) -> Seq<char>
    recommends
        octave <= 9,
{
    match octave {
        0 => "0"@,
        1 => "1"@,
        2 => "2"@,
        3 => "3"@,
        4 => "4"@,
        5 => "5"@,
        6 => "6"@,
        7 => "7"@,
        8 => "8"@,
        _ => "9"@,
    }
}

impl Note {
    /// The text this note is written as: key, octave digit, colon, `-` when
    /// dotted, duration.
    pub open spec fn spec_text(self) -> Seq<char> {
        self.key.spec_symbol() + spec_octave_text(self.octave) + (if self.dotted {
            ":-"@
        } else {
            ":"@
        }) + self.duration.spec_symbol()
    }

    /// Renders the note in its text form, e.g. `C4:4` or `A♭5:-8`.
    pub fn to_text(&self) -> (r: String)
        requires
            self.octave <= 9,
        ensures
            r@ == self.spec_text(),
    {
        let mut text = String::from_str(self.key.symbol());
        text.append(
            match self.octave {
                0 => "0",
                1 => "1",
                2 => "2",
                3 => "3",
                4 => "4",
                5 => "5",
                6 => "6",
                7 => "7",
                8 => "8",
                _ => "9",
            },
        );
        text.append(
            if self.dotted {
                ":-"
            } else {
                ":"
            },
        );
        text.append(self.duration.symbol());
        text
    }

    /// Parses a note written as key, octave digit, colon, optional `-` dot
    /// marker, and duration, e.g. `C4:4` or `A♭5:-8`.
    pub fn from_str(s: &str) -> (r: Result<Note, Error>)
        ensures
            r == spec_note_of(s@),
    {
        let n = s.unicode_len();
        if n == 0 {
            return Err(Error::EmptyNote);
        }
        let mut colon: usize = 0;
        while colon < n && s.get_char(colon) != ':'
            invariant
                0 <= colon <= n,
                n == s@.len(),
                forall|j: int| 0 <= j < colon ==> s@[j] != ':',
            decreases n - colon,
        {
            colon = colon + 1;
        }
        proof {
            lemma_find_char_first(s@, ':');
        }
        if colon == n {
            return Err(Error::MissingColon);
        }
        assert(spec_find_char(s@, ':') == Some(colon as int));
        if colon == 0 {
            return Err(Error::EmptyKey);
        }
        let prefix = s.substring_char(0, colon);
        let key = match Key::from_str(prefix.substring_char(0, colon - 1)) {
            Ok(key) => key,
            Err(e) => {
                return Err(e);
            },
        };
        let octave = match prefix.get_char(colon - 1) {
            '0' => 0u8,
            '1' => 1u8,
            '2' => 2u8,
            '3' => 3u8,
            '4' => 4u8,
            '5' => 5u8,
            '6' => 6u8,
            '7' => 7u8,
            '8' => 8u8,
            '9' => 9u8,
            _ => {
                return Err(Error::InvalidOctave);
            },
        };
        let suffix = s.substring_char(colon + 1, n);
        let suffix_len = n - colon - 1;
        let dotted = suffix_len > 0 && suffix.get_char(0) == '-';
        let body = if dotted {
            suffix.substring_char(1, suffix_len)
        } else {
            suffix
        };
        match Duration::from_str(body) {
            Ok(duration) => Ok(Note { key, octave, dotted, duration }),
            Err(e) => Err(e),
        }
    }
}

impl Error {
    /// The text describing this error.
    pub open spec fn spec_description(self) -> Seq<char> {
        match self {
            Error::EmptyKey => "cannot parse key from empty string"@,
            Error::InvalidKey => "invalid key found in string"@,
            Error::EmptyDuration => "cannot parse duration from empty string"@,
            Error::InvalidDuration => "invalid duration found in string"@,
            Error::InvalidOctave => "invalid octave found in string"@,
            Error::EmptyNote => "cannot parse note from empty string"@,
            Error::MissingColon => "missing ':' symbol found in string"@,
        }
    }

    /// Describes the error in words.
    pub fn __description(&self) -> (r: &str)
        ensures
            r@ == self.spec_description(),
    {
        match &self {
            Error::EmptyKey => "cannot parse key from empty string",
            Error::InvalidKey => "invalid key found in string",
            Error::EmptyDuration => "cannot parse duration from empty string",
            Error::InvalidDuration => "invalid duration found in string",
            Error::InvalidOctave => "invalid octave found in string",
            Error::EmptyNote => "cannot parse note from empty string",
            Error::MissingColon => "missing ':' symbol found in string",
        }
    }
}

} // verus!
