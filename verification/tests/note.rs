use musicbox::note::{Duration, Error, Key, Note};

#[test]
fn key_symbols_round_trip() {
    let keys = [
        Key::C,
        Key::Cs,
        Key::Df,
        Key::D,
        Key::Ds,
        Key::Ef,
        Key::E,
        Key::F,
        Key::Fs,
        Key::Gf,
        Key::G,
        Key::Gs,
        Key::Af,
        Key::A,
        Key::Bf,
        Key::B,
    ];
    for key in keys {
        assert_eq!(Key::from_str(key.symbol()), Ok(key));
    }
}

#[test]
fn key_parse_errors() {
    assert_eq!(Key::from_str(""), Err(Error::EmptyKey));
    assert_eq!(Key::from_str("H"), Err(Error::InvalidKey));
    assert_eq!(Key::from_str("C#"), Err(Error::InvalidKey));
    assert_eq!(Key::from_str("A♯"), Err(Error::InvalidKey));
    assert_eq!(Key::from_str("C♯♯"), Err(Error::InvalidKey));
}

#[test]
fn duration_symbols_round_trip() {
    for d in [Duration::Quarter, Duration::Eighth, Duration::Sixteenth] {
        assert_eq!(Duration::from_str(d.symbol()), Ok(d));
    }
    assert_eq!(Duration::from_str("4"), Ok(Duration::Quarter));
    assert_eq!(Duration::from_str("8"), Ok(Duration::Eighth));
    assert_eq!(Duration::from_str("16"), Ok(Duration::Sixteenth));
}

#[test]
fn duration_parse_errors() {
    assert_eq!(Duration::from_str(""), Err(Error::EmptyDuration));
    assert_eq!(Duration::from_str("3"), Err(Error::InvalidDuration));
    assert_eq!(Duration::from_str("32"), Err(Error::InvalidDuration));
}

#[test]
fn note_parses_plain_form() {
    assert_eq!(
        Note::from_str("C4:4"),
        Ok(Note { key: Key::C, octave: 4, dotted: false, duration: Duration::Quarter })
    );
    assert_eq!(
        Note::from_str("A♭5:-8"),
        Ok(Note { key: Key::Af, octave: 5, dotted: true, duration: Duration::Eighth })
    );
    assert_eq!(
        Note::from_str("F♯0:16"),
        Ok(Note { key: Key::Fs, octave: 0, dotted: false, duration: Duration::Sixteenth })
    );
}

#[test]
fn note_parse_errors() {
    assert_eq!(Note::from_str(""), Err(Error::EmptyNote));
    assert_eq!(Note::from_str("C44"), Err(Error::MissingColon));
    assert_eq!(Note::from_str(":4"), Err(Error::EmptyKey));
    assert_eq!(Note::from_str("4:4"), Err(Error::EmptyKey));
    assert_eq!(Note::from_str("H4:4"), Err(Error::InvalidKey));
    assert_eq!(Note::from_str("Cx:4"), Err(Error::InvalidOctave));
    assert_eq!(Note::from_str("C4:"), Err(Error::EmptyDuration));
    assert_eq!(Note::from_str("C4:-"), Err(Error::EmptyDuration));
    assert_eq!(Note::from_str("C4:5"), Err(Error::InvalidDuration));
}

#[test]
fn error_descriptions() {
    assert_eq!(Error::EmptyKey.__description(), "cannot parse key from empty string");
    assert_eq!(Error::InvalidKey.__description(), "invalid key found in string");
    assert_eq!(Error::EmptyDuration.__description(), "cannot parse duration from empty string");
    assert_eq!(Error::InvalidDuration.__description(), "invalid duration found in string");
    assert_eq!(Error::InvalidOctave.__description(), "invalid octave found in string");
    assert_eq!(Error::EmptyNote.__description(), "cannot parse note from empty string");
    assert_eq!(Error::MissingColon.__description(), "missing ':' symbol found in string");
}

#[test]
fn note_text_round_trips() {
    let notes = [
        Note { key: Key::C, octave: 4, dotted: false, duration: Duration::Quarter },
        Note { key: Key::Af, octave: 5, dotted: true, duration: Duration::Eighth },
        Note { key: Key::Fs, octave: 0, dotted: false, duration: Duration::Sixteenth },
    ];
    for n in notes {
        let text = n.to_text();
        assert_eq!(Note::from_str(&text), Ok(n));
    }
    assert_eq!(
        Note { key: Key::B, octave: 9, dotted: true, duration: Duration::Sixteenth }.to_text(),
        "B9:-16"
    );
}
