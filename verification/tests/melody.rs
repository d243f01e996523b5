use musicbox::melody::{
    game_of_thrones, happy_birthday, merry_christmas, super_mariobros, Melody,
};
use musicbox::tone::Tone;

#[test]
fn tone_table_frequencies() {
    assert_eq!(Tone::A4.hz(), 440);
    assert_eq!(Tone::C4.hz(), 262);
    assert_eq!(Tone::AS4.hz(), 466);
    assert_eq!(Tone::C6.hz(), 1047);
    assert_eq!(Tone::AS3.hz(), 233);
    assert_eq!(Tone::REST.hz(), 0);
}

#[test]
fn decode_plain_and_dotted_notes() {
    // Happy Birthday: whole note = 60000 * 4 / 140 = 1714 ms.
    let m = happy_birthday();
    // C4 quarter note: 1714 / 4 = 428 ms.
    assert_eq!(m.get(0), Some((Tone::C4, 428)));
    // C4 eighth note: 1714 / 8 = 214 ms.
    assert_eq!(m.get(1), Some((Tone::C4, 214)));
    // D4 dotted quarter: 3 * 1714 / (2 * 4) = 642 ms.
    assert_eq!(m.get(2), Some((Tone::D4, 642)));
    // E4 dotted half: 3 * 1714 / (2 * 2) = 1285 ms.
    assert_eq!(m.get(5), Some((Tone::E4, 1285)));
}

#[test]
fn decode_past_end_is_none() {
    let m = happy_birthday();
    assert_eq!(m.len(), 25);
    assert_eq!(m.get(25), None);
    assert_eq!(m.get(usize::MAX), None);
}

#[test]
fn decode_is_pure() {
    let m = happy_birthday();
    for pos in 0..m.len() {
        assert_eq!(m.get(pos), m.get(pos));
        assert_eq!(m.get(pos), happy_birthday().get(pos));
    }
}

#[test]
fn dotted_duration_truncates_toward_zero() {
    // 3 * 1001 = 3003, / 8 = 375 remainder 3: truncated.
    let m = Melody { whole_note_delay_ms: 1001, notes: vec![(Tone::A4, -4), (Tone::A4, 4)] };
    assert_eq!(m.get(0), Some((Tone::A4, 375)));
    assert_eq!(m.get(1), Some((Tone::A4, 250)));
}

#[test]
fn sixteenth_notes_decode() {
    // Game of Thrones: whole note = 60000 * 4 / 85 = 2823 ms.
    let m = game_of_thrones();
    // G4 eighth: 2823 / 8 = 352 ms; DS4 sixteenth: 2823 / 16 = 176 ms.
    assert_eq!(m.get(0), Some((Tone::G4, 352)));
    assert_eq!(m.get(2), Some((Tone::DS4, 176)));
}

#[test]
fn shipped_melodies_have_positive_whole_note() {
    for m in [happy_birthday(), merry_christmas(), super_mariobros(), game_of_thrones()] {
        assert!(m.whole_note_delay_ms >= 1);
        assert!(m.len() > 0);
        for pos in 0..m.len() {
            let (_, ms) = m.get(pos).unwrap();
            assert!(ms > 0);
        }
    }
}

#[test]
fn mario_rest_keeps_its_place() {
    let m = super_mariobros();
    // The opening riff: E5 E5 (rest) E5 (rest) C5 E5, whole note 1200 ms.
    assert_eq!(m.get(0), Some((Tone::E5, 150)));
    assert_eq!(m.get(2), Some((Tone::REST, 150)));
    assert_eq!(m.get(5), Some((Tone::C5, 150)));
}
