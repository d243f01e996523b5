use musicbox::buzzer::PlayerBuzzer;
use musicbox::music::Music;
use musicbox::timer::PlayerTimer;
use musicbox::tone::Tone;

#[test]
fn music_stores_tempo_and_text() {
    let text = "C4:4, C4:8, D4:-4";
    let music = Music::new(140, text);
    assert_eq!(music.tempo, 140);
    assert_eq!(music.melody, text);
}

#[test]
fn buzzer_volume_maps_between_floor_and_ceiling() {
    let mut b = PlayerBuzzer::new(1000);
    assert!(!b.enabled);
    b.tone(Tone::A4, 0);
    assert!(b.enabled);
    assert_eq!(b.period_hz, 440);
    assert_eq!(b.duty, 200);
    b.tone(Tone::A4, 100);
    assert_eq!(b.duty, 500);
    b.tone(Tone::A4, 50);
    assert_eq!(b.duty, 350);
    b.stop();
    assert!(!b.enabled);
}

#[test]
fn buzzer_rest_leaves_output_disabled() {
    let mut b = PlayerBuzzer::new(1000);
    b.tone(Tone::C5, 80);
    assert!(b.enabled);
    b.tone(Tone::REST, 80);
    assert!(!b.enabled);
    // The period keeps its last programmed value; only the enable changes.
    assert_eq!(b.period_hz, 523);
}

#[test]
fn stopped_timer_holds_still() {
    let mut t = PlayerTimer::new();
    t.set_play_duration(500);
    assert_eq!(t.cc_play, 500);
    t.elapse(1000);
    assert_eq!(t.now(), 0);
    assert!(!t.fired_play);
    t.start();
    t.elapse(499);
    assert!(!t.fired_play);
    t.elapse(1);
    assert!(t.fired_play);
    t.stop();
    assert_eq!(t.now(), 0);
    // A latched event survives the stop until a check consumes it.
    assert!(t.fired_play);
    assert!(t.check_play());
    assert!(!t.check_play());
}
