use musicbox::button::Event;
use musicbox::control::{handle_btn1_event, handle_btn2_event};
use musicbox::melody::{happy_birthday, merry_christmas, Melody};
use musicbox::player::{Player, State};
use musicbox::tone::Tone;

const MAX_DUTY: u16 = 1000;

fn small_melody() -> Melody {
    Melody { whole_note_delay_ms: 800, notes: vec![(Tone::A4, 4), (Tone::REST, 4), (Tone::C5, 2)] }
}

fn player_with(n: usize) -> Player {
    let mut list = Vec::new();
    for _ in 0..n {
        list.push(small_melody());
    }
    Player::new(list, MAX_DUTY)
}

#[test]
fn new_player_is_stopped_at_full_volume() {
    let p = player_with(2);
    assert_eq!(p.state, State::Stop);
    assert_eq!(p.volume(), 100);
    assert!(!p.timer.running);
    assert!(!p.buzzer.enabled);
}

#[test]
fn volume_saturates_and_clamps() {
    let mut p = player_with(1);
    p.volume_add(10);
    assert_eq!(p.volume(), 100);
    p.volume_sub(30);
    assert_eq!(p.volume(), 70);
    p.volume_add(7);
    assert_eq!(p.volume(), 77);
    p.volume_sub(200);
    assert_eq!(p.volume(), 0);
    p.volume_add(u32::MAX);
    assert_eq!(p.volume(), 100);
    p.volume_sub(u32::MAX);
    assert_eq!(p.volume(), 0);
}

#[test]
fn volume_round_trip_without_clamp() {
    let mut p = player_with(1);
    p.volume_sub(50);
    assert_eq!(p.volume(), 50);
    p.volume_add(30);
    p.volume_sub(30);
    assert_eq!(p.volume(), 50);
}

#[test]
fn next_wraps_over_playlist_length() {
    let mut p = player_with(3);
    p.play();
    assert_eq!(p.state, State::Play { pos: 0, progress: 0 });
    for _ in 0..3 {
        p.next();
    }
    assert_eq!(p.state, State::Play { pos: 0, progress: 0 });
    p.next();
    assert_eq!(p.state, State::Play { pos: 1, progress: 0 });
    p.prev();
    assert_eq!(p.state, State::Play { pos: 0, progress: 0 });
    p.prev();
    assert_eq!(p.state, State::Play { pos: 2, progress: 0 });
}

#[test]
fn navigation_on_empty_playlist_is_noop() {
    let mut p = player_with(0);
    p.next();
    assert_eq!(p.state, State::Stop);
    p.prev();
    assert_eq!(p.state, State::Stop);
    p.play();
    p.handle_play_event();
    assert_eq!(p.state, State::Play { pos: 0, progress: 0 });
    assert!(!p.buzzer.enabled);
}

#[test]
fn pause_play_resumes_saved_position() {
    let mut p = player_with(2);
    p.next();
    p.state = State::Play { pos: 1, progress: 7 };
    p.pause();
    assert_eq!(p.state, State::Pause { pos: 1, progress: 7 });
    assert!(!p.timer.running);
    assert!(!p.buzzer.enabled);
    p.play();
    assert_eq!(p.state, State::Play { pos: 1, progress: 7 });
    assert!(p.timer.running);
}

#[test]
fn stop_play_starts_over() {
    let mut p = player_with(2);
    p.next();
    p.state = State::Play { pos: 1, progress: 7 };
    p.stop();
    assert_eq!(p.state, State::Stop);
    p.play();
    assert_eq!(p.state, State::Play { pos: 0, progress: 0 });
}

#[test]
fn check_consumes_compare_event_once() {
    let mut p = player_with(1);
    p.play();
    p.timer.elapse(2_000_000);
    assert!(p.timer.fired_play);
    let first = p.timer.check_play();
    let second = p.timer.check_play();
    assert!(first);
    assert!(!second);
    let next_first = p.timer.check_next();
    let next_second = p.timer.check_next();
    assert!(!next_first);
    assert!(!next_second);
}

#[test]
fn spurious_dispatch_changes_nothing() {
    let mut p = player_with(1);
    p.play();
    let state_before = p.state;
    p.handle_play_event();
    assert_eq!(p.state, state_before);
    assert!(!p.buzzer.enabled);
    assert_eq!(p.timer.cc_play, 1_000_000);
}

#[test]
fn scheduler_keys_notes_with_gap() {
    let mut p = player_with(1);
    p.play();
    // Intro delay: the first note sounds one second in.
    p.timer.elapse(1_000_000);
    p.handle_play_event();
    assert!(p.buzzer.enabled);
    assert_eq!(p.buzzer.period_hz, 440);
    assert_eq!(p.buzzer.duty, 500);
    // 800 ms whole note / 4 = 200 ms note: off at 90%, next at 100%.
    assert_eq!(p.timer.cc_play, 1_000_000 + 200_000);
    assert_eq!(p.timer.cc_next, 1_000_000 + 180_000);
    assert_eq!(p.state, State::Play { pos: 0, progress: 0 });
    p.timer.elapse(180_000);
    p.handle_play_event();
    assert!(!p.buzzer.enabled);
    assert_eq!(p.state, State::Play { pos: 0, progress: 1 });
    p.timer.elapse(20_000);
    p.handle_play_event();
    // A REST keeps tempo but leaves the buzzer off.
    assert!(!p.buzzer.enabled);
    assert_eq!(p.timer.cc_play, 1_400_000);
    assert_eq!(p.timer.cc_next, 1_380_000);
}

#[test]
fn end_of_melody_restarts_after_intro_delay() {
    let melody = happy_birthday();
    let len = melody.len();
    let first = melody.get(0).unwrap();
    let mut p = Player::new(vec![happy_birthday()], MAX_DUTY);
    p.play();
    assert_eq!(p.state, State::Play { pos: 0, progress: 0 });
    // Walk the whole melody: onset, then note-off, note by note.
    p.timer.elapse(1_000_000);
    for i in 0..len {
        p.handle_play_event();
        let (tone, delay_ms) = melody.get(i).unwrap();
        assert_eq!(p.state, State::Play { pos: 0, progress: i });
        assert_eq!(p.buzzer.enabled, tone != Tone::REST);
        if tone != Tone::REST {
            assert_eq!(p.buzzer.period_hz, tone.hz());
        }
        let off_at = u64::from(delay_ms) * 900;
        let onset = u64::from(delay_ms) * 1000;
        p.timer.elapse(off_at);
        p.handle_play_event();
        assert!(!p.buzzer.enabled);
        assert_eq!(p.state, State::Play { pos: 0, progress: i + 1 });
        p.timer.elapse(onset - off_at);
    }
    // Past the last note the play event restarts the same melody through the
    // intro-delay entry: progress back to 0, play channel armed 1 s ahead.
    p.handle_play_event();
    assert_eq!(p.state, State::Play { pos: 0, progress: 0 });
    assert_eq!(p.timer.now(), 0);
    assert_eq!(p.timer.cc_play, 1_000_000);
    assert!(!p.buzzer.enabled);
    // The first note sounds exactly once more, one second later.
    p.timer.elapse(999_999);
    p.handle_play_event();
    assert!(!p.buzzer.enabled);
    p.timer.elapse(1);
    p.handle_play_event();
    assert!(p.buzzer.enabled);
    assert_eq!(p.buzzer.period_hz, first.0.hz());
    assert_eq!(p.state, State::Play { pos: 0, progress: 0 });
}

#[test]
fn set_list_stops_playback() {
    let mut p = Player::new(vec![happy_birthday()], MAX_DUTY);
    p.play();
    p.set_list(vec![happy_birthday(), merry_christmas()]);
    assert_eq!(p.state, State::Stop);
    assert!(!p.timer.running);
    assert!(!p.buzzer.enabled);
    assert_eq!(p.list.len(), 2);
}

#[test]
fn btn1_maps_events_to_volume_down_and_prev() {
    let mut p = player_with(3);
    handle_btn1_event(&mut p, Event::Click);
    assert_eq!(p.volume(), 90);
    handle_btn1_event(&mut p, Event::LongPressDuring);
    assert_eq!(p.volume(), 89);
    handle_btn1_event(&mut p, Event::DoubleClick);
    assert_eq!(p.state, State::Play { pos: 2, progress: 0 });
    handle_btn1_event(&mut p, Event::MultiClick(3));
    assert_eq!(p.state, State::Play { pos: 2, progress: 0 });
    assert_eq!(p.volume(), 89);
}

#[test]
fn btn2_maps_events_to_volume_up_and_next() {
    let mut p = player_with(3);
    p.volume_sub(50);
    handle_btn2_event(&mut p, Event::Click);
    assert_eq!(p.volume(), 60);
    handle_btn2_event(&mut p, Event::LongPressStop);
    assert_eq!(p.volume(), 61);
    handle_btn2_event(&mut p, Event::DoubleClick);
    assert_eq!(p.state, State::Play { pos: 1, progress: 0 });
}

#[test]
fn play_wins_when_both_events_latch() {
    let mut p = player_with(1);
    p.play();
    // Both compare events latched in the same window (overlapped interrupts).
    p.timer.fired_play = true;
    p.timer.fired_next = true;
    p.handle_play_event();
    // Play acted: the first note sounds and progress is unchanged; the
    // note-off event is still pending.
    assert!(p.buzzer.enabled);
    assert_eq!(p.state, State::Play { pos: 0, progress: 0 });
    assert!(!p.timer.fired_play);
    assert!(p.timer.fired_next);
    // The following dispatch consumes the pending note-off: the note is
    // switched off and progress advances.
    p.handle_play_event();
    assert!(!p.buzzer.enabled);
    assert_eq!(p.state, State::Play { pos: 0, progress: 1 });
    assert!(!p.timer.fired_next);
}
