use musicbox::button::{Button, Event, State};

/// Ticks a fresh recognizer every 10 ms from 0 through `end`, pressed during
/// each `[from, to)` window, and collects the emitted events.
fn run_trace(press_windows: &[(u64, u64)], end: u64) -> Vec<Event> {
    let mut btn = Button::new();
    let mut events: Vec<Event> = Vec::new();
    let mut t: u64 = 0;
    while t <= end {
        let active = press_windows.iter().any(|&(from, to)| from <= t && t < to);
        if let Some(ev) = btn.tick(active, t) {
            events.push(ev);
        }
        t += 10;
    }
    events
}

#[test]
fn single_click() {
    // Released at 0, pressed at 20, released at 100, idle through 600.
    let events = run_trace(&[(20, 100)], 600);
    assert_eq!(events, vec![Event::Click]);
}

#[test]
fn bounce_absorbed() {
    // Pressed at 0, a 10 ms release blip at 20, pressed again at 30,
    // released at 100: the blip is shorter than the debounce window and
    // rolls back, so a single click comes out.
    let events = run_trace(&[(0, 20), (30, 100)], 600);
    assert_eq!(events, vec![Event::Click]);
}

#[test]
fn double_click() {
    let events = run_trace(&[(0, 100), (200, 300)], 900);
    assert_eq!(events, vec![Event::DoubleClick]);
}

#[test]
fn triple_click() {
    let events = run_trace(&[(0, 80), (160, 240), (320, 400)], 1100);
    assert_eq!(events, vec![Event::MultiClick(3)]);
}

#[test]
fn long_press() {
    // Held from 0 until 900, then idle through 1000: one LongPressStart,
    // at least one LongPressDuring, one LongPressStop.
    let events = run_trace(&[(0, 900)], 1000);
    assert!(events.len() >= 3);
    assert_eq!(events[0], Event::LongPressStart);
    assert_eq!(events[events.len() - 1], Event::LongPressStop);
    let during = &events[1..events.len() - 1];
    assert!(during.len() >= 1);
    assert!(during.iter().all(|&e| e == Event::LongPressDuring));
}

#[test]
fn long_press_balances_over_trace() {
    // Two complete long presses with a click in between: starts == stops.
    let events = run_trace(&[(0, 900), (1200, 1300), (2000, 3000)], 3300);
    let starts = events.iter().filter(|&&e| e == Event::LongPressStart).count();
    let stops = events.iter().filter(|&&e| e == Event::LongPressStop).count();
    assert_eq!(starts, 2);
    assert_eq!(stops, 2);
    assert!(events.contains(&Event::Click));
}

#[test]
fn click_units_match_pairs() {
    // Four debounce-verified pairs in two separate trains: 1 + 3 units.
    let events = run_trace(&[(0, 100), (1000, 1100), (1200, 1300), (1400, 1500)], 2200);
    let units: u32 = events
        .iter()
        .map(|&e| match e {
            Event::Click => 1,
            Event::DoubleClick => 2,
            Event::MultiClick(n) => n,
            _ => 0,
        })
        .sum();
    assert_eq!(units, 4);
}

#[test]
fn no_event_before_click_window() {
    // A click is never reported before the click window has passed since
    // the release: nothing at all has been emitted by 400 ms.
    let events = run_trace(&[(0, 100)], 400);
    assert_eq!(events, vec![]);
}

#[test]
fn new_has_default_windows() {
    let btn = Button::new();
    assert_eq!(btn.debounce_ms, 50);
    assert_eq!(btn.click_ms, 400);
    assert_eq!(btn.press_ms, 800);
    assert_eq!(btn.state, State::Init);
    assert_eq!(btn.cnt_click, 0);
}

#[test]
fn setters_store_windows() {
    let mut btn = Button::new();
    btn.set_debounce_ms(20);
    btn.set_press_ms(1000);
    btn.set_click_ms(500);
    assert_eq!(btn.debounce_ms, 20);
    assert_eq!(btn.click_ms, 500);
    assert_eq!(btn.press_ms, 1000);
}

#[test]
fn reset_returns_to_init() {
    let mut btn = Button::new();
    btn.tick(true, 0);
    assert_eq!(btn.state, State::Down);
    btn.reset();
    assert_eq!(btn.state, State::Init);
    assert_eq!(btn.cnt_click, 0);
    assert_eq!(btn.start_time, 0);
}
