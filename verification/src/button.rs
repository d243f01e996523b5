//! Debounced button event recognizer: a per-button finite state machine that
//! turns a stream of sampled pin levels into semantic click and long-press
//! events.
//!
//! Each call to [`Button::tick`] hands the recognizer one sample: whether the
//! button reads as pressed, and the monotonic time of the sample in
//! milliseconds. Transitions shorter than the debounce window roll back to
//! the previous state, so bounces are absorbed without emitting events.

use vstd::prelude::*;

verus! {

/// A semantic button event.
#[derive(Clone, Copy, Debug, PartialEq, Eq, Structural)]
pub enum Event {
    Click,
    DoubleClick,
    MultiClick(u32),
    LongPressStart,
    LongPressDuring,
    LongPressStop,
}

/// Recognizer phase.
#[derive(Clone, Copy, Debug, PartialEq, Eq, Structural)]
pub enum State {
    /// Rest / released.
    Init,
    /// Pressed; debounce and long-press timers running.
    Down,
    /// Just released; debounce-verifying this release.
    Up,
    /// Release confirmed; waiting for a follow-up press in the click window.
    Count,
    /// Long press latched; emitting `LongPressDuring` each tick.
    Press,
    /// Long press just released; debounce-verifying.
    PressEnd,
}

/// Per-button recognizer state. All times are milliseconds on the caller's
/// monotonic clock; `start_time` is the instant the current phase began.
#[derive(Clone, Copy, Debug, PartialEq, Eq, Structural)]
pub struct Button {
    pub state: State,
    pub last_state: State,
    pub cnt_click: u32,
    pub start_time: u64,
    pub debounce_ms: u64,
    pub click_ms: u64,
    pub press_ms: u64,
}

/// The click-train event for a confirmed train of `cnt` presses.
pub open spec fn spec_click_event(cnt: u32) -> Event {
    if cnt == 1 {
        Event::Click
    } else if cnt == 2 {
        Event::DoubleClick
    } else {
        Event::MultiClick(cnt)
    }
}

/// The recognizer after a reset: back to `Init` with the click counter and
/// phase start cleared.
pub open spec fn spec_reset(b: Button) -> Button {
    Button { state: State::Init, last_state: State::Init, cnt_click: 0, start_time: 0, ..b }
}

/// One sample step of the recognizer: the successor state and the event it
/// emits, if any, for a sample (`active`, `now`).
pub open spec fn spec_tick(b: Button, active: bool, now: u64) -> (Button, Option<Event>) {
    let dt = now - b.start_time;
    match b.state {
        State::Init => if active {
            (
                Button {
                    state: State::Down,
                    last_state: State::Init,
                    cnt_click: 0,
                    start_time: now,
                    ..b
                },
                None,
            )
        } else {
            (b, None)
        },
        State::Down => if !active {
            if dt < b.debounce_ms {
                (Button { state: b.last_state, ..b }, None)
            } else {
                (Button { state: State::Up, last_state: State::Down, start_time: now, ..b }, None)
            }
        } else if dt > b.press_ms {
            (
                Button { state: State::Press, last_state: State::Down, ..b },
                Some(Event::LongPressStart),
            )
        } else {
            (b, None)
        },
        State::Up => if active && dt < b.debounce_ms {
            (Button { state: b.last_state, ..b }, None)
        } else if dt >= b.debounce_ms {
            (
                Button {
                    state: State::Count,
                    last_state: State::Up,
                    cnt_click: (b.cnt_click + 1) as u32,
                    ..b
                },
                None,
            )
        } else {
            (b, None)
        },
        State::Count => if active {
            (Button { state: State::Down, last_state: State::Count, start_time: now, ..b }, None)
        } else if dt > b.click_ms {
            (spec_reset(b), Some(spec_click_event(b.cnt_click)))
        } else {
            (b, None)
        },
        State::Press => if !active {
            (
                Button { state: State::PressEnd, last_state: State::Press, start_time: now, ..b },
                None,
            )
        } else {
            (b, Some(Event::LongPressDuring))
        },
        State::PressEnd => if active && dt < b.debounce_ms {
            (Button { state: b.last_state, ..b }, None)
        } else if dt > b.debounce_ms {
            (spec_reset(b), Some(Event::LongPressStop))
        } else {
            (b, None)
        },
    }
}

impl Button {
    /// Configured windows are ordered: debounce below click below press.
    pub open spec fn wf(self) -> bool {
        self.debounce_ms < self.click_ms < self.press_ms
    }

    /// A fresh recognizer: `Init`, no clicks counted, and the default
    /// windows of 50 ms debounce, 400 ms click, 800 ms press.
    pub fn new() -> (b: Button)
        ensures
            b == (Button {
                state: State::Init,
                last_state: State::Init,
                cnt_click: 0,
                start_time: 0,
                debounce_ms: 50,
                click_ms: 400,
                press_ms: 800,
            }),
            b.wf(),
    {
        Button {
            state: State::Init,
            last_state: State::Init,
            cnt_click: 0,
            start_time: 0,
            debounce_ms: 50,
            click_ms: 400,
            press_ms: 800,
        }
    }

    /// Sets the debounce window; it must stay below the click window.
    pub fn set_debounce_ms(&mut self, debounce_ms: u64)
        requires
            debounce_ms < old(self).click_ms,
        ensures
            *final(self) == (Button { debounce_ms, ..*old(self) }),
            old(self).wf() ==> final(self).wf(),
    {
        self.debounce_ms = debounce_ms;
    }

    /// Sets the click window; it must stay between the other two windows.
    pub fn set_click_ms(&mut self, click_ms: u64)
        requires
            old(self).debounce_ms < click_ms < old(self).press_ms,
        ensures
            *final(self) == (Button { click_ms, ..*old(self) }),
            final(self).wf(),
    {
        self.click_ms = click_ms;
    }

    /// Sets the press window; it must stay above the click window.
    pub fn set_press_ms(&mut self, press_ms: u64)
        requires
            old(self).click_ms < press_ms,
        ensures
            *final(self) == (Button { press_ms, ..*old(self) }),
            old(self).wf() ==> final(self).wf(),
    {
        self.press_ms = press_ms;
    }

    /// Returns to `Init`, zeroing the click counter and the phase start.
    pub fn reset(&mut self)
        ensures
            *final(self) == spec_reset(*old(self)),
    {
        self.state = State::Init;
        self.last_state = State::Init;
        self.cnt_click = 0;
        self.start_time = 0;
    }

    /// Stores the current state as the rollback shadow before overwriting it,
    /// so a debounce rollback is a single-step undo.
    fn update_state(&mut self, state: State)
        ensures
            *final(self) == (Button { state, last_state: old(self).state, ..*old(self) }),
    {
        self.last_state = self.state;
        self.state = state;
    }

    /// Feeds one sample to the recognizer: `active` is the raw sampled
    /// pressed level, `now` the sample instant in milliseconds. Returns the
    /// event recognized at this step, if any. The caller's clock is
    /// monotonic, so `now` never precedes the latched phase start.
    pub fn tick(&mut self, active: bool, now: u64) -> (ev: Option<Event>)
        requires
            old(self).start_time <= now,
            old(self).cnt_click < u32::MAX,
        ensures
            *final(self) == spec_tick(*old(self), active, now).0,
            ev == spec_tick(*old(self), active, now).1,
    {
        let wait_time = now - self.start_time;
        match self.state {
            State::Init => {
                if active {
                    self.update_state(State::Down);
                    self.cnt_click = 0;
                    self.start_time = now;
                }
                None
            },
            State::Down => {
                if !active {
                    if wait_time < self.debounce_ms {
                        self.state = self.last_state;
                    } else {
                        self.update_state(State::Up);
                        self.start_time = now;
                    }
                    None
                } else if wait_time > self.press_ms {
                    self.update_state(State::Press);
                    Some(Event::LongPressStart)
                } else {
                    None
                }
            },
            State::Up => {
                if active && wait_time < self.debounce_ms {
                    self.state = self.last_state;
                    None
                } else if wait_time >= self.debounce_ms {
                    self.cnt_click = self.cnt_click + 1;
                    self.update_state(State::Count);
                    None
                } else {
                    None
                }
            },
            State::Count => {
                if active {
                    self.update_state(State::Down);
                    self.start_time = now;
                    None
                } else if wait_time > self.click_ms {
                    let cnt = self.cnt_click;
                    self.reset();
                    Some(
                        if cnt == 1 {
                            Event::Click
                        } else if cnt == 2 {
                            Event::DoubleClick
                        } else {
                            Event::MultiClick(cnt)
                        },
                    )
                } else {
                    None
                }
            },
            State::Press => {
                if !active {
                    self.update_state(State::PressEnd);
                    self.start_time = now;
                    None
                } else {
                    Some(Event::LongPressDuring)
                }
            },
            State::PressEnd => {
                if active && wait_time < self.debounce_ms {
                    self.state = self.last_state;
                    None
                } else if wait_time > self.debounce_ms {
                    self.reset();
                    Some(Event::LongPressStop)
                } else {
                    None
                }
            },
        }
    }
}

/// 1 while a long press cycle is open (state `Press` or `PressEnd`), else 0.
pub open spec fn press_open(b: Button) -> int {
    if b.state == State::Press || b.state == State::PressEnd {
        1
    } else {
        0
    }
}

/// The rollback shadow and click counter a recognizer run can actually
/// reach: `last_state` records the phase the current one was entered from,
/// so a debounce rollback never jumps across the long-press boundary, and
/// the click counter is clear whenever the recognizer rests in `Init`.
pub open spec fn shadow_consistent(b: Button) -> bool {
    match b.state {
        State::Init => b.cnt_click == 0,
        State::Down => (b.last_state == State::Init && b.cnt_click == 0)
            || b.last_state == State::Count || b.last_state == State::Down,
        State::Up => b.last_state == State::Down,
        State::Count => b.last_state == State::Up || b.last_state == State::Count,
        State::Press => b.last_state == State::Down || b.last_state == State::Press,
        State::PressEnd => b.last_state == State::Press,
    }
}

/// 1 if the step emitted `LongPressStart`, else 0.
pub open spec fn ev_starts(ev: Option<Event>) -> int {
    if ev == Some(Event::LongPressStart) {
        1
    } else {
        0
    }
}

/// 1 if the step emitted `LongPressStop`, else 0.
pub open spec fn ev_stops(ev: Option<Event>) -> int {
    if ev == Some(Event::LongPressStop) {
        1
    } else {
        0
    }
}

/// Whether `ev` reports a confirmed click train.
pub open spec fn is_click_event(ev: Event) -> bool {
    ev == Event::Click || ev == Event::DoubleClick || ev matches Event::MultiClick(_)
}

/// Click units an event accounts for: 1 per `Click`, 2 per `DoubleClick`,
/// `n` per `MultiClick(n)`.
pub open spec fn ev_click_units(ev: Option<Event>) -> int {
    match ev {
        Some(Event::Click) => 1,
        Some(Event::DoubleClick) => 2,
        Some(Event::MultiClick(n)) => n as int,
        _ => 0,
    }
}

/// 1 when this sample confirms a debounce-verified press-release pair (the
/// `Up` to `Count` transition that increments the click counter), else 0.
pub open spec fn step_pair(b: Button, active: bool, now: u64) -> int {
    if b.state == State::Up && !(active && now - b.start_time < b.debounce_ms) && now
        - b.start_time >= b.debounce_ms {
        1
    } else {
        0
    }
}

/// Pending clicks discarded when a finished long press resets the recognizer:
/// a click train interrupted by a long press is never reported.
pub open spec fn step_swallowed(b: Button, active: bool, now: u64) -> int {
    if b.state == State::PressEnd && !(active && now - b.start_time < b.debounce_ms) && now
        - b.start_time > b.debounce_ms {
        b.cnt_click as int
    } else {
        0
    }
}

/// The recognizer after feeding a whole trace of (`active`, `now`) samples.
pub open spec fn spec_run(b: Button, trace: Seq<(bool, u64)>) -> Button
    decreases trace.len(),
{
    if trace.len() == 0 {
        b
    } else {
        spec_run(spec_tick(b, trace[0].0, trace[0].1).0, trace.drop_first())
    }
}

/// Number of `LongPressStart` events emitted over a trace.
pub open spec fn trace_starts(b: Button, trace: Seq<(bool, u64)>) -> int
    decreases trace.len(),
{
    if trace.len() == 0 {
        0
    } else {
        ev_starts(spec_tick(b, trace[0].0, trace[0].1).1) + trace_starts(
            spec_tick(b, trace[0].0, trace[0].1).0,
            trace.drop_first(),
        )
    }
}

/// Number of `LongPressStop` events emitted over a trace.
pub open spec fn trace_stops(b: Button, trace: Seq<(bool, u64)>) -> int
    decreases trace.len(),
{
    if trace.len() == 0 {
        0
    } else {
        ev_stops(spec_tick(b, trace[0].0, trace[0].1).1) + trace_stops(
            spec_tick(b, trace[0].0, trace[0].1).0,
            trace.drop_first(),
        )
    }
}

/// Click units emitted over a trace: 1 per `Click`, 2 per `DoubleClick`,
/// `n` per `MultiClick(n)`.
pub open spec fn trace_click_units(b: Button, trace: Seq<(bool, u64)>) -> int
    decreases trace.len(),
{
    if trace.len() == 0 {
        0
    } else {
        ev_click_units(spec_tick(b, trace[0].0, trace[0].1).1) + trace_click_units(
            spec_tick(b, trace[0].0, trace[0].1).0,
            trace.drop_first(),
        )
    }
}

/// Debounce-verified press-release pairs completed over a trace.
pub open spec fn trace_pairs(b: Button, trace: Seq<(bool, u64)>) -> int
    decreases trace.len(),
{
    if trace.len() == 0 {
        0
    } else {
        step_pair(b, trace[0].0, trace[0].1) + trace_pairs(
            spec_tick(b, trace[0].0, trace[0].1).0,
            trace.drop_first(),
        )
    }
}

/// Pending clicks swallowed by finished long presses over a trace.
pub open spec fn trace_swallowed(b: Button, trace: Seq<(bool, u64)>) -> int
    decreases trace.len(),
{
    if trace.len() == 0 {
        0
    } else {
        step_swallowed(b, trace[0].0, trace[0].1) + trace_swallowed(
            spec_tick(b, trace[0].0, trace[0].1).0,
            trace.drop_first(),
        )
    }
}

/// One step preserves shadow consistency and opens or closes a long press
/// exactly when it emits `LongPressStart` or `LongPressStop`.
proof fn lemma_tick_press_balance(b: Button, active: bool, now: u64)
    requires
        shadow_consistent(b),
    ensures
        shadow_consistent(spec_tick(b, active, now).0),
        press_open(spec_tick(b, active, now).0) - press_open(b) == ev_starts(
            spec_tick(b, active, now).1,
        ) - ev_stops(spec_tick(b, active, now).1),
{
}

/// One step accounts for every click unit it emits and every click it counts
/// or discards, as long as the counter has room for this step.
proof fn lemma_tick_click_accounting(b: Button, active: bool, now: u64)
    requires
        shadow_consistent(b),
        b.cnt_click + step_pair(b, active, now) <= u32::MAX,
    ensures
        spec_tick(b, active, now).0.cnt_click <= b.cnt_click + step_pair(b, active, now),
        ev_click_units(spec_tick(b, active, now).1) + spec_tick(b, active, now).0.cnt_click == b.cnt_click
            + step_pair(b, active, now) - step_swallowed(b, active, now),
{
}

/// For any trace, `LongPressStart` and `LongPressStop` counts differ exactly
/// by the change in the number of open long presses between the two ends.
pub proof fn lemma_long_press_balance(b: Button, trace: Seq<(bool, u64)>)
    requires
        shadow_consistent(b),
    ensures
        shadow_consistent(spec_run(b, trace)),
        trace_starts(b, trace) + press_open(b) == trace_stops(b, trace) + press_open(
            spec_run(b, trace),
        ),
    decreases trace.len(),
{
    if trace.len() > 0 {
        lemma_tick_press_balance(b, trace[0].0, trace[0].1);
        lemma_long_press_balance(spec_tick(b, trace[0].0, trace[0].1).0, trace.drop_first());
    }
}

/// For any button trace over completed press cycles — one that begins and
/// ends outside a long press — the number of `LongPressStart` events equals
/// the number of `LongPressStop` events.
pub proof fn lemma_long_press_start_stop_equal(b: Button, trace: Seq<(bool, u64)>)
    requires
        shadow_consistent(b),
        press_open(b) == 0,
        press_open(spec_run(b, trace)) == 0,
    ensures
        trace_starts(b, trace) == trace_stops(b, trace),
{
    lemma_long_press_balance(b, trace);
}

/// Over any trace whose verified pairs stay within the click counter's
/// range, the emitted click units plus the clicks still pending equal the
/// debounce-verified pairs minus the clicks swallowed by long presses.
pub proof fn lemma_click_accounting(b: Button, trace: Seq<(bool, u64)>)
    requires
        shadow_consistent(b),
        b.cnt_click + trace_pairs(b, trace) <= u32::MAX,
    ensures
        shadow_consistent(spec_run(b, trace)),
        trace_click_units(b, trace) + spec_run(b, trace).cnt_click == b.cnt_click + trace_pairs(
            b,
            trace,
        ) - trace_swallowed(b, trace),
    decreases trace.len(),
{
    if trace.len() > 0 {
        let b1 = spec_tick(b, trace[0].0, trace[0].1).0;
        lemma_trace_pairs_nonneg(b1, trace.drop_first());
        lemma_tick_press_balance(b, trace[0].0, trace[0].1);
        lemma_tick_click_accounting(b, trace[0].0, trace[0].1);
        lemma_click_accounting(b1, trace.drop_first());
    }
}

/// Verified-pair counts are sums of 0/1 steps, so they are never negative.
proof fn lemma_trace_pairs_nonneg(b: Button, trace: Seq<(bool, u64)>)
    ensures
        trace_pairs(b, trace) >= 0,
    decreases trace.len(),
{
    if trace.len() > 0 {
        lemma_trace_pairs_nonneg(spec_tick(b, trace[0].0, trace[0].1).0, trace.drop_first());
    }
}

/// For a trace that starts from a fresh recognizer, ends back in `Init`, and
/// in which no long press swallowed a pending click train, the sum of `n`
/// over `MultiClick(n)` plus 1 per `Click` plus 2 per `DoubleClick` equals
/// the number of debounce-verified press-release pairs.
pub proof fn lemma_click_units_equal_pairs(b: Button, trace: Seq<(bool, u64)>)
    requires
        shadow_consistent(b),
        b.cnt_click == 0,
        trace_pairs(b, trace) <= u32::MAX,
        trace_swallowed(b, trace) == 0,
        spec_run(b, trace).state == State::Init,
    ensures
        trace_click_units(b, trace) == trace_pairs(b, trace),
{
    lemma_click_accounting(b, trace);
}

/// A `Click`, `DoubleClick` or `MultiClick` is emitted only from the `Count`
/// phase, and only once more than the click window has elapsed since the
/// phase start latched at the debounce-verified release.
pub proof fn lemma_click_needs_window(b: Button, active: bool, now: u64)
    requires
        spec_tick(b, active, now).1 matches Some(ev) && is_click_event(ev),
    ensures
        b.state == State::Count,
        now - b.start_time > b.click_ms,
{
}

/// The phase start a click waits on is the last release: it is latched at
/// the sample that debounce-verifies a release into `Up`, and kept unchanged
/// through `Up` and while `Count` waits out the click window.
pub proof fn lemma_start_latched_at_release(b: Button, active: bool, now: u64)
    requires
        shadow_consistent(b),
    ensures
        b.state == State::Down && spec_tick(b, active, now).0.state == State::Up ==> spec_tick(
            b,
            active,
            now,
        ).0.start_time == now,
        b.state == State::Up ==> spec_tick(b, active, now).0.start_time == b.start_time,
        b.state == State::Count && spec_tick(b, active, now).0.state == State::Count ==> spec_tick(
            b,
            active,
            now,
        ).0.start_time == b.start_time,
{
}
} // verus!
