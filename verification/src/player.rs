//! The melody player: playlist navigation, a clamped volume, and the
//! per-note scheduler driven by the tone timer's two compare channels.
//!
//! Every public operation is pinned to a spec-level transition function, so
//! that how the player moves between `Stop`, `Play` and `Pause`, how it arms
//! the compare channels, and how it drives the buzzer are all stated — and
//! proved — exactly.

use vstd::prelude::*;

use vstd::arithmetic::div_mod::{lemma_mod_add_multiples_vanish, lemma_small_mod};

use crate::buzzer::{spec_tone, PlayerBuzzer};
use crate::melody::Melody;
use crate::timer::PlayerTimer;

verus! {

/// Microseconds of intro delay armed when a melody (re)starts: one second,
/// so the first note is never clipped.
pub const DEFAULT_PLAY_DURATION_US: u64 = 1000000;

/// Playback state: idle, sounding, or a resumable snapshot.
#[derive(Clone, Copy, Debug, PartialEq, Eq, Structural)]
pub enum State {
    /// Playing melody `pos`, currently on note `progress`.
    Play { pos: usize, progress: usize },
    /// A resumable snapshot of a paused playback.
    Pause { pos: usize, progress: usize },
    /// Idle; the buzzer is off.
    Stop,
}

/// The player: the active playlist, the playback state, the volume scalar,
/// and its two peripherals.
pub struct Player {
    pub list: Vec<Melody>,
    pub state: State,
    pub volume: u32,
    pub timer: PlayerTimer,
    pub buzzer: PlayerBuzzer,
}

/// Volume after adding `k`: saturating, clamped to 100.
pub open spec fn spec_volume_add(v: u32, k: u32) -> u32 {
    if v + k < 100 {
        (v + k) as u32
    } else {
        100u32
    }
}

/// Volume after subtracting `k`: saturating at 0.
pub open spec fn spec_volume_sub(v: u32, k: u32) -> u32 {
    if v >= k {
        (v - k) as u32
    } else {
        0u32
    }
}

/// The playlist position a navigation step starts from: the current one
/// while playing or paused, the first otherwise.
pub open spec fn spec_current_pos(s: State) -> int {
    match s {
        State::Play { pos, .. } => pos as int,
        State::Pause { pos, .. } => pos as int,
        State::Stop => 0,
    }
}

/// The next position, wrapping from the last back to the first.
pub open spec fn spec_wrap_next(pos: int, len: int) -> int {
    if pos >= len - 1 {
        0
    } else {
        pos + 1
    }
}

/// The previous position, wrapping from the first back to the last.
pub open spec fn spec_wrap_prev(pos: int, len: int) -> int {
    if pos == 0 {
        len - 1
    } else {
        pos - 1
    }
}

/// The player after `stop`: idle, the timer stopped and cleared, the buzzer
/// off. Latched compare events stay until a check consumes them.
pub open spec fn spec_stop(p: Player) -> Player {
    Player {
        state: State::Stop,
        timer: PlayerTimer { running: false, now_us: 0, ..p.timer },
        buzzer: PlayerBuzzer { enabled: false, ..p.buzzer },
        ..p
    }
}

/// The player after entering playback of melody `pos` from the start: the
/// common entry that stops everything, then arms the play channel one intro
/// delay ahead of the cleared counter.
pub open spec fn spec_start_play(p: Player, pos: usize) -> Player {
    Player {
        state: State::Play { pos, progress: 0 },
        timer: PlayerTimer {
            running: true,
            now_us: 0,
            cc_play: DEFAULT_PLAY_DURATION_US,
            ..p.timer
        },
        buzzer: PlayerBuzzer { enabled: false, ..p.buzzer },
        ..p
    }
}

/// The player after `play`: from `Stop` playback begins at the first melody
/// and note; from `Pause` it resumes the saved position; during `Play` the
/// call does nothing. On a transition the timer is started and the play
/// channel armed one intro delay ahead.
pub open spec fn spec_play(p: Player) -> Player {
    match p.state {
        State::Play { .. } => p,
        State::Stop => Player {
            state: State::Play { pos: 0, progress: 0 },
            timer: PlayerTimer {
                running: true,
                cc_play: (p.timer.now_us + DEFAULT_PLAY_DURATION_US) as u64,
                ..p.timer
            },
            ..p
        },
        State::Pause { pos, progress } => Player {
            state: State::Play { pos, progress },
            timer: PlayerTimer {
                running: true,
                cc_play: (p.timer.now_us + DEFAULT_PLAY_DURATION_US) as u64,
                ..p.timer
            },
            ..p
        },
    }
}

/// The player after `pause`: a playing state becomes its resumable snapshot
/// with the timer stopped and the buzzer off; other states are untouched.
pub open spec fn spec_pause(p: Player) -> Player {
    match p.state {
        State::Play { pos, progress } => Player {
            state: State::Pause { pos, progress },
            timer: PlayerTimer { running: false, now_us: 0, ..p.timer },
            buzzer: PlayerBuzzer { enabled: false, ..p.buzzer },
            ..p
        },
        _ => p,
    }
}

/// The player after `next`: playback of the following melody from its start,
/// wrapping past the end; a no-op on an empty playlist.
pub open spec fn spec_next(p: Player) -> Player {
    if p.list@.len() == 0 {
        p
    } else {
        spec_start_play(p, spec_wrap_next(spec_current_pos(p.state), p.list@.len() as int) as usize)
    }
}

/// The player after `prev`: playback of the preceding melody from its start,
/// wrapping past the beginning; a no-op on an empty playlist.
pub open spec fn spec_prev(p: Player) -> Player {
    if p.list@.len() == 0 {
        p
    } else {
        spec_start_play(p, spec_wrap_prev(spec_current_pos(p.state), p.list@.len() as int) as usize)
    }
}

/// The player after one scheduler dispatch. Outside `Play` nothing happens.
/// In `Play` the play event is checked first and takes precedence: when it
/// fired, only it is consumed, and a note-off event latched in the same
/// window stays pending for the following dispatch. With the melody in
/// range, a play event keys the current note and arms the next onset at 100%
/// and the note-off at 90% of its duration — or, past the last note,
/// restarts the same melody through the intro-delay entry. When the play
/// event did not fire, the next event is consumed instead; if it had fired,
/// the player advances to the following note and switches the buzzer off,
/// carving the 10% inter-note gap.
pub open spec fn spec_handle_play_event(p: Player) -> Player {
    match p.state {
        State::Play { pos, progress } => {
            let play_fired = p.timer.fired_play;
            let next_fired = !play_fired && p.timer.fired_next;
            let t1 = PlayerTimer {
                fired_play: false,
                fired_next: play_fired && p.timer.fired_next,
                ..p.timer
            };
            let p1 = Player { timer: t1, ..p };
            if pos >= p.list@.len() {
                p1
            } else if play_fired {
                match p.list@[pos as int].spec_get(progress as int) {
                    Some((tone, delay_ms)) => Player {
                        buzzer: spec_tone(p.buzzer, tone, p.volume),
                        timer: PlayerTimer {
                            cc_play: (t1.now_us + delay_ms * 1000) as u64,
                            cc_next: (t1.now_us + delay_ms * 900) as u64,
                            ..t1
                        },
                        ..p
                    },
                    None => spec_start_play(p1, pos),
                }
            } else if next_fired {
                Player {
                    state: State::Play { pos, progress: (progress + 1) as usize },
                    buzzer: PlayerBuzzer { enabled: false, ..p.buzzer },
                    timer: t1,
                    ..p
                }
            } else {
                p1
            }
        },
        _ => p,
    }
}

impl Player {
    /// Validity: the volume is clamped, the timer in range, and every melody
    /// of the playlist well-formed.
    pub open spec fn wf(self) -> bool {
        &&& self.volume <= 100
        &&& self.timer.wf()
        &&& forall|i: int| 0 <= i < self.list@.len() ==> (#[trigger] self.list@[i]).wf()
    }

    /// A new player over `list` for a PWM whose maximum duty value is
    /// `max_duty`: stopped, at full volume, peripherals freshly configured.
    pub fn new(list: Vec<Melody>, max_duty: u16) -> (p: Player)
        ensures
            p == (Player {
                list,
                state: State::Stop,
                volume: 100,
                timer: PlayerTimer {
                    now_us: 0,
                    running: false,
                    cc_play: 0,
                    fired_play: false,
                    cc_next: 0,
                    fired_next: false,
                },
                buzzer: PlayerBuzzer { enabled: false, period_hz: 0, duty: 0, max_duty },
            }),
            (forall|i: int| 0 <= i < list@.len() ==> (#[trigger] list@[i]).wf()) ==> p.wf(),
    {
        let timer = PlayerTimer::new();
        let buzzer = PlayerBuzzer::new(max_duty);
        Player { list, state: State::Stop, volume: 100, timer, buzzer }
    }

    /// Raises the volume, saturating and clamping to 100.
    pub fn volume_add(&mut self, volume: u32)
        ensures
            *final(self) == (Player {
                volume: spec_volume_add(old(self).volume, volume),
                ..*old(self)
            }),
            final(self).volume <= 100,
            old(self).wf() ==> final(self).wf(),
    {
        let v = self.volume.saturating_add(volume);
        self.volume = if v < 100 {
            v
        } else {
            100
        };
    }

    /// Lowers the volume, saturating at 0.
    pub fn volume_sub(&mut self, volume: u32)
        ensures
            *final(self) == (Player {
                volume: spec_volume_sub(old(self).volume, volume),
                ..*old(self)
            }),
            old(self).wf() ==> final(self).wf(),
    {
        self.volume = self.volume.saturating_sub(volume);
    }

    /// The current volume.
    pub fn volume(&self) -> (v: u32)
        ensures
            v == self.volume,
    {
        self.volume
    }

    /// Stops playback, then swaps in a new playlist.
    pub fn set_list(&mut self, list: Vec<Melody>)
        ensures
            *final(self) == (Player { list, ..spec_stop(*old(self)) }),
            old(self).wf() && (forall|i: int|
                0 <= i < list@.len() ==> (#[trigger] list@[i]).wf()) ==> final(self).wf(),
    {
        self.stop();
        self.list = list;
    }

    /// Forces the player idle: tone timer stopped and cleared, buzzer off.
    pub fn stop(&mut self)
        ensures
            *final(self) == spec_stop(*old(self)),
            old(self).wf() ==> final(self).wf(),
    {
        self.timer.stop();
        self.buzzer.stop();
        self.state = State::Stop;
    }

    /// Begins or resumes playback; a no-op while already playing.
    pub fn play(&mut self)
        requires
            old(self).timer.wf(),
        ensures
            *final(self) == spec_play(*old(self)),
            old(self).wf() ==> final(self).wf(),
    {
        let start = match self.state {
            State::Stop => true,
            State::Pause { .. } => true,
            State::Play { .. } => false,
        };
        if start {
            self.state = match self.state {
                State::Stop => State::Play { pos: 0, progress: 0 },
                State::Pause { pos, progress } => State::Play { pos, progress },
                State::Play { pos, progress } => State::Play { pos, progress },
            };
            self.timer.start();
            self.timer.set_play_duration(DEFAULT_PLAY_DURATION_US);
        }
    }

    /// Snapshots a playing state into `Pause`; a no-op elsewhere.
    pub fn pause(&mut self)
        ensures
            *final(self) == spec_pause(*old(self)),
            old(self).wf() ==> final(self).wf(),
    {
        if let State::Play { pos, progress } = self.state {
            self.timer.stop();
            self.buzzer.stop();
            self.state = State::Pause { pos, progress };
        }
    }

    /// Starts the following melody, wrapping at the end of the playlist; a
    /// no-op on an empty playlist.
    pub fn next(&mut self)
        ensures
            *final(self) == spec_next(*old(self)),
            old(self).wf() ==> final(self).wf(),
    {
        if self.list.len() > 0 {
            let pos = self.next_pos();
            self.start_play(pos);
        }
    }

    /// Starts the preceding melody, wrapping at the beginning; a no-op on an
    /// empty playlist.
    pub fn prev(&mut self)
        ensures
            *final(self) == spec_prev(*old(self)),
            old(self).wf() ==> final(self).wf(),
    {
        if self.list.len() > 0 {
            let pos = self.prev_pos();
            self.start_play(pos);
        }
    }

    /// One scheduler dispatch, called whenever a tone-timer compare event
    /// fires. Play takes precedence: a note-off event latched alongside an
    /// onset is left pending and consumed on the following dispatch.
    /// Spurious dispatches consume nothing and change nothing, so the call
    /// is idempotent between events.
    pub fn handle_play_event(&mut self)
        requires
            old(self).wf(),
            old(self).state matches State::Play { progress, .. } ==> progress < usize::MAX,
        ensures
            *final(self) == spec_handle_play_event(*old(self)),
            final(self).wf(),
    {
        if let State::Play { pos, progress } = self.state {
            let play_fired = self.timer.check_play();
            let next_fired = if play_fired {
                false
            } else {
                self.timer.check_next()
            };
            if pos < self.list.len() {
                if play_fired {
                    assert(self.list@[pos as int].wf());
                    match self.list[pos].get(progress) {
                        Some((tone, delay_ms)) => {
                            self.buzzer.tone(tone, self.volume);
                            self.timer.set_play_duration((delay_ms as u64) * 1000);
                            self.timer.set_next_duration((delay_ms as u64) * 900);
                        },
                        None => {
                            self.start_play(pos);
                        },
                    }
                } else if next_fired {
                    self.state = State::Play { pos, progress: progress + 1 };
                    self.buzzer.stop();
                }
            }
        }
    }

    /// The wrapped position following the current one.
    fn next_pos(&self) -> (p: usize)
        requires
            self.list@.len() > 0,
        ensures
            p == spec_wrap_next(spec_current_pos(self.state), self.list@.len() as int),
    {
        let max_pos = self.list.len() - 1;
        let pos = match self.state {
            State::Play { pos, .. } => pos,
            State::Pause { pos, .. } => pos,
            State::Stop => 0,
        };
        if pos >= max_pos {
            0
        } else {
            pos + 1
        }
    }

    /// The wrapped position preceding the current one.
    fn prev_pos(&self) -> (p: usize)
        requires
            self.list@.len() > 0,
        ensures
            p == spec_wrap_prev(spec_current_pos(self.state), self.list@.len() as int),
    {
        let max_pos = self.list.len() - 1;
        let pos = match self.state {
            State::Play { pos, .. } => pos,
            State::Pause { pos, .. } => pos,
            State::Stop => 0,
        };
        if pos == 0 {
            max_pos
        } else {
            pos - 1
        }
    }

    /// The common playback entry: stop everything, take `Play { pos, 0 }`,
    /// start the timer and arm the play channel one intro delay ahead.
    fn start_play(&mut self, pos: usize)
        ensures
            *final(self) == spec_start_play(*old(self), pos),
            old(self).wf() ==> final(self).wf(),
    {
        self.stop();
        self.state = State::Play { pos, progress: 0 };
        self.timer.start();
        self.timer.set_play_duration(DEFAULT_PLAY_DURATION_US);
    }
}


/// The player after applying `next` `k` times.
pub open spec fn spec_iter_next(p: Player, k: nat) -> Player
    decreases k,
{
    if k == 0 {
        p
    } else {
        spec_iter_next(spec_next(p), (k - 1) as nat)
    }
}

/// Iterating `next` keeps the playlist and steps the position by one each
/// time, modulo the playlist length.
proof fn lemma_iter_next_pos_mod(p: Player, k: nat)
    requires
        p.list@.len() > 0,
        spec_current_pos(p.state) < p.list@.len(),
    ensures
        spec_iter_next(p, k).list == p.list,
        0 <= spec_current_pos(spec_iter_next(p, k).state) < p.list@.len(),
        spec_current_pos(spec_iter_next(p, k).state) == (spec_current_pos(p.state) + k) % (
        p.list@.len() as int),
        k >= 1 ==> spec_iter_next(p, k).state matches State::Play { progress: 0, .. },
    decreases k,
{
    let len = p.list@.len() as int;
    let pos = spec_current_pos(p.state);
    vstd::std_specs::vec::axiom_spec_len(&p.list);
    if k == 0 {
        lemma_small_mod(pos as nat, len as nat);
    } else {
        let p1 = spec_next(p);
        lemma_iter_next_pos_mod(p1, (k - 1) as nat);
        if pos >= len - 1 {
            lemma_mod_add_multiples_vanish(k - 1, len);
        }
    }
}

/// Applying `next` as many times as the playlist is long returns playback to
/// the starting position: the player ends up playing melody `pos` from its
/// first note, where `pos` is the position it started from.
pub proof fn lemma_next_full_cycle(p: Player)
    requires
        p.list@.len() > 0,
        spec_current_pos(p.state) < p.list@.len(),
    ensures
        spec_current_pos(spec_iter_next(p, p.list@.len()).state) == spec_current_pos(p.state),
        spec_iter_next(p, p.list@.len()).state == (State::Play {
            pos: spec_current_pos(p.state) as usize,
            progress: 0,
        }),
{
    let len = p.list@.len() as int;
    let pos = spec_current_pos(p.state);
    lemma_iter_next_pos_mod(p, p.list@.len());
    lemma_mod_add_multiples_vanish(pos, len);
    lemma_small_mod(pos as nat, len as nat);
}

/// The volume after a sequence of steps, each an add (`true`) or a sub
/// (`false`) of the given amount.
pub open spec fn spec_volume_after(v: u32, ops: Seq<(bool, u32)>) -> u32
    decreases ops.len(),
{
    if ops.len() == 0 {
        v
    } else {
        let v1 = if ops[0].0 {
            spec_volume_add(v, ops[0].1)
        } else {
            spec_volume_sub(v, ops[0].1)
        };
        spec_volume_after(v1, ops.drop_first())
    }
}

/// The volume stays within [0, 100] after any sequence of `volume_add` and
/// `volume_sub` steps with arbitrary arguments.
pub proof fn lemma_volume_stays_clamped(v: u32, ops: Seq<(bool, u32)>)
    requires
        v <= 100,
    ensures
        spec_volume_after(v, ops) <= 100,
    decreases ops.len(),
{
    if ops.len() > 0 {
        let v1 = if ops[0].0 {
            spec_volume_add(v, ops[0].1)
        } else {
            spec_volume_sub(v, ops[0].1)
        };
        lemma_volume_stays_clamped(v1, ops.drop_first());
    }
}

/// From a playing state, `pause` followed by `play` resumes with the saved
/// position and note.
pub proof fn lemma_pause_play_resumes(p: Player, pos: usize, progress: usize)
    requires
        p.state == (State::Play { pos, progress }),
    ensures
        spec_play(spec_pause(p)).state == (State::Play { pos, progress }),
{
}

/// `stop` followed by `play` always starts over at the first melody's first
/// note.
pub proof fn lemma_stop_play_restarts(p: Player)
    ensures
        spec_play(spec_stop(p)).state == (State::Play { pos: 0, progress: 0 }),
{
}

/// Past the last note of the playing melody, a latched play event restarts
/// the same melody through the intro-delay entry: progress returns to 0,
/// the counter is cleared, the play channel is armed one intro delay ahead,
/// and the buzzer stays off until that delay passes.
pub proof fn lemma_end_of_melody_restarts(p: Player, pos: usize, progress: usize)
    requires
        p.state == (State::Play { pos, progress }),
        p.timer.fired_play,
        (pos as int) < p.list@.len(),
        p.list@[pos as int].spec_get(progress as int) is None,
    ensures
        spec_handle_play_event(p).state == (State::Play { pos, progress: 0 }),
        spec_handle_play_event(p).timer.running,
        spec_handle_play_event(p).timer.now_us == 0,
        spec_handle_play_event(p).timer.cc_play == DEFAULT_PLAY_DURATION_US,
        !spec_handle_play_event(p).buzzer.enabled,
{
}

/// Adding then subtracting the same amount returns the volume to its
/// original value whenever the addition did not clamp; the subtraction then
/// cannot clamp either, since it takes back exactly what was added.
pub proof fn lemma_volume_round_trip(v: u32, k: u32)
    requires
        v + k <= 100,
    ensures
        spec_volume_sub(spec_volume_add(v, k), k) == v,
{
}
} // verus!
