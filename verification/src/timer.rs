//! Model of the free-running tone timer: an upward-counting microsecond
//! counter with two independent compare channels. The play channel fires at
//! the instant the next note must be keyed on; the next channel fires 10%
//! earlier to switch the current note off. Compare events latch into flags
//! that the check operations consume.
//!
//! The counter is modeled as an unbounded microsecond count, widened from
//! the peripheral's register and capped far beyond any reachable uptime;
//! time passes through [`PlayerTimer::elapse`], which stands for the counter
//! running between interrupts.

use vstd::prelude::*;

verus! {

/// Largest counter value the model admits, comfortably beyond any uptime a
/// music box can reach, so that arming a compare never overflows.
pub const TIMER_US_MAX: u64 = 0x4000000000000000;

/// The tone timer: counter, run flag, and the two compare channels with
/// their latched event flags.
#[derive(Clone, Copy, Debug, PartialEq, Eq, Structural)]
pub struct PlayerTimer {
    /// Counter value in microseconds; cleared on stop.
    pub now_us: u64,
    /// Whether the counter is running.
    pub running: bool,
    /// Absolute compare value of the play channel.
    pub cc_play: u64,
    /// Latched compare event of the play channel.
    pub fired_play: bool,
    /// Absolute compare value of the next (note-off) channel.
    pub cc_next: u64,
    /// Latched compare event of the next channel.
    pub fired_next: bool,
}

/// Consuming a latched play event: the flag read, then cleared.
pub open spec fn spec_check_play(t: PlayerTimer) -> (bool, PlayerTimer) {
    (t.fired_play, PlayerTimer { fired_play: false, ..t })
}

/// Consuming a latched next event: the flag read, then cleared.
pub open spec fn spec_check_next(t: PlayerTimer) -> (bool, PlayerTimer) {
    (t.fired_next, PlayerTimer { fired_next: false, ..t })
}

impl PlayerTimer {
    /// The counter stays within the model's range.
    pub open spec fn wf(self) -> bool {
        self.now_us <= TIMER_US_MAX
    }

    /// A freshly configured timer: stopped, cleared, nothing latched.
    pub fn new() -> (t: PlayerTimer)
        ensures
            t == (PlayerTimer {
                now_us: 0,
                running: false,
                cc_play: 0,
                fired_play: false,
                cc_next: 0,
                fired_next: false,
            }),
            t.wf(),
    {
        PlayerTimer {
            now_us: 0,
            running: false,
            cc_play: 0,
            fired_play: false,
            cc_next: 0,
            fired_next: false,
        }
    }

    /// Starts the counter; its value and the latched events are untouched.
    pub fn start(&mut self)
        ensures
            *final(self) == (PlayerTimer { running: true, ..*old(self) }),
    {
        self.running = true;
    }

    /// Stops and clears the counter. Latched compare events stay latched
    /// until a check consumes them.
    pub fn stop(&mut self)
        ensures
            *final(self) == (PlayerTimer { running: false, now_us: 0, ..*old(self) }),
    {
        self.running = false;
        self.now_us = 0;
    }

    /// Arms the play channel `duration_us` ahead of the captured counter.
    pub fn set_play_duration(&mut self, duration_us: u64)
        requires
            old(self).now_us + duration_us <= u64::MAX,
        ensures
            *final(self) == (PlayerTimer {
                cc_play: (old(self).now_us + duration_us) as u64,
                ..*old(self)
            }),
    {
        self.cc_play = self.now_us + duration_us;
    }

    /// Arms the next (note-off) channel `duration_us` ahead of the captured
    /// counter.
    pub fn set_next_duration(&mut self, duration_us: u64)
        requires
            old(self).now_us + duration_us <= u64::MAX,
        ensures
            *final(self) == (PlayerTimer {
                cc_next: (old(self).now_us + duration_us) as u64,
                ..*old(self)
            }),
    {
        self.cc_next = self.now_us + duration_us;
    }

    /// Consumes the play compare event: true exactly when it was latched,
    /// and the latch is cleared either way.
    pub fn check_play(&mut self) -> (fired: bool)
        ensures
            fired == spec_check_play(*old(self)).0,
            *final(self) == spec_check_play(*old(self)).1,
    {
        let fired = self.fired_play;
        self.fired_play = false;
        fired
    }

    /// Consumes the next compare event: true exactly when it was latched,
    /// and the latch is cleared either way.
    pub fn check_next(&mut self) -> (fired: bool)
        ensures
            fired == spec_check_next(*old(self)).0,
            *final(self) == spec_check_next(*old(self)).1,
    {
        let fired = self.fired_next;
        self.fired_next = false;
        fired
    }

    /// The captured counter value in microseconds.
    pub fn now(&self) -> (t: u64)
        ensures
            t == self.now_us,
    {
        self.now_us
    }

    /// Lets `d` microseconds pass: while running, the counter advances and a
    /// compare channel whose value is crossed latches its event. A stopped
    /// counter holds still and latches nothing.
    pub fn elapse(&mut self, d: u64)
        requires
            old(self).now_us + d <= TIMER_US_MAX,
        ensures
            *final(self) == (PlayerTimer {
                now_us: if old(self).running {
                    (old(self).now_us + d) as u64
                } else {
                    old(self).now_us
                },
                fired_play: old(self).fired_play || (old(self).running && old(self).now_us
                    < old(self).cc_play <= old(self).now_us + d),
                fired_next: old(self).fired_next || (old(self).running && old(self).now_us
                    < old(self).cc_next <= old(self).now_us + d),
                ..*old(self)
            }),
            old(self).wf() ==> final(self).wf(),
    {
        if self.running {
            let before = self.now_us;
            self.now_us = self.now_us + d;
            if before < self.cc_play && self.cc_play <= self.now_us {
                self.fired_play = true;
            }
            if before < self.cc_next && self.cc_next <= self.now_us {
                self.fired_next = true;
            }
        }
    }
}

/// The check operations are edge-consuming and idempotent after the first
/// true: a second consecutive check without the counter crossing the compare
/// value again returns false.
pub proof fn lemma_check_idempotent(t: PlayerTimer)
    ensures
        spec_check_play(spec_check_play(t).1).0 == false,
        spec_check_next(spec_check_next(t).1).0 == false,
{
}

} // verus!
