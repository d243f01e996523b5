//! Model of the PWM buzzer driver: period, duty and output gating. Volume
//! 0-100 maps onto a duty between 20% and 50% of the peripheral's maximum
//! duty: 50% is the loudest symmetric square wave, and the 20% floor keeps
//! low volumes audible.

use vstd::prelude::*;

use vstd::arithmetic::div_mod::{
    lemma_div_denominator, lemma_div_is_ordered, lemma_div_multiples_vanish,
};

use crate::tone::Tone;

verus! {

/// The PWM buzzer: output enable, programmed period and duty, and the
/// peripheral's maximum duty value.
#[derive(Clone, Copy, Debug, PartialEq, Eq, Structural)]
pub struct PlayerBuzzer {
    /// Whether the output is switched on.
    pub enabled: bool,
    /// Programmed period, as a frequency in Hz.
    pub period_hz: u32,
    /// Programmed duty compare value.
    pub duty: u16,
    /// The peripheral's maximum duty value.
    pub max_duty: u16,
}

/// Effective duty for a volume in [0, 100]: the real-valued
/// `0.2 * max_duty + 0.3 * max_duty * volume / 100`, written over the common
/// denominator as `max_duty * (200 + 3 * volume) / 1000` and truncated once
/// to an integer.
pub open spec fn spec_duty(max_duty: u16, volume: u32) -> int {
    ((max_duty as int) * (200 + 3 * volume)) / 1000
}

/// The duty mapping stays between the 20% floor and the 50% ceiling for any
/// volume in [0, 100].
pub proof fn lemma_duty_bounded(max_duty: u16, volume: u32)
    requires
        volume <= 100,
    ensures
        (max_duty as int) / 5 <= spec_duty(max_duty, volume) <= (max_duty as int) / 2,
{
    let m = max_duty as int;
    let v = volume as int;
    assert(m * 200 <= m * (200 + 3 * v) <= m * 500) by (nonlinear_arith)
        requires
            m >= 0,
            0 <= v <= 100,
    ;
    lemma_div_is_ordered(m * 200, m * (200 + 3 * v), 1000);
    lemma_div_is_ordered(m * (200 + 3 * v), m * 500, 1000);
    lemma_div_denominator(m * 200, 200, 5);
    lemma_div_multiples_vanish(m, 200);
    lemma_div_denominator(m * 500, 500, 2);
    lemma_div_multiples_vanish(m, 500);
}

/// The buzzer after keying `tone` at `volume`: `REST` leaves the output
/// disabled; any audible tone programs its frequency as the period, maps the
/// volume onto the duty, and switches the output on.
pub open spec fn spec_tone(b: PlayerBuzzer, tone: Tone, volume: u32) -> PlayerBuzzer {
    if tone == Tone::REST {
        PlayerBuzzer { enabled: false, ..b }
    } else {
        PlayerBuzzer {
            enabled: true,
            period_hz: tone.spec_hz(),
            duty: spec_duty(b.max_duty, volume) as u16,
            ..b
        }
    }
}

impl PlayerBuzzer {
    /// A freshly configured buzzer for a peripheral whose maximum duty value
    /// is `max_duty`: output disabled, nothing programmed.
    pub fn new(max_duty: u16) -> (b: PlayerBuzzer)
        ensures
            b == (PlayerBuzzer { enabled: false, period_hz: 0, duty: 0, max_duty }),
    {
        PlayerBuzzer { enabled: false, period_hz: 0, duty: 0, max_duty }
    }

    /// Keys one tone: for an audible tone the period follows its frequency,
    /// the duty follows the volume, and the output is switched on; for `REST`
    /// the output is left disabled so rests stay silent but keep tempo.
    pub fn tone(&mut self, tone: Tone, volume: u32)
        requires
            volume <= 100,
        ensures
            *final(self) == spec_tone(*old(self), tone, volume),
    {
        self.enabled = false;
        if !matches!(tone, Tone::REST) {
            self.period_hz = tone.hz();
            self.update_volume(volume);
            self.enabled = true;
        }
    }

    /// Switches the output off.
    pub fn stop(&mut self)
        ensures
            *final(self) == (PlayerBuzzer { enabled: false, ..*old(self) }),
    {
        self.enabled = false;
    }

    /// Programs the duty for `volume` without touching the output enable.
    fn update_volume(&mut self, volume: u32)
        requires
            volume <= 100,
        ensures
            *final(self) == (PlayerBuzzer {
                duty: spec_duty(old(self).max_duty, volume) as u16,
                ..*old(self)
            }),
    {
        proof {
            lemma_duty_bounded(self.max_duty, volume);
        }
        let duty: u32 = ((self.max_duty as u32) * (200 + 3 * volume)) / 1000;
        self.duty = duty as u16;
    }
}

} // verus!
