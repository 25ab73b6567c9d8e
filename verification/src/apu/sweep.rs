use vstd::prelude::*;

use crate::bitops::{lemma_byte_masks, lemma_shr_le};

verus! {

/// Largest frequency value of a square channel (11 bits).
pub const MAX_FREQUENCY: u16 = 0x7FF;

/// The frequency sweep unit of a square channel: the NR10 register and its counters.
///
/// The unit acts on its channel through the channel's enable flag, which a computed
/// frequency above `MAX_FREQUENCY` clears, and through the frequency it hands back to be
/// stored in the channel.
pub struct Sweep {
    /// NR10: period in bits 4-6, direction in bit 3 (set to decrease), shift in bits 0-2
    pub reg_nr10: u8,
    /// Countdown to the next sweep step
    pub timer: u8,
    /// Copy of the channel frequency the sweep works on
    pub shadow_frequency: u16,
    /// Whether the sweep steps at all
    pub enabled: bool,
    /// Whether a frequency was computed in decreasing mode since the last reset
    pub was_decreasing: bool,
}

impl Sweep {
    /// The shadow frequency is a channel frequency.
    pub open spec fn wf(self) -> bool {
        self.shadow_frequency <= MAX_FREQUENCY
    }

    pub open spec fn period(self) -> u8 {
        (self.reg_nr10 >> 4u8) & 7u8
    }

    pub open spec fn decreasing(self) -> bool {
        self.reg_nr10 & 8u8 == 8u8
    }

    pub open spec fn shift(self) -> u8 {
        self.reg_nr10 & 7u8
    }

    /// The timer value on a reload: the period, or 8 for a period of 0.
    pub open spec fn reload(self) -> u8 {
        if self.period() > 0 {
            self.period()
        } else {
            8
        }
    }

    /// The shadow frequency moved by itself shifted right by the shift, down or up.
    pub open spec fn next_frequency(self) -> int {
        let delta = self.shadow_frequency >> self.shift();
        if self.decreasing() {
            self.shadow_frequency - delta
        } else {
            self.shadow_frequency + delta
        }
    }

    /// The unit and the channel enable flag after a frequency computation: a decreasing
    /// computation is remembered, and an overflow switches the channel off.
    pub open spec fn calculated(self, channel_on: bool) -> (Sweep, bool) {
        (
            Sweep { was_decreasing: self.was_decreasing || self.decreasing(), ..self },
            channel_on && self.next_frequency() <= MAX_FREQUENCY,
        )
    }

    /// The unit and the channel enable flag after a trigger of the channel, whose
    /// frequency is `frequency`.
    pub open spec fn reset_spec(self, frequency: u16, channel_on: bool) -> (Sweep, bool) {
        let s = Sweep {
            was_decreasing: false,
            shadow_frequency: frequency,
            timer: self.reload(),
            enabled: self.period() != 0 || self.shift() != 0,
            ..self
        };
        if s.shift() > 0 {
            s.calculated(channel_on)
        } else {
            (s, channel_on)
        }
    }

    /// The unit, the channel enable flag and the frequency to store in the channel, after
    /// a step of the frame sequencer's sweep clock.
    pub open spec fn stepped(self, channel_on: bool) -> (Sweep, bool, Option<u16>) {
        let timer = if self.timer > 0 {
            (self.timer - 1) as u8
        } else {
            0u8
        };
        if timer != 0 {
            (Sweep { timer, ..self }, channel_on, None)
        } else {
            let s = Sweep { timer: self.reload(), ..self };
            if s.enabled && s.period() > 0 {
                let (s1, on1) = s.calculated(channel_on);
                let f = s.next_frequency();
                if f <= MAX_FREQUENCY && s.shift() != 0 {
                    let (s3, on3) = (Sweep { shadow_frequency: f as u16, ..s1 }).calculated(on1);
                    (s3, on3, Some(f as u16))
                } else {
                    (s1, on1, None)
                }
            } else {
                (s, channel_on, None)
            }
        }
    }

    pub fn sweep_period(&self) -> (p: u8)
        ensures
            p == self.period(),
            p < 8,
    {
        proof {
            lemma_byte_masks(self.reg_nr10 >> 4u8);
        }
        (self.reg_nr10 >> 4) & 0b0000_0111
    }

    pub fn is_sweep_decreasing(&self) -> (b: bool)
        ensures
            b == self.decreasing(),
    {
        self.reg_nr10 & 0b0000_1000 == 0b0000_1000
    }

    pub fn sweep_shift(&self) -> (s: u8)
        ensures
            s == self.shift(),
            s < 8,
    {
        proof {
            lemma_byte_masks(self.reg_nr10);
        }
        self.reg_nr10 & 0b0000_0111
    }

    /// Compute the next frequency from the shadow frequency; one above the 11 bits of a
    /// frequency switches the channel off.
    pub fn calculate_sweep_frequency(&mut self, channel_on: &mut bool) -> (f: u16)
        requires
            old(self).wf(),
        ensures
            final(self).wf(),
            (*final(self), *final(channel_on)) == old(self).calculated(*old(channel_on)),
            f == old(self).next_frequency(),
    {
        let shadow_frequency = self.shadow_frequency;
        let shift = self.sweep_shift();
        proof {
            lemma_shr_le(shadow_frequency, shift);
        }
        let delta = shadow_frequency >> shift;
        let new_frequency = if self.is_sweep_decreasing() {
            self.was_decreasing = true;
            shadow_frequency - delta
        } else {
            shadow_frequency + delta
        };
        // overflow check
        if new_frequency > MAX_FREQUENCY {
            *channel_on = false;
        }
        new_frequency
    }

    /// Restart the sweep on a trigger of the channel, whose frequency is `frequency`.
    pub fn reset_sweep(&mut self, frequency: u16, channel_on: &mut bool)
        requires
            frequency <= MAX_FREQUENCY,
        ensures
            final(self).wf(),
            (*final(self), *final(channel_on)) == old(self).reset_spec(frequency, *old(channel_on)),
    {
        self.was_decreasing = false;
        self.shadow_frequency = frequency;
        let period = self.sweep_period();
        self.timer = if period > 0 {
            period
        } else {
            8
        };
        let sweep_shift = self.sweep_shift();
        self.enabled = period != 0 || sweep_shift != 0;
        if sweep_shift > 0 {
            self.calculate_sweep_frequency(channel_on);
        }
    }

    /// One clock of the sweep: when the timer runs out it is reloaded and, for an enabled
    /// sweep with a period, the next frequency is computed; one that fits and comes from a
    /// non-zero shift becomes the shadow frequency and is handed back for the channel, and
    /// is checked once more for overflow.
    pub fn sweep_step(&mut self, channel_on: &mut bool) -> (f: Option<u16>)
        requires
            old(self).wf(),
        ensures
            final(self).wf(),
            (*final(self), *final(channel_on), f) == old(self).stepped(*old(channel_on)),
            f matches Some(v) ==> v <= MAX_FREQUENCY,
    {
        let period = self.sweep_period();
        if self.timer > 0 {
            self.timer = self.timer - 1;
        }
        if self.timer == 0 {
            self.timer = if period > 0 {
                period
            } else {
                8
            };
            if self.enabled && self.sweep_period() > 0 {
                let new_frequency = self.calculate_sweep_frequency(channel_on);
                if new_frequency <= MAX_FREQUENCY && self.sweep_shift() != 0 {
                    self.shadow_frequency = new_frequency;
                    self.calculate_sweep_frequency(channel_on);
                    return Some(new_frequency);
                }
            }
        }
        None
    }
}

} // verus!
