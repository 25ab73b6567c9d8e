use vstd::prelude::*;
use crate::bitops::lemma_byte_masks;

use crate::region::{MemoryRegion, REG_NR21_ADDR, REG_NR22_ADDR, REG_NR23_ADDR, REG_NR24_ADDR};
use super::modulation::{
    duty_level, wave_duty_level, Channel, Clock, DigitalAmplitude, EnvelopeModulation,
    LengthModulation, Sample, Step, WaveModulation,
};

verus! {

//
// Default register values
//
pub const DEFAULT_REG_DMG_NR21: u8 = 0x3F;
pub const DEFAULT_REG_DMG_NR22: u8 = 0x00;
pub const DEFAULT_REG_DMG_NR23: u8 = 0xFF;
pub const DEFAULT_REG_DMG_NR24: u8 = 0xBF;

/// Sound channel 2: a square wave with volume envelope and length counter.
pub struct Channel2 {
    pub enabled: bool,
    /// Bit 7-6: Wave Pattern Duty
    /// Bit 5-0: Sound length
    pub reg_nr21: u8,
    /// Bit 7-4: Initial Volume of envelope (0-0Fh) (0=No Sound)
    /// Bit 3  : Envelope Direction (0=Decrease, 1=Increase)
    /// Bit 2-0: Number of envelope sweep (n: 0-7)
    pub reg_nr22: u8,
    /// Frequency lower 8 bits
    pub reg_nr23: u8,
    /// Bit 7  : Initial (1=Restart Sound)
    /// Bit 6  : Counter/consecutive selection (Read/Write)
    /// Bit 2-0: Frequency's higher 3 bits (x) (Write Only)
    pub reg_nr24: u8,
    /// Volume between 0x0 and 0xF
    pub current_volume: u8,
    /// Envelope Period timer
    pub envelope_timer: u8,
    /// Wave cursor position
    pub wave_cursor: u8,
    /// Frequency timer between 4 and 8192
    pub frequency_timer: u16,
    /// Length counter between 0 and 64
    pub length_counter: u8,
    /// Length period is half
    pub length_half_period: bool,
}

impl Channel2 {
    /// The counters stay in their ranges.
    pub open spec fn wf(&self) -> bool {
        &&& self.current_volume <= 15
        &&& self.envelope_timer <= 7
        &&& self.wave_cursor < 8
        &&& 1 <= self.frequency_timer <= 8192
    }

    /// The 11-bit frequency value of NR23 / NR24.
    pub open spec fn freq(self) -> u32 {
        (((self.reg_nr24 & 7) as u32) * 256 + self.reg_nr23 as u32) as u32
    }

    /// The reload value of the frequency timer.
    pub open spec fn period(self) -> u16 {
        ((0x800 - self.freq()) * 4) as u16
    }

    pub open spec fn dac_on(self) -> bool {
        self.reg_nr22 & 0b1111_1000 != 0
    }

    pub open spec fn length_on(self) -> bool {
        self.reg_nr24 & 0b0100_0000 == 0b0100_0000
    }

    /// The 4-bit amplitude currently output.
    pub open spec fn amplitude(self) -> u8 {
        (duty_level(self.reg_nr21 >> 6u8, self.wave_cursor) * self.current_volume) as u8
    }

    /// The channel after one T-cycle: the frequency timer runs down and, when it expires,
    /// reloads and moves the wave cursor.
    pub open spec fn stepped(self) -> Channel2 {
        let t = (self.frequency_timer - 1) as u16;
        if t == 0 {
            Channel2 {
                frequency_timer: self.period(),
                wave_cursor: ((self.wave_cursor + 1) % 8) as u8,
                ..self
            }
        } else {
            Channel2 { frequency_timer: t, ..self }
        }
    }

    /// The channel after a clock of the volume envelope.
    pub open spec fn volume_stepped(self) -> Channel2 {
        let period = self.reg_nr22 & 0b111;
        if period == 0 || self.envelope_timer == 0 {
            self
        } else if self.envelope_timer > 1 {
            Channel2 { envelope_timer: (self.envelope_timer - 1) as u8, ..self }
        } else {
            let increasing = self.reg_nr22 & 0b1000 == 0b1000;
            let v = self.current_volume;
            Channel2 {
                envelope_timer: period,
                current_volume: if v < 0xF && increasing {
                    (v + 1) as u8
                } else if v > 0 && !increasing {
                    (v - 1) as u8
                } else {
                    v
                },
                ..self
            }
        }
    }

    /// The channel after a clock of the length counter.
    pub open spec fn length_stepped(self) -> Channel2 {
        if self.length_on() && self.length_counter > 0 {
            Channel2 {
                length_counter: (self.length_counter - 1) as u8,
                enabled: if self.length_counter == 1 { false } else { self.enabled },
                ..self
            }
        } else {
            self
        }
    }

    /// The channel after a restart.
    pub open spec fn triggered(self) -> Channel2 {
        let length_counter = if self.length_counter == 0 {
            if self.length_on() && self.length_half_period { 63u8 } else { 64u8 }
        } else {
            self.length_counter
        };
        Channel2 {
            enabled: self.enabled || self.dac_on(),
            length_counter,
            frequency_timer: self.period(),
            current_volume: self.reg_nr22 >> 4u8,
            envelope_timer: self.reg_nr22 & 0b111,
            wave_cursor: 0,
            ..self
        }
    }

    /// The channel after a write of `value` to one of its registers.
    pub open spec fn written(self, address: u16, value: u8) -> Channel2 {
        if address == REG_NR21_ADDR {
            Channel2 { length_counter: (64 - (value & 0b0011_1111)) as u8, reg_nr21: value, ..self }
        } else if address == REG_NR22_ADDR {
            let c = Channel2 { reg_nr22: value, ..self };
            if !c.dac_on() {
                Channel2 { enabled: false, ..c }
            } else {
                c
            }
        } else if address == REG_NR23_ADDR {
            Channel2 { reg_nr23: value, ..self }
        } else {
            let length_enabled = value & 0b0100_0000 == 0b0100_0000;
            let c = if self.length_half_period && !self.length_on() && length_enabled
                && self.length_counter > 0 {
                Channel2 {
                    length_counter: (self.length_counter - 1) as u8,
                    enabled: if self.length_counter == 1 { false } else { self.enabled },
                    ..self
                }
            } else {
                self
            };
            let c = Channel2 { reg_nr24: value, ..c };
            if value & 0b1000_0000 == 0b1000_0000 {
                c.triggered()
            } else {
                c
            }
        }
    }

    /// The value read from one of its registers; unreadable bits read as 1.
    pub open spec fn register(self, address: u16) -> u8 {
        if address == REG_NR21_ADDR {
            self.reg_nr21 | 0b0011_1111
        } else if address == REG_NR22_ADDR {
            self.reg_nr22
        } else if address == REG_NR23_ADDR {
            0xFF
        } else {
            self.reg_nr24 | 0b1011_1111
        }
    }

    pub open spec fn initial() -> Channel2 {
        Channel2 {
            enabled: false,
            reg_nr21: DEFAULT_REG_DMG_NR21,
            reg_nr22: DEFAULT_REG_DMG_NR22,
            reg_nr23: DEFAULT_REG_DMG_NR23,
            reg_nr24: DEFAULT_REG_DMG_NR24,
            current_volume: 0,
            envelope_timer: 0,
            wave_cursor: 0,
            frequency_timer: 4,
            length_counter: 64,
            length_half_period: false,
        }
    }

    pub fn new() -> (c: Self)
        ensures
            c == Self::initial(),
            c.wf(),
    {
        assert(0u8 >> 4u8 == 0u8 && 0u8 & 7u8 == 0u8) by (bit_vector);
        Self {
            enabled: false,
            reg_nr21: DEFAULT_REG_DMG_NR21,
            reg_nr22: DEFAULT_REG_DMG_NR22,
            reg_nr23: DEFAULT_REG_DMG_NR23,
            reg_nr24: DEFAULT_REG_DMG_NR24,
            current_volume: DEFAULT_REG_DMG_NR22 >> 4,
            envelope_timer: DEFAULT_REG_DMG_NR22 & 0b111,
            wave_cursor: 0,
            frequency_timer: 4,
            length_counter: 64,
            length_half_period: false,
        }
    }
}

proof fn lemma_period_range(c: Channel2)
    ensures
        4 <= c.period() <= 8192,
        c.freq() < 0x800,
{
    let r = c.reg_nr24;
    let hi = r & 7;
    lemma_byte_masks(r);
}

impl Channel for Channel2 {
    fn is_enabled(&self) -> (b: bool)
        ensures
            b == self.enabled,
    {
        self.enabled
    }

    fn set_enabled(&mut self, enabled: bool)
        ensures
            *final(self) == (Channel2 { enabled, ..*old(self) }),
    {
        self.enabled = enabled;
    }

    fn is_dac_enabled(&self) -> (b: bool)
        ensures
            b == self.dac_on(),
    {
        (self.reg_nr22 & 0b1111_1000) != 0
    }

    fn trigger(&mut self)
        ensures
            *final(self) == old(self).triggered(),
            old(self).wf() ==> final(self).wf(),
    {
        if self.is_dac_enabled() {
            self.enabled = true;
        }
        if self.length_counter == 0 {
            self.set_length_counter(64);
            if self.is_length_enabled() && self.length_half_period {
                self.length_counter = self.length_counter - 1;
            }
        }
        self.reset_frequency_timer();
        self.reset_envelope();
        self.reset_wave();
        proof {
            let r = old(self).reg_nr22;
            assert(r >> 4u8 <= 15 && r & 7u8 <= 7) by (bit_vector);
            lemma_period_range(*old(self));
        }
    }
}

impl Clock for Channel2 {
    fn frequency(&self) -> (f: u32)
        ensures
            f == self.freq(),
    {
        let r = self.reg_nr24;
        let h8 = r & 0b0000_0111;
        proof {
            lemma_byte_masks(r);
        }
        let hi = h8 as u32;
        let lo = self.reg_nr23 as u32;
        let f = (hi << 8) | lo;
        assert(f == hi * 256 + lo) by (bit_vector)
            requires
                f == (hi << 8u32) | lo,
                hi < 8,
                lo < 256,
        ;
        proof {
            lemma_period_range(*self);
        }
        f
    }

    fn frequency_timer(&self) -> (t: u32)
        ensures
            t == self.frequency_timer,
    {
        self.frequency_timer as u32
    }

    fn set_frequency_timer(&mut self, value: u32)
        ensures
            *final(self) == (Channel2 { frequency_timer: value as u16, ..*old(self) }),
    {
        self.frequency_timer = value as u16;
    }

    fn reset_frequency_timer(&mut self)
        ensures
            *final(self) == (Channel2 { frequency_timer: old(self).period(), ..*old(self) }),
    {
        proof {
            lemma_period_range(*self);
        }
        let timer = (0x800 - self.frequency()) * 4;
        self.set_frequency_timer(timer);
    }
}

impl EnvelopeModulation for Channel2 {
    fn envelope_register(&self) -> (r: u8)
        ensures
            r == self.reg_nr22,
    {
        self.reg_nr22
    }

    fn envelope_volume(&self) -> (v: u8)
        ensures
            v == self.current_volume,
    {
        self.current_volume
    }

    fn set_envelope_volume(&mut self, value: u8)
        ensures
            *final(self) == (Channel2 { current_volume: value, ..*old(self) }),
    {
        self.current_volume = value;
    }

    fn envelope_init_volume(&self) -> (v: u8)
        ensures
            v == self.reg_nr22 >> 4u8,
    {
        self.envelope_register() >> 4
    }

    fn is_envelope_increasing(&self) -> (b: bool)
        ensures
            b == (self.reg_nr22 & 0b1000 == 0b1000),
    {
        self.envelope_register() & 0b0000_1000 == 0b0000_1000
    }

    fn envelope_period(&self) -> (p: u8)
        ensures
            p == self.reg_nr22 & 0b111,
    {
        self.envelope_register() & 0b0000_0111
    }

    fn reset_envelope(&mut self)
        ensures
            *final(self) == (Channel2 {
                current_volume: old(self).reg_nr22 >> 4u8,
                envelope_timer: old(self).reg_nr22 & 0b111,
                ..*old(self)
            }),
    {
        let init_volume = self.envelope_init_volume();
        self.set_envelope_volume(init_volume);
        self.envelope_timer = self.envelope_period();
    }

    /// One clock of the envelope: when the timer expires it reloads and the volume moves
    /// one step in the envelope direction, within 0..=15.
    fn volume_step(&mut self)
        ensures
            *final(self) == old(self).volume_stepped(),
            old(self).wf() ==> final(self).wf(),
    {
        let period = self.envelope_period();
        let r = self.reg_nr22;
        proof {
            lemma_byte_masks(r);
        }
        if period == 0 {
            return;
        }
        if self.envelope_timer > 0 {
            self.envelope_timer = self.envelope_timer - 1;

            // Adjust time when we reached the period
            if self.envelope_timer == 0 {
                self.envelope_timer = period;
                let increasing = self.is_envelope_increasing();
                let volume = self.envelope_volume();
                if volume < 0xF && increasing {
                    self.set_envelope_volume(volume + 1);
                } else if volume > 0x0 && !increasing {
                    self.set_envelope_volume(volume - 1);
                }
            }
        }
    }
}

impl LengthModulation for Channel2 {
    fn is_length_enabled(&self) -> (b: bool)
        ensures
            b == self.length_on(),
    {
        self.reg_nr24 & 0b0100_0000 == 0b0100_0000
    }

    fn length_counter(&self) -> (c: u16)
        ensures
            c == self.length_counter,
    {
        self.length_counter as u16
    }

    fn set_length_counter(&mut self, value: u16)
        ensures
            *final(self) == (Channel2 { length_counter: value as u8, ..*old(self) }),
    {
        self.length_counter = value as u8;
    }

    fn set_half_length_period(&mut self, half: bool)
        ensures
            *final(self) == (Channel2 { length_half_period: half, ..*old(self) }),
    {
        self.length_half_period = half;
    }

    /// One clock of the length counter: an enabled counter runs down and stops the channel
    /// when it reaches 0.
    fn length_step(&mut self)
        ensures
            *final(self) == old(self).length_stepped(),
    {
        let mut counter = self.length_counter();

        if self.is_length_enabled() && counter > 0 {
            counter = counter - 1;
            self.set_length_counter(counter);
            if counter == 0 {
                self.set_enabled(false);
            }
        }
    }
}

impl WaveModulation for Channel2 {
    fn wave_cursor(&self) -> (c: u8)
        ensures
            c == self.wave_cursor,
    {
        self.wave_cursor
    }

    fn set_wave_cursor(&mut self, value: u8)
        ensures
            *final(self) == (Channel2 { wave_cursor: value, ..*old(self) }),
    {
        self.wave_cursor = value;
    }

    fn wave_duty(&self) -> (d: u8)
        ensures
            d == self.reg_nr21 >> 6u8,
    {
        self.reg_nr21 >> 6
    }

    fn inc_wave_cursor(&mut self)
        ensures
            *final(self) == (Channel2 { wave_cursor: ((old(self).wave_cursor as int + 1) % 8) as u8, ..*old(self) }),
    {
        let wave_cursor = self.wave_cursor();
        self.set_wave_cursor(((wave_cursor as u16 + 1) % 8) as u8)
    }

    fn reset_wave(&mut self)
        ensures
            *final(self) == (Channel2 { wave_cursor: 0, ..*old(self) }),
    {
        self.set_wave_cursor(0);
    }

    fn wave_sample(&self) -> (s: u8)
        ensures
            s == duty_level(self.reg_nr21 >> 6u8, self.wave_cursor),
    {
        wave_duty_level(self.wave_duty(), self.wave_cursor())
    }
}

impl Sample for Channel2 {
    fn sample(&self) -> (s: u8)
        ensures
            s == duty_level(self.reg_nr21 >> 6u8, self.wave_cursor),
    {
        self.wave_sample()
    }
}

impl DigitalAmplitude for Channel2 {
    fn digital_amplitude(&self) -> (a: u8)
        ensures
            self.wf() ==> a == self.amplitude() && a <= 15,
    {
        let sample = self.sample();
        let volume = self.envelope_volume();
        if sample == 0 {
            0
        } else {
            volume
        }
    }
}

impl Step for Channel2 {
    /// One T-cycle: the frequency timer runs down; when it expires it reloads and the wave
    /// cursor moves on.
    fn step(&mut self)
        ensures
            old(self).wf() ==> *final(self) == old(self).stepped() && final(self).wf(),
    {
        let t = self.frequency_timer();
        if t == 0 {
            return;
        }
        let timer = t - 1;
        self.set_frequency_timer(timer);

        if timer == 0 {
            self.reset_frequency_timer();
            self.inc_wave_cursor();
            proof {
                lemma_period_range(*old(self));
            }
        }
    }
}

impl MemoryRegion for Channel2 {
    open spec fn maps(address: u16) -> bool {
        address == REG_NR21_ADDR || address == REG_NR22_ADDR || address == REG_NR23_ADDR
            || address == REG_NR24_ADDR
    }

    open spec fn inv(&self) -> bool {
        self.wf()
    }

    fn read(&self, address: u16) -> (r: u8)
        ensures
            r == self.register(address),
    {
        if address == REG_NR21_ADDR {
            self.reg_nr21 | 0b0011_1111
        } else if address == REG_NR22_ADDR {
            self.reg_nr22
        } else if address == REG_NR23_ADDR {
            0xFF
        } else {
            self.reg_nr24 | 0b1011_1111
        }
    }

    fn write(&mut self, address: u16, value: u8)
        ensures
            *final(self) == old(self).written(address, value),
    {
        if address == REG_NR21_ADDR {
            let len = value & 0b0011_1111;
            proof {
                lemma_byte_masks(value);
            }
            self.length_counter = 64 - len;
            self.reg_nr21 = value;
        } else if address == REG_NR22_ADDR {
            self.reg_nr22 = value;
            if !self.is_dac_enabled() {
                self.enabled = false;
            }
        } else if address == REG_NR23_ADDR {
            self.reg_nr23 = value;
        } else {
            let trigger = value & 0b1000_0000 == 0b1000_0000;
            let length_enabled = value & 0b0100_0000 == 0b0100_0000;

            if self.length_half_period && !self.is_length_enabled() && length_enabled
                && self.length_counter > 0 {
                self.length_counter = self.length_counter - 1;
                if self.length_counter == 0 {
                    self.enabled = false;
                }
            }
            self.reg_nr24 = value;
            // trigger a channel restart
            if trigger {
                self.trigger();
            }
        }
    }
}

/// The tone of channel 2: its 11-bit frequency value `x` is NR23 with the low three bits
/// of NR24 above it, and the wave steps every `4 * (2048 - x)` T-cycles.  A T-cycle runs the
/// frequency timer down by one; when it runs out it reloads with that period and the wave
/// cursor moves to the next of its 8 steps.
pub proof fn law_channel2_tone(ch: Channel2)
    requires
        ch.wf(),
    ensures
        ch.freq() == 256 * (ch.reg_nr24 % 8) + ch.reg_nr23,
        ch.period() == 4 * (2048 - ch.freq()),
        ch.frequency_timer > 1 ==> ch.stepped().frequency_timer == ch.frequency_timer - 1
            && ch.stepped().wave_cursor == ch.wave_cursor,
        ch.frequency_timer == 1 ==> ch.stepped().frequency_timer == ch.period()
            && ch.stepped().wave_cursor == (ch.wave_cursor + 1) % 8,
{
    crate::bitops::lemma_byte_rotations(0, 0, 0, 0, 0, 0, 0, 0, 0, 0, 0, 0, ch.reg_nr24);
}

/// The volume envelope of channel 2: with a period `p` (NR22 bits 0..2) other than 0, each
/// `p`-th clock moves the volume one step up (NR22 bit 3 set) or down, within 0..15, and
/// restarts the count at `p`; a period of 0 stops the envelope.  A restart loads the volume
/// from the upper nibble of NR22.
pub proof fn law_envelope(ch: Channel2)
    ensures
        ch.reg_nr22 % 8 == 0 ==> ch.volume_stepped() == ch,
        ch.reg_nr22 % 8 != 0 && ch.envelope_timer == 1 ==> {
            let v = ch.current_volume;
            &&& ch.volume_stepped().envelope_timer == ch.reg_nr22 % 8
            &&& ch.volume_stepped().current_volume == (if (ch.reg_nr22 / 8) % 2 == 1 {
                if v < 15 { v + 1 } else { v as int }
            } else {
                if v > 0 { v - 1 } else { v as int }
            })
        },
        ch.reg_nr22 % 8 != 0 && ch.envelope_timer > 1 ==> ch.volume_stepped().current_volume
            == ch.current_volume && ch.volume_stepped().envelope_timer == ch.envelope_timer - 1,
        ch.triggered().current_volume == ch.reg_nr22 / 16,
        ch.triggered().envelope_timer == ch.reg_nr22 % 8,
{
    crate::bitops::lemma_byte_rotations(0, 0, 0, 0, 0, 0, 0, 0, 0, 0, 0, 0, ch.reg_nr22);
}

/// The length of channel 2: a write to NR21 loads the counter with 64 minus its low six
/// bits, and NR21 reads back its duty bits with the other six set; with the length enabled,
/// a clock counts down and the clock that reaches 0 switches the channel off.
pub proof fn law_length(ch: Channel2, value: u8)
    ensures
        ch.written(REG_NR21_ADDR, value).length_counter == 64 - value % 64,
        ch.written(REG_NR21_ADDR, value).register(REG_NR21_ADDR) == 64 * (value / 64) + 63,
        ch.length_on() && ch.length_counter > 0 ==> {
            &&& ch.length_stepped().length_counter == ch.length_counter - 1
            &&& ch.length_stepped().enabled == (ch.enabled && ch.length_counter != 1)
        },
        !ch.length_on() ==> ch.length_stepped() == ch,
{
    crate::bitops::lemma_byte_rotations(0, 0, 0, 0, 0, 0, 0, 0, 0, 0, 0, 0, value);
}

} // verus!
