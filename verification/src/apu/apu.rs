use vstd::prelude::*;

use crate::bitops::{lemma_byte_masks, wadd32};
use crate::region::{
    MemoryRegion, IO_SOUND_REGION_END, IO_SOUND_REGION_START, REG_NR10_ADDR, REG_NR11_ADDR,
    REG_NR21_ADDR, REG_NR24_ADDR, REG_NR31_ADDR, REG_NR41_ADDR, REG_NR50_ADDR, REG_NR51_ADDR,
    REG_NR52_ADDR, WAVE_PATTERN_RAM_START,
};
use super::channel2::Channel2;
use super::modulation::{Channel, DigitalAmplitude, EnvelopeModulation, LengthModulation, Step};

verus! {

/// Rate of the samples handed to the audio output, in Hz
pub const AUDIO_SAMPLE_RATE: u32 = 48000;

/// T-cycles between two samples (CLOCK_SPEED / AUDIO_SAMPLE_RATE)
pub const SAMPLE_PERIOD: u32 = 87;
/// Rate of the frame sequencer, in Hz
pub const FRAME_SEQUENCER_RATE: u32 = 512;
/// T-cycles between two frame sequencer steps (CLOCK_SPEED / FRAME_SEQUENCER_RATE)
pub const FRAME_SEQUENCER_PERIOD: u32 = 8192;

//
// Default register values
//
pub const DEFAULT_REG_DMG_NR50: u8 = 0x77;
pub const DEFAULT_REG_DMG_NR51: u8 = 0xF3;
pub const DEFAULT_REG_DMG_NR52: u8 = 0xF1;

/// Where the mixed samples go.
///
/// A sample is given per terminal as an integer level `l` in -420..=420; the analog
/// value it stands for is `l / 420`, in [-1; 1]: the sum over the routed channels of
/// their DAC output (amplitude `a` in 0..=15 gives `(2a - 15) / 15`), scaled by the
/// terminal volume `v / 7` and divided by the four channels.
///
/// An output that keeps what it is handed lists the pairs of levels in `levels`; one that
/// drops them (such as no speaker at all) does not keep them, and then `levels` tells
/// nothing.
pub trait AudioOutput {
    /// Whether the output keeps the levels it is handed (by default it does not).
    open spec fn keeps_output(&self) -> bool {
        false
    }

    /// The (left, right) levels handed so far, oldest first, for an output that keeps them.
    open spec fn levels(&self) -> Seq<(i16, i16)> {
        Seq::empty()
    }

    fn set_levels(&mut self, left: i16, right: i16)
        ensures
            final(self).keeps_output() == old(self).keeps_output(),
            old(self).keeps_output() ==> final(self).levels() == old(self).levels().push(
                (left, right),
            ),
    ;
}

/// `after` is the output `before` once the levels `sample`, if any, were handed to it.
pub open spec fn sample_sent<AO: AudioOutput>(before: AO, after: AO, sample: Option<(i16, i16)>) -> bool {
    &&& after.keeps_output() == before.keeps_output()
    &&& match sample {
        None => after == before,
        Some(p) => before.keeps_output() ==> after.levels() == before.levels().push(p),
    }
}

/// The sound controller.
pub struct Apu {
    /// Channel control / ON-OFF / Volume (R/W)
    pub reg_nr50: u8,
    /// Selection of Sound output terminal (R/W)
    pub reg_nr51: u8,
    /// Sound on/off
    pub reg_nr52: u8,
    /// Number of ticks before stepping up the frame sequencer
    pub ticks: u32,
    /// Frame sequencer step % 8
    pub fs_step: u8,
    /// Sound Channel 2 - Tone
    pub channel_2: Channel2,
}

impl Apu {
    pub open spec fn wf(&self) -> bool {
        &&& self.fs_step < 8
        &&& self.channel_2.wf()
    }

    pub open spec fn powered(self) -> bool {
        (self.reg_nr52 >> 7u8) != 0
    }

    /// The DAC output of channel 2, as `2a - 15` for amplitude `a` (0 when off).
    pub open spec fn channel_2_level(self) -> int {
        if self.channel_2.enabled && self.channel_2.dac_on() {
            2 * self.channel_2.amplitude() - 15
        } else {
            0
        }
    }

    /// The mixed level of the terminal whose NR51 bit for channel 1 is `flag_offset`.
    pub open spec fn mix_level(self, flag_offset: u8, volume: u8) -> int {
        let ch2 = (flag_offset << 1u8) as u8;
        if self.reg_nr51 & ch2 == ch2 {
            volume * self.channel_2_level()
        } else {
            0
        }
    }

    /// The controller after a frame sequencer step: the length counters on even steps,
    /// the envelopes on step 7.
    pub open spec fn fs_stepped(self) -> Apu {
        let half = self.fs_step % 2 == 0;
        let c = Channel2 { length_half_period: half, ..self.channel_2 };
        let c = if half {
            c.length_stepped()
        } else if self.fs_step == 7 {
            c.volume_stepped()
        } else {
            c
        };
        Apu { channel_2: c, fs_step: ((self.fs_step + 1) % 8) as u8, ..self }
    }

    /// The levels of the two terminals (left, right) that the controller mixes.
    pub open spec fn sample_levels(self) -> (i16, i16) {
        (
            self.mix_level(0x10, (self.reg_nr50 >> 4u8) & 7) as i16,
            self.mix_level(0x01, self.reg_nr50 & 7) as i16,
        )
    }

    /// The levels handed to the output in one T-cycle, if a sample is due then.
    pub open spec fn step_sample(self) -> Option<(i16, i16)> {
        if self.stepped().1 {
            Some(self.stepped().0.sample_levels())
        } else {
            None
        }
    }

    /// The controller after one T-cycle, and whether a sample is due.
    pub open spec fn stepped(self) -> (Apu, bool) {
        let ticks = wadd32(self.ticks, 1);
        let a = Apu { ticks, channel_2: self.channel_2.stepped(), ..self };
        let a = if ticks % FRAME_SEQUENCER_PERIOD == 0 {
            a.fs_stepped()
        } else {
            a
        };
        (a, ticks % SAMPLE_PERIOD == 0)
    }

    pub open spec fn initial() -> Apu {
        Apu {
            reg_nr50: DEFAULT_REG_DMG_NR50,
            reg_nr51: DEFAULT_REG_DMG_NR51,
            reg_nr52: DEFAULT_REG_DMG_NR52,
            ticks: 0,
            fs_step: 0,
            channel_2: Channel2::initial(),
        }
    }

    pub fn new() -> (a: Self)
        ensures
            a == Self::initial(),
            a.wf(),
    {
        Self {
            reg_nr50: DEFAULT_REG_DMG_NR50,
            reg_nr51: DEFAULT_REG_DMG_NR51,
            reg_nr52: DEFAULT_REG_DMG_NR52,
            ticks: 0,
            fs_step: 0,
            channel_2: Channel2::new(),
        }
    }

    /// Whether the sound circuits are on (NR52 bit 7).
    pub fn is_enabled(&self) -> (b: bool)
        ensures
            b == self.powered(),
    {
        (self.reg_nr52 >> 7) != 0
    }

    /// Volume of the left terminal (SO2), 0 to 7.
    pub fn volume_left(&self) -> (v: u8)
        ensures
            v == (self.reg_nr50 >> 4u8) & 7,
            v <= 7,
    {
        let r = self.reg_nr50;
        let v = (r >> 4) & 0b0000_0111;
        proof {
            lemma_byte_masks(r >> 4u8);
        }
        v
    }

    /// Volume of the right terminal (SO1), 0 to 7.
    pub fn volume_right(&self) -> (v: u8)
        ensures
            v == self.reg_nr50 & 7,
            v <= 7,
    {
        let r = self.reg_nr50;
        let v = r & 0b0000_0111;
        proof {
            lemma_byte_masks(r);
        }
        v
    }

    fn handle_fs_step(&mut self)
        requires
            old(self).wf(),
        ensures
            final(self).wf(),
            *final(self) == old(self).fs_stepped(),
    {
        let is_length_period = (self.fs_step % 2) == 0;
        self.channel_2.set_half_length_period(is_length_period);

        // Step   Length Ctr  Vol Env
        // ---------------------------
        // 0      Clock       -
        // 2      Clock       -
        // 4      Clock       -
        // 6      Clock       -
        // 7      -           Clock
        if is_length_period {
            self.channel_2.length_step();
        } else if self.fs_step == 7 {
            self.channel_2.volume_step();
        }
        self.fs_step = (self.fs_step + 1) % 8;
    }

    /// The mixed level of one terminal.
    fn mix_channels(&self, flag_offset: u8, volume: u8) -> (l: i16)
        requires
            self.wf(),
            volume <= 7,
        ensures
            l == self.mix_level(flag_offset, volume),
    {
        let ch2 = flag_offset << 1;
        if self.reg_nr51 & ch2 == ch2 {
            if self.channel_2.is_enabled() && self.channel_2.is_dac_enabled() {
                let amp = self.channel_2.digital_amplitude();
                let d = 2 * amp as i16 - 15;
                assert(-105 <= volume * d <= 105) by (nonlinear_arith)
                    requires
                        volume <= 7,
                        -15 <= d <= 15,
                ;
                assert(d == self.channel_2_level());
                volume as i16 * d
            } else {
                assert(self.channel_2_level() == 0);
                0
            }
        } else {
            0
        }
    }

    /// One T-cycle of the sound controller; every sample period the mixed levels of the
    /// two terminals go to `speaker`.
    pub fn step<AO: AudioOutput>(&mut self, speaker: &mut AO)
        requires
            old(self).wf(),
        ensures
            final(self).wf(),
            *final(self) == old(self).stepped().0,
            sample_sent(*old(speaker), *final(speaker), old(self).step_sample()),
    {
        self.ticks = self.ticks.wrapping_add(1);

        self.channel_2.step();

        // Every 8192 T-cycles, the frame sequencer is stepped
        if self.ticks % FRAME_SEQUENCER_PERIOD == 0 {
            self.handle_fs_step();
        }
        // Every sample period, the current sample goes to the speaker
        if self.ticks % SAMPLE_PERIOD == 0 {
            let left_volume = self.volume_left();
            let right_volume = self.volume_right();

            let s02 = self.mix_channels(0x10, left_volume);
            let s01 = self.mix_channels(0x01, right_volume);
            assert(self.sample_levels() == (s02, s01));
            assert(old(self).stepped().1);
            speaker.set_levels(s02, s01);
        } else {
            assert(!old(self).stepped().1);
        }
    }

    /// Whether a write to `address` is taken while the sound circuits are off.
    pub open spec fn writable_when_off(address: u16) -> bool {
        address == WAVE_PATTERN_RAM_START || address == REG_NR11_ADDR || address == REG_NR21_ADDR
            || address == REG_NR31_ADDR || address == REG_NR41_ADDR || address == REG_NR52_ADDR
    }

    /// The controller after a write to a register other than NR52.
    pub open spec fn register_written(self, address: u16, value: u8) -> Apu {
        if REG_NR21_ADDR <= address <= REG_NR24_ADDR {
            Apu { channel_2: self.channel_2.written(address, value), ..self }
        } else if address == REG_NR50_ADDR {
            Apu { reg_nr50: value, ..self }
        } else if address == REG_NR51_ADDR {
            Apu { reg_nr51: value, ..self }
        } else {
            self
        }
    }

    /// The controller after the registers NR10 up to (excluded) `end` are cleared.
    pub open spec fn cleared_upto(self, end: u16) -> Apu
        decreases end - REG_NR10_ADDR,
    {
        if end <= REG_NR10_ADDR {
            self
        } else {
            self.cleared_upto((end - 1) as u16).register_written((end - 1) as u16, 0)
        }
    }

    /// The controller after a write of `value` on a sound register.
    pub open spec fn written(self, address: u16, value: u8) -> Apu {
        if !self.powered() && !Self::writable_when_off(address) {
            self
        } else if address == REG_NR52_ADDR {
            let enabled = value & 0b1000_0000 == 0b1000_0000;
            let a = if enabled && !self.powered() {
                Apu { fs_step: 0, ..self }
            } else if !enabled && self.powered() {
                self.cleared_upto(REG_NR52_ADDR)
            } else {
                self
            };
            Apu {
                channel_2: Channel2 { length_counter: self.channel_2.length_counter, ..a.channel_2 },
                reg_nr52: value & 0x80,
                ..a
            }
        } else {
            self.register_written(address, value)
        }
    }

    /// The value read on a sound register: the channel 2 registers, NR50, NR51, and NR52
    /// with the power bit and the channel status bits; every other address reads 0xFF.
    pub open spec fn register(self, address: u16) -> u8 {
        if REG_NR21_ADDR <= address <= REG_NR24_ADDR {
            self.channel_2.register(address)
        } else if address == REG_NR50_ADDR {
            self.reg_nr50
        } else if address == REG_NR51_ADDR {
            self.reg_nr51
        } else if address == REG_NR52_ADDR {
            (self.reg_nr52 & 0b1000_0000) | 0b0111_0000 | (if self.channel_2.enabled {
                2u8
            } else {
                0u8
            })
        } else {
            0xFF
        }
    }

    fn write_register(&mut self, address: u16, value: u8)
        requires
            old(self).wf(),
        ensures
            final(self).wf(),
            *final(self) == old(self).register_written(address, value),
    {
        if REG_NR21_ADDR <= address && address <= REG_NR24_ADDR {
            self.channel_2.write(address, value);
        } else if address == REG_NR50_ADDR {
            self.reg_nr50 = value;
        } else if address == REG_NR51_ADDR {
            self.reg_nr51 = value;
        }
    }
}

impl MemoryRegion for Apu {
    open spec fn maps(address: u16) -> bool {
        IO_SOUND_REGION_START <= address <= IO_SOUND_REGION_END
    }

    open spec fn inv(&self) -> bool {
        self.wf()
    }

    fn read(&self, address: u16) -> (r: u8)
        ensures
            r == self.register(address),
    {
        if REG_NR21_ADDR <= address && address <= REG_NR24_ADDR {
            self.channel_2.read(address)
        } else if address == REG_NR50_ADDR {
            self.reg_nr50
        } else if address == REG_NR51_ADDR {
            self.reg_nr51
        } else if address == REG_NR52_ADDR {
            let mut value = (self.reg_nr52 & 0b1000_0000) | 0b0111_0000;
            assert(value | 0u8 == value) by (bit_vector);
            if self.channel_2.is_enabled() {
                value = value | 2;
            }
            value
        } else {
            0xFF
        }
    }

    /// While the sound circuits are off only the length registers, the first wave byte and
    /// NR52 take writes.  Switching them off clears every register from NR10 to NR51 but
    /// keeps the length counter.
    fn write(&mut self, address: u16, value: u8)
        ensures
            *final(self) == old(self).written(address, value),
    {
        if !self.is_enabled() && address != WAVE_PATTERN_RAM_START && address != REG_NR11_ADDR
            && address != REG_NR21_ADDR && address != REG_NR31_ADDR && address != REG_NR41_ADDR
            && address != REG_NR52_ADDR {
            return;
        }
        if address == REG_NR52_ADDR {
            let enabled = value & 0b1000_0000 == 0b1000_0000;
            let len_ch2 = self.channel_2.length_counter();

            if enabled && !self.is_enabled() {
                self.fs_step = 0;
            } else if !enabled && self.is_enabled() {
                let mut addr = REG_NR10_ADDR;
                let ghost s0 = *self;
                while addr < REG_NR52_ADDR
                    invariant
                        REG_NR10_ADDR <= addr <= REG_NR52_ADDR,
                        self.wf(),
                        *self == s0.cleared_upto(addr),
                    decreases REG_NR52_ADDR - addr,
                {
                    self.write_register(addr, 0x00);
                    addr = addr + 1;
                }
            }
            // restore old counter
            self.channel_2.set_length_counter(len_ch2);
            self.reg_nr52 = value & 0x80;
        } else {
            self.write_register(address, value);
        }
    }
}

proof fn lemma_cleared_upto(a: Apu, end: u16)
    requires
        REG_NR10_ADDR <= end <= REG_NR52_ADDR,
    ensures
        a.cleared_upto(end).reg_nr50 == (if end > REG_NR50_ADDR { 0u8 } else { a.reg_nr50 }),
        a.cleared_upto(end).reg_nr51 == (if end > REG_NR51_ADDR { 0u8 } else { a.reg_nr51 }),
        a.cleared_upto(end).reg_nr52 == a.reg_nr52,
    decreases end - REG_NR10_ADDR,
{
    if end > REG_NR10_ADDR {
        lemma_cleared_upto(a, (end - 1) as u16);
    }
}

/// Switching the sound circuits off clears the master volume and the routing registers,
/// keeps the length counter of channel 2, and NR52 then reads the power bit as 0; switching
/// them on restarts the frame sequencer.
pub proof fn law_power_off(a: Apu, value: u8)
    ensures
        a.powered() && value & 0x80 == 0 ==> {
            let b = a.written(REG_NR52_ADDR, value);
            &&& !b.powered()
            &&& b.reg_nr50 == 0
            &&& b.reg_nr51 == 0
            &&& b.channel_2.length_counter == a.channel_2.length_counter
            &&& b.register(REG_NR52_ADDR) & 0x80 == 0
        },
        !a.powered() && value & 0x80 == 0x80 ==> {
            let b = a.written(REG_NR52_ADDR, value);
            &&& b.powered()
            &&& b.fs_step == 0
        },
{
    lemma_cleared_upto(a, REG_NR52_ADDR);
    let r = (value & 0x80u8);
    let c: u8 = if a.written(REG_NR52_ADDR, value).channel_2.enabled { 2u8 } else { 0u8 };
    assert(value & 0x80u8 == 0u8 ==> ((r & 0x80u8) | 0x70u8 | c) & 0x80u8 == 0u8 && (r >> 7u8) == 0u8)
        by (bit_vector)
        requires
            r == value & 0x80u8,
            c == 0u8 || c == 2u8,
    ;
    assert(value & 0x80u8 == 0x80u8 ==> (r >> 7u8) != 0u8) by (bit_vector)
        requires
            r == value & 0x80u8,
    ;
    assert((value & 0b1000_0000u8 == 0b1000_0000u8) == (value & 0x80u8 == 0x80u8));
}

} // verus!
