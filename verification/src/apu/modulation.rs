use vstd::prelude::*;

verus! {

/// Level (0 or 1) of step `cursor` of the wave duty pattern `duty`:
/// 12.5%, 25%, 50% and 75%.
pub open spec fn duty_level(duty: u8, cursor: u8) -> u8 {
    if duty == 0 {
        if cursor == 7 { 1 } else { 0 }
    } else if duty == 1 {
        if cursor == 0 || cursor == 7 { 1 } else { 0 }
    } else if duty == 2 {
        if cursor == 0 || cursor >= 5 { 1 } else { 0 }
    } else {
        if cursor == 0 || cursor == 7 { 0 } else { 1 }
    }
}

/// Level of a step of a wave duty pattern.
pub fn wave_duty_level(duty: u8, cursor: u8) -> (l: u8)
    ensures
        l == duty_level(duty, cursor),
{
    if duty == 0 {
        if cursor == 7 { 1 } else { 0 }
    } else if duty == 1 {
        if cursor == 0 || cursor == 7 { 1 } else { 0 }
    } else if duty == 2 {
        if cursor == 0 || cursor >= 5 { 1 } else { 0 }
    } else {
        if cursor == 0 || cursor == 7 { 0 } else { 1 }
    }
}

/// The 4-bit amplitude that a channel feeds to its DAC.
pub trait DigitalAmplitude {
    fn digital_amplitude(&self) -> u8;
}

/// The frequency timer of a channel.
pub trait Clock {
    fn frequency(&self) -> u32;

    fn frequency_timer(&self) -> u32;

    fn set_frequency_timer(&mut self, value: u32);

    fn reset_frequency_timer(&mut self);
}

/// The current waveform level of a channel.
pub trait Sample {
    fn sample(&self) -> u8;
}

/// One T-cycle of a channel.
pub trait Step {
    fn step(&mut self);
}

/// A sound channel.
pub trait Channel: DigitalAmplitude + Clock + Sample + Step {
    fn is_enabled(&self) -> bool;

    fn set_enabled(&mut self, enabled: bool);

    fn is_dac_enabled(&self) -> bool;

    fn trigger(&mut self);
}

/// The volume envelope of a channel.
pub trait EnvelopeModulation {
    fn envelope_register(&self) -> u8;

    fn envelope_volume(&self) -> u8;

    fn set_envelope_volume(&mut self, value: u8);

    fn envelope_init_volume(&self) -> u8;

    fn is_envelope_increasing(&self) -> bool;

    fn envelope_period(&self) -> u8;

    fn reset_envelope(&mut self);

    fn volume_step(&mut self);
}

/// The length counter of a channel.
pub trait LengthModulation: Channel {
    fn is_length_enabled(&self) -> bool;

    fn length_counter(&self) -> u16;

    fn set_length_counter(&mut self, value: u16);

    fn set_half_length_period(&mut self, half: bool);

    fn length_step(&mut self);
}

/// The frequency sweep of a square channel.
pub trait SweepModulation: Channel + WaveModulation {
    fn sweep_register(&self) -> u8;

    fn is_sweep_enabled(&self) -> bool;

    fn set_sweep_enabled(&mut self, enabled: bool);

    fn set_sweep_was_decreasing(&mut self, decreasing: bool);

    fn sweep_period(&self) -> u8;

    fn is_sweep_decreasing(&self) -> bool;

    fn sweep_shift(&self) -> u8;

    fn reset_sweep(&mut self);

    fn calculate_sweep_frequency(&mut self) -> u16;

    fn sweep_step(&mut self);
}

/// The duty waveform of a square channel.
pub trait WaveModulation {
    fn wave_cursor(&self) -> u8;

    fn wave_duty(&self) -> u8;

    fn set_wave_cursor(&mut self, value: u8);

    fn inc_wave_cursor(&mut self);

    fn reset_wave(&mut self);

    fn wave_sample(&self) -> u8;
}

/// The four duty patterns are high on 1, 2, 4 and 6 of their 8 steps (12.5%, 25%, 50% and
/// 75%), and the 75% pattern is the 25% pattern inverted.
pub proof fn law_duty_cycles(duty: u8, cursor: u8)
    requires
        duty < 4,
        cursor < 8,
    ensures
        duty_level(duty, 0) + duty_level(duty, 1) + duty_level(duty, 2) + duty_level(duty, 3)
            + duty_level(duty, 4) + duty_level(duty, 5) + duty_level(duty, 6) + duty_level(duty, 7)
            == (if duty == 0 {
            1int
        } else if duty == 1 {
            2int
        } else if duty == 2 {
            4int
        } else {
            6int
        }),
        duty_level(3, cursor) == 1 - duty_level(1, cursor),
{
}

} // verus!
