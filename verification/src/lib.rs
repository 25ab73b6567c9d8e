//! `padme_core` is a gameboy emulator engine: the CPU, the bus and its devices, the
//! cartridge controllers, the pixel processing unit and the sound controller, with their
//! behaviour stated as contracts.
use vstd::prelude::*;

pub mod apu;
pub mod bitops;
pub mod bus;
pub mod collections;
pub mod cpu;
pub mod default;
pub mod error;
pub mod interrupt;
pub mod joypad;
pub mod ppu;
pub mod ram;
pub mod region;
pub mod rom;
pub mod serial;
pub mod system;
pub mod timer;

pub use apu::{AudioOutput, AUDIO_SAMPLE_RATE};
pub use cpu::CLOCK_SPEED;
pub use error::Error;
pub use joypad::Button;
pub use ppu::{Pixel, Screen, FRAME_HEIGHT, FRAME_WIDTH};
pub use rom::{CartridgeType, CgbMode, Licensee, Rom};
pub use serial::SerialOutput;
pub use system::System;

verus! {
} // verus!
