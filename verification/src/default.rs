use vstd::prelude::*;

use crate::apu::AudioOutput;
use crate::ppu::{Pixel, Screen};
use crate::serial::SerialOutput;

verus! {

/// A screen that shows nothing.
pub struct NoScreen;

impl Screen for NoScreen {
    fn set_pixel(&mut self, _px: &Pixel, _x: u8, _y: u8) {
    }

    fn update(&mut self) {
    }
}

/// An audio output that plays nothing.
pub struct NoSpeaker;

impl AudioOutput for NoSpeaker {
    fn set_levels(&mut self, _left: i16, _right: i16) {
    }
}

/// A serial port with nothing plugged in.
pub struct NoSerial;

impl SerialOutput for NoSerial {
    fn putchar(&mut self, _ch: u8) {
    }
}

} // verus!
