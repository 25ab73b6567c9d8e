#[allow(clippy::module_inception)]
pub mod apu;
pub mod channel2;
pub mod modulation;
pub mod sweep;

pub use apu::{Apu, AudioOutput, AUDIO_SAMPLE_RATE};
pub use channel2::Channel2;
pub use sweep::Sweep;
