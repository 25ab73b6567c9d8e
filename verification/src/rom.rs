pub mod header;
pub mod mbc;
#[allow(clippy::module_inception)]
pub mod rom;

pub use header::{CartridgeType, CgbMode, Licensee};
pub use rom::Rom;
