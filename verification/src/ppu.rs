#[allow(clippy::module_inception)]
pub mod ppu;
pub mod pipeline;
pub mod pixel;

pub use pipeline::{FetchState, Pipeline};
pub use pixel::{Pixel, Sprite};
pub use ppu::{Ppu, Screen, FRAME_HEIGHT, FRAME_WIDTH};
