use vstd::prelude::*;

verus! {

/// What can go wrong when loading a cartridge.
#[derive(Debug, Clone, Copy, PartialEq, Eq, Structural)]
pub enum Error {
    /// The image is shorter than the two fixed ROM banks; the length is given.
    InvalidRomSize(usize),
}

} // verus!
