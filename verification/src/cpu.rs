pub mod alu;
#[allow(clippy::module_inception)]
pub mod cpu;
pub mod disasm;
pub mod execute;

pub use cpu::{Cpu, CLOCK_SPEED};
pub use disasm::disassemble;
