# padme_core

A Game Boy emulator engine whose behaviour is stated in contracts and proved with Verus.

- `src/` is the verified library: the CPU (`cpu/`), the bus and its devices (RAM, timer,
  joypad, serial port, interrupts), the cartridge and its bank controllers (`rom/`), the
  pixel processing unit (`ppu/`), the sound controller (`apu/`: its master registers,
  channel 2 and the frequency sweep unit of channel 1; the other three channels are not
  part of this crate, so their registers read 0xFF, take no write and NR52 never reports
  them as on) and the console that ties
  them together (`system.rs`), and a disassembler that names each instruction
  (`cpu/disasm.rs`).  Each device has a mathematical model (spec functions such
  as `peek`, `poked`, `stepped` or `dot`) and its operations are proved against it.
- A cartridge image is held in a `Vec<u8>`.  The screen, the serial output and the
  speaker are traits whose spec functions (`frame`, `sent`, `levels`) let the contracts
  state what the emulator hands to an output that keeps it.
- `tests/` runs the library on concrete programs and cartridge images.
- `app/` is the platform side: floating point audio samples, frame pacing with
  `Duration`, loading cartridge files and an instruction trace on the standard error.
