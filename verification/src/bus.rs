use vstd::prelude::*;

use crate::apu::Apu;
use crate::interrupt::InterruptHandler;
use crate::joypad::Joypad;
use crate::ppu::Ppu;
use crate::ram::Ram;
use crate::region::{
    MemoryRegion, ECHORAM_REGION_END, ECHORAM_REGION_START, ERAM_REGION_END, ERAM_REGION_START,
    HRAM_REGION_END, HRAM_REGION_SIZE, HRAM_REGION_START, IO_JOYPAD_REGION, IO_PPU_REGION_END,
    IO_PPU_REGION_START, IO_SERIAL_REGION_END, IO_SERIAL_REGION_START, IO_SOUND_REGION_END,
    IO_SOUND_REGION_START, IO_TIMER_REGION_END, IO_TIMER_REGION_START, OAM_REGION_END,
    OAM_REGION_SIZE, OAM_REGION_START, REG_DMA_ADDR, REG_IE_ADDR, REG_IF_ADDR, REG_LCDC_ADDR,
    REG_LY_ADDR, REG_SB_ADDR, REG_SC_ADDR, REG_SCY_ADDR, REG_TAC_ADDR, REG_TIMA_ADDR,
    REG_WX_ADDR, ROM_REGION_END, VRAM_REGION_END,
    VRAM_REGION_START, WRAM_REGION_END, WRAM_REGION_SIZE, WRAM_REGION_START,
};
use crate::rom::Rom;
use crate::serial::Serial;
use crate::timer::Timer;

verus! {

/// The address bus: every memory mapped device of the console.
pub struct Bus {
    /// Access to io APU ports
    pub apu: Apu,
    /// Access to io joypad ports
    pub joypad: Joypad,
    /// Access to io PPU ports
    pub ppu: Ppu,
    /// Access to io serial ports
    pub serial: Serial,
    /// Access to io timer ports
    pub timer: Timer,
    /// Access to cartridge
    pub rom: Rom,
    /// Shareable it handler
    pub it: InterruptHandler,
    /// Working ram
    pub wram: Ram<WRAM_REGION_SIZE>,
    /// High ram
    pub hram: Ram<HRAM_REGION_SIZE>,
}

impl Bus {
    pub open spec fn wf(&self) -> bool {
        &&& self.apu.wf()
        &&& self.ppu.wf()
        &&& self.timer.wf()
        &&& self.rom.wf()
    }

    /// The byte that a read of `address` gives; unmapped addresses read as 0xFF.
    pub open spec fn peek(&self, address: u16) -> u8 {
        if address <= ROM_REGION_END {
            self.rom.peek(address)
        } else if address <= VRAM_REGION_END {
            self.ppu.peek(address)
        } else if address <= ERAM_REGION_END {
            self.rom.peek(address)
        } else if address <= WRAM_REGION_END {
            self.wram.bytes@[address - WRAM_REGION_START]
        } else if address <= ECHORAM_REGION_END {
            self.wram.bytes@[address - ECHORAM_REGION_START]
        } else if address <= OAM_REGION_END {
            self.ppu.peek(address)
        } else if address == IO_JOYPAD_REGION {
            self.joypad.p1()
        } else if IO_SERIAL_REGION_START <= address <= IO_SERIAL_REGION_END {
            if address == REG_SB_ADDR {
                self.serial.reg_sb
            } else {
                self.serial.reg_sc
            }
        } else if IO_TIMER_REGION_START <= address <= IO_TIMER_REGION_END {
            self.timer.register(address)
        } else if IO_SOUND_REGION_START <= address <= IO_SOUND_REGION_END {
            self.apu.register(address)
        } else if IO_PPU_REGION_START <= address <= IO_PPU_REGION_END {
            self.ppu.peek(address)
        } else if HRAM_REGION_START <= address <= HRAM_REGION_END {
            self.hram.bytes@[address - HRAM_REGION_START]
        } else if address == REG_IF_ADDR {
            self.it.reg_if
        } else if address == REG_IE_ADDR {
            self.it.reg_ie
        } else {
            0xFF
        }
    }

    /// The bus after a write of `value` on `address`; unmapped addresses take nothing.
    pub open spec fn poked(self, address: u16, value: u8) -> Bus {
        if address <= ROM_REGION_END {
            Bus { rom: self.rom.poked(address, value), ..self }
        } else if address <= VRAM_REGION_END {
            Bus { ppu: self.ppu.poked(address, value), ..self }
        } else if address <= ERAM_REGION_END {
            Bus { rom: self.rom.poked(address, value), ..self }
        } else if address <= WRAM_REGION_END {
            Bus {
                wram: Ram {
                    bytes: vstd::array::spec_array_update(
                        self.wram.bytes,
                        address - WRAM_REGION_START,
                        value,
                    ),
                },
                ..self
            }
        } else if address <= ECHORAM_REGION_END {
            Bus {
                wram: Ram {
                    bytes: vstd::array::spec_array_update(
                        self.wram.bytes,
                        address - ECHORAM_REGION_START,
                        value,
                    ),
                },
                ..self
            }
        } else if address <= OAM_REGION_END {
            Bus { ppu: self.ppu.poked(address, value), ..self }
        } else if address == IO_JOYPAD_REGION {
            Bus { joypad: Joypad { reg_p1: !value, ..self.joypad }, ..self }
        } else if IO_SERIAL_REGION_START <= address <= IO_SERIAL_REGION_END {
            if address == REG_SB_ADDR {
                Bus { serial: Serial { reg_sb: value, ..self.serial }, ..self }
            } else {
                Bus { serial: Serial { reg_sc: value, ..self.serial }, ..self }
            }
        } else if IO_TIMER_REGION_START <= address <= IO_TIMER_REGION_END {
            Bus { timer: self.timer.written(address, value), ..self }
        } else if IO_SOUND_REGION_START <= address <= IO_SOUND_REGION_END {
            Bus { apu: self.apu.written(address, value), ..self }
        } else if IO_PPU_REGION_START <= address <= IO_PPU_REGION_END {
            Bus { ppu: self.ppu.poked(address, value), ..self }
        } else if HRAM_REGION_START <= address <= HRAM_REGION_END {
            Bus {
                hram: Ram {
                    bytes: vstd::array::spec_array_update(
                        self.hram.bytes,
                        address - HRAM_REGION_START,
                        value,
                    ),
                },
                ..self
            }
        } else if address == REG_IF_ADDR {
            Bus { it: InterruptHandler { reg_if: value, ..self.it }, ..self }
        } else if address == REG_IE_ADDR {
            Bus { it: InterruptHandler { reg_ie: value, ..self.it }, ..self }
        } else {
            self
        }
    }

    /// The bus after one step of the OAM DMA, if one is running.
    pub open spec fn dma_ticked(self) -> Bus {
        if self.ppu.dma_active {
            let byte = self.peek((self.ppu.reg_dma * 0x100 + self.ppu.dma_idx) as u16);
            Bus { ppu: self.ppu.dma_written(byte), ..self }
        } else {
            self
        }
    }

    pub fn new(rom: Rom) -> (b: Self)
        requires
            rom.wf(),
        ensures
            b.wf(),
            b.rom == rom,
            b.apu == Apu::initial(),
            b.ppu.is_initial(),
            b.joypad == Joypad::initial(),
            b.serial == Serial::initial(),
            b.timer == Timer::initial(),
            b.it == InterruptHandler::initial(),
            b.wram.bytes@ == Seq::new(WRAM_REGION_SIZE as nat, |i: int| 0u8),
            b.hram.bytes@ == Seq::new(HRAM_REGION_SIZE as nat, |i: int| 0u8),
    {
        Self {
            apu: Apu::new(),
            joypad: Joypad::new(),
            ppu: Ppu::new(),
            serial: Serial::new(),
            timer: Timer::new(),
            rom,
            hram: Ram::new(),
            wram: Ram::new(),
            it: InterruptHandler::new(),
        }
    }

    /// Swap the cartridge.
    pub fn set_rom(&mut self, rom: Rom)
        requires
            old(self).wf(),
            rom.wf(),
        ensures
            final(self).wf(),
            *final(self) == (Bus { rom, ..*old(self) }),
    {
        self.rom = rom;
    }

    /// Read the byte that the device mapped at `address` answers.
    pub fn read(&self, address: u16) -> (r: u8)
        requires
            self.wf(),
        ensures
            r == self.peek(address),
    {
        if address <= ROM_REGION_END {
            self.rom.read(address)
        } else if address <= VRAM_REGION_END {
            self.ppu.read(address)
        } else if address <= ERAM_REGION_END {
            self.rom.read(address)
        } else if address <= WRAM_REGION_END {
            self.wram.read(address - WRAM_REGION_START)
        } else if address <= ECHORAM_REGION_END {
            self.wram.read(address - ECHORAM_REGION_START)
        } else if address <= OAM_REGION_END {
            self.ppu.read(address)
        } else if address == IO_JOYPAD_REGION {
            self.joypad.read(address)
        } else if IO_SERIAL_REGION_START <= address && address <= IO_SERIAL_REGION_END {
            self.serial.read(address)
        } else if IO_TIMER_REGION_START <= address && address <= IO_TIMER_REGION_END {
            self.timer.read(address)
        } else if IO_SOUND_REGION_START <= address && address <= IO_SOUND_REGION_END {
            self.apu.read(address)
        } else if IO_PPU_REGION_START <= address && address <= IO_PPU_REGION_END {
            self.ppu.read(address)
        } else if HRAM_REGION_START <= address && address <= HRAM_REGION_END {
            self.hram.read(address - HRAM_REGION_START)
        } else if address == REG_IF_ADDR || address == REG_IE_ADDR {
            self.it.read(address)
        } else {
            0xFF
        }
    }

    /// Hand a write to the device mapped at `address`.
    pub fn write(&mut self, address: u16, value: u8)
        requires
            old(self).wf(),
        ensures
            final(self).wf(),
            *final(self) == old(self).poked(address, value),
    {
        if address <= ROM_REGION_END {
            self.rom.write(address, value);
        } else if address <= VRAM_REGION_END {
            self.ppu.write(address, value);
        } else if address <= ERAM_REGION_END {
            self.rom.write(address, value);
        } else if address <= WRAM_REGION_END {
            self.wram.write(address - WRAM_REGION_START, value);
        } else if address <= ECHORAM_REGION_END {
            self.wram.write(address - ECHORAM_REGION_START, value);
        } else if address <= OAM_REGION_END {
            self.ppu.write(address, value);
        } else if address == IO_JOYPAD_REGION {
            self.joypad.write(address, value);
        } else if IO_SERIAL_REGION_START <= address && address <= IO_SERIAL_REGION_END {
            self.serial.write(address, value);
        } else if IO_TIMER_REGION_START <= address && address <= IO_TIMER_REGION_END {
            self.timer.write(address, value);
        } else if IO_SOUND_REGION_START <= address && address <= IO_SOUND_REGION_END {
            self.apu.write(address, value);
        } else if IO_PPU_REGION_START <= address && address <= IO_PPU_REGION_END {
            self.ppu.write(address, value);
        } else if HRAM_REGION_START <= address && address <= HRAM_REGION_END {
            self.hram.write(address - HRAM_REGION_START, value);
        } else if address == REG_IF_ADDR || address == REG_IE_ADDR {
            self.it.write(address, value);
        }
    }

    /// Move one byte of a running OAM DMA.
    pub fn dma_tick(&mut self)
        requires
            old(self).wf(),
        ensures
            final(self).wf(),
            *final(self) == old(self).dma_ticked(),
    {
        if !self.ppu.is_dma_active() {
            return;
        }
        // The bus can read addresses from 0x0000 to 0xDF9F
        let byte = self.read(self.ppu.dma_source());
        self.ppu.dma_write(byte);
    }
}

/// Whether `address` is in working RAM, its echo, or high RAM.
pub open spec fn is_ram_address(address: u16) -> bool {
    ||| WRAM_REGION_START <= address <= ECHORAM_REGION_END
    ||| HRAM_REGION_START <= address <= HRAM_REGION_END
}

/// The RAM cell that a RAM address stands for: high RAM or not, and the offset (an echo
/// address stands for the working RAM cell it mirrors).
pub open spec fn ram_cell(address: u16) -> (bool, int) {
    if address <= WRAM_REGION_END {
        (false, address - WRAM_REGION_START)
    } else if address <= ECHORAM_REGION_END {
        (false, address - ECHORAM_REGION_START)
    } else {
        (true, address - HRAM_REGION_START)
    }
}

/// A read of a RAM address gives back the last value written there, and a write to a RAM
/// address leaves every other RAM address as it was (an echo address and the working RAM
/// address it mirrors being the same cell).
pub proof fn law_ram_read_after_write(bus: Bus, a: u16, b: u16, v: u8)
    requires
        is_ram_address(a),
        is_ram_address(b),
    ensures
        bus.poked(a, v).peek(a) == v,
        bus.poked(a, v).peek(b) == (if ram_cell(a) == ram_cell(b) { v } else { bus.peek(b) }),
{
    broadcast use vstd::array::axiom_spec_array_update;

}

/// The echo area reads as the working RAM 0x2000 bytes below it.
pub proof fn law_echo_ram(bus: Bus, a: u16)
    requires
        ECHORAM_REGION_START <= a <= ECHORAM_REGION_END,
    ensures
        bus.peek(a) == bus.peek((a - 0x2000) as u16),
{
}

/// No write on the bus changes the cartridge image.
pub proof fn law_rom_image_is_read_only(bus: Bus, a: u16, v: u8)
    ensures
        bus.poked(a, v).rom.storage == bus.rom.storage,
{
}

/// The unused area 0xFEA0..0xFEFF and the unmapped I/O ports read as 0xFF and take no
/// write.
pub proof fn law_unmapped(bus: Bus, a: u16, v: u8)
    requires
        0xFEA0 <= a <= 0xFEFF || a == 0xFF03 || (0xFF08 <= a <= 0xFF0E) || (0xFF4C <= a
            <= 0xFF7F),
    ensures
        bus.peek(a) == 0xFF,
        bus.poked(a, v) == bus,
{
}

/// A read of video memory, object memory, the interrupt registers, the serial and timer
/// registers (but DIV), and the PPU registers but STAT and LY gives back the last value
/// written there.
pub proof fn law_register_read_after_write(bus: Bus, a: u16, v: u8)
    requires
        VRAM_REGION_START <= a <= VRAM_REGION_END || OAM_REGION_START <= a <= OAM_REGION_END
            || a == REG_IE_ADDR || a == REG_IF_ADDR || a == REG_SB_ADDR || a == REG_SC_ADDR
            || REG_TIMA_ADDR <= a <= REG_TAC_ADDR || a == REG_LCDC_ADDR || (REG_SCY_ADDR <= a
            <= REG_WX_ADDR && a != REG_LY_ADDR),
    ensures
        bus.poked(a, v).peek(a) == v,
{
    broadcast use vstd::array::axiom_spec_array_update;

}

/// The bus after `k` DMA ticks.
pub open spec fn dma_after(bus: Bus, k: nat) -> Bus
    decreases k,
{
    if k == 0 {
        bus
    } else {
        dma_after(bus, (k - 1) as nat).dma_ticked()
    }
}

/// One more DMA tick on the bus after `k` ticks gives the bus after `k + 1` ticks, so a
/// run of `dma_tick` calls follows `dma_after`.
pub proof fn lemma_dma_after_next(bus: Bus, k: nat)
    ensures
        dma_after(bus, k + 1) == dma_after(bus, k).dma_ticked(),
{
    assert((k + 1 - 1) as nat == k);
}

/// Below the echo area the bus reads the same through a change of OAM or of the DMA state.
proof fn lemma_peek_through_oam(b: Bus, c: Bus, a: u16)
    requires
        a < ECHORAM_REGION_START,
        c == (Bus {
            ppu: Ppu {
                oam: c.ppu.oam,
                dma_idx: c.ppu.dma_idx,
                dma_active: c.ppu.dma_active,
                reg_dma: c.ppu.reg_dma,
                ..b.ppu
            },
            ..b
        }),
    ensures
        c.peek(a) == b.peek(a),
{
}

/// The first `k` ticks of a DMA started on a source page below 0xE0.
proof fn lemma_dma_progress(b0: Bus, k: nat)
    requires
        k <= OAM_REGION_SIZE,
        b0.ppu.dma_active,
        b0.ppu.dma_idx == 0,
        b0.ppu.reg_dma <= 0xDF,
    ensures
        ({
            let b = dma_after(b0, k);
            &&& b == (Bus {
                ppu: Ppu {
                    oam: b.ppu.oam,
                    dma_idx: k as u8,
                    dma_active: k < OAM_REGION_SIZE,
                    ..b0.ppu
                },
                ..b0
            })
            &&& forall|j: int|
                0 <= j < k ==> #[trigger] b.ppu.oam@[j] == b0.peek(
                    (b0.ppu.reg_dma * 0x100 + j) as u16,
                )
            &&& forall|j: int| k <= j < OAM_REGION_SIZE ==> #[trigger] b.ppu.oam@[j] == b0.ppu.oam@[j]
        }),
    decreases k,
{
    broadcast use vstd::array::axiom_spec_array_update;

    if k > 0 {
        lemma_dma_progress(b0, (k - 1) as nat);
        let prev = dma_after(b0, (k - 1) as nat);
        let a = (b0.ppu.reg_dma * 0x100 + (k - 1)) as u16;
        lemma_peek_through_oam(b0, prev, a);
    }
}

/// A DMA started from a source page below 0xE0 copies the 160 bytes of the page into
/// OAM, one per tick, and then stops: afterwards OAM reads as the source page reads, and
/// further ticks change nothing.
pub proof fn law_dma_copies(bus: Bus, src: u8)
    requires
        src <= 0xDF,
    ensures
        ({
            let b = dma_after(bus.poked(REG_DMA_ADDR, src), OAM_REGION_SIZE as nat);
            &&& !b.ppu.dma_active
            &&& forall|j: int|
                0 <= j < OAM_REGION_SIZE ==> #[trigger] b.ppu.oam@[j] == bus.peek(
                    (src * 0x100 + j) as u16,
                )
            &&& forall|j: int|
                0 <= j < OAM_REGION_SIZE ==> #[trigger] b.peek((OAM_REGION_START + j) as u16)
                    == b.peek((src * 0x100 + j) as u16)
            &&& b.dma_ticked() == b
        }),
{
    let b0 = bus.poked(REG_DMA_ADDR, src);
    lemma_dma_progress(b0, OAM_REGION_SIZE as nat);
    let b = dma_after(b0, OAM_REGION_SIZE as nat);
    assert forall|j: int| 0 <= j < OAM_REGION_SIZE implies #[trigger] b.peek(
        (OAM_REGION_START + j) as u16,
    ) == b.peek((src * 0x100 + j) as u16) by {
        lemma_peek_through_oam(b0, b, (src * 0x100 + j) as u16);
        lemma_peek_through_oam(bus, b0, (src * 0x100 + j) as u16);
    }
    assert forall|j: int| 0 <= j < OAM_REGION_SIZE implies #[trigger] b0.peek(
        (src * 0x100 + j) as u16,
    ) == bus.peek((src * 0x100 + j) as u16) by {
        lemma_peek_through_oam(bus, b0, (src * 0x100 + j) as u16);
    }
}

} // verus!
