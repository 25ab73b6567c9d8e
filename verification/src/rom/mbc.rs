use vstd::prelude::*;
use crate::bitops::lemma_byte_masks;

use crate::region::{ERAM_REGION_END, ERAM_REGION_START, ROM_REGION_END, ROM_REGION_SIZE};

verus! {

pub const DEFAULT_RAM_BANK: u8 = 0x00;
pub const DEFAULT_ROM_BANK: u8 = 0x01;

pub const RAM_ENABLE_START: u16 = 0x0000;
pub const RAM_ENABLE_END: u16 = 0x1FFF;
pub const ROM_BANK_SEL_START: u16 = 0x2000;
pub const ROM_BANK_SEL_END: u16 = 0x3FFF;
pub const RAM_BANK_SEL_START: u16 = 0x4000;
pub const RAM_BANK_SEL_END: u16 = 0x5FFF;
pub const BANK_MODE_START: u16 = 0x6000;
pub const BANK_MODE_END: u16 = 0x7FFF;

/// Size of the cartridge RAM: four banks of 8KB
pub const ERAM_SIZE: usize = 0x8000;
pub const ROM_REGION_BANK0_END: u16 = 0x3FFF;
pub const ROM_REGION_BANKN_START: u16 = 0x4000;

pub const ROM_BANK_SIZE: usize = 0x4000;
pub const RAM_BANK_SIZE: usize = 0x2000;

/// Addresses that a cartridge controller answers: the ROM area and the external RAM area.
pub open spec fn cartridge_address(address: u16) -> bool {
    address <= ROM_REGION_END || (ERAM_REGION_START <= address <= ERAM_REGION_END)
}

/// The byte of the image at `index`; an index past its end reads as 0xFF.
pub open spec fn image_byte(storage: Seq<u8>, index: int) -> u8 {
    if 0 <= index < storage.len() {
        storage[index]
    } else {
        0xFF
    }
}

/// Index in the image of an address of the switchable ROM bank.
pub open spec fn banked_rom_index(bank: u8, address: u16) -> int {
    (address - ROM_REGION_BANKN_START) + ROM_BANK_SIZE * bank
}

/// Index in the cartridge RAM of an address of the external RAM area.
pub open spec fn banked_ram_index(bank: u8, address: u16) -> int {
    (address - ERAM_REGION_START) + RAM_BANK_SIZE * bank
}

/// The bank that an MBC1 selects for a written bank number: 0x00, 0x20, 0x40 and 0x60
/// select the next bank.
pub open spec fn mbc1_bank(bank: u8) -> u8 {
    if bank == 0x00 || bank == 0x20 || bank == 0x40 || bank == 0x60 {
        (bank + 1) as u8
    } else {
        bank
    }
}

/// The interface of a cartridge memory bank controller.
pub trait MbcController: Sized {
    spec fn wf(&self) -> bool;

    /// The byte answered on `address`, over the cartridge image `storage`.
    spec fn peek(&self, storage: Seq<u8>, address: u16) -> u8;

    /// The controller after a write of `value` on `address`.
    spec fn poked(&self, address: u16, value: u8) -> Self;

    fn read(&self, storage: &[u8], address: u16) -> (r: u8)
        requires
            self.wf(),
            storage@.len() >= ROM_REGION_SIZE,
            cartridge_address(address),
        ensures
            r == self.peek(storage@, address),
    ;

    fn write(&mut self, address: u16, value: u8)
        requires
            old(self).wf(),
            cartridge_address(address),
        ensures
            final(self).wf(),
            *final(self) == old(self).poked(address, value),
    ;
}

/// Cartridge without controller: 32KB of ROM, nothing else.
#[derive(PartialEq, Eq, Structural)]
pub struct Mbc0;

impl MbcController for Mbc0 {
    open spec fn wf(&self) -> bool {
        true
    }

    open spec fn peek(&self, storage: Seq<u8>, address: u16) -> u8 {
        if address <= ROM_REGION_END {
            storage[address as int]
        } else {
            0xFF
        }
    }

    open spec fn poked(&self, address: u16, value: u8) -> Self {
        Mbc0
    }

    fn read(&self, storage: &[u8], address: u16) -> (r: u8) {
        if address <= ROM_REGION_END {
            storage[address as usize]
        } else {
            0xFF
        }
    }

    /// The ROM takes no write.
    fn write(&mut self, address: u16, value: u8) {
    }
}

/// MBC1 controller: switchable ROM banks and up to four 8KB RAM banks.
pub struct Mbc1 {
    /// External ram
    pub eram: [u8; ERAM_SIZE],
    /// Is ram enabled
    pub ram_enabled: bool,
    /// Select the rom bank
    pub rom_bank: u8,
    /// Select the ram bank
    pub ram_bank: u8,
    /// Whether bank mode is rom or ram
    pub ram_bank_mode: bool,
}

impl Mbc1 {
    pub fn new() -> (m: Self)
        ensures
            m.wf(),
            m.eram@ == Seq::new(ERAM_SIZE as nat, |i: int| 0u8),
            !m.ram_enabled,
            m.ram_bank == DEFAULT_RAM_BANK,
            m.rom_bank == DEFAULT_ROM_BANK,
            !m.ram_bank_mode,
    {
        let m = Self {
            eram: [0u8; ERAM_SIZE],
            ram_enabled: false,
            ram_bank: DEFAULT_RAM_BANK,
            rom_bank: DEFAULT_ROM_BANK,
            ram_bank_mode: false,
        };
        assert(m.eram@ =~= Seq::new(ERAM_SIZE as nat, |i: int| 0u8));
        m
    }

    fn set_rom_bank(&mut self, bank: u8)
        ensures
            *final(self) == (Mbc1 { rom_bank: mbc1_bank(bank), ..*old(self) }),
    {
        self.rom_bank = if bank == 0x00 || bank == 0x20 || bank == 0x40 || bank == 0x60 {
            bank + 1
        } else {
            bank
        };
    }
}

impl MbcController for Mbc1 {
    open spec fn wf(&self) -> bool {
        self.ram_bank < 4
    }

    open spec fn peek(&self, storage: Seq<u8>, address: u16) -> u8 {
        if address <= ROM_REGION_BANK0_END {
            storage[address as int]
        } else if address <= ROM_REGION_END {
            image_byte(storage, banked_rom_index(self.rom_bank, address))
        } else if self.ram_enabled {
            self.eram@[banked_ram_index(self.ram_bank, address)]
        } else {
            0xFF
        }
    }

    open spec fn poked(&self, address: u16, value: u8) -> Self {
        if address <= RAM_ENABLE_END {
            Mbc1 { ram_enabled: value & 0xA == 0xA, ..*self }
        } else if address <= ROM_BANK_SEL_END {
            Mbc1 { rom_bank: mbc1_bank((self.rom_bank & 0xE0) | (value & 0x1F)), ..*self }
        } else if address <= RAM_BANK_SEL_END {
            if self.ram_bank_mode {
                Mbc1 { ram_bank: value & 0x03, ..*self }
            } else {
                Mbc1 { rom_bank: mbc1_bank(((value & 0x03) << 5u8) | self.rom_bank), ..*self }
            }
        } else if address <= BANK_MODE_END {
            Mbc1 { ram_bank_mode: value & 0x01 == 0x01, ..*self }
        } else if self.ram_enabled {
            Mbc1 {
                eram: vstd::array::spec_array_update(
                    self.eram,
                    banked_ram_index(self.ram_bank, address),
                    value,
                ),
                ..*self
            }
        } else {
            *self
        }
    }

    fn read(&self, storage: &[u8], address: u16) -> (r: u8) {
        if address <= ROM_REGION_BANK0_END {
            storage[address as usize]
        } else if address <= ROM_REGION_END {
            let offset = address - ROM_REGION_BANKN_START;
            let idx = offset as usize + (ROM_BANK_SIZE * self.rom_bank as usize);
            if idx < storage.len() {
                storage[idx]
            } else {
                0xFF
            }
        } else if self.ram_enabled {
            let offset = address - ERAM_REGION_START;
            let idx = offset as usize + (RAM_BANK_SIZE * self.ram_bank as usize);
            self.eram[idx]
        } else {
            0xFF
        }
    }

    fn write(&mut self, address: u16, value: u8) {
        if address <= RAM_ENABLE_END {
            self.ram_enabled = (value & 0xA) == 0xA;
        } else if address <= ROM_BANK_SEL_END {
            let bank = value & 0x1F;
            self.set_rom_bank((self.rom_bank & 0xE0) | bank);
        } else if address <= RAM_BANK_SEL_END {
            let bank = value & 0x03;
            proof {
                lemma_byte_masks(value);
            }
            if self.ram_bank_mode {
                self.ram_bank = bank;
            } else {
                self.set_rom_bank(bank << 5 | self.rom_bank);
            }
        } else if address <= BANK_MODE_END {
            self.ram_bank_mode = (value & 0x01) == 0x01;
        } else if self.ram_enabled {
            let offset = address - ERAM_REGION_START;
            let idx = offset as usize + (RAM_BANK_SIZE * self.ram_bank as usize);
            self.eram[idx] = value;
        }
    }
}

/// MBC3 controller: switchable ROM banks, four 8KB RAM banks and a clock register.
pub struct Mbc3 {
    pub ram_timer_enabled: bool,
    pub rom_bank: u8,
    pub ram_bank: u8,
    pub reg_rtc: u8,
    pub rtc_mode: bool,
    pub eram: [u8; ERAM_SIZE],
}

impl Mbc3 {
    pub fn new() -> (m: Self)
        ensures
            m.wf(),
            m.eram@ == Seq::new(ERAM_SIZE as nat, |i: int| 0u8),
            !m.ram_timer_enabled,
            m.rom_bank == DEFAULT_ROM_BANK,
            m.ram_bank == DEFAULT_RAM_BANK,
            m.reg_rtc == 0,
            !m.rtc_mode,
    {
        let m = Self {
            ram_timer_enabled: false,
            rom_bank: DEFAULT_ROM_BANK,
            ram_bank: DEFAULT_RAM_BANK,
            reg_rtc: 0,
            rtc_mode: false,
            eram: [0u8; ERAM_SIZE],
        };
        assert(m.eram@ =~= Seq::new(ERAM_SIZE as nat, |i: int| 0u8));
        m
    }
}

impl MbcController for Mbc3 {
    open spec fn wf(&self) -> bool {
        self.ram_bank < 4
    }

    open spec fn peek(&self, storage: Seq<u8>, address: u16) -> u8 {
        if address <= ROM_REGION_BANK0_END {
            storage[address as int]
        } else if address <= ROM_REGION_END {
            image_byte(storage, banked_rom_index(self.rom_bank, address))
        } else if !self.ram_timer_enabled {
            0xFF
        } else if self.rtc_mode {
            self.reg_rtc
        } else {
            self.eram@[banked_ram_index(self.ram_bank, address)]
        }
    }

    open spec fn poked(&self, address: u16, value: u8) -> Self {
        if address <= RAM_ENABLE_END {
            Mbc3 { ram_timer_enabled: value & 0xA == 0xA, ..*self }
        } else if address <= ROM_BANK_SEL_END {
            Mbc3 { rom_bank: value, ..*self }
        } else if address <= RAM_BANK_SEL_END {
            if value <= 0x03 {
                Mbc3 { rtc_mode: false, ram_bank: value, ..*self }
            } else if 0x08 <= value <= 0x0C {
                Mbc3 { rtc_mode: true, ..*self }
            } else {
                *self
            }
        } else if address <= BANK_MODE_END {
            *self
        } else if !self.ram_timer_enabled {
            *self
        } else if self.rtc_mode {
            Mbc3 { reg_rtc: value, ..*self }
        } else {
            Mbc3 {
                eram: vstd::array::spec_array_update(
                    self.eram,
                    banked_ram_index(self.ram_bank, address),
                    value,
                ),
                ..*self
            }
        }
    }

    fn read(&self, storage: &[u8], address: u16) -> (r: u8) {
        if address <= ROM_REGION_BANK0_END {
            storage[address as usize]
        } else if address <= ROM_REGION_END {
            let offset = address - ROM_REGION_BANKN_START;
            let idx = offset as usize + (ROM_BANK_SIZE * self.rom_bank as usize);
            if idx < storage.len() {
                storage[idx]
            } else {
                0xFF
            }
        } else if self.ram_timer_enabled {
            if self.rtc_mode {
                self.reg_rtc
            } else {
                let offset = address - ERAM_REGION_START;
                let idx = offset as usize + (RAM_BANK_SIZE * self.ram_bank as usize);
                self.eram[idx]
            }
        } else {
            0xFF
        }
    }

    fn write(&mut self, address: u16, value: u8) {
        if address <= RAM_ENABLE_END {
            self.ram_timer_enabled = (value & 0xA) == 0xA;
        } else if address <= ROM_BANK_SEL_END {
            self.rom_bank = value;
        } else if address <= RAM_BANK_SEL_END {
            if value <= 0x03 {
                // Ram selection
                self.rtc_mode = false;
                self.ram_bank = value;
            } else if 0x08 <= value && value <= 0x0C {
                self.rtc_mode = true;
            }
        } else if address <= BANK_MODE_END {
        } else if self.ram_timer_enabled {
            if self.rtc_mode {
                self.reg_rtc = value;
            } else {
                let offset = address - ERAM_REGION_START;
                let idx = offset as usize + (RAM_BANK_SIZE * self.ram_bank as usize);
                self.eram[idx] = value;
            }
        }
    }
}

/// The controller of a loaded cartridge.
pub enum Mbc {
    Mbc0(Mbc0),
    Mbc1(Mbc1),
    Mbc3(Mbc3),
}

impl Mbc {
    pub open spec fn wf(&self) -> bool {
        match self {
            Mbc::Mbc0(m) => m.wf(),
            Mbc::Mbc1(m) => m.wf(),
            Mbc::Mbc3(m) => m.wf(),
        }
    }

    pub open spec fn peek(&self, storage: Seq<u8>, address: u16) -> u8 {
        match self {
            Mbc::Mbc0(m) => m.peek(storage, address),
            Mbc::Mbc1(m) => m.peek(storage, address),
            Mbc::Mbc3(m) => m.peek(storage, address),
        }
    }

    pub open spec fn poked(&self, address: u16, value: u8) -> Mbc {
        match self {
            Mbc::Mbc0(m) => Mbc::Mbc0(m.poked(address, value)),
            Mbc::Mbc1(m) => Mbc::Mbc1(m.poked(address, value)),
            Mbc::Mbc3(m) => Mbc::Mbc3(m.poked(address, value)),
        }
    }

    /// Read through the active controller.
    pub fn read(&self, storage: &[u8], address: u16) -> (r: u8)
        requires
            self.wf(),
            storage@.len() >= ROM_REGION_SIZE,
            cartridge_address(address),
        ensures
            r == self.peek(storage@, address),
    {
        match self {
            Mbc::Mbc0(m) => m.read(storage, address),
            Mbc::Mbc1(m) => m.read(storage, address),
            Mbc::Mbc3(m) => m.read(storage, address),
        }
    }

    /// Write through the active controller.
    pub fn write(&mut self, address: u16, value: u8)
        requires
            old(self).wf(),
            cartridge_address(address),
        ensures
            final(self).wf(),
            *final(self) == old(self).poked(address, value),
    {
        match self {
            Mbc::Mbc0(m) => m.write(address, value),
            Mbc::Mbc1(m) => m.write(address, value),
            Mbc::Mbc3(m) => m.write(address, value),
        }
    }
}

/// With its RAM enabled, an MBC1 gives back on an external RAM address the last value
/// written there.
pub proof fn law_mbc1_ram_read_after_write(m: Mbc1, storage: Seq<u8>, address: u16, value: u8)
    requires
        m.wf(),
        m.ram_enabled,
        ERAM_REGION_START <= address <= ERAM_REGION_END,
    ensures
        m.poked(address, value).peek(storage, address) == value,
{
    broadcast use vstd::array::axiom_spec_array_update;

}

/// With its RAM enabled and in RAM mode, an MBC3 gives back on an external RAM address the
/// last value written there.
pub proof fn law_mbc3_ram_read_after_write(m: Mbc3, storage: Seq<u8>, address: u16, value: u8)
    requires
        m.wf(),
        m.ram_timer_enabled,
        !m.rtc_mode,
        ERAM_REGION_START <= address <= ERAM_REGION_END,
    ensures
        m.poked(address, value).peek(storage, address) == value,
{
    broadcast use vstd::array::axiom_spec_array_update;

}

/// An MBC1 never maps bank 0x00, 0x20, 0x40 or 0x60 in the switchable area.
pub proof fn law_mbc1_bank(bank: u8)
    ensures
        mbc1_bank(bank) != 0x00 && mbc1_bank(bank) != 0x20 && mbc1_bank(bank) != 0x40
            && mbc1_bank(bank) != 0x60,
{
}

/// A write of `value` to the ROM bank register of an MBC1 puts the low five bits of
/// `value` (when not zero) in the low five bits of the bank number and keeps its upper
/// bits; the switchable area then reads that bank of the image.
pub proof fn law_mbc1_rom_bank_select(m: Mbc1, storage: Seq<u8>, address: u16, value: u8, a: u16)
    requires
        ROM_BANK_SEL_START <= address <= ROM_BANK_SEL_END,
        value % 32 != 0,
        ROM_REGION_BANKN_START <= a <= ROM_REGION_END,
    ensures
        m.poked(address, value).rom_bank == 32 * (m.rom_bank / 32) + value % 32,
        m.poked(address, value).peek(storage, a) == image_byte(
            storage,
            (a - 0x4000) + 0x4000 * (32 * (m.rom_bank / 32) + value % 32),
        ),
{
    crate::bitops::lemma_byte_fields(0, 0, m.rom_bank, value, 0, 0, 0, 0, 0);
}

/// The control registers of an MBC1: a write to 0x0000..0x1FFF enables the external RAM
/// exactly when bits 1 and 3 of the value are set (0x0A), and disabled RAM reads 0xFF; a
/// write to 0x6000..0x7FFF selects the RAM banking mode by bit 0; in that mode a write to
/// 0x4000..0x5FFF selects RAM bank `value % 4`, which the external RAM area then reads.
pub proof fn law_mbc1_registers(m: Mbc1, storage: Seq<u8>, address: u16, value: u8, a: u16)
    requires
        m.wf(),
    ensures
        address <= 0x1FFF ==> m.poked(address, value).ram_enabled == ((value / 2) % 2 == 1 && (value / 8) % 2 == 1),
        !m.ram_enabled && 0xA000 <= a <= 0xBFFF ==> m.peek(storage, a) == 0xFF,
        0x6000 <= address <= 0x7FFF ==> m.poked(address, value).ram_bank_mode == (value % 2 == 1),
        m.ram_bank_mode && 0x4000 <= address <= 0x5FFF ==> {
            &&& m.poked(address, value).ram_bank == value % 4
            &&& m.poked(address, value).rom_bank == m.rom_bank
            &&& (m.ram_enabled && 0xA000 <= a <= 0xBFFF ==> m.poked(address, value).peek(storage, a)
                == m.eram@[(a - 0xA000) + 0x2000 * (value % 4)])
        },
{
    crate::bitops::lemma_byte_rotations(0, 0, 0, 0, 0, 0, 0, 0, 0, 0, 0, 0, value);
    crate::bitops::lemma_byte_fields(value, 0, 0, 0, 0, 0, 0, 0, 0);
    crate::bitops::lemma_low_masks(value, 0);
}

/// The control registers of an MBC3: a write to 0x0000..0x1FFF enables RAM and clock
/// exactly when bits 1 and 3 of the value are set, and disabled they read 0xFF; a write to
/// 0x2000..0x3FFF selects that ROM bank for 0x4000..0x7FFF; a write of 0..3 to 0x4000..0x5FFF
/// selects that RAM bank, and one of 0x08..0x0C maps the clock register in its place.
pub proof fn law_mbc3_registers(m: Mbc3, storage: Seq<u8>, address: u16, value: u8, a: u16)
    requires
        m.wf(),
    ensures
        address <= 0x1FFF ==> m.poked(address, value).ram_timer_enabled == ((value / 2) % 2 == 1 && (value / 8) % 2 == 1),
        !m.ram_timer_enabled && 0xA000 <= a <= 0xBFFF ==> m.peek(storage, a) == 0xFF,
        0x2000 <= address <= 0x3FFF && 0x4000 <= a <= 0x7FFF ==> m.poked(address, value).peek(storage, a)
            == image_byte(storage, (a - 0x4000) + 0x4000 * value),
        0x4000 <= address <= 0x5FFF && value <= 3 && m.ram_timer_enabled && 0xA000 <= a <= 0xBFFF
            ==> m.poked(address, value).peek(storage, a) == m.eram@[(a - 0xA000) + 0x2000 * value],
        0x4000 <= address <= 0x5FFF && 0x08 <= value <= 0x0C && m.ram_timer_enabled && 0xA000 <= a
            <= 0xBFFF ==> m.poked(address, value).peek(storage, a) == m.reg_rtc,
{
    crate::bitops::lemma_byte_rotations(0, 0, 0, 0, 0, 0, 0, 0, 0, 0, 0, 0, value);
}

} // verus!
