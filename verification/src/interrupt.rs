use vstd::prelude::*;

use crate::region::{MemoryRegion, REG_IE_ADDR, REG_IF_ADDR};

verus! {

/// DMG default value of IF
pub const DEFAULT_REG_DMG_IF: u8 = 0xE1;
/// DMG default value of IE
pub const DEFAULT_REG_DMG_IE: u8 = 0x00;

/// The five interrupt sources, in priority order.
#[derive(Clone, Copy, PartialEq, Eq, Structural, Debug)]
pub enum InterruptFlag {
    Vblank,
    Lcdc,
    TimerOverflow,
    Serial,
    Joypad,
}

/// The IF / IE bit of an interrupt source.
pub open spec fn flag_bit(flag: InterruptFlag) -> u8 {
    match flag {
        InterruptFlag::Vblank => 0x01,
        InterruptFlag::Lcdc => 0x02,
        InterruptFlag::TimerOverflow => 0x04,
        InterruptFlag::Serial => 0x08,
        InterruptFlag::Joypad => 0x10,
    }
}

impl InterruptFlag {
    /// The IF / IE bit of this interrupt source.
    pub fn bit(self) -> (b: u8)
        ensures
            b == flag_bit(self),
    {
        match self {
            InterruptFlag::Vblank => 0x01,
            InterruptFlag::Lcdc => 0x02,
            InterruptFlag::TimerOverflow => 0x04,
            InterruptFlag::Serial => 0x08,
            InterruptFlag::Joypad => 0x10,
        }
    }
}

/// Interrupt flag (IF) and interrupt enable (IE) registers.
pub struct InterruptHandler {
    /// Interrupt flag
    pub reg_if: u8,
    /// Interrupt enable
    pub reg_ie: u8,
}

impl InterruptHandler {
    /// The handler after power-on.
    pub open spec fn initial() -> InterruptHandler {
        InterruptHandler { reg_if: DEFAULT_REG_DMG_IF, reg_ie: DEFAULT_REG_DMG_IE }
    }

    /// IF after requesting `flag`.
    pub open spec fn requested(self, flag: InterruptFlag) -> InterruptHandler {
        InterruptHandler { reg_if: self.reg_if | flag_bit(flag), ..self }
    }

    pub fn new() -> (it: Self)
        ensures
            it == Self::initial(),
    {
        Self { reg_if: DEFAULT_REG_DMG_IF, reg_ie: DEFAULT_REG_DMG_IE }
    }

    /// Reset all registers & state
    pub fn reset(&mut self)
        ensures
            *final(self) == Self::initial(),
    {
        self.reg_if = DEFAULT_REG_DMG_IF;
        self.reg_ie = DEFAULT_REG_DMG_IE;
    }

    /// Raise the IF bit of `flag`.
    pub fn request(&mut self, flag: InterruptFlag)
        ensures
            *final(self) == old(self).requested(flag),
    {
        self.reg_if = self.reg_if | flag.bit();
    }

    /// Lower the IF bit of `flag`.
    pub fn clear(&mut self, flag: InterruptFlag)
        ensures
            final(self).reg_if == old(self).reg_if & !flag_bit(flag),
            final(self).reg_ie == old(self).reg_ie,
    {
        self.reg_if = self.reg_if & !flag.bit();
    }
}

impl MemoryRegion for InterruptHandler {
    open spec fn maps(address: u16) -> bool {
        address == REG_IF_ADDR || address == REG_IE_ADDR
    }

    open spec fn inv(&self) -> bool {
        true
    }

    fn read(&self, address: u16) -> (r: u8)
        ensures
            r == (if address == REG_IF_ADDR { self.reg_if } else { self.reg_ie }),
    {
        if address == REG_IF_ADDR {
            self.reg_if
        } else {
            self.reg_ie
        }
    }

    fn write(&mut self, address: u16, value: u8)
        ensures
            address == REG_IF_ADDR ==> *final(self) == (InterruptHandler { reg_if: value, ..*old(self) }),
            address == REG_IE_ADDR ==> *final(self) == (InterruptHandler { reg_ie: value, ..*old(self) }),
    {
        if address == REG_IF_ADDR {
            self.reg_if = value;
        } else {
            self.reg_ie = value;
        }
    }
}

/// Clearing an interrupt that was just requested leaves IF without its bit and with every
/// other bit as before; a requested interrupt's bit is set.
pub proof fn law_request_clear(it: InterruptHandler, flag: InterruptFlag)
    ensures
        it.requested(flag).reg_if & flag_bit(flag) == flag_bit(flag),
        (it.requested(flag).reg_if & !flag_bit(flag)) == (it.reg_if & !flag_bit(flag)),
{
    let r = it.reg_if;
    let b = flag_bit(flag);
    assert((r | b) & b == b && (r | b) & !b == r & !b) by (bit_vector);
}

} // verus!
