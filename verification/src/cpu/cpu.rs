use vstd::prelude::*;

use crate::bitops::{high_byte, low_byte, make_u16, wadd16, word, wsub16};
use crate::bus::Bus;

verus! {

/// Frequency of the CPU clock, in T-cycles per second
pub const CLOCK_SPEED: u32 = 4194304;

// Vector table
pub const IR_VBLANK_ADDR: u16 = 0x0040;
pub const IR_LCDC_STATUS_ADDR: u16 = 0x0048;
pub const IR_TIMER_OVERFLOW_ADDR: u16 = 0x0050;
pub const IR_SERIAL_TRANSFER_ADDR: u16 = 0x0058;
pub const IR_JOYPAD_PRESS_ADDR: u16 = 0x0060;

// Flags for register F
pub const FLAG_ZERO: u8 = 0x80;
pub const FLAG_SUBSTRACT: u8 = 0x40;
pub const FLAG_HALF_CARRY: u8 = 0x20;
pub const FLAG_CARRY: u8 = 0x10;

// Default register values
pub const DEFAULT_REG_A: u8 = 0x01;
pub const DEFAULT_REG_F: u8 = 0xB0;
pub const DEFAULT_REG_B: u8 = 0x00;
pub const DEFAULT_REG_C: u8 = 0x13;
pub const DEFAULT_REG_D: u8 = 0x00;
pub const DEFAULT_REG_E: u8 = 0xD8;
pub const DEFAULT_REG_H: u8 = 0x01;
pub const DEFAULT_REG_L: u8 = 0x4D;

pub const DEFAULT_SP: u16 = 0xFFFE;
pub const DEFAULT_PC: u16 = 0x0100;

/// `f` with `flag` set or cleared.
pub open spec fn with_flag(f: u8, flag: u8, set: bool) -> u8 {
    if set {
        f | flag
    } else {
        f & !flag
    }
}

/// Whether `flag` is set in `f`.
pub open spec fn has_flag(f: u8, flag: u8) -> bool {
    f & flag == flag
}

/// The value of a byte read as a two's complement signed number.
pub open spec fn signed(n: u8) -> int {
    if n < 128 {
        n as int
    } else {
        n - 256
    }
}

/// `x + signed(n)` modulo 65536.
pub open spec fn offset16(x: u16, n: u8) -> u16 {
    if n < 128 {
        wadd16(x, n as u16)
    } else {
        wsub16(x, (256 - n) as u16)
    }
}

/// The registers and the interrupt state of the CPU.
#[derive(Clone, Copy, PartialEq, Eq, Structural)]
pub struct Cpu {
    pub a: u8,
    pub f: u8,
    pub b: u8,
    pub c: u8,
    pub d: u8,
    pub e: u8,
    pub h: u8,
    pub l: u8,
    pub pc: u16,
    pub sp: u16,
    /// CPU halted
    pub halted: bool,
    /// CPU stopped until button is pressed
    pub stopped: bool,
    /// Master Interrupt Enable
    pub master_ie: bool,
    pub enabling_ie: bool,
}

impl Cpu {
    /// The CPU after power-on.
    pub open spec fn initial() -> Cpu {
        Cpu {
            a: DEFAULT_REG_A,
            f: DEFAULT_REG_F,
            b: DEFAULT_REG_B,
            c: DEFAULT_REG_C,
            d: DEFAULT_REG_D,
            e: DEFAULT_REG_E,
            h: DEFAULT_REG_H,
            l: DEFAULT_REG_L,
            sp: DEFAULT_SP,
            pc: DEFAULT_PC,
            halted: false,
            stopped: false,
            master_ie: true,
            enabling_ie: false,
        }
    }

    pub open spec fn spec_af(self) -> u16 {
        word(self.a, self.f)
    }

    pub open spec fn spec_bc(self) -> u16 {
        word(self.b, self.c)
    }

    pub open spec fn spec_de(self) -> u16 {
        word(self.d, self.e)
    }

    pub open spec fn spec_hl(self) -> u16 {
        word(self.h, self.l)
    }

    pub open spec fn with_af(self, v: u16) -> Cpu {
        Cpu { a: (v / 256) as u8, f: (v % 256) as u8, ..self }
    }

    pub open spec fn with_bc(self, v: u16) -> Cpu {
        Cpu { b: (v / 256) as u8, c: (v % 256) as u8, ..self }
    }

    pub open spec fn with_de(self, v: u16) -> Cpu {
        Cpu { d: (v / 256) as u8, e: (v % 256) as u8, ..self }
    }

    pub open spec fn with_hl(self, v: u16) -> Cpu {
        Cpu { h: (v / 256) as u8, l: (v % 256) as u8, ..self }
    }

    /// The CPU with `flag` of F set or cleared.
    pub open spec fn flagged(self, flag: u8, set: bool) -> Cpu {
        Cpu { f: with_flag(self.f, flag, set), ..self }
    }

    pub fn new() -> (c: Self)
        ensures
            c == Self::initial(),
    {
        Self {
            a: DEFAULT_REG_A,
            f: DEFAULT_REG_F,
            b: DEFAULT_REG_B,
            c: DEFAULT_REG_C,
            d: DEFAULT_REG_D,
            e: DEFAULT_REG_E,
            h: DEFAULT_REG_H,
            l: DEFAULT_REG_L,
            sp: DEFAULT_SP,
            pc: DEFAULT_PC,
            halted: false,
            stopped: false,
            master_ie: true,
            enabling_ie: false,
        }
    }

    /// Reset all registers & state
    pub fn reset(&mut self)
        ensures
            *final(self) == Self::initial(),
    {
        *self = Cpu::new();
    }

    pub fn af(&self) -> (v: u16)
        ensures
            v == self.spec_af(),
    {
        make_u16(self.a, self.f)
    }

    pub fn bc(&self) -> (v: u16)
        ensures
            v == self.spec_bc(),
    {
        make_u16(self.b, self.c)
    }

    pub fn de(&self) -> (v: u16)
        ensures
            v == self.spec_de(),
    {
        make_u16(self.d, self.e)
    }

    pub fn hl(&self) -> (v: u16)
        ensures
            v == self.spec_hl(),
    {
        make_u16(self.h, self.l)
    }

    pub fn set_af(&mut self, value: u16)
        ensures
            *final(self) == old(self).with_af(value),
    {
        self.a = high_byte(value);
        self.f = low_byte(value);
    }

    pub fn set_bc(&mut self, value: u16)
        ensures
            *final(self) == old(self).with_bc(value),
    {
        self.b = high_byte(value);
        self.c = low_byte(value);
    }

    pub fn set_de(&mut self, value: u16)
        ensures
            *final(self) == old(self).with_de(value),
    {
        self.d = high_byte(value);
        self.e = low_byte(value);
    }

    pub fn set_hl(&mut self, value: u16)
        ensures
            *final(self) == old(self).with_hl(value),
    {
        self.h = high_byte(value);
        self.l = low_byte(value);
    }

    pub fn inc_hl(&mut self)
        ensures
            *final(self) == old(self).with_hl(wadd16(old(self).spec_hl(), 1)),
    {
        let hl = self.hl();
        self.set_hl(hl.wrapping_add(1));
    }

    pub fn dec_hl(&mut self)
        ensures
            *final(self) == old(self).with_hl(wsub16(old(self).spec_hl(), 1)),
    {
        let hl = self.hl();
        self.set_hl(hl.wrapping_sub(1));
    }

    /// Set or reset flag in F register
    pub fn set_flag(&mut self, flag: u8, set: bool)
        ensures
            *final(self) == old(self).flagged(flag, set),
    {
        if set {
            self.f = self.f | flag;
        } else {
            self.f = self.f & !flag;
        }
    }

    /// The CPU after fetching the byte at PC.
    pub open spec fn fetched(self) -> Cpu {
        Cpu { pc: wadd16(self.pc, 1), ..self }
    }

    /// Retrieve next byte
    pub fn fetch(&mut self, bus: &Bus) -> (byte: u8)
        requires
            bus.wf(),
        ensures
            byte == bus.peek(old(self).pc),
            *final(self) == old(self).fetched(),
    {
        let byte = bus.read(self.pc);
        self.pc = self.pc.wrapping_add(1);
        byte
    }

    /// The word at PC (little endian).
    pub open spec fn imm16(self, bus: Bus) -> u16 {
        word(bus.peek(wadd16(self.pc, 1)), bus.peek(self.pc))
    }

    /// Retrieve next 2 bytes as a u16
    pub fn fetch16(&mut self, bus: &Bus) -> (w: u16)
        requires
            bus.wf(),
        ensures
            w == old(self).imm16(*bus),
            *final(self) == old(self).fetched().fetched(),
    {
        let l = self.fetch(bus);
        let h = self.fetch(bus);
        make_u16(h, l)
    }

    /// The CPU and bus after pushing `value` on the stack, high byte first.
    pub open spec fn pushed(self, bus: Bus, value: u16) -> (Cpu, Bus) {
        let sp1 = wsub16(self.sp, 1);
        let bus1 = bus.poked(sp1, (value / 256) as u8);
        let sp2 = wsub16(sp1, 1);
        let bus2 = bus1.poked(sp2, (value % 256) as u8);
        (Cpu { sp: sp2, ..self }, bus2)
    }

    /// PUSH element on top of the stack
    pub fn push(&mut self, bus: &mut Bus, value: u16)
        requires
            old(bus).wf(),
        ensures
            final(bus).wf(),
            (*final(self), *final(bus)) == old(self).pushed(*old(bus), value),
    {
        self.sp = self.sp.wrapping_sub(1);
        bus.write(self.sp, high_byte(value));
        self.sp = self.sp.wrapping_sub(1);
        bus.write(self.sp, low_byte(value));
    }

    /// The word on top of the stack.
    pub open spec fn top(self, bus: Bus) -> u16 {
        word(bus.peek(wadd16(self.sp, 1)), bus.peek(self.sp))
    }

    /// The CPU after popping a word from the stack.
    pub open spec fn popped(self) -> Cpu {
        Cpu { sp: wadd16(wadd16(self.sp, 1), 1), ..self }
    }

    /// POP top element of the stack
    pub fn pop(&mut self, bus: &Bus) -> (w: u16)
        requires
            bus.wf(),
        ensures
            w == old(self).top(*bus),
            *final(self) == old(self).popped(),
    {
        let l = bus.read(self.sp);
        self.sp = self.sp.wrapping_add(1);
        let h = bus.read(self.sp);
        self.sp = self.sp.wrapping_add(1);
        make_u16(h, l)
    }
}

} // verus!
