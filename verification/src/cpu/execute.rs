use vstd::prelude::*;
use vstd::arithmetic::power2::{lemma2_to64, pow2};
use vstd::bits::{lemma_low_bits_mask_values, lemma_u8_low_bits_mask_is_mod, lemma_u8_shl_is_mul, lemma_u8_shr_is_div};

use crate::bitops::{high_byte, lemma_word_split, low_byte, wadd16, word, wsub16};
use crate::bus::{is_ram_address, law_ram_read_after_write, ram_cell, Bus};
use crate::interrupt::{flag_bit, InterruptFlag, InterruptHandler};
use crate::region::{IO_REGION_START, REG_IE_ADDR, REG_IF_ADDR};
use super::alu::{carry_bit, law_add_sub, lemma_logic_flags, lemma_offset_low, lemma_three_writes};
use super::cpu::{
    has_flag, offset16, signed, with_flag, Cpu, FLAG_CARRY, FLAG_HALF_CARRY, FLAG_SUBSTRACT, FLAG_ZERO, IR_JOYPAD_PRESS_ADDR, IR_LCDC_STATUS_ADDR,
    IR_SERIAL_TRANSFER_ADDR, IR_TIMER_OVERFLOW_ADDR, IR_VBLANK_ADDR,
};

verus! {

/// Whether the branch condition `cc` (0 NZ, 1 Z, 2 NC, 3 C) holds for the flags `f`.
pub open spec fn condition(f: u8, cc: u8) -> bool {
    if cc == 0 {
        f & FLAG_ZERO == 0
    } else if cc == 1 {
        f & FLAG_ZERO == FLAG_ZERO
    } else if cc == 2 {
        f & FLAG_CARRY == 0
    } else {
        f & FLAG_CARRY == FLAG_CARRY
    }
}

impl Cpu {
    /// 8-bit register `i`: 0 B, 1 C, 2 D, 3 E, 4 H, 5 L, 7 A (6 is the byte at HL).
    pub open spec fn reg(self, i: u8) -> u8 {
        if i == 0 {
            self.b
        } else if i == 1 {
            self.c
        } else if i == 2 {
            self.d
        } else if i == 3 {
            self.e
        } else if i == 4 {
            self.h
        } else if i == 5 {
            self.l
        } else {
            self.a
        }
    }

    pub open spec fn with_reg(self, i: u8, v: u8) -> Cpu {
        if i == 0 {
            Cpu { b: v, ..self }
        } else if i == 1 {
            Cpu { c: v, ..self }
        } else if i == 2 {
            Cpu { d: v, ..self }
        } else if i == 3 {
            Cpu { e: v, ..self }
        } else if i == 4 {
            Cpu { h: v, ..self }
        } else if i == 5 {
            Cpu { l: v, ..self }
        } else {
            Cpu { a: v, ..self }
        }
    }

    /// Operand `i` of an 8-bit instruction: a register, or the byte at HL for 6.
    pub open spec fn operand(self, bus: Bus, i: u8) -> u8 {
        if i == 6 {
            bus.peek(self.spec_hl())
        } else {
            self.reg(i)
        }
    }

    /// 16-bit register pair `i`: 0 BC, 1 DE, 2 HL, 3 SP.
    pub open spec fn pair(self, i: u8) -> u16 {
        if i == 0 {
            self.spec_bc()
        } else if i == 1 {
            self.spec_de()
        } else if i == 2 {
            self.spec_hl()
        } else {
            self.sp
        }
    }

    pub open spec fn with_pair(self, i: u8, v: u16) -> Cpu {
        if i == 0 {
            self.with_bc(v)
        } else if i == 1 {
            self.with_de(v)
        } else if i == 2 {
            self.with_hl(v)
        } else {
            Cpu { sp: v, ..self }
        }
    }

    /// 16-bit register pair `i` of PUSH / POP: 0 BC, 1 DE, 2 HL, 3 AF.
    pub open spec fn stack_pair(self, i: u8) -> u16 {
        if i == 3 {
            self.spec_af()
        } else {
            self.pair(i)
        }
    }

    /// The pair after a POP; the low nibble of F always reads 0.
    pub open spec fn with_stack_pair(self, i: u8, v: u16) -> Cpu {
        if i == 3 {
            self.with_af(v & 0xFFF0)
        } else {
            self.with_pair(i, v)
        }
    }

    /// Arithmetic / logic operation `k` on A (ADD ADC SUB SBC AND XOR OR CP).
    pub open spec fn spec_alu(self, k: u8, v: u8) -> Cpu {
        if k == 0 {
            self.spec_addc(v, 0)
        } else if k == 1 {
            self.spec_addc(v, carry_bit(self.f))
        } else if k == 2 {
            let (c, r) = self.spec_subc(v, 0);
            Cpu { a: r, ..c }
        } else if k == 3 {
            let (c, r) = self.spec_subc(v, carry_bit(self.f));
            Cpu { a: r, ..c }
        } else if k == 4 {
            Cpu { a: self.a & v, ..self.logic_flags(self.a & v, true) }
        } else if k == 5 {
            Cpu { a: self.a ^ v, ..self.logic_flags(self.a ^ v, false) }
        } else if k == 6 {
            Cpu { a: self.a | v, ..self.logic_flags(self.a | v, false) }
        } else {
            self.spec_subc(v, 0).0
        }
    }

    /// The CPU and bus after a call to `address`: PC pushed, then PC = address.
    pub open spec fn called(self, bus: Bus, address: u16) -> (Cpu, Bus) {
        let (c, b) = self.pushed(bus, self.pc);
        (Cpu { pc: address, ..c }, b)
    }

    /// Rotation / shift `y` of the CB table (RLC RRC RL RR SLA SRA SWAP SRL).
    pub open spec fn spec_shift(self, y: u8, n: u8) -> (Cpu, u8) {
        if y == 0 {
            self.spec_rl(n, false, true)
        } else if y == 1 {
            self.spec_rr(n, false, true)
        } else if y == 2 {
            self.spec_rl(n, true, true)
        } else if y == 3 {
            self.spec_rr(n, true, true)
        } else if y == 4 {
            self.spec_sl(n)
        } else if y == 5 {
            self.spec_sr(n, true)
        } else if y == 6 {
            self.spec_swap(n)
        } else {
            self.spec_sr(n, false)
        }
    }

    /// A CB-prefixed instruction whose second byte is `op2` (PC already past it).
    pub open spec fn spec_cb(self, bus: Bus, op2: u8) -> (Cpu, Bus, u8) {
        let x = op2 >> 6u8;
        let y = (op2 >> 3u8) & 7;
        let z = op2 & 7;
        let n = self.operand(bus, z);
        let ticks: u8 = if z == 6 { 16 } else { 8 };
        if x == 1 {
            (self.spec_bit(n, (1u8 << y) as u8), bus, ticks)
        } else {
            let (c, r) = if x == 0 {
                self.spec_shift(y, n)
            } else if x == 2 {
                (self, n & !((1u8 << y) as u8))
            } else {
                (self, n | ((1u8 << y) as u8))
            };
            if z == 6 {
                (c, bus.poked(self.spec_hl(), r), ticks)
            } else {
                (c.with_reg(z, r), bus, ticks)
            }
        }
    }

    /// The instructions outside the regular blocks of the opcode table.
    pub open spec fn spec_misc(self, bus: Bus, op: u8) -> (Cpu, Bus, u8) {
        let n = bus.peek(self.pc);
        let nn = self.imm16(bus);
        let c1 = self.fetched();
        let c2 = c1.fetched();
        let hl = self.spec_hl();
        if op == 0x00 {
            (self, bus, 4)
        } else if op == 0x27 {
            (self.spec_daa(), bus, 4)
        } else if op == 0x2F {
            (Cpu { a: !self.a, ..self }.flagged(0x40, true).flagged(0x20, true), bus, 4)
        } else if op == 0x37 {
            (self.flagged(0x10, true).flagged(0x40, false).flagged(0x20, false), bus, 4)
        } else if op == 0x3F {
            (Cpu { f: self.f ^ 0x10, ..self }.flagged(0x40, false).flagged(0x20, false), bus, 4)
        } else if op == 0x76 {
            (Cpu { halted: true, ..self }, bus, 4)
        } else if op == 0x10 {
            (Cpu { stopped: true, ..c1 }, bus, 4)
        } else if op == 0x2A {
            (Cpu { a: bus.peek(hl), ..self }.with_hl(wadd16(hl, 1)), bus, 8)
        } else if op == 0x3A {
            (Cpu { a: bus.peek(hl), ..self }.with_hl(wsub16(hl, 1)), bus, 8)
        } else if op == 0x0A {
            (Cpu { a: bus.peek(self.spec_bc()), ..self }, bus, 8)
        } else if op == 0x1A {
            (Cpu { a: bus.peek(self.spec_de()), ..self }, bus, 8)
        } else if op == 0xFA {
            (Cpu { a: bus.peek(nn), ..c2 }, bus, 16)
        } else if op == 0xEA {
            (c2, bus.poked(nn, self.a), 16)
        } else if op == 0x22 {
            (self.with_hl(wadd16(hl, 1)), bus.poked(hl, self.a), 8)
        } else if op == 0x32 {
            (self.with_hl(wsub16(hl, 1)), bus.poked(hl, self.a), 8)
        } else if op == 0x02 {
            (self, bus.poked(self.spec_bc(), self.a), 8)
        } else if op == 0x12 {
            (self, bus.poked(self.spec_de(), self.a), 8)
        } else if op == 0xE2 {
            (self, bus.poked((IO_REGION_START + self.c) as u16, self.a), 8)
        } else if op == 0xF2 {
            (Cpu { a: bus.peek((IO_REGION_START + self.c) as u16), ..self }, bus, 8)
        } else if op == 0xE0 {
            (c1, bus.poked((IO_REGION_START + n) as u16, self.a), 12)
        } else if op == 0xF0 {
            (Cpu { a: bus.peek((IO_REGION_START + n) as u16), ..c1 }, bus, 12)
        } else if op == 0xF8 {
            let (c, res) = c1.spec_sp_offset(n);
            (c.with_hl(res), bus, 12)
        } else if op == 0x08 {
            let b1 = bus.poked(nn, (self.sp % 256) as u8);
            (c2, b1.poked(wadd16(nn, 1), (self.sp / 256) as u8), 20)
        } else if op == 0xF9 {
            (Cpu { sp: hl, ..self }, bus, 8)
        } else if op == 0xC3 {
            (Cpu { pc: nn, ..c2 }, bus, 12)
        } else if op == 0xE9 {
            (Cpu { pc: hl, ..self }, bus, 4)
        } else if op == 0x18 {
            (Cpu { pc: offset16(c1.pc, n), ..c1 }, bus, 8)
        } else if op == 0xCD {
            let (c, b) = c2.called(bus, nn);
            (c, b, 24)
        } else if op == 0xC9 {
            (Cpu { pc: self.top(bus), ..self.popped() }, bus, 16)
        } else if op == 0xD9 {
            (Cpu { pc: self.top(bus), master_ie: true, ..self.popped() }, bus, 8)
        } else if op == 0xE8 {
            let (c, res) = c1.spec_sp_offset(n);
            (Cpu { sp: res, ..c }, bus, 16)
        } else if op == 0xF3 {
            (Cpu { enabling_ie: false, master_ie: false, ..self }, bus, 4)
        } else if op == 0xFB {
            (Cpu { enabling_ie: true, ..self }, bus, 4)
        } else if op == 0x07 {
            let (c, r) = self.spec_rl(self.a, false, false);
            (Cpu { a: r, ..c }, bus, 4)
        } else if op == 0x17 {
            let (c, r) = self.spec_rl(self.a, true, false);
            (Cpu { a: r, ..c }, bus, 4)
        } else if op == 0x0F {
            let (c, r) = self.spec_rr(self.a, false, false);
            (Cpu { a: r, ..c }, bus, 4)
        } else if op == 0x1F {
            let (c, r) = self.spec_rr(self.a, true, false);
            (Cpu { a: r, ..c }, bus, 4)
        } else {
            // unknown op code
            (self, bus, 4)
        }
    }

    /// The effect of executing opcode `op` (PC already past it): the CPU, the bus and the
    /// number of T-cycles taken.
    pub open spec fn spec_execute(self, bus: Bus, op: u8) -> (Cpu, Bus, u8) {
        let r = (op >> 3u8) & 7;
        let z = op & 7;
        let p = (op >> 4u8) & 3;
        let cc = (op >> 3u8) & 3;
        let n = bus.peek(self.pc);
        let nn = self.imm16(bus);
        let c1 = self.fetched();
        let c2 = c1.fetched();
        if op == 0xCB {
            c1.spec_cb(bus, n)
        } else if 0x40 <= op < 0x80 && op != 0x76 {
            if r == 6 {
                (self, bus.poked(self.spec_hl(), self.reg(z)), 8)
            } else {
                (self.with_reg(r, self.operand(bus, z)), bus, if z == 6 { 8u8 } else { 4u8 })
            }
        } else if 0x80 <= op < 0xC0 {
            (self.spec_alu(r, self.operand(bus, z)), bus, if z == 6 { 8u8 } else { 4u8 })
        } else if op >= 0xC0 && z == 6 {
            (c1.spec_alu(r, n), bus, 8)
        } else if op < 0x40 && (z == 4 || z == 5) {
            let v = self.operand(bus, r);
            let (c, res) = if z == 4 { self.spec_inc(v) } else { self.spec_dec(v) };
            if r == 6 {
                (c, bus.poked(self.spec_hl(), res), 12)
            } else {
                (c.with_reg(r, res), bus, 4)
            }
        } else if op < 0x40 && z == 6 {
            if r == 6 {
                (c1, bus.poked(self.spec_hl(), n), 12)
            } else {
                (c1.with_reg(r, n), bus, 8)
            }
        } else if op < 0x40 && op & 0x0F == 0x01 {
            (c2.with_pair(p, nn), bus, 12)
        } else if op < 0x40 && op & 0x0F == 0x03 {
            (self.with_pair(p, wadd16(self.pair(p), 1)), bus, 8)
        } else if op < 0x40 && op & 0x0F == 0x0B {
            (self.with_pair(p, wsub16(self.pair(p), 1)), bus, 8)
        } else if op < 0x40 && op & 0x0F == 0x09 {
            (self.spec_add16(self.pair(p)), bus, 8)
        } else if op >= 0xC0 && op & 0x0F == 0x05 {
            let (c, b) = self.pushed(bus, self.stack_pair(p));
            (c, b, 16)
        } else if op >= 0xC0 && op & 0x0F == 0x01 {
            (self.popped().with_stack_pair(p, self.top(bus)), bus, 12)
        } else if op >= 0xC0 && z == 7 {
            let (c, b) = self.called(bus, (op & 0x38) as u16);
            (c, b, 16)
        } else if 0xC0 <= op < 0xE0 && z == 2 {
            if condition(self.f, cc) {
                (Cpu { pc: nn, ..c2 }, bus, 16)
            } else {
                (c2, bus, 12)
            }
        } else if 0x20 <= op < 0x40 && z == 0 {
            if condition(self.f, cc) {
                (Cpu { pc: offset16(c1.pc, n), ..c1 }, bus, 12)
            } else {
                (c1, bus, 8)
            }
        } else if 0xC0 <= op < 0xE0 && z == 4 {
            if condition(self.f, cc) {
                let (c, b) = c2.called(bus, nn);
                (c, b, 24)
            } else {
                (c2, bus, 12)
            }
        } else if 0xC0 <= op < 0xE0 && z == 0 {
            if condition(self.f, cc) {
                (Cpu { pc: self.top(bus), ..self.popped() }, bus, 20)
            } else {
                (self, bus, 8)
            }
        } else {
            self.spec_misc(bus, op)
        }
    }
}

impl Cpu {
    fn get_reg(&self, i: u8) -> (v: u8)
        requires
            i < 8,
            i != 6,
        ensures
            v == self.reg(i),
    {
        if i == 0 {
            self.b
        } else if i == 1 {
            self.c
        } else if i == 2 {
            self.d
        } else if i == 3 {
            self.e
        } else if i == 4 {
            self.h
        } else if i == 5 {
            self.l
        } else {
            self.a
        }
    }

    fn set_reg(&mut self, i: u8, v: u8)
        requires
            i < 8,
            i != 6,
        ensures
            *final(self) == old(self).with_reg(i, v),
    {
        if i == 0 {
            self.b = v;
        } else if i == 1 {
            self.c = v;
        } else if i == 2 {
            self.d = v;
        } else if i == 3 {
            self.e = v;
        } else if i == 4 {
            self.h = v;
        } else if i == 5 {
            self.l = v;
        } else {
            self.a = v;
        }
    }

    fn read_operand(&self, bus: &Bus, i: u8) -> (v: u8)
        requires
            bus.wf(),
            i < 8,
        ensures
            v == self.operand(*bus, i),
    {
        if i == 6 {
            bus.read(self.hl())
        } else {
            self.get_reg(i)
        }
    }

    fn get_pair(&self, i: u8) -> (v: u16)
        ensures
            v == self.pair(i),
    {
        if i == 0 {
            self.bc()
        } else if i == 1 {
            self.de()
        } else if i == 2 {
            self.hl()
        } else {
            self.sp
        }
    }

    fn set_pair(&mut self, i: u8, v: u16)
        ensures
            *final(self) == old(self).with_pair(i, v),
    {
        if i == 0 {
            self.set_bc(v);
        } else if i == 1 {
            self.set_de(v);
        } else if i == 2 {
            self.set_hl(v);
        } else {
            self.sp = v;
        }
    }

    fn alu(&mut self, k: u8, v: u8)
        ensures
            *final(self) == old(self).spec_alu(k, v),
    {
        if k == 0 {
            self.add(v);
        } else if k == 1 {
            self.adc(v);
        } else if k == 2 {
            self.sub(v);
        } else if k == 3 {
            self.sbc(v);
        } else if k == 4 {
            self.and(v);
        } else if k == 5 {
            self.xor(v);
        } else if k == 6 {
            self.or(v);
        } else {
            self.cp(v);
        }
    }

    fn condition(&self, cc: u8) -> (b: bool)
        ensures
            b == condition(self.f, cc),
    {
        if cc == 0 {
            (self.f & FLAG_ZERO) == 0
        } else if cc == 1 {
            (self.f & FLAG_ZERO) == FLAG_ZERO
        } else if cc == 2 {
            (self.f & FLAG_CARRY) == 0
        } else {
            (self.f & FLAG_CARRY) == FLAG_CARRY
        }
    }

    /// Jump to address if flag is set / reset
    fn jump_if(&mut self, address: u16, condition: bool) -> (t: u8)
        ensures
            (*final(self), t) == (if condition {
                (Cpu { pc: address, ..*old(self) }, 16u8)
            } else {
                (*old(self), 12u8)
            }),
    {
        if condition {
            self.pc = address;
            16
        } else {
            12
        }
    }

    /// Jump to pc + n if flag is set / reset
    fn jump_if_rel(&mut self, n: u8, condition: bool) -> (t: u8)
        ensures
            (*final(self), t) == (if condition {
                (Cpu { pc: offset16(old(self).pc, n), ..*old(self) }, 12u8)
            } else {
                (*old(self), 8u8)
            }),
    {
        if condition {
            self.pc = if n < 128 {
                self.pc.wrapping_add(n as u16)
            } else {
                self.pc.wrapping_sub(256 - n as u16)
            };
            12
        } else {
            8
        }
    }

    /// Save PC and jump to address
    pub fn call(&mut self, bus: &mut Bus, address: u16)
        requires
            old(bus).wf(),
        ensures
            final(bus).wf(),
            (*final(self), *final(bus)) == old(self).called(*old(bus), address),
    {
        let pc = self.pc;
        self.push(bus, pc);
        self.pc = address;
    }

    /// Save PC and jump to address if condition is true
    fn call_if(&mut self, bus: &mut Bus, nn: u16, condition: bool) -> (t: u8)
        requires
            old(bus).wf(),
        ensures
            final(bus).wf(),
            (*final(self), *final(bus), t) == (if condition {
                let (c, b) = old(self).called(*old(bus), nn);
                (c, b, 24u8)
            } else {
                (*old(self), *old(bus), 12u8)
            }),
    {
        if condition {
            self.call(bus, nn);
            24
        } else {
            12
        }
    }

    /// Return if condition is true
    fn ret_if(&mut self, bus: &Bus, condition: bool) -> (t: u8)
        requires
            bus.wf(),
        ensures
            (*final(self), t) == (if condition {
                (Cpu { pc: old(self).top(*bus), ..old(self).popped() }, 20u8)
            } else {
                (*old(self), 8u8)
            }),
    {
        if condition {
            self.pc = self.pop(bus);
            20
        } else {
            8
        }
    }

    fn execute_cb(&mut self, bus: &mut Bus) -> (t: u8)
        requires
            old(bus).wf(),
        ensures
            final(bus).wf(),
            (*final(self), *final(bus), t) == old(self).fetched().spec_cb(
                *old(bus),
                old(bus).peek(old(self).pc),
            ),
    {
        let op2 = self.fetch(bus);
        let x = op2 >> 6;
        let y = (op2 >> 3) & 7;
        let z = op2 & 7;
        assert(x < 4 && y < 8 && z < 8) by (bit_vector)
            requires
                x == op2 >> 6u8,
                y == (op2 >> 3u8) & 7u8,
                z == op2 & 7u8,
        ;
        let n = self.read_operand(bus, z);
        let ticks: u8 = if z == 6 { 16 } else { 8 };
        let mask: u8 = 1u8 << y;
        if x == 1 {
            self.bit(n, mask);
            return ticks;
        }
        let r = if x == 0 {
            if y == 0 {
                self.rl(n, false, true)
            } else if y == 1 {
                self.rr(n, false, true)
            } else if y == 2 {
                self.rl(n, true, true)
            } else if y == 3 {
                self.rr(n, true, true)
            } else if y == 4 {
                self.sl(n)
            } else if y == 5 {
                self.sr(n, true)
            } else if y == 6 {
                self.swap(n)
            } else {
                self.sr(n, false)
            }
        } else if x == 2 {
            n & !mask
        } else {
            n | mask
        };
        if z == 6 {
            bus.write(self.hl(), r);
        } else {
            self.set_reg(z, r);
        }
        ticks
    }
}

impl Cpu {
    fn execute_misc(&mut self, bus: &mut Bus, op: u8) -> (t: u8)
        requires
            old(bus).wf(),
        ensures
            final(bus).wf(),
            (*final(self), *final(bus), t) == old(self).spec_misc(*old(bus), op),
    {
        if op == 0x00 {
            4
        } else if op == 0x27 {
            self.daa();
            4
        } else if op == 0x2F {
            self.cpl();
            4
        } else if op == 0x37 {
            self.scf();
            4
        } else if op == 0x3F {
            self.ccf();
            4
        } else if op == 0x76 {
            self.halted = true;
            4
        } else if op == 0x10 {
            self.fetch(bus);
            self.stopped = true;
            4
        } else if op == 0x2A {
            self.a = bus.read(self.hl());
            self.inc_hl();
            8
        } else if op == 0x3A {
            self.a = bus.read(self.hl());
            self.dec_hl();
            8
        } else if op == 0x0A {
            self.a = bus.read(self.bc());
            8
        } else if op == 0x1A {
            self.a = bus.read(self.de());
            8
        } else if op == 0xFA {
            let nn = self.fetch16(bus);
            self.a = bus.read(nn);
            16
        } else if op == 0xEA {
            let nn = self.fetch16(bus);
            bus.write(nn, self.a);
            16
        } else if op == 0x22 {
            bus.write(self.hl(), self.a);
            self.inc_hl();
            8
        } else if op == 0x32 {
            bus.write(self.hl(), self.a);
            self.dec_hl();
            8
        } else if op == 0x02 {
            bus.write(self.bc(), self.a);
            8
        } else if op == 0x12 {
            bus.write(self.de(), self.a);
            8
        } else if op == 0xE2 {
            bus.write(IO_REGION_START + self.c as u16, self.a);
            8
        } else if op == 0xF2 {
            self.a = bus.read(IO_REGION_START + self.c as u16);
            8
        } else if op == 0xE0 {
            let n = self.fetch(bus);
            bus.write(IO_REGION_START + n as u16, self.a);
            12
        } else if op == 0xF0 {
            let n = self.fetch(bus);
            self.a = bus.read(IO_REGION_START + n as u16);
            12
        } else if op == 0xF8 {
            self.ld_hl_spn(bus);
            12
        } else if op == 0x08 {
            let nn = self.fetch16(bus);
            bus.write(nn, low_byte(self.sp));
            bus.write(nn.wrapping_add(1), high_byte(self.sp));
            20
        } else if op == 0xF9 {
            self.sp = self.hl();
            8
        } else if op == 0xC3 {
            let nn = self.fetch16(bus);
            self.pc = nn;
            12
        } else if op == 0xE9 {
            self.pc = self.hl();
            4
        } else if op == 0x18 {
            let n = self.fetch(bus);
            self.jump_if_rel(n, true);
            8
        } else if op == 0xCD {
            let nn = self.fetch16(bus);
            self.call(bus, nn);
            24
        } else if op == 0xC9 {
            self.pc = self.pop(bus);
            16
        } else if op == 0xD9 {
            self.pc = self.pop(bus);
            self.master_ie = true;
            8
        } else if op == 0xE8 {
            let n = self.fetch(bus);
            let r = self.sp_offset(n);
            self.sp = r;
            16
        } else if op == 0xF3 {
            self.enabling_ie = false;
            self.master_ie = false;
            4
        } else if op == 0xFB {
            self.enabling_ie = true;
            4
        } else if op == 0x07 {
            self.a = self.rl(self.a, false, false);
            4
        } else if op == 0x17 {
            self.a = self.rl(self.a, true, false);
            4
        } else if op == 0x0F {
            self.a = self.rr(self.a, false, false);
            4
        } else if op == 0x1F {
            self.a = self.rr(self.a, true, false);
            4
        } else {
            // Unknown op code
            4
        }
    }

    /// Decode the provided op code and execute the instruction
    pub fn decode_execute(&mut self, bus: &mut Bus, op: u8) -> (t: u8)
        requires
            old(bus).wf(),
        ensures
            final(bus).wf(),
            (*final(self), *final(bus), t) == old(self).spec_execute(*old(bus), op),
    {
        let r = (op >> 3) & 7;
        let z = op & 7;
        let p = (op >> 4) & 3;
        let cc = (op >> 3) & 3;
        assert(r < 8 && z < 8 && p < 4 && cc < 4) by (bit_vector)
            requires
                r == (op >> 3u8) & 7u8,
                z == op & 7u8,
                p == (op >> 4u8) & 3u8,
                cc == (op >> 3u8) & 3u8,
        ;
        if op == 0xCB {
            self.execute_cb(bus)
        } else if 0x40 <= op && op < 0x80 && op != 0x76 {
            if r == 6 {
                assert(z != 6) by (bit_vector)
                    requires
                        r == (op >> 3u8) & 7u8,
                        z == op & 7u8,
                        0x40u8 <= op < 0x80u8,
                        op != 0x76u8,
                        r == 6u8,
                ;
                let v = self.get_reg(z);
                bus.write(self.hl(), v);
                8
            } else {
                let v = self.read_operand(bus, z);
                self.set_reg(r, v);
                if z == 6 { 8 } else { 4 }
            }
        } else if 0x80 <= op && op < 0xC0 {
            let v = self.read_operand(bus, z);
            self.alu(r, v);
            if z == 6 { 8 } else { 4 }
        } else if op >= 0xC0 && z == 6 {
            let n = self.fetch(bus);
            self.alu(r, n);
            8
        } else if op < 0x40 && (z == 4 || z == 5) {
            let v = self.read_operand(bus, r);
            let res = if z == 4 { self.inc(v) } else { self.dec(v) };
            if r == 6 {
                bus.write(self.hl(), res);
                12
            } else {
                self.set_reg(r, res);
                4
            }
        } else if op < 0x40 && z == 6 {
            let n = self.fetch(bus);
            if r == 6 {
                bus.write(self.hl(), n);
                12
            } else {
                self.set_reg(r, n);
                8
            }
        } else if op < 0x40 && op & 0x0F == 0x01 {
            let nn = self.fetch16(bus);
            self.set_pair(p, nn);
            12
        } else if op < 0x40 && op & 0x0F == 0x03 {
            let rr = self.get_pair(p).wrapping_add(1);
            self.set_pair(p, rr);
            8
        } else if op < 0x40 && op & 0x0F == 0x0B {
            let rr = self.get_pair(p).wrapping_sub(1);
            self.set_pair(p, rr);
            8
        } else if op < 0x40 && op & 0x0F == 0x09 {
            let rr = self.get_pair(p);
            self.add16(rr);
            8
        } else if op >= 0xC0 && op & 0x0F == 0x05 {
            let rr = if p == 3 { self.af() } else { self.get_pair(p) };
            self.push(bus, rr);
            16
        } else if op >= 0xC0 && op & 0x0F == 0x01 {
            let rr = self.pop(bus);
            if p == 3 {
                self.set_af(rr & 0xFFF0);
            } else {
                self.set_pair(p, rr);
            }
            12
        } else if op >= 0xC0 && z == 7 {
            self.call(bus, (op & 0x38) as u16);
            16
        } else if 0xC0 <= op && op < 0xE0 && z == 2 {
            let nn = self.fetch16(bus);
            let c = self.condition(cc);
            self.jump_if(nn, c)
        } else if 0x20 <= op && op < 0x40 && z == 0 {
            let n = self.fetch(bus);
            let c = self.condition(cc);
            self.jump_if_rel(n, c)
        } else if 0xC0 <= op && op < 0xE0 && z == 4 {
            let nn = self.fetch16(bus);
            let c = self.condition(cc);
            self.call_if(bus, nn, c)
        } else if 0xC0 <= op && op < 0xE0 && z == 0 {
            let c = self.condition(cc);
            self.ret_if(bus, c)
        } else {
            self.execute_misc(bus, op)
        }
    }
}

impl Cpu {
    /// The CPU and bus after servicing interrupt `flag` (at `vector`) when it is both
    /// enabled in `ie` and requested in `iflag`; `None` when it is not.
    pub open spec fn serviced(self, bus: Bus, ie: u8, iflag: u8, flag: InterruptFlag, vector: u16) -> Option<(Cpu, Bus)> {
        let bit = flag_bit(flag);
        if ie & bit != 0 && iflag & bit != 0 {
            let (c, b) = self.called(bus, vector);
            Some((
                Cpu { halted: false, master_ie: false, ..c },
                Bus { it: InterruptHandler { reg_if: b.it.reg_if & !bit, ..b.it }, ..b },
            ))
        } else {
            None
        }
    }

    /// The CPU and bus after dispatching the pending interrupt of highest priority
    /// (VBlank, LCDC, timer, serial, joypad), with IE and IF as read before.
    pub open spec fn dispatched(self, bus: Bus) -> (Cpu, Bus) {
        let ie = bus.peek(REG_IE_ADDR);
        let iflag = bus.peek(REG_IF_ADDR);
        match self.serviced(bus, ie, iflag, InterruptFlag::Vblank, IR_VBLANK_ADDR) {
            Some(r) => r,
            None => match self.serviced(bus, ie, iflag, InterruptFlag::Lcdc, IR_LCDC_STATUS_ADDR) {
                Some(r) => r,
                None => match self.serviced(
                    bus,
                    ie,
                    iflag,
                    InterruptFlag::TimerOverflow,
                    IR_TIMER_OVERFLOW_ADDR,
                ) {
                    Some(r) => r,
                    None => match self.serviced(
                        bus,
                        ie,
                        iflag,
                        InterruptFlag::Serial,
                        IR_SERIAL_TRANSFER_ADDR,
                    ) {
                        Some(r) => r,
                        None => match self.serviced(
                            bus,
                            ie,
                            iflag,
                            InterruptFlag::Joypad,
                            IR_JOYPAD_PRESS_ADDR,
                        ) {
                            Some(r) => r,
                            None => (self, bus),
                        },
                    },
                },
            },
        }
    }

    /// One CPU step: the next instruction (or 4 idle cycles while halted, until an
    /// interrupt is requested), then the interrupt dispatch when interrupts are enabled,
    /// then a pending EI takes effect.  The T-cycles taken are returned.
    pub open spec fn spec_step(self, bus: Bus) -> (Cpu, Bus, u8) {
        let (c, b, ticks) = if !self.halted {
            self.fetched().spec_execute(bus, bus.peek(self.pc))
        } else if bus.peek(REG_IF_ADDR) != 0 {
            (Cpu { halted: false, ..self }, bus, 4u8)
        } else {
            (self, bus, 4u8)
        };
        let (c, b) = if c.master_ie {
            c.dispatched(b)
        } else {
            (c, b)
        };
        let c = if c.enabling_ie {
            Cpu { master_ie: true, ..c }
        } else {
            c
        };
        (c, b, ticks)
    }

    fn service_interrupt(
        &mut self,
        bus: &mut Bus,
        ie: u8,
        iflag: u8,
        flag: InterruptFlag,
        vector: u16,
    ) -> (done: bool)
        requires
            old(bus).wf(),
        ensures
            final(bus).wf(),
            match old(self).serviced(*old(bus), ie, iflag, flag, vector) {
                Some((c, b)) => done && *final(self) == c && *final(bus) == b,
                None => !done && *final(self) == *old(self) && *final(bus) == *old(bus),
            },
    {
        let bit = flag.bit();
        if (ie & bit) != 0 && (iflag & bit) != 0 {
            self.call(bus, vector);
            bus.it.clear(flag);
            self.halted = false;
            self.master_ie = false;
            true
        } else {
            false
        }
    }

    /// Fetch, decode and execute next instruction
    /// Returns the number of ticks
    pub fn step(&mut self, bus: &mut Bus) -> (t: u8)
        requires
            old(bus).wf(),
        ensures
            final(bus).wf(),
            (*final(self), *final(bus), t) == old(self).spec_step(*old(bus)),
    {
        let ticks = if !self.halted {
            // Fetch instruction
            let op = self.fetch(bus);
            // Decode & execute
            self.decode_execute(bus, op)
        } else {
            let pending_it = bus.read(REG_IF_ADDR);
            if pending_it != 0 {
                self.halted = false;
            }
            // If CPU is halted, we assume 4 cycles and return
            4
        };

        // Check for interrupts
        if self.master_ie {
            let int_enable = bus.read(REG_IE_ADDR);
            let int_flag = bus.read(REG_IF_ADDR);

            let _ = self.service_interrupt(bus, int_enable, int_flag, InterruptFlag::Vblank, IR_VBLANK_ADDR)
                || self.service_interrupt(bus, int_enable, int_flag, InterruptFlag::Lcdc, IR_LCDC_STATUS_ADDR)
                || self.service_interrupt(
                bus,
                int_enable,
                int_flag,
                InterruptFlag::TimerOverflow,
                IR_TIMER_OVERFLOW_ADDR,
            ) || self.service_interrupt(
                bus,
                int_enable,
                int_flag,
                InterruptFlag::Serial,
                IR_SERIAL_TRANSFER_ADDR,
            ) || self.service_interrupt(
                bus,
                int_enable,
                int_flag,
                InterruptFlag::Joypad,
                IR_JOYPAD_PRESS_ADDR,
            );
        }
        // Enable / Disable interrupt if requested, after 1 instruction
        if self.enabling_ie {
            self.master_ie = true;
        }
        ticks
    }
}

/// Setting or clearing one of the four flags leaves the low nibble of F alone.
pub broadcast proof fn lemma_with_flag_low_nibble(f: u8, flag: u8, set: bool)
    requires
        flag == 0x80 || flag == 0x40 || flag == 0x20 || flag == 0x10,
    ensures
        #[trigger] with_flag(f, flag, set) & 0x0F == f & 0x0F,
{
    assert((f | flag) & 0x0Fu8 == f & 0x0Fu8 && (f & !flag) & 0x0Fu8 == f & 0x0Fu8)
        by (bit_vector)
        requires
            flag == 0x80u8 || flag == 0x40u8 || flag == 0x20u8 || flag == 0x10u8,
    ;
}

proof fn lemma_alu_low_nibble(cpu: Cpu, k: u8, v: u8)
    ensures
        cpu.spec_alu(k, v).f & 0x0F == cpu.f & 0x0F,
{
    broadcast use lemma_with_flag_low_nibble;

}

proof fn lemma_shift_low_nibble(cpu: Cpu, y: u8, n: u8)
    ensures
        cpu.spec_shift(y, n).0.f & 0x0F == cpu.f & 0x0F,
{
    broadcast use lemma_with_flag_low_nibble;

}

proof fn lemma_cb_low_nibble(cpu: Cpu, bus: Bus, op2: u8)
    ensures
        cpu.spec_cb(bus, op2).0.f & 0x0F == cpu.f & 0x0F,
{
    broadcast use lemma_with_flag_low_nibble;

    let z = op2 & 7;
    lemma_shift_low_nibble(cpu, (op2 >> 3u8) & 7, cpu.operand(bus, z));
}

proof fn lemma_misc_low_nibble(cpu: Cpu, bus: Bus, op: u8)
    ensures
        cpu.spec_misc(bus, op).0.f & 0x0F == cpu.f & 0x0F,
{
    broadcast use lemma_with_flag_low_nibble;

    let f = cpu.f;
    assert((f ^ 0x10u8) & 0x0Fu8 == f & 0x0Fu8) by (bit_vector);
}

/// The low nibble of F reads 0 whatever instruction runs, once it does.
pub proof fn law_flags_low_nibble(cpu: Cpu, bus: Bus, op: u8)
    requires
        cpu.f & 0x0F == 0,
    ensures
        cpu.spec_execute(bus, op).0.f & 0x0F == 0,
{
    broadcast use lemma_with_flag_low_nibble;

    let r = (op >> 3u8) & 7;
    let z = op & 7;
    let n = bus.peek(cpu.pc);
    if op == 0xCB {
        lemma_cb_low_nibble(cpu.fetched(), bus, n);
    } else if 0x40 <= op < 0x80 && op != 0x76 {
    } else if 0x80 <= op < 0xC0 {
        lemma_alu_low_nibble(cpu, r, cpu.operand(bus, z));
    } else if op >= 0xC0 && z == 6 {
        lemma_alu_low_nibble(cpu.fetched(), r, n);
    } else if op >= 0xC0 && op & 0x0F == 0x01 && (op >> 4u8) & 3 == 3 {
        let top = cpu.top(bus);
        let masked = top & 0xFFF0u16;
        assert((masked % 256) as u8 & 0x0Fu8 == 0u8) by (bit_vector)
            requires
                masked == top & 0xFFF0u16,
        ;
    } else {
        lemma_misc_low_nibble(cpu, bus, op);
    }
}

/// Dispatching an interrupt leaves F alone.
proof fn lemma_dispatch_keeps_flags(cpu: Cpu, bus: Bus)
    ensures
        cpu.dispatched(bus).0.f == cpu.f,
{
}

/// The low nibble of F stays 0 from one CPU step to the next.
#[verifier::spinoff_prover]
pub proof fn law_step_flags_low_nibble(cpu: Cpu, bus: Bus)
    requires
        cpu.f & 0x0F == 0,
    ensures
        cpu.spec_step(bus).0.f & 0x0F == 0,
{
    let (c, b, t) = if !cpu.halted {
        cpu.fetched().spec_execute(bus, bus.peek(cpu.pc))
    } else if bus.peek(REG_IF_ADDR) != 0 {
        (Cpu { halted: false, ..cpu }, bus, 4u8)
    } else {
        (cpu, bus, 4u8)
    };
    if !cpu.halted {
        law_flags_low_nibble(cpu.fetched(), bus, bus.peek(cpu.pc));
    }
    assert(c.f & 0x0F == 0);
    lemma_dispatch_keeps_flags(c, b);
}

/// A word pushed on a stack in RAM is the word on top of it, and popping it gives back
/// the stack pointer of before the push.
pub proof fn law_push_pop(cpu: Cpu, bus: Bus, v: u16)
    requires
        is_ram_address(wsub16(cpu.sp, 1)),
        is_ram_address(wsub16(cpu.sp, 2)),
    ensures
        ({
            let (c, b) = cpu.pushed(bus, v);
            c.top(b) == v && c.popped().sp == cpu.sp
        }),
{
    let s1 = wsub16(cpu.sp, 1);
    let s2 = wsub16(s1, 1);
    let b1 = bus.poked(s1, (v / 256) as u8);
    let b2 = b1.poked(s2, (v % 256) as u8);
    law_ram_read_after_write(b1, s2, s2, (v % 256) as u8);
    law_ram_read_after_write(b1, s2, s1, (v % 256) as u8);
    law_ram_read_after_write(bus, s1, s1, (v / 256) as u8);
    assert(ram_cell(s2) != ram_cell(s1));
    assert(wadd16(s2, 1) == s1);
    lemma_word_split(v);
}

/// A CALL followed by a RET, with the stack in RAM, jumps to the called address and comes
/// back to the instruction after the CALL with the stack pointer of before.
pub proof fn law_call_ret(cpu: Cpu, bus: Bus)
    requires
        is_ram_address(wsub16(cpu.sp, 1)),
        is_ram_address(wsub16(cpu.sp, 2)),
    ensures
        ({
            let (c1, b1, t1) = cpu.spec_execute(bus, 0xCD);
            let (c2, b2, t2) = c1.spec_execute(b1, 0xC9);
            &&& c1.pc == cpu.imm16(bus)
            &&& c2.pc == wadd16(cpu.pc, 2)
            &&& c2.sp == cpu.sp
        }),
{
    assert(0xCDu8 & 7u8 == 5u8 && 0xCDu8 & 0x0Fu8 == 0x0Du8 && 0xC9u8 & 7u8 == 1u8 && 0xC9u8
        & 0x0Fu8 == 0x09u8) by (bit_vector);
    let c = cpu.fetched().fetched();
    law_push_pop(c, bus, c.pc);
}

/// The address the CPU jumps to for an interrupt.
pub open spec fn interrupt_vector(flag: InterruptFlag) -> u16 {
    match flag {
        InterruptFlag::Vblank => IR_VBLANK_ADDR,
        InterruptFlag::Lcdc => IR_LCDC_STATUS_ADDR,
        InterruptFlag::TimerOverflow => IR_TIMER_OVERFLOW_ADDR,
        InterruptFlag::Serial => IR_SERIAL_TRANSFER_ADDR,
        InterruptFlag::Joypad => IR_JOYPAD_PRESS_ADDR,
    }
}

/// The priority rank of an interrupt, 0 being served first.
pub open spec fn interrupt_rank(flag: InterruptFlag) -> int {
    match flag {
        InterruptFlag::Vblank => 0,
        InterruptFlag::Lcdc => 1,
        InterruptFlag::TimerOverflow => 2,
        InterruptFlag::Serial => 3,
        InterruptFlag::Joypad => 4,
    }
}

/// Whether an interrupt is both enabled in IE and requested in IF.
pub open spec fn interrupt_pending(bus: Bus, flag: InterruptFlag) -> bool {
    &&& bus.peek(REG_IE_ADDR) & flag_bit(flag) != 0
    &&& bus.peek(REG_IF_ADDR) & flag_bit(flag) != 0
}

/// The pending interrupt of highest priority is the one serviced: its IF bit is cleared,
/// interrupts are disabled, the address of the next instruction is pushed (on a stack in
/// RAM) and the CPU jumps to the interrupt's vector.
pub proof fn law_interrupt_dispatch(cpu: Cpu, bus: Bus, flag: InterruptFlag)
    requires
        interrupt_pending(bus, flag),
        forall|g: InterruptFlag|
            interrupt_rank(g) < interrupt_rank(flag) ==> !#[trigger] interrupt_pending(bus, g),
        is_ram_address(wsub16(cpu.sp, 1)),
        is_ram_address(wsub16(cpu.sp, 2)),
    ensures
        ({
            let (c, b) = cpu.dispatched(bus);
            &&& c.pc == interrupt_vector(flag)
            &&& !c.master_ie
            &&& !c.halted
            &&& b.it.reg_if == bus.it.reg_if & !flag_bit(flag)
            &&& c.top(b) == cpu.pc
            &&& c.popped().sp == cpu.sp
        }),
{
    assert(!interrupt_pending(bus, InterruptFlag::Vblank) || flag == InterruptFlag::Vblank);
    assert(!interrupt_pending(bus, InterruptFlag::Lcdc) || interrupt_rank(flag) <= 1);
    assert(!interrupt_pending(bus, InterruptFlag::TimerOverflow) || interrupt_rank(flag) <= 2);
    assert(!interrupt_pending(bus, InterruptFlag::Serial) || interrupt_rank(flag) <= 3);
    law_push_pop(cpu, bus, cpu.pc);
}

/// The interrupt sources in priority order (VBlank, LCD STAT, timer, serial, joypad) own
/// the bits 0 to 4 of IE and IF and the vectors 0x40 to 0x60, eight bytes apart.
pub proof fn law_interrupt_table(flag: InterruptFlag)
    ensures
        0 <= interrupt_rank(flag) < 5,
        interrupt_vector(flag) == 0x40 + 8 * interrupt_rank(flag),
        flag_bit(flag) == pow2(interrupt_rank(flag) as nat),
{
    lemma2_to64();
}

/// The eight operations of the ALU block on A and an operand: ADD, ADC, SUB, SBC and CP
/// add or subtract (with the carry for ADC and SBC) modulo 256, with C and H the carries
/// (borrows) out of bits 7 and 3; AND, XOR and OR combine the bits and clear C and N, AND
/// setting H and the other two clearing it; CP leaves A as it was.  Z tells a zero result.
pub proof fn law_alu_ops(cpu: Cpu, k: u8, v: u8)
    requires
        k < 8,
    ensures
        ({
            let c = cpu.spec_alu(k, v);
            let cin: int = if k == 1 || k == 3 { carry_bit(cpu.f) as int } else { 0 };
            let res: int = if k == 0 || k == 1 {
                (cpu.a + v + cin) % 256
            } else if k == 2 || k == 3 || k == 7 {
                (cpu.a + 256 - v - cin) % 256
            } else if k == 4 {
                (cpu.a & v) as int
            } else if k == 5 {
                (cpu.a ^ v) as int
            } else {
                (cpu.a | v) as int
            };
            &&& c.a == (if k == 7 { cpu.a as int } else { res })
            &&& has_flag(c.f, FLAG_ZERO) == (res == 0)
            &&& has_flag(c.f, FLAG_SUBSTRACT) == (k == 2 || k == 3 || k == 7)
            &&& has_flag(c.f, FLAG_CARRY) == (if k <= 1 {
                cpu.a + v + cin > 255
            } else if k <= 3 || k == 7 {
                cpu.a < v + cin
            } else {
                false
            })
            &&& has_flag(c.f, FLAG_HALF_CARRY) == (if k <= 1 {
                cpu.a % 16 + v % 16 + cin > 15
            } else if k <= 3 || k == 7 {
                cpu.a % 16 < v % 16 + cin
            } else {
                k == 4
            })
            &&& c.b == cpu.b && c.c == cpu.c && c.d == cpu.d && c.e == cpu.e
            &&& c.h == cpu.h && c.l == cpu.l && c.sp == cpu.sp && c.pc == cpu.pc
        }),
{
    law_add_sub(cpu, v, 0);
    law_add_sub(cpu, v, carry_bit(cpu.f));
    lemma_logic_flags(cpu, cpu.a & v, true);
    lemma_logic_flags(cpu, cpu.a ^ v, false);
    lemma_logic_flags(cpu, cpu.a | v, false);
}

/// The bit instructions of the CB table on a register: BIT y tests bit y of the operand (Z
/// set when it is clear, H set, N clear, C kept), RES y clears it and SET y sets it, each
/// leaving the other bits and the flags as they were.
#[verifier::spinoff_prover]
pub proof fn law_cb_bits(cpu: Cpu, bus: Bus, op2: u8)
    requires
        op2 >= 0x40,
        op2 % 8 != 6,
    ensures
        ({
            let y = (op2 / 8) % 8;
            let z = op2 % 8;
            let n = cpu.reg(z);
            let p = pow2(y as nat);
            let bit = (n as nat / p) % 2;
            let (c, b, t) = cpu.spec_cb(bus, op2);
            &&& b == bus
            &&& t == 8
            &&& op2 < 0x80 ==> {
                &&& c.reg(z) == n
                &&& has_flag(c.f, FLAG_ZERO) == (bit == 0)
                &&& has_flag(c.f, FLAG_HALF_CARRY)
                &&& !has_flag(c.f, FLAG_SUBSTRACT)
                &&& has_flag(c.f, FLAG_CARRY) == has_flag(cpu.f, FLAG_CARRY)
            }
            &&& 0x80 <= op2 < 0xC0 ==> c.reg(z) == n - bit * p && c.f == cpu.f
            &&& op2 >= 0xC0 ==> c.reg(z) == n + (1 - bit) * p && c.f == cpu.f
        }),
{
    let y = (op2 >> 3u8) & 7;
    let z = op2 & 7;
    let n = cpu.reg(z);
    lemma_cb_fields(op2, n);
    let mask = (1u8 << y) as u8;
    let p = pow2(y as nat);
    let bit = (n as nat / p) % 2;
    lemma_three_writes(cpu.f, FLAG_ZERO, (n & mask) == 0, FLAG_SUBSTRACT, false, FLAG_HALF_CARRY, true, FLAG_ZERO);
    lemma_three_writes(cpu.f, FLAG_ZERO, (n & mask) == 0, FLAG_SUBSTRACT, false, FLAG_HALF_CARRY, true, FLAG_SUBSTRACT);
    lemma_three_writes(cpu.f, FLAG_ZERO, (n & mask) == 0, FLAG_SUBSTRACT, false, FLAG_HALF_CARRY, true, FLAG_HALF_CARRY);
    lemma_three_writes(cpu.f, FLAG_ZERO, (n & mask) == 0, FLAG_SUBSTRACT, false, FLAG_HALF_CARRY, true, FLAG_CARRY);
    let (c, b, t) = cpu.spec_cb(bus, op2);
    if op2 < 0x80 {
        assert(c == cpu.spec_bit(n, mask));
    } else if op2 < 0xC0 {
        assert(c == cpu.with_reg(z, n & !mask));
        lemma_reg_written(cpu, z, n & !mask);
    } else {
        assert(c == cpu.with_reg(z, n | mask));
        lemma_reg_written(cpu, z, n | mask);
    }
}

/// Writing register `z` and reading it back gives the value written; F is left alone.
proof fn lemma_reg_written(cpu: Cpu, z: u8, v: u8)
    ensures
        cpu.with_reg(z, v).reg(z) == v,
        cpu.with_reg(z, v).f == cpu.f,
{
}

/// The fields of a CB opcode and the bit of the operand that it names, as arithmetic.
proof fn lemma_cb_fields(op2: u8, n: u8)
    ensures
        ({
            let y = (op2 >> 3u8) & 7;
            let mask = (1u8 << y) as u8;
            let p = pow2(y as nat);
            let bit = (n as nat / p) % 2;
            &&& op2 >> 6u8 == op2 / 64
            &&& y == (op2 / 8) % 8
            &&& op2 & 7 == op2 % 8
            &&& mask == p
            &&& (n & mask == 0) == (bit == 0)
            &&& (n & !mask) + bit * p == n
            &&& (n | mask) == (n & !mask) + p
        }),
{
    let y = (op2 >> 3u8) & 7;
    crate::bitops::lemma_byte_rotations(0, 0, 0, 0, 0, 0, 0, 0, 0, 0, n, y, op2);
    lemma2_to64();
    lemma_u8_shr_is_div(n, y);
    lemma_u8_shl_is_mul(1, y);
    lemma_u8_low_bits_mask_is_mod(n >> y, 1);
    lemma_low_bits_mask_values();
}

/// The fields of an opcode as arithmetic, and the Z and C bits of F read either way.
proof fn lemma_opcode_fields(op: u8, f: u8)
    ensures
        op & 7 == op % 8,
        (op >> 3u8) & 7 == (op / 8) % 8,
        (op >> 3u8) & 3 == (op / 8) % 4,
        op & 0x0F == op % 16,
        op & 0x38 == 8 * ((op / 8) % 8),
        (f & 0x80 == 0) == !(f & 0x80 == 0x80),
        (f & 0x10 == 0) == !(f & 0x10 == 0x10),
{
    crate::bitops::lemma_byte_rotations(0, 0, 0, 0, 0, 0, 0, 0, 0, 0, 0, 0, op);
    crate::bitops::lemma_byte_rotations(0, 0, 0, 0, 0, 0, 0, 0, 0, 0, 0, 0, f);
    crate::bitops::lemma_low_masks(op, 0);
}

/// Which branch of the opcode table an absolute jump takes.
#[verifier::spinoff_prover]
#[verifier::rlimit(100)]
proof fn lemma_absolute_jump_branch(cpu: Cpu, bus: Bus, op: u8)
    requires
        op == 0xC3 || (0xC0 <= op < 0xE0 && op % 8 == 2),
    ensures
        ({
            let c2 = cpu.fetched().fetched();
            let nn = cpu.imm16(bus);
            let (c, b, t) = cpu.spec_execute(bus, op);
            (c, b) == (if op == 0xC3 || condition(cpu.f, ((op - 0xC2) / 8) as u8) {
                (Cpu { pc: nn, ..c2 }, bus)
            } else {
                (c2, bus)
            })
        }),
{
    lemma_opcode_fields(op, 0);
    if op == 0xC3 {
        assert(cpu.spec_execute(bus, op) == cpu.spec_misc(bus, op));
    }
}

/// The relative jumps: JR e always jumps, and JR NZ, JR Z, JR NC and JR C (0x20, 0x28, 0x30,
/// 0x38) jump exactly when Z is clear, Z is set, C is clear and C is set.  A jump moves PC
/// from the instruction after the JR by the signed offset that follows the opcode, modulo
/// 65536; otherwise PC only steps over the offset.  Nothing else changes.
#[verifier::spinoff_prover]
#[verifier::rlimit(100)]
pub proof fn law_relative_jumps(cpu: Cpu, bus: Bus, op: u8)
    requires
        op == 0x18 || (0x20 <= op < 0x40 && op % 8 == 0),
    ensures
        ({
            let cc = ((op - 0x20) / 8) as u8;
            let n = bus.peek(cpu.pc);
            let next = wadd16(cpu.pc, 1);
            let (c, b, t) = cpu.spec_execute(bus, op);
            &&& (c, b) == (if op == 0x18 || condition(cpu.f, cc) {
                (Cpu { pc: offset16(next, n), ..cpu.fetched() }, bus)
            } else {
                (cpu.fetched(), bus)
            })
            &&& op != 0x18 ==> condition(cpu.f, cc) == ((cc == 0 && !has_flag(cpu.f, FLAG_ZERO)) || (cc == 1
                && has_flag(cpu.f, FLAG_ZERO)) || (cc == 2 && !has_flag(cpu.f, FLAG_CARRY)) || (cc
                == 3 && has_flag(cpu.f, FLAG_CARRY)))
            &&& next == (cpu.pc + 1) % 65536
            &&& offset16(next, n) == (next + signed(n) + 65536) % 65536
        }),
{
    lemma_opcode_fields(op, 0);
    if op == 0x18 {
        assert(cpu.spec_execute(bus, op) == cpu.spec_misc(bus, op));
    } else {
        lemma_condition(cpu.f, ((op - 0x20) / 8) as u8);
    }
    lemma_offset_low(wadd16(cpu.pc, 1), bus.peek(cpu.pc));
}

/// The four branch conditions read as flags: NZ, Z, NC and C.
proof fn lemma_condition(f: u8, cc: u8)
    requires
        cc < 4,
    ensures
        condition(f, cc) == ((cc == 0 && !has_flag(f, FLAG_ZERO)) || (cc == 1 && has_flag(
            f,
            FLAG_ZERO,
        )) || (cc == 2 && !has_flag(f, FLAG_CARRY)) || (cc == 3 && has_flag(f, FLAG_CARRY))),
{
    lemma_opcode_fields(0, f);
}

/// The absolute jumps: JP nn always jumps, and JP NZ, JP Z, JP NC and JP C (0xC2, 0xCA,
/// 0xD2, 0xDA) jump exactly when Z is clear, Z is set, C is clear and C is set, to the
/// little-endian word that follows the opcode; otherwise PC steps over that word.
#[verifier::spinoff_prover]
#[verifier::rlimit(100)]
pub proof fn law_absolute_jumps(cpu: Cpu, bus: Bus, op: u8)
    requires
        op == 0xC3 || (0xC0 <= op < 0xE0 && op % 8 == 2),
    ensures
        ({
            let cc = (op - 0xC2) / 8;
            let taken = op == 0xC3 || (cc == 0 && !has_flag(cpu.f, FLAG_ZERO)) || (cc == 1
                && has_flag(cpu.f, FLAG_ZERO)) || (cc == 2 && !has_flag(cpu.f, FLAG_CARRY)) || (cc
                == 3 && has_flag(cpu.f, FLAG_CARRY));
            let lo = bus.peek(cpu.pc);
            let hi = bus.peek(((cpu.pc + 1) % 65536) as u16);
            let (c, b, t) = cpu.spec_execute(bus, op);
            &&& b == bus
            &&& c.pc == (if taken { lo + 256 * hi } else { (cpu.pc + 2) % 65536 })
        }),
{
    lemma_absolute_jump_branch(cpu, bus, op);
    lemma_condition(cpu.f, ((op - 0xC2) / 8) as u8);
}

/// RST k (0xC7 + 8k) calls address 8k: PC is the vector and, with the stack in RAM, the
/// address of the next instruction is on top of the stack, which a return pops.
#[verifier::spinoff_prover]
pub proof fn law_restarts(cpu: Cpu, bus: Bus, op: u8)
    requires
        op >= 0xC0,
        op % 8 == 7,
        is_ram_address(wsub16(cpu.sp, 1)),
        is_ram_address(wsub16(cpu.sp, 2)),
    ensures
        ({
            let (c, b, t) = cpu.spec_execute(bus, op);
            &&& c.pc == op - 0xC7
            &&& c.top(b) == cpu.pc
            &&& c.popped().sp == cpu.sp
            &&& t == 16
        }),
{
    lemma_opcode_fields(op, 0);
    law_push_pop(cpu, bus, cpu.pc);
}

} // verus!
