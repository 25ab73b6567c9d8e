use vstd::prelude::*;

use crate::bitops::{wadd16, wadd8, wsub16, wsub8};
use crate::bus::Bus;
use vstd::arithmetic::div_mod::lemma_fundamental_div_mod_converse;
use super::cpu::{
    has_flag, offset16, signed, with_flag, Cpu, FLAG_CARRY, FLAG_HALF_CARRY, FLAG_SUBSTRACT, FLAG_ZERO,
};

verus! {

/// The carry flag as a number.
pub open spec fn carry_bit(f: u8) -> u8 {
    if has_flag(f, FLAG_CARRY) {
        1
    } else {
        0
    }
}

impl Cpu {
    /// A + value + carry, with all four flags.
    pub open spec fn spec_addc(self, value: u8, carry: u8) -> Cpu {
        let r = self.a + value + carry;
        let c = self.flagged(FLAG_CARRY, r > 0xff);
        let c = c.flagged(FLAG_ZERO, r % 256 == 0);
        let c = c.flagged(
            FLAG_HALF_CARRY,
            (self.a & 0xF) + (value & 0xF) + carry > 0xF,
        );
        let c = c.flagged(FLAG_SUBSTRACT, false);
        Cpu { a: (r % 256) as u8, ..c }
    }

    /// The flags of A - value - carry; the difference itself is returned.
    pub open spec fn spec_subc(self, value: u8, carry: u8) -> (Cpu, u8) {
        let n = self.a - value - carry;
        let r = (if n < 0 { n + 256 } else { n }) as u8;
        let c = self.flagged(FLAG_CARRY, n < 0);
        let c = c.flagged(FLAG_ZERO, r == 0);
        let c = c.flagged(FLAG_HALF_CARRY, (self.a & 0xF) - (value & 0xF) - carry < 0);
        let c = c.flagged(FLAG_SUBSTRACT, true);
        (c, r)
    }

    /// The four logic flags: Z from the result, N = 0, H as given, C = 0.
    pub open spec fn logic_flags(self, r: u8, half: bool) -> Cpu {
        let c = self.flagged(FLAG_ZERO, r == 0);
        let c = c.flagged(FLAG_SUBSTRACT, false);
        let c = c.flagged(FLAG_HALF_CARRY, half);
        c.flagged(FLAG_CARRY, false)
    }

    /// INC of a register value: the result and the flags (C kept).
    pub open spec fn spec_inc(self, value: u8) -> (Cpu, u8) {
        let r = wadd8(value, 1);
        let c = self.flagged(FLAG_ZERO, r == 0);
        let c = c.flagged(FLAG_SUBSTRACT, false);
        let c = c.flagged(FLAG_HALF_CARRY, (r & 0xf) < (value & 0xf));
        (c, r)
    }

    /// DEC of a register value: the result and the flags (C kept).
    pub open spec fn spec_dec(self, value: u8) -> (Cpu, u8) {
        let r = wsub8(value, 1);
        let c = self.flagged(FLAG_ZERO, r == 0);
        let c = c.flagged(FLAG_SUBSTRACT, true);
        let c = c.flagged(FLAG_HALF_CARRY, (r & 0xf) > (value & 0xf));
        (c, r)
    }

    /// HL + n, with C, H and N (Z kept).
    pub open spec fn spec_add16(self, n: u16) -> Cpu {
        let hl = self.spec_hl();
        let c = self.flagged(FLAG_CARRY, hl > 0xFFFF - n);
        let c = c.flagged(FLAG_HALF_CARRY, ((hl & 0xFFF) + (n & 0xFFF)) >= 0x1000);
        let c = c.flagged(FLAG_SUBSTRACT, false);
        c.with_hl(wadd16(hl, n))
    }

    /// SP + signed n, with the flags of the low byte; the sum is returned.
    pub open spec fn spec_sp_offset(self, n: u8) -> (Cpu, u16) {
        let res = offset16(self.sp, n);
        let c = self.flagged(FLAG_ZERO, false);
        let c = c.flagged(FLAG_SUBSTRACT, false);
        let c = c.flagged(FLAG_CARRY, (res & 0xff) < (self.sp & 0xff));
        let c = c.flagged(FLAG_HALF_CARRY, (res & 0xf) < (self.sp & 0xf));
        (c, res)
    }

    /// The two nibbles swapped, with the logic flags.
    pub open spec fn spec_swap(self, value: u8) -> (Cpu, u8) {
        let r = (value << 4u8) | (value >> 4u8);
        let c = self.flagged(FLAG_ZERO, r == 0);
        let c = c.flagged(FLAG_SUBSTRACT, false);
        let c = c.flagged(FLAG_CARRY, false);
        let c = c.flagged(FLAG_HALF_CARRY, false);
        (c, r)
    }

    /// Decimal adjust of A after an addition or a subtraction of BCD numbers.
    pub open spec fn spec_daa(self) -> Cpu {
        let is_sub = has_flag(self.f, FLAG_SUBSTRACT);
        let low = self.f & FLAG_HALF_CARRY != 0 || (!is_sub && (self.a & 0x0F) > 0x09);
        let high = self.f & FLAG_CARRY != 0 || (!is_sub && self.a > 0x99);
        let adj: u8 = (if low { 0x06u8 } else { 0u8 }) | (if high { 0x60u8 } else { 0u8 });
        let a = if is_sub { wsub8(self.a, adj) } else { wadd8(self.a, adj) };
        let c = Cpu { a, ..self };
        let c = c.flagged(FLAG_ZERO, a == 0);
        let c = c.flagged(FLAG_HALF_CARRY, false);
        c.flagged(FLAG_CARRY, high)
    }

    /// Rotate left through bit 7 (or through the carry), old bit 7 into the carry.
    pub open spec fn spec_rl(self, n: u8, with_carry: bool, set_zero: bool) -> (Cpu, u8) {
        let res = if with_carry {
            ((n << 1u8) | carry_bit(self.f)) as u8
        } else {
            (n << 1u8) | (n >> 7u8)
        };
        let c = self.flagged(FLAG_CARRY, (n >> 7u8) == 0x01);
        let c = c.flagged(FLAG_ZERO, set_zero && res == 0);
        let c = c.flagged(FLAG_SUBSTRACT, false);
        let c = c.flagged(FLAG_HALF_CARRY, false);
        (c, res)
    }

    /// Rotate right through bit 0 (or through the carry), old bit 0 into the carry.
    pub open spec fn spec_rr(self, n: u8, with_carry: bool, set_zero: bool) -> (Cpu, u8) {
        let res = if with_carry {
            ((carry_bit(self.f) << 7u8) | (n >> 1u8)) as u8
        } else {
            (n >> 1u8) | (n << 7u8)
        };
        let c = self.flagged(FLAG_CARRY, (n & 0x01) == 0x01);
        let c = c.flagged(FLAG_ZERO, set_zero && res == 0);
        let c = c.flagged(FLAG_SUBSTRACT, false);
        let c = c.flagged(FLAG_HALF_CARRY, false);
        (c, res)
    }

    /// Shift left, old bit 7 into the carry.
    pub open spec fn spec_sl(self, n: u8) -> (Cpu, u8) {
        let res = n << 1u8;
        let c = self.flagged(FLAG_CARRY, (n >> 7u8) == 0x01);
        let c = c.flagged(FLAG_SUBSTRACT, false);
        let c = c.flagged(FLAG_HALF_CARRY, false);
        let c = c.flagged(FLAG_ZERO, res == 0);
        (c, res)
    }

    /// Shift right (keeping bit 7 or not), old bit 0 into the carry.
    pub open spec fn spec_sr(self, n: u8, keep_msb: bool) -> (Cpu, u8) {
        let res = if keep_msb {
            (n & 0x80) | (n >> 1u8)
        } else {
            n >> 1u8
        };
        let c = self.flagged(FLAG_CARRY, (n & 0x01) == 0x01);
        let c = c.flagged(FLAG_SUBSTRACT, false);
        let c = c.flagged(FLAG_HALF_CARRY, false);
        let c = c.flagged(FLAG_ZERO, res == 0);
        (c, res)
    }

    /// The flags of a bit test of `n` against the mask `b`.
    pub open spec fn spec_bit(self, n: u8, b: u8) -> Cpu {
        let c = self.flagged(FLAG_ZERO, (n & b) == 0);
        let c = c.flagged(FLAG_SUBSTRACT, false);
        c.flagged(FLAG_HALF_CARRY, true)
    }

    /// Put SP + n into HL
    pub fn ld_hl_spn(&mut self, bus: &Bus)
        requires
            bus.wf(),
        ensures
            *final(self) == ({
                let n = bus.peek(old(self).pc);
                let (c, res) = old(self).fetched().spec_sp_offset(n);
                c.with_hl(res)
            }),
    {
        let n = self.fetch(bus);
        let res = self.sp_offset(n);
        self.set_hl(res);
    }

    /// SP + signed n; sets Z, N, C and H, and returns the sum.
    pub(crate) fn sp_offset(&mut self, n: u8) -> (res: u16)
        ensures
            (*final(self), res) == old(self).spec_sp_offset(n),
    {
        let res = if n < 128 {
            self.sp.wrapping_add(n as u16)
        } else {
            self.sp.wrapping_sub(256 - n as u16)
        };
        self.set_flag(FLAG_ZERO, false);
        self.set_flag(FLAG_SUBSTRACT, false);
        self.set_flag(FLAG_CARRY, (res & 0xff) < (self.sp & 0xff));
        self.set_flag(FLAG_HALF_CARRY, (res & 0xf) < (self.sp & 0xf));
        res
    }

    /// Add value to register A with provided carry
    pub fn addc(&mut self, value: u8, carry: u8)
        requires
            carry <= 1,
        ensures
            *final(self) == old(self).spec_addc(value, carry),
    {
        let r = (self.a as u16) + (value as u16) + (carry as u16);
        self.set_flag(FLAG_CARRY, r > 0xff);
        let r = (r % 256) as u8;
        self.set_flag(FLAG_ZERO, r == 0);
        let a = self.a;
        let lo_a = a & 0xF;
        let lo_v = value & 0xF;
        assert(lo_a <= 15 && lo_v <= 15) by (bit_vector)
            requires
                lo_a == a & 0xFu8,
                lo_v == value & 0xFu8,
        ;
        self.set_flag(FLAG_HALF_CARRY, lo_a + lo_v + carry > 0xF);
        self.set_flag(FLAG_SUBSTRACT, false);
        self.a = r;
    }

    /// Add value to register A, no carry
    pub fn add(&mut self, value: u8)
        ensures
            *final(self) == old(self).spec_addc(value, 0),
    {
        self.addc(value, 0u8)
    }

    /// Add value to register A using carry flag
    pub fn adc(&mut self, value: u8)
        ensures
            *final(self) == old(self).spec_addc(value, carry_bit(old(self).f)),
    {
        let carry = if self.f & FLAG_CARRY == FLAG_CARRY { 1u8 } else { 0u8 };
        self.addc(value, carry)
    }

    /// Subtract value to register A with provided carry
    pub fn subc(&mut self, value: u8, carry: u8) -> (r: u8)
        requires
            carry <= 1,
        ensures
            (*final(self), r) == old(self).spec_subc(value, carry),
    {
        let n = (self.a as u16).wrapping_sub(value as u16).wrapping_sub(carry as u16);
        let ghost d = self.a - value - carry;
        assert(n > 0xff <==> d < 0);
        self.set_flag(FLAG_CARRY, n > 0xff);
        let r = (n % 256) as u8;
        assert(r == (if d < 0 { d + 256 } else { d }));
        self.set_flag(FLAG_ZERO, r == 0);
        let lo_a = self.a & 0xF;
        let lo_v = value & 0xF;
        let hc = (lo_a as i16 - lo_v as i16 - carry as i16) < 0x0;
        self.set_flag(FLAG_HALF_CARRY, hc);
        self.set_flag(FLAG_SUBSTRACT, true);
        r
    }

    /// Subtract value to register A no carry
    pub fn sub(&mut self, value: u8)
        ensures
            ({
                let (c, r) = old(self).spec_subc(value, 0);
                *final(self) == Cpu { a: r, ..c }
            }),
    {
        self.a = self.subc(value, 0u8);
    }

    /// Subtract value to register A using carry flag
    pub fn sbc(&mut self, value: u8)
        ensures
            ({
                let (c, r) = old(self).spec_subc(value, carry_bit(old(self).f));
                *final(self) == Cpu { a: r, ..c }
            }),
    {
        let carry = if self.f & FLAG_CARRY != 0 { 1u8 } else { 0u8 };
        assert(carry == carry_bit(self.f)) by {
            let f = self.f;
            assert((f & 0x10u8 != 0) == (f & 0x10u8 == 0x10u8)) by (bit_vector);
        }
        self.a = self.subc(value, carry);
    }

    /// Logical AND value with register A
    pub fn and(&mut self, value: u8)
        ensures
            *final(self) == (Cpu { a: old(self).a & value, ..old(self).logic_flags(old(self).a & value, true) }),
    {
        self.a = self.a & value;
        self.set_flag(FLAG_ZERO, self.a == 0);
        self.set_flag(FLAG_SUBSTRACT, false);
        self.set_flag(FLAG_HALF_CARRY, true);
        self.set_flag(FLAG_CARRY, false);
    }

    /// Logical OR value with register A
    pub fn or(&mut self, value: u8)
        ensures
            *final(self) == (Cpu { a: old(self).a | value, ..old(self).logic_flags(old(self).a | value, false) }),
    {
        self.a = self.a | value;
        self.set_flag(FLAG_ZERO, self.a == 0);
        self.set_flag(FLAG_SUBSTRACT, false);
        self.set_flag(FLAG_HALF_CARRY, false);
        self.set_flag(FLAG_CARRY, false);
    }

    /// XOR value with register A
    pub fn xor(&mut self, value: u8)
        ensures
            *final(self) == (Cpu { a: old(self).a ^ value, ..old(self).logic_flags(old(self).a ^ value, false) }),
    {
        self.a = self.a ^ value;
        self.set_flag(FLAG_ZERO, self.a == 0);
        self.set_flag(FLAG_SUBSTRACT, false);
        self.set_flag(FLAG_HALF_CARRY, false);
        self.set_flag(FLAG_CARRY, false);
    }

    /// Compare A with value
    pub fn cp(&mut self, value: u8)
        ensures
            *final(self) == old(self).spec_subc(value, 0).0,
    {
        self.subc(value, 0);
    }

    /// Increment a register value
    pub fn inc(&mut self, value: u8) -> (r: u8)
        ensures
            (*final(self), r) == old(self).spec_inc(value),
    {
        let r = value.wrapping_add(1);
        self.set_flag(FLAG_ZERO, r == 0);
        self.set_flag(FLAG_SUBSTRACT, false);
        self.set_flag(FLAG_HALF_CARRY, (r & 0xf) < (value & 0xf));
        r
    }

    /// Decrement a register value
    pub fn dec(&mut self, value: u8) -> (r: u8)
        ensures
            (*final(self), r) == old(self).spec_dec(value),
    {
        let r = value.wrapping_sub(1);
        self.set_flag(FLAG_ZERO, r == 0);
        self.set_flag(FLAG_SUBSTRACT, true);
        self.set_flag(FLAG_HALF_CARRY, (r & 0xf) > (value & 0xf));
        r
    }

    /// Add value to HL register
    pub fn add16(&mut self, n: u16)
        ensures
            *final(self) == old(self).spec_add16(n),
    {
        let hl = self.hl();
        let result = hl.wrapping_add(n);
        self.set_flag(FLAG_CARRY, hl > 0xFFFF - n);
        let lh = hl & 0xFFF;
        let ln = n & 0xFFF;
        assert(lh <= 0xFFF && ln <= 0xFFF) by (bit_vector)
            requires
                lh == hl & 0xFFFu16,
                ln == n & 0xFFFu16,
        ;
        let lo = lh + ln;
        let hc = (lo & 0x1000) != 0;
        assert(hc == (lo >= 0x1000)) by (bit_vector)
            requires
                lo == (hl & 0xFFFu16) + (n & 0xFFFu16),
                hc == ((lo & 0x1000u16) != 0u16),
        ;
        self.set_flag(FLAG_HALF_CARRY, hc);
        self.set_flag(FLAG_SUBSTRACT, false);
        self.set_hl(result);
    }

    /// Swap upper & lower nibbles of value
    pub fn swap(&mut self, value: u8) -> (r: u8)
        ensures
            (*final(self), r) == old(self).spec_swap(value),
    {
        let r = (value << 4) | (value >> 4);
        self.set_flag(FLAG_ZERO, r == 0);
        self.set_flag(FLAG_SUBSTRACT, false);
        self.set_flag(FLAG_CARRY, false);
        self.set_flag(FLAG_HALF_CARRY, false);
        r
    }

    /// Decimal adjust register A
    /// Adjust A to get a BCD representation of A
    pub fn daa(&mut self)
        ensures
            *final(self) == old(self).spec_daa(),
    {
        let mut adj = 0x00u8;
        let is_sub = (self.f & FLAG_SUBSTRACT) == FLAG_SUBSTRACT;
        let mut is_carry = false;

        if (self.f & FLAG_HALF_CARRY) != 0 || (!is_sub && (self.a & 0x0F) > 0x09) {
            adj = adj | 0x06;
        }
        if (self.f & FLAG_CARRY) != 0 || (!is_sub && self.a > 0x99) {
            adj = adj | 0x60;
            is_carry = true;
        }
        proof {
            assert(0u8 | 6u8 == 6u8 && 0u8 | 0x60u8 == 0x60u8 && 6u8 | 0x60u8 == 0x66u8
                && 0u8 | 0u8 == 0u8 && 6u8 | 0u8 == 6u8) by (bit_vector);
        }
        if is_sub {
            self.a = self.a.wrapping_sub(adj);
        } else {
            self.a = self.a.wrapping_add(adj);
        }
        self.set_flag(FLAG_ZERO, self.a == 0);
        self.set_flag(FLAG_HALF_CARRY, false);
        self.set_flag(FLAG_CARRY, is_carry);
    }

    /// Complement
    /// Flip all bits of register A
    pub fn cpl(&mut self)
        ensures
            *final(self) == (Cpu { a: !old(self).a, ..*old(self) }).flagged(FLAG_SUBSTRACT, true).flagged(
                FLAG_HALF_CARRY,
                true,
            ),
    {
        self.a = !self.a;
        self.set_flag(FLAG_SUBSTRACT, true);
        self.set_flag(FLAG_HALF_CARRY, true);
    }

    /// Complement carry flag
    pub fn ccf(&mut self)
        ensures
            *final(self) == (Cpu { f: old(self).f ^ FLAG_CARRY, ..*old(self) }).flagged(
                FLAG_SUBSTRACT,
                false,
            ).flagged(FLAG_HALF_CARRY, false),
    {
        self.f = self.f ^ FLAG_CARRY;
        self.set_flag(FLAG_SUBSTRACT, false);
        self.set_flag(FLAG_HALF_CARRY, false);
    }

    /// Set carry flag
    pub fn scf(&mut self)
        ensures
            *final(self) == old(self).flagged(FLAG_CARRY, true).flagged(FLAG_SUBSTRACT, false).flagged(
                FLAG_HALF_CARRY,
                false,
            ),
    {
        self.set_flag(FLAG_CARRY, true);
        self.set_flag(FLAG_SUBSTRACT, false);
        self.set_flag(FLAG_HALF_CARRY, false);
    }

    /// Rotate left, old bit 7 to carry flag
    pub fn rl(&mut self, n: u8, with_carry: bool, set_zero: bool) -> (r: u8)
        ensures
            (*final(self), r) == old(self).spec_rl(n, with_carry, set_zero),
    {
        let res = if with_carry {
            let carry_bit = if (self.f & FLAG_CARRY) == FLAG_CARRY { 1u8 } else { 0u8 };
            (n << 1) | carry_bit
        } else {
            (n << 1) | (n >> 7)
        };
        self.set_flag(FLAG_CARRY, (n >> 7) == 0x01);
        self.set_flag(FLAG_ZERO, set_zero && res == 0);
        self.set_flag(FLAG_SUBSTRACT, false);
        self.set_flag(FLAG_HALF_CARRY, false);
        res
    }

    /// Rotate right, old bit 0 to carry flag
    pub fn rr(&mut self, n: u8, with_carry: bool, set_zero: bool) -> (r: u8)
        ensures
            (*final(self), r) == old(self).spec_rr(n, with_carry, set_zero),
    {
        let res = if with_carry {
            let carry_bit = if (self.f & FLAG_CARRY) == FLAG_CARRY { 1u8 } else { 0u8 };
            (carry_bit << 7) | (n >> 1)
        } else {
            (n >> 1) | (n << 7)
        };
        self.set_flag(FLAG_CARRY, (n & 0x01) == 0x01);
        self.set_flag(FLAG_ZERO, set_zero && res == 0);
        self.set_flag(FLAG_SUBSTRACT, false);
        self.set_flag(FLAG_HALF_CARRY, false);
        res
    }

    /// Shift n left into carry
    pub fn sl(&mut self, n: u8) -> (r: u8)
        ensures
            (*final(self), r) == old(self).spec_sl(n),
    {
        let res = n << 1;
        self.set_flag(FLAG_CARRY, (n >> 7) == 0x01);
        self.set_flag(FLAG_SUBSTRACT, false);
        self.set_flag(FLAG_HALF_CARRY, false);
        self.set_flag(FLAG_ZERO, res == 0);
        res
    }

    /// Shift n right into carry
    pub fn sr(&mut self, n: u8, keep_msb: bool) -> (r: u8)
        ensures
            (*final(self), r) == old(self).spec_sr(n, keep_msb),
    {
        let res = if keep_msb {
            (n & 0x80) | (n >> 1)
        } else {
            n >> 1
        };
        self.set_flag(FLAG_CARRY, (n & 0x01) == 0x01);
        self.set_flag(FLAG_SUBSTRACT, false);
        self.set_flag(FLAG_HALF_CARRY, false);
        self.set_flag(FLAG_ZERO, res == 0);
        res
    }

    /// Test if bit b is set in n
    pub fn bit(&mut self, n: u8, b: u8)
        ensures
            *final(self) == old(self).spec_bit(n, b),
    {
        self.set_flag(FLAG_ZERO, (n & b) == 0);
        self.set_flag(FLAG_SUBSTRACT, false);
        self.set_flag(FLAG_HALF_CARRY, true);
    }
}

/// Whether a byte holds two decimal digits, one per nibble.
pub open spec fn is_bcd(b: u8) -> bool {
    b % 16 <= 9 && b / 16 <= 9
}

/// The number that a BCD byte stands for.
pub open spec fn bcd_value(b: u8) -> int {
    10 * (b / 16) + b % 16
}

/// Reading one flag of F after another one was set or cleared.
pub proof fn lemma_flag_read(f: u8, flag: u8, set: bool, g: u8)
    by (bit_vector)
    requires
        flag == 0x80 || flag == 0x40 || flag == 0x20 || flag == 0x10,
        g == 0x80 || g == 0x40 || g == 0x20 || g == 0x10,
    ensures
        ((with_flag(f, flag, set) & g) == g) == (if g == flag {
            set
        } else {
            f & g == g
        }),
        (with_flag(f, flag, set) & g != 0) == (if g == flag {
            set
        } else {
            f & g != 0
        }),
{
}

/// The decimal adjust after a BCD addition.
proof fn lemma_bcd_add(x: u8, y: u8, a: u8, low: bool, high: bool, r: u8)
    by (bit_vector)
    requires
        x % 16 <= 9 && x / 16 <= 9,
        y % 16 <= 9 && y / 16 <= 9,
        a == wadd8(x, y),
        low == ((x % 16) + (y % 16) > 0xF || a % 16 > 9),
        high == (x + y > 0xFF || a > 0x99),
        r == wadd8(a, (if low { 0x06u8 } else { 0u8 }) | (if high { 0x60u8 } else { 0u8 })),
    ensures
        10 * (r / 16) + r % 16 == (10 * (x / 16) + x % 16 + 10 * (y / 16) + y % 16) % 100,
        high == (10 * (x / 16) + x % 16 + 10 * (y / 16) + y % 16 >= 100),
        r % 16 <= 9 && r / 16 <= 9,
{
}

/// The decimal adjust after a BCD subtraction.
proof fn lemma_bcd_sub(x: u8, y: u8, a: u8, low: bool, high: bool, r: u8)
    by (bit_vector)
    requires
        x % 16 <= 9 && x / 16 <= 9,
        y % 16 <= 9 && y / 16 <= 9,
        a == wsub8(x, y),
        low == ((x % 16) - (y % 16) < 0),
        high == (x - y < 0),
        r == wsub8(a, (if low { 0x06u8 } else { 0u8 }) | (if high { 0x60u8 } else { 0u8 })),
    ensures
        10 * (r / 16) + r % 16 == (10 * (x / 16) + x % 16 + 100 - (10 * (y / 16) + y % 16))
            % 100,
        high == (10 * (x / 16) + x % 16 < 10 * (y / 16) + y % 16),
        r % 16 <= 9 && r / 16 <= 9,
{
}

/// Reading the flags after the four flags of an arithmetic operation were written (in
/// the order C, Z, H, N).
proof fn lemma_four_flags(f: u8, c: bool, z: bool, h: bool, n: bool)
    ensures
        ({
            let g = with_flag(with_flag(with_flag(with_flag(f, FLAG_CARRY, c), FLAG_ZERO, z), FLAG_HALF_CARRY, h), FLAG_SUBSTRACT, n);
            &&& has_flag(g, FLAG_SUBSTRACT) == n
            &&& (g & FLAG_HALF_CARRY != 0) == h
            &&& (g & FLAG_CARRY != 0) == c
        }),
{
    let g1 = with_flag(f, FLAG_CARRY, c);
    let g2 = with_flag(g1, FLAG_ZERO, z);
    let g3 = with_flag(g2, FLAG_HALF_CARRY, h);
    lemma_flag_read(g3, FLAG_SUBSTRACT, n, FLAG_SUBSTRACT);
    lemma_flag_read(g3, FLAG_SUBSTRACT, n, FLAG_HALF_CARRY);
    lemma_flag_read(g3, FLAG_SUBSTRACT, n, FLAG_CARRY);
    lemma_flag_read(g2, FLAG_HALF_CARRY, h, FLAG_HALF_CARRY);
    lemma_flag_read(g2, FLAG_HALF_CARRY, h, FLAG_CARRY);
    lemma_flag_read(g1, FLAG_ZERO, z, FLAG_CARRY);
    lemma_flag_read(f, FLAG_CARRY, c, FLAG_CARRY);
}

/// Reading the flags that DAA writes (Z, H, C in that order).
proof fn lemma_daa_flags(f: u8, z: bool, c: bool)
    ensures
        ({
            let g = with_flag(with_flag(with_flag(f, FLAG_ZERO, z), FLAG_HALF_CARRY, false), FLAG_CARRY, c);
            &&& has_flag(g, FLAG_CARRY) == c
            &&& has_flag(g, FLAG_ZERO) == z
            &&& !has_flag(g, FLAG_HALF_CARRY)
        }),
{
    let g1 = with_flag(f, FLAG_ZERO, z);
    let g2 = with_flag(g1, FLAG_HALF_CARRY, false);
    lemma_flag_read(g2, FLAG_CARRY, c, FLAG_CARRY);
    lemma_flag_read(g2, FLAG_CARRY, c, FLAG_ZERO);
    lemma_flag_read(g2, FLAG_CARRY, c, FLAG_HALF_CARRY);
    lemma_flag_read(g1, FLAG_HALF_CARRY, false, FLAG_ZERO);
    lemma_flag_read(g1, FLAG_HALF_CARRY, false, FLAG_HALF_CARRY);
    lemma_flag_read(f, FLAG_ZERO, z, FLAG_ZERO);
}

/// DAA after adding two BCD numbers gives the BCD sum modulo 100.
#[verifier::spinoff_prover]
proof fn lemma_daa_after_add(cpu: Cpu, y: u8)
    requires
        is_bcd(cpu.a),
        is_bcd(y),
    ensures
        ({
            let c = cpu.spec_addc(y, 0).spec_daa();
            &&& is_bcd(c.a)
            &&& bcd_value(c.a) == (bcd_value(cpu.a) + bcd_value(y)) % 100
            &&& has_flag(c.f, FLAG_CARRY) == (bcd_value(cpu.a) + bcd_value(y) >= 100)
            &&& has_flag(c.f, FLAG_ZERO) == (c.a == 0)
            &&& !has_flag(c.f, FLAG_HALF_CARRY)
        }),
{
    let x = cpu.a;
    let a = wadd8(x, y);
    assert((x & 0xFu8) == x % 16 && (y & 0xFu8) == y % 16 && (a & 0x0Fu8) == a % 16)
        by (bit_vector);
    let c1 = cpu.spec_addc(y, 0);
    assert(c1.a == a);
    let h = (x & 0xF) + (y & 0xF) + 0 > 0xF;
    lemma_four_flags(cpu.f, x + y + 0 > 0xff, (x + y + 0) % 256 == 0, h, false);
    let low = (x % 16) + (y % 16) > 0xF || a % 16 > 9;
    let high = x + y > 0xFF || a > 0x99;
    let r = wadd8(a, (if low { 0x06u8 } else { 0u8 }) | (if high { 0x60u8 } else { 0u8 }));
    lemma_bcd_add(x, y, a, low, high, r);
    let c2 = c1.spec_daa();
    assert(c2.a == r);
    lemma_daa_flags(c1.f, r == 0, high);
}

/// DAA after subtracting two BCD numbers gives the BCD difference modulo 100.
#[verifier::spinoff_prover]
proof fn lemma_daa_after_sub(cpu: Cpu, y: u8)
    requires
        is_bcd(cpu.a),
        is_bcd(y),
    ensures
        ({
            let (f, r) = cpu.spec_subc(y, 0);
            let c = (Cpu { a: r, ..f }).spec_daa();
            &&& is_bcd(c.a)
            &&& bcd_value(c.a) == (bcd_value(cpu.a) + 100 - bcd_value(y)) % 100
            &&& has_flag(c.f, FLAG_CARRY) == (bcd_value(cpu.a) < bcd_value(y))
            &&& has_flag(c.f, FLAG_ZERO) == (c.a == 0)
            &&& !has_flag(c.f, FLAG_HALF_CARRY)
        }),
{
    let x = cpu.a;
    let sa = wsub8(x, y);
    assert((x & 0xFu8) == x % 16 && (y & 0xFu8) == y % 16) by (bit_vector);
    let (f1, r1) = cpu.spec_subc(y, 0);
    assert(r1 == sa);
    let c1 = Cpu { a: r1, ..f1 };
    lemma_four_flags(
        cpu.f,
        x - y - 0 < 0,
        r1 == 0,
        (x & 0xF) - (y & 0xF) - 0 < 0,
        true,
    );
    let slow = (x % 16) - (y % 16) < 0;
    let shigh = x - y < 0;
    let sr = wsub8(sa, (if slow { 0x06u8 } else { 0u8 }) | (if shigh { 0x60u8 } else { 0u8 }));
    lemma_bcd_sub(x, y, sa, slow, shigh, sr);
    let c2 = c1.spec_daa();
    assert(c2.a == sr);
    lemma_daa_flags(c1.f, sr == 0, shigh);
}

/// DAA after adding (or subtracting) two BCD numbers gives the BCD sum (or difference)
/// modulo 100, with the carry telling whether the decimal result wrapped; Z tells a zero
/// result and H is clear.
pub proof fn law_daa_bcd(cpu: Cpu, y: u8)
    requires
        is_bcd(cpu.a),
        is_bcd(y),
    ensures
        ({
            let c = cpu.spec_addc(y, 0).spec_daa();
            &&& is_bcd(c.a)
            &&& bcd_value(c.a) == (bcd_value(cpu.a) + bcd_value(y)) % 100
            &&& has_flag(c.f, FLAG_CARRY) == (bcd_value(cpu.a) + bcd_value(y) >= 100)
            &&& has_flag(c.f, FLAG_ZERO) == (c.a == 0)
            &&& !has_flag(c.f, FLAG_HALF_CARRY)
        }),
        ({
            let (f, r) = cpu.spec_subc(y, 0);
            let c = (Cpu { a: r, ..f }).spec_daa();
            &&& is_bcd(c.a)
            &&& bcd_value(c.a) == (bcd_value(cpu.a) + 100 - bcd_value(y)) % 100
            &&& has_flag(c.f, FLAG_CARRY) == (bcd_value(cpu.a) < bcd_value(y))
            &&& has_flag(c.f, FLAG_ZERO) == (c.a == 0)
            &&& !has_flag(c.f, FLAG_HALF_CARRY)
        }),
{
    lemma_daa_after_add(cpu, y);
    lemma_daa_after_sub(cpu, y);
}

/// SRA halves its operand and keeps the sign bit; SRL halves it.  Both put the bit shifted
/// out in the carry and set Z exactly for a zero result; they are shifts 5 and 7 of the CB
/// table.
pub proof fn law_shift_right(cpu: Cpu, n: u8)
    ensures
        ({
            let (c, r) = cpu.spec_sr(n, true);
            &&& r == n / 2 + (if n >= 128 { 128int } else { 0int })
            &&& has_flag(c.f, FLAG_CARRY) == (n % 2 == 1)
            &&& has_flag(c.f, FLAG_ZERO) == (r == 0)
        }),
        ({
            let (c, r) = cpu.spec_sr(n, false);
            &&& r == n / 2
            &&& has_flag(c.f, FLAG_CARRY) == (n % 2 == 1)
            &&& has_flag(c.f, FLAG_ZERO) == (r == 0)
        }),
        cpu.spec_shift(5, n) == cpu.spec_sr(n, true),
        cpu.spec_shift(7, n) == cpu.spec_sr(n, false),
{
    crate::bitops::lemma_byte_fields(n, 0, 0, 0, 0, 0, 0, 0, 0);
    let carry = (n & 0x01) == 0x01;
    let g1 = with_flag(cpu.f, FLAG_CARRY, carry);
    let g2 = with_flag(g1, FLAG_SUBSTRACT, false);
    let g3 = with_flag(g2, FLAG_HALF_CARRY, false);
    let ra = (n & 0x80) | (n >> 1u8);
    let rl = n >> 1u8;
    lemma_flag_read(g3, FLAG_ZERO, ra == 0, FLAG_CARRY);
    lemma_flag_read(g3, FLAG_ZERO, ra == 0, FLAG_ZERO);
    lemma_flag_read(g3, FLAG_ZERO, rl == 0, FLAG_CARRY);
    lemma_flag_read(g3, FLAG_ZERO, rl == 0, FLAG_ZERO);
    lemma_flag_read(g2, FLAG_HALF_CARRY, false, FLAG_CARRY);
    lemma_flag_read(g1, FLAG_SUBSTRACT, false, FLAG_CARRY);
    lemma_flag_read(cpu.f, FLAG_CARRY, carry, FLAG_CARRY);
}

/// The carry flag after the four flags of a rotation or shift were written: C first, the
/// other three after it.
proof fn lemma_carry_after(f: u8, c: bool, a: u8, x: bool, b: u8, y: bool, d: u8, z: bool)
    requires
        a == FLAG_ZERO || a == FLAG_SUBSTRACT || a == FLAG_HALF_CARRY,
        b == FLAG_ZERO || b == FLAG_SUBSTRACT || b == FLAG_HALF_CARRY,
        d == FLAG_ZERO || d == FLAG_SUBSTRACT || d == FLAG_HALF_CARRY,
    ensures
        has_flag(with_flag(with_flag(with_flag(with_flag(f, FLAG_CARRY, c), a, x), b, y), d, z), FLAG_CARRY) == c,
{
    let g1 = with_flag(f, FLAG_CARRY, c);
    let g2 = with_flag(g1, a, x);
    let g3 = with_flag(g2, b, y);
    lemma_flag_read(g3, d, z, FLAG_CARRY);
    lemma_flag_read(g2, b, y, FLAG_CARRY);
    lemma_flag_read(g1, a, x, FLAG_CARRY);
    lemma_flag_read(f, FLAG_CARRY, c, FLAG_CARRY);
}

/// The rotations and shifts of a byte as arithmetic: RLC and RRC rotate the byte (the bit
/// that leaves coming back at the other end), RL and RR rotate it through the carry (the
/// old carry coming in), SLA doubles it modulo 256; each puts the bit that leaves in the
/// carry.  SWAP exchanges the two nibbles.
pub proof fn law_rotations(cpu: Cpu, n: u8, z: bool)
    ensures
        ({
            let (c, r) = cpu.spec_rl(n, false, z);
            r == (2 * n) % 256 + n / 128 && has_flag(c.f, FLAG_CARRY) == (n >= 128)
        }),
        ({
            let (c, r) = cpu.spec_rl(n, true, z);
            r == (2 * n) % 256 + carry_bit(cpu.f) && has_flag(c.f, FLAG_CARRY) == (n >= 128)
        }),
        ({
            let (c, r) = cpu.spec_rr(n, false, z);
            r == n / 2 + 128 * (n % 2) && has_flag(c.f, FLAG_CARRY) == (n % 2 == 1)
        }),
        ({
            let (c, r) = cpu.spec_rr(n, true, z);
            r == 128 * carry_bit(cpu.f) + n / 2 && has_flag(c.f, FLAG_CARRY) == (n % 2 == 1)
        }),
        ({
            let (c, r) = cpu.spec_sl(n);
            r == (2 * n) % 256 && has_flag(c.f, FLAG_CARRY) == (n >= 128)
        }),
        cpu.spec_swap(n).1 == 16 * (n % 16) + n / 16,
{
    crate::bitops::lemma_byte_rotations(n, n, n, n, n, n, n, n, carry_bit(cpu.f), carry_bit(cpu.f), 0, 0, 0);
    let hi = (n >> 7u8) == 0x01;
    let lo = (n & 0x01) == 0x01;
    let rlc = (n << 1u8) | (n >> 7u8);
    let rlt = ((n << 1u8) | carry_bit(cpu.f)) as u8;
    let rrc = (n >> 1u8) | (n << 7u8);
    let rrt = ((carry_bit(cpu.f) << 7u8) | (n >> 1u8)) as u8;
    let sl = n << 1u8;
    lemma_carry_after(cpu.f, hi, FLAG_ZERO, z && rlc == 0, FLAG_SUBSTRACT, false, FLAG_HALF_CARRY, false);
    lemma_carry_after(cpu.f, hi, FLAG_ZERO, z && rlt == 0, FLAG_SUBSTRACT, false, FLAG_HALF_CARRY, false);
    lemma_carry_after(cpu.f, lo, FLAG_ZERO, z && rrc == 0, FLAG_SUBSTRACT, false, FLAG_HALF_CARRY, false);
    lemma_carry_after(cpu.f, lo, FLAG_ZERO, z && rrt == 0, FLAG_SUBSTRACT, false, FLAG_HALF_CARRY, false);
    lemma_carry_after(cpu.f, hi, FLAG_SUBSTRACT, false, FLAG_HALF_CARRY, false, FLAG_ZERO, sl == 0);
}

/// Reading flag `g` after three flags were written in turn: the last write of `g` gives it,
/// and F itself where none wrote it.
pub(crate) proof fn lemma_three_writes(f: u8, a: u8, x: bool, b: u8, y: bool, c: u8, z: bool, g: u8)
    requires
        a == 0x80 || a == 0x40 || a == 0x20 || a == 0x10,
        b == 0x80 || b == 0x40 || b == 0x20 || b == 0x10,
        c == 0x80 || c == 0x40 || c == 0x20 || c == 0x10,
        g == 0x80 || g == 0x40 || g == 0x20 || g == 0x10,
    ensures
        has_flag(with_flag(with_flag(with_flag(f, a, x), b, y), c, z), g) == (if g == c {
            z
        } else if g == b {
            y
        } else if g == a {
            x
        } else {
            has_flag(f, g)
        }),
{
    let g1 = with_flag(f, a, x);
    let g2 = with_flag(g1, b, y);
    lemma_flag_read(g2, c, z, g);
    lemma_flag_read(g1, b, y, g);
    lemma_flag_read(f, a, x, g);
}

/// The logic flags: Z for a zero result, N and C clear, H as given.
pub(crate) proof fn lemma_logic_flags(cpu: Cpu, r: u8, half: bool)
    ensures
        has_flag(cpu.logic_flags(r, half).f, FLAG_ZERO) == (r == 0),
        !has_flag(cpu.logic_flags(r, half).f, FLAG_SUBSTRACT),
        has_flag(cpu.logic_flags(r, half).f, FLAG_HALF_CARRY) == half,
        !has_flag(cpu.logic_flags(r, half).f, FLAG_CARRY),
{
    let g1 = with_flag(cpu.f, FLAG_ZERO, r == 0);
    lemma_three_writes(g1, FLAG_SUBSTRACT, false, FLAG_HALF_CARRY, half, FLAG_CARRY, false, FLAG_ZERO);
    lemma_three_writes(g1, FLAG_SUBSTRACT, false, FLAG_HALF_CARRY, half, FLAG_CARRY, false, FLAG_SUBSTRACT);
    lemma_three_writes(g1, FLAG_SUBSTRACT, false, FLAG_HALF_CARRY, half, FLAG_CARRY, false, FLAG_HALF_CARRY);
    lemma_three_writes(g1, FLAG_SUBSTRACT, false, FLAG_HALF_CARRY, half, FLAG_CARRY, false, FLAG_CARRY);
    lemma_flag_read(cpu.f, FLAG_ZERO, r == 0, FLAG_ZERO);
}

/// ADD and ADC, SUB, SBC and CP as arithmetic: the sum or difference modulo 256, C for a
/// carry out of bit 7 (a borrow), H for one out of bit 3 (a borrow from bit 4), Z for a zero
/// result, N clear after an addition and set after a subtraction.
pub proof fn law_add_sub(cpu: Cpu, v: u8, c: u8)
    requires
        c <= 1,
    ensures
        ({
            let k = cpu.spec_addc(v, c);
            &&& k.a == (cpu.a + v + c) % 256
            &&& has_flag(k.f, FLAG_CARRY) == (cpu.a + v + c > 255)
            &&& has_flag(k.f, FLAG_HALF_CARRY) == (cpu.a % 16 + v % 16 + c > 15)
            &&& has_flag(k.f, FLAG_ZERO) == (k.a == 0)
            &&& !has_flag(k.f, FLAG_SUBSTRACT)
        }),
        ({
            let (k, r) = cpu.spec_subc(v, c);
            &&& r == (cpu.a + 256 - v - c) % 256
            &&& has_flag(k.f, FLAG_CARRY) == (cpu.a < v + c)
            &&& has_flag(k.f, FLAG_HALF_CARRY) == (cpu.a % 16 < v % 16 + c)
            &&& has_flag(k.f, FLAG_ZERO) == (r == 0)
            &&& has_flag(k.f, FLAG_SUBSTRACT)
        }),
{
    crate::bitops::lemma_low_masks(cpu.a, 0);
    crate::bitops::lemma_low_masks(v, 0);
    let s = cpu.a + v + c;
    let k = cpu.spec_addc(v, c);
    let g1 = with_flag(cpu.f, FLAG_CARRY, s > 0xff);
    lemma_three_writes(g1, FLAG_ZERO, s % 256 == 0, FLAG_HALF_CARRY, (cpu.a & 0xF) + (v & 0xF) + c > 0xF, FLAG_SUBSTRACT, false, FLAG_CARRY);
    lemma_three_writes(g1, FLAG_ZERO, s % 256 == 0, FLAG_HALF_CARRY, (cpu.a & 0xF) + (v & 0xF) + c > 0xF, FLAG_SUBSTRACT, false, FLAG_HALF_CARRY);
    lemma_three_writes(g1, FLAG_ZERO, s % 256 == 0, FLAG_HALF_CARRY, (cpu.a & 0xF) + (v & 0xF) + c > 0xF, FLAG_SUBSTRACT, false, FLAG_ZERO);
    lemma_three_writes(g1, FLAG_ZERO, s % 256 == 0, FLAG_HALF_CARRY, (cpu.a & 0xF) + (v & 0xF) + c > 0xF, FLAG_SUBSTRACT, false, FLAG_SUBSTRACT);
    lemma_flag_read(cpu.f, FLAG_CARRY, s > 0xff, FLAG_CARRY);
    let n = cpu.a - v - c;
    let r = (if n < 0 { n + 256 } else { n }) as u8;
    let h1 = with_flag(cpu.f, FLAG_CARRY, n < 0);
    let hh = (cpu.a & 0xF) - (v & 0xF) - c < 0;
    lemma_three_writes(h1, FLAG_ZERO, r == 0, FLAG_HALF_CARRY, hh, FLAG_SUBSTRACT, true, FLAG_CARRY);
    lemma_three_writes(h1, FLAG_ZERO, r == 0, FLAG_HALF_CARRY, hh, FLAG_SUBSTRACT, true, FLAG_HALF_CARRY);
    lemma_three_writes(h1, FLAG_ZERO, r == 0, FLAG_HALF_CARRY, hh, FLAG_SUBSTRACT, true, FLAG_ZERO);
    lemma_three_writes(h1, FLAG_ZERO, r == 0, FLAG_HALF_CARRY, hh, FLAG_SUBSTRACT, true, FLAG_SUBSTRACT);
    lemma_flag_read(cpu.f, FLAG_CARRY, n < 0, FLAG_CARRY);
}

/// INC and DEC of a byte: one up or down modulo 256, H for a carry out of (a borrow into)
/// the low nibble, Z for a zero result, N set by DEC alone, and C left as it was.
pub proof fn law_inc_dec(cpu: Cpu, v: u8)
    ensures
        ({
            let (k, r) = cpu.spec_inc(v);
            &&& r == (v + 1) % 256
            &&& has_flag(k.f, FLAG_HALF_CARRY) == (v % 16 == 15)
            &&& has_flag(k.f, FLAG_ZERO) == (r == 0)
            &&& !has_flag(k.f, FLAG_SUBSTRACT)
            &&& has_flag(k.f, FLAG_CARRY) == has_flag(cpu.f, FLAG_CARRY)
        }),
        ({
            let (k, r) = cpu.spec_dec(v);
            &&& r == (v + 255) % 256
            &&& has_flag(k.f, FLAG_HALF_CARRY) == (v % 16 == 0)
            &&& has_flag(k.f, FLAG_ZERO) == (r == 0)
            &&& has_flag(k.f, FLAG_SUBSTRACT)
            &&& has_flag(k.f, FLAG_CARRY) == has_flag(cpu.f, FLAG_CARRY)
        }),
{
    let ri = wadd8(v, 1);
    let rd = wsub8(v, 1);
    crate::bitops::lemma_low_masks(v, 0);
    crate::bitops::lemma_low_masks(ri, 0);
    crate::bitops::lemma_low_masks(rd, 0);
    let hi = (ri & 0xf) < (v & 0xf);
    let hd = (rd & 0xf) > (v & 0xf);
    lemma_three_writes(cpu.f, FLAG_ZERO, ri == 0, FLAG_SUBSTRACT, false, FLAG_HALF_CARRY, hi, FLAG_CARRY);
    lemma_three_writes(cpu.f, FLAG_ZERO, ri == 0, FLAG_SUBSTRACT, false, FLAG_HALF_CARRY, hi, FLAG_HALF_CARRY);
    lemma_three_writes(cpu.f, FLAG_ZERO, ri == 0, FLAG_SUBSTRACT, false, FLAG_HALF_CARRY, hi, FLAG_ZERO);
    lemma_three_writes(cpu.f, FLAG_ZERO, ri == 0, FLAG_SUBSTRACT, false, FLAG_HALF_CARRY, hi, FLAG_SUBSTRACT);
    lemma_three_writes(cpu.f, FLAG_ZERO, rd == 0, FLAG_SUBSTRACT, true, FLAG_HALF_CARRY, hd, FLAG_CARRY);
    lemma_three_writes(cpu.f, FLAG_ZERO, rd == 0, FLAG_SUBSTRACT, true, FLAG_HALF_CARRY, hd, FLAG_HALF_CARRY);
    lemma_three_writes(cpu.f, FLAG_ZERO, rd == 0, FLAG_SUBSTRACT, true, FLAG_HALF_CARRY, hd, FLAG_ZERO);
    lemma_three_writes(cpu.f, FLAG_ZERO, rd == 0, FLAG_SUBSTRACT, true, FLAG_HALF_CARRY, hd, FLAG_SUBSTRACT);
}

/// ADD HL,rr: HL becomes the sum modulo 65536, C tells a carry out of bit 15 and H one out of
/// bit 11, N is cleared and Z is left as it was.
pub proof fn law_add16(cpu: Cpu, n: u16)
    ensures
        ({
            let k = cpu.spec_add16(n);
            &&& k.spec_hl() == (cpu.spec_hl() + n) % 65536
            &&& has_flag(k.f, FLAG_CARRY) == (cpu.spec_hl() + n > 65535)
            &&& has_flag(k.f, FLAG_HALF_CARRY) == (cpu.spec_hl() % 4096 + n % 4096 >= 4096)
            &&& !has_flag(k.f, FLAG_SUBSTRACT)
            &&& has_flag(k.f, FLAG_ZERO) == has_flag(cpu.f, FLAG_ZERO)
        }),
{
    let hl = cpu.spec_hl();
    crate::bitops::lemma_low_masks(0, hl);
    crate::bitops::lemma_low_masks(0, n);
    crate::bitops::lemma_word_split(wadd16(hl, n));
    let c = hl > 0xFFFF - n;
    let h = ((hl & 0xFFF) + (n & 0xFFF)) >= 0x1000;
    lemma_three_writes(cpu.f, FLAG_CARRY, c, FLAG_HALF_CARRY, h, FLAG_SUBSTRACT, false, FLAG_CARRY);
    lemma_three_writes(cpu.f, FLAG_CARRY, c, FLAG_HALF_CARRY, h, FLAG_SUBSTRACT, false, FLAG_HALF_CARRY);
    lemma_three_writes(cpu.f, FLAG_CARRY, c, FLAG_HALF_CARRY, h, FLAG_SUBSTRACT, false, FLAG_SUBSTRACT);
    lemma_three_writes(cpu.f, FLAG_CARRY, c, FLAG_HALF_CARRY, h, FLAG_SUBSTRACT, false, FLAG_ZERO);
}

/// Low bytes and nibbles of a sum that wrapped modulo 65536: those of the unsigned sums of
/// the low bytes and nibbles.
#[verifier::spinoff_prover]
proof fn lemma_wrapped_low(sp: int, n: int, k: int, e: int, r: int)
    requires
        0 <= sp < 65536,
        0 <= n < 256,
        k == (if n < 128 { n } else { n - 256 }),
        r == sp + k + 65536 * e,
    ensures
        (r % 256 < sp % 256) == (sp % 256 + n > 255),
        (r % 16 < sp % 16) == (sp % 16 + n % 16 > 15),
{
    let q = sp / 256;
    let lo = sp % 256;
    let qq = sp / 16;
    let nl = n % 16;
    let nh = n / 16;
    assert(sp == 256 * q + lo);
    assert(sp == 16 * qq + sp % 16);
    assert(n == 16 * nh + nl);
    let d: int = if n < 128 { 0 } else { 1 };
    let qb = q + 256 * e - d;
    let qn = qq + nh + 4096 * e - 16 * d;
    assert(r == qb * 256 + (lo + n));
    assert(r == qn * 16 + (sp % 16 + nl));
    if lo + n < 256 {
        lemma_fundamental_div_mod_converse(r, 256, qb, lo + n);
    } else {
        lemma_fundamental_div_mod_converse(r, 256, qb + 1, lo + n - 256);
    }
    if sp % 16 + nl < 16 {
        lemma_fundamental_div_mod_converse(r, 16, qn, sp % 16 + nl);
    } else {
        lemma_fundamental_div_mod_converse(r, 16, qn + 1, sp % 16 + nl - 16);
    }
}

/// The low byte and the low nibble of SP plus a signed byte are those of the unsigned
/// sums of the low bytes and nibbles.
pub(crate) proof fn lemma_offset_low(sp: u16, n: u8)
    ensures
        offset16(sp, n) == (sp + signed(n) + 65536) % 65536,
        (offset16(sp, n) % 256 < sp % 256) == (sp % 256 + n > 255),
        (offset16(sp, n) % 16 < sp % 16) == (sp % 16 + n % 16 > 15),
{
    let r = offset16(sp, n) as int;
    let k: int = if n < 128 { n as int } else { n - 256 };
    let e: int = if r == sp + k { 0 } else if r == sp + k + 65536 { 1 } else { -1 };
    assert(r == sp + k + 65536 * e);
    lemma_wrapped_low(sp as int, n as int, k, e, r);
}

/// SP plus a signed byte (ADD SP,e and LD HL,SP+e): the sum modulo 65536, with C and H the
/// carries out of bits 7 and 3 of the unsigned low-byte addition, and Z and N cleared.
pub proof fn law_sp_offset(cpu: Cpu, n: u8)
    ensures
        ({
            let (k, r) = cpu.spec_sp_offset(n);
            &&& r == (cpu.sp + signed(n) + 65536) % 65536
            &&& has_flag(k.f, FLAG_CARRY) == (cpu.sp % 256 + n > 255)
            &&& has_flag(k.f, FLAG_HALF_CARRY) == (cpu.sp % 16 + n % 16 > 15)
            &&& !has_flag(k.f, FLAG_ZERO)
            &&& !has_flag(k.f, FLAG_SUBSTRACT)
        }),
{
    let r = offset16(cpu.sp, n);
    lemma_offset_low(cpu.sp, n);
    crate::bitops::lemma_low_masks(0, r);
    crate::bitops::lemma_low_masks(0, cpu.sp);
    let c = (r & 0xff) < (cpu.sp & 0xff);
    let h = (r & 0xf) < (cpu.sp & 0xf);
    let g1 = with_flag(cpu.f, FLAG_ZERO, false);
    lemma_three_writes(g1, FLAG_SUBSTRACT, false, FLAG_CARRY, c, FLAG_HALF_CARRY, h, FLAG_CARRY);
    lemma_three_writes(g1, FLAG_SUBSTRACT, false, FLAG_CARRY, c, FLAG_HALF_CARRY, h, FLAG_HALF_CARRY);
    lemma_three_writes(g1, FLAG_SUBSTRACT, false, FLAG_CARRY, c, FLAG_HALF_CARRY, h, FLAG_SUBSTRACT);
    lemma_three_writes(g1, FLAG_SUBSTRACT, false, FLAG_CARRY, c, FLAG_HALF_CARRY, h, FLAG_ZERO);
    lemma_flag_read(cpu.f, FLAG_ZERO, false, FLAG_ZERO);
}

} // verus!
