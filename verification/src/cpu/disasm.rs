use vstd::prelude::*;

use crate::bitops::{wadd16, word};
use crate::bus::Bus;
use super::cpu::{offset16, Cpu};

verus! {

// Text of the instructions of the CPU, as a debugger shows them: the mnemonic, then the
// operands, immediate values in hex after a `$`.

/// The text held by an optional string.
pub open spec fn text_of(m: Option<String>) -> Option<Seq<char>> {
    match m {
        Some(s) => Some(s@),
        None => None,
    }
}

/// The hex digit of `d` (its last one for a value above 15).
pub open spec fn hex_digit(d: u8) -> Seq<char> {
    if d == 0 {
        "0"@
    } else if d == 1 {
        "1"@
    } else if d == 2 {
        "2"@
    } else if d == 3 {
        "3"@
    } else if d == 4 {
        "4"@
    } else if d == 5 {
        "5"@
    } else if d == 6 {
        "6"@
    } else if d == 7 {
        "7"@
    } else if d == 8 {
        "8"@
    } else if d == 9 {
        "9"@
    } else if d == 10 {
        "A"@
    } else if d == 11 {
        "B"@
    } else if d == 12 {
        "C"@
    } else if d == 13 {
        "D"@
    } else if d == 14 {
        "E"@
    } else {
        "F"@
    }
}

/// The operand named by a 3-bit register field.
pub open spec fn reg_name(i: u8) -> Seq<char> {
    if i == 0 {
        "B"@
    } else if i == 1 {
        "C"@
    } else if i == 2 {
        "D"@
    } else if i == 3 {
        "E"@
    } else if i == 4 {
        "H"@
    } else if i == 5 {
        "L"@
    } else if i == 6 {
        "(HL)"@
    } else {
        "A"@
    }
}

/// The register pair named by a 2-bit field.
pub open spec fn pair_name(p: u8) -> Seq<char> {
    if p == 0 {
        "BC"@
    } else if p == 1 {
        "DE"@
    } else if p == 2 {
        "HL"@
    } else {
        "SP"@
    }
}

/// The register pair that PUSH and POP name by a 2-bit field.
pub open spec fn stack_pair_name(p: u8) -> Seq<char> {
    if p == 0 {
        "BC"@
    } else if p == 1 {
        "DE"@
    } else if p == 2 {
        "HL"@
    } else {
        "AF"@
    }
}

/// The condition named by a 2-bit field.
pub open spec fn cond_name(cc: u8) -> Seq<char> {
    if cc == 0 {
        "NZ"@
    } else if cc == 1 {
        "Z"@
    } else if cc == 2 {
        "NC"@
    } else {
        "C"@
    }
}

/// The operation named by the 3-bit field of an arithmetic or logic opcode.
pub open spec fn alu_name(k: u8) -> Seq<char> {
    if k == 0 {
        "ADD A, "@
    } else if k == 1 {
        "ADC A, "@
    } else if k == 2 {
        "SUB A, "@
    } else if k == 3 {
        "SBC A, "@
    } else if k == 4 {
        "AND "@
    } else if k == 5 {
        "XOR "@
    } else if k == 6 {
        "OR "@
    } else {
        "CP "@
    }
}

/// The rotation or shift named by the 3-bit field of a CB opcode.
pub open spec fn shift_name(y: u8) -> Seq<char> {
    if y == 0 {
        "RLC"@
    } else if y == 1 {
        "RRC"@
    } else if y == 2 {
        "RL"@
    } else if y == 3 {
        "RR"@
    } else if y == 4 {
        "SLA"@
    } else if y == 5 {
        "SRA"@
    } else if y == 6 {
        "SWAP"@
    } else {
        "SRL"@
    }
}

/// The bit operation named by the top 2 bits of a CB opcode.
pub open spec fn bit_op_name(x: u8) -> Seq<char> {
    if x == 0 {
        ""@
    } else if x == 1 {
        "BIT "@
    } else if x == 2 {
        "RES "@
    } else {
        "SET "@
    }
}

/// A byte as two hex digits.
pub open spec fn hex2(n: u8) -> Seq<char> {
    hex_digit(n / 16) + hex_digit(n % 16)
}

/// A word as four hex digits.
pub open spec fn hex4(w: u16) -> Seq<char> {
    hex2((w / 256) as u8) + hex2((w % 256) as u8)
}

/// A word in hex without leading zeros but at least two characters wide, padded on the
/// left with `pad`.
pub open spec fn hex_min2(w: u16, pad: Seq<char>) -> Seq<char> {
    if w < 0x10 {
        pad + hex_digit(w as u8)
    } else if w < 0x100 {
        hex2(w as u8)
    } else if w < 0x1000 {
        hex_digit((w / 256) as u8) + hex2((w % 256) as u8)
    } else {
        hex4(w)
    }
}

/// The target of a relative jump whose offset byte `n` is at `pc`.
pub open spec fn jr_target(pc: u16, n: u8) -> u16 {
    offset16(wadd16(pc, 1), n)
}

/// The text of a CB-prefixed instruction whose second byte is `n`.
pub open spec fn cb_mnemonic(n: u8) -> Seq<char> {
    let x = n >> 6u8;
    let y = (n >> 3u8) & 7;
    let z = n & 7;
    if x == 0 {
        shift_name(y) + " "@ + reg_name(z)
    } else {
        bit_op_name(x) + hex_digit(y) + ", "@ + reg_name(z)
    }
}

/// The text of the instruction of opcode `op`, whose operand bytes start at `pc` and read
/// `n8` (one byte) or `n16` (a little endian word); `None` for an opcode that the CPU does
/// not have.
pub open spec fn mnemonic(pc: u16, op: u8, n8: u8, n16: u16) -> Option<Seq<char>> {
    let r = (op >> 3u8) & 7;
    let z = op & 7;
    let p = (op >> 4u8) & 3;
    let cc = (op >> 3u8) & 3;
    if op == 0xCB {
        Some(cb_mnemonic(n8))
    } else if 0x40 <= op < 0x80 && op != 0x76 {
        Some("LD "@ + reg_name(r) + ", "@ + reg_name(z))
    } else if 0x80 <= op < 0xC0 {
        Some(alu_name(r) + reg_name(z))
    } else if op >= 0xC0 && z == 6 {
        Some(alu_name(r) + "$"@ + hex2(n8))
    } else if op < 0x40 && z == 4 {
        Some("INC "@ + reg_name(r))
    } else if op < 0x40 && z == 5 {
        Some("DEC "@ + reg_name(r))
    } else if op < 0x40 && z == 6 {
        Some("LD "@ + reg_name(r) + ", $"@ + hex2(n8))
    } else if op < 0x40 && op & 0x0F == 0x01 {
        Some("LD "@ + pair_name(p) + ", $"@ + hex4(n16))
    } else if op < 0x40 && op & 0x0F == 0x03 {
        Some("INC "@ + pair_name(p))
    } else if op < 0x40 && op & 0x0F == 0x0B {
        Some("DEC "@ + pair_name(p))
    } else if op < 0x40 && op & 0x0F == 0x09 {
        Some("ADD HL, "@ + pair_name(p))
    } else if op >= 0xC0 && op & 0x0F == 0x05 {
        Some("PUSH "@ + stack_pair_name(p))
    } else if op >= 0xC0 && op & 0x0F == 0x01 {
        Some("POP "@ + stack_pair_name(p))
    } else if op >= 0xC0 && z == 7 {
        Some("RST $"@ + hex4((op & 0x38) as u16))
    } else if 0xC0 <= op < 0xE0 && z == 2 {
        Some("JP "@ + cond_name(cc) + ", $"@ + hex4(n16))
    } else if 0xC0 <= op < 0xE0 && z == 4 {
        Some("CALL "@ + cond_name(cc) + ", $"@ + hex4(n16))
    } else if 0xC0 <= op < 0xE0 && z == 0 {
        Some("RET "@ + cond_name(cc))
    } else if 0x20 <= op < 0x40 && z == 0 {
        Some("JR "@ + cond_name(cc) + ", $"@ + hex_min2(jr_target(pc, n8), "0"@))
    } else {
        misc_mnemonic(pc, op, n8, n16)
    }
}

pub open spec fn misc_mnemonic(pc: u16, op: u8, n8: u8, n16: u16) -> Option<Seq<char>> {
    if op == 0x00 {
        Some("NOP"@)
    } else if op == 0x10 {
        Some("STOP"@)
    } else if op == 0x08 {
        Some("LD ($"@ + hex4(n16) + "), SP"@)
    } else if op == 0x18 {
        Some("JR $"@ + hex_min2(jr_target(pc, n8), " "@))
    } else if op == 0x02 {
        Some("LD (BC), A"@)
    } else if op == 0x12 {
        Some("LD (DE), A"@)
    } else if op == 0x22 {
        Some("LD (HL+), A"@)
    } else if op == 0x32 {
        Some("LD (HL-), A"@)
    } else if op == 0x0A {
        Some("LD A, (BC)"@)
    } else if op == 0x1A {
        Some("LD A, (DE)"@)
    } else if op == 0x2A {
        Some("LD A, (HL+)"@)
    } else if op == 0x3A {
        Some("LD A, (HL-)"@)
    } else if op == 0x07 {
        Some("RLCA"@)
    } else if op == 0x0F {
        Some("RRCA"@)
    } else if op == 0x17 {
        Some("RLA"@)
    } else if op == 0x1F {
        Some("RRA"@)
    } else if op == 0x27 {
        Some("DAA"@)
    } else if op == 0x2F {
        Some("CPL"@)
    } else if op == 0x37 {
        Some("SCF"@)
    } else if op == 0x3F {
        Some("CCF"@)
    } else if op == 0x76 {
        Some("HALT"@)
    } else if op == 0xC3 {
        Some("JP $"@ + hex4(n16))
    } else if op == 0xCD {
        Some("CALL $"@ + hex4(n16))
    } else if op == 0xC9 {
        Some("RET"@)
    } else if op == 0xD9 {
        Some("RETI"@)
    } else if op == 0xE0 {
        Some("LD ($FF00 + $"@ + hex2(n8) + "), A"@)
    } else if op == 0xF0 {
        Some("LD A, ($FF00 + $"@ + hex2(n8) + ")"@)
    } else if op == 0xE2 {
        Some("LD ($FF00 + C), A"@)
    } else if op == 0xF2 {
        Some("LD A, ($FF00 + C)"@)
    } else if op == 0xE8 {
        Some("ADD SP, $"@ + hex2(n8))
    } else if op == 0xF8 {
        Some("LD HL, SP + $"@ + hex2(n8))
    } else if op == 0xE9 {
        Some("JP (HL)"@)
    } else if op == 0xF9 {
        Some("LD SP, HL"@)
    } else if op == 0xEA {
        Some("LD ($"@ + hex4(n16) + "), A"@)
    } else if op == 0xFA {
        Some("LD A, ($"@ + hex4(n16) + ")"@)
    } else if op == 0xF3 {
        Some("DI"@)
    } else if op == 0xFB {
        Some("EI"@)
    } else {
        None
    }
}

fn hex_digit_str(d: u8) -> (s: &'static str)
    ensures
        s@ == hex_digit(d),
{
    if d == 0 {
        "0"
    } else if d == 1 {
        "1"
    } else if d == 2 {
        "2"
    } else if d == 3 {
        "3"
    } else if d == 4 {
        "4"
    } else if d == 5 {
        "5"
    } else if d == 6 {
        "6"
    } else if d == 7 {
        "7"
    } else if d == 8 {
        "8"
    } else if d == 9 {
        "9"
    } else if d == 10 {
        "A"
    } else if d == 11 {
        "B"
    } else if d == 12 {
        "C"
    } else if d == 13 {
        "D"
    } else if d == 14 {
        "E"
    } else {
        "F"
    }
}

fn reg_name_str(i: u8) -> (s: &'static str)
    ensures
        s@ == reg_name(i),
{
    if i == 0 {
        "B"
    } else if i == 1 {
        "C"
    } else if i == 2 {
        "D"
    } else if i == 3 {
        "E"
    } else if i == 4 {
        "H"
    } else if i == 5 {
        "L"
    } else if i == 6 {
        "(HL)"
    } else {
        "A"
    }
}

fn pair_name_str(p: u8) -> (s: &'static str)
    ensures
        s@ == pair_name(p),
{
    if p == 0 {
        "BC"
    } else if p == 1 {
        "DE"
    } else if p == 2 {
        "HL"
    } else {
        "SP"
    }
}

fn stack_pair_name_str(p: u8) -> (s: &'static str)
    ensures
        s@ == stack_pair_name(p),
{
    if p == 0 {
        "BC"
    } else if p == 1 {
        "DE"
    } else if p == 2 {
        "HL"
    } else {
        "AF"
    }
}

fn cond_name_str(cc: u8) -> (s: &'static str)
    ensures
        s@ == cond_name(cc),
{
    if cc == 0 {
        "NZ"
    } else if cc == 1 {
        "Z"
    } else if cc == 2 {
        "NC"
    } else {
        "C"
    }
}

fn alu_name_str(k: u8) -> (s: &'static str)
    ensures
        s@ == alu_name(k),
{
    if k == 0 {
        "ADD A, "
    } else if k == 1 {
        "ADC A, "
    } else if k == 2 {
        "SUB A, "
    } else if k == 3 {
        "SBC A, "
    } else if k == 4 {
        "AND "
    } else if k == 5 {
        "XOR "
    } else if k == 6 {
        "OR "
    } else {
        "CP "
    }
}

fn shift_name_str(y: u8) -> (s: &'static str)
    ensures
        s@ == shift_name(y),
{
    if y == 0 {
        "RLC"
    } else if y == 1 {
        "RRC"
    } else if y == 2 {
        "RL"
    } else if y == 3 {
        "RR"
    } else if y == 4 {
        "SLA"
    } else if y == 5 {
        "SRA"
    } else if y == 6 {
        "SWAP"
    } else {
        "SRL"
    }
}

fn bit_op_name_str(x: u8) -> (s: &'static str)
    ensures
        s@ == bit_op_name(x),
{
    if x == 0 {
        ""
    } else if x == 1 {
        "BIT "
    } else if x == 2 {
        "RES "
    } else {
        "SET "
    }
}

fn misc_text(pc: u16, op: u8, n8: u8, n16: u16) -> (m: Option<String>)
    ensures
        text_of(m) == misc_mnemonic(pc, op, n8, n16),
{
    if op == 0x00 {
        Some(String::from_str("NOP"))
    } else if op == 0x10 {
        Some(String::from_str("STOP"))
    } else if op == 0x08 {
        let mut s = String::from_str("LD ($");
        push_hex4(&mut s, n16);
        s.append("), SP");
        Some(s)
    } else if op == 0x18 {
        let mut s = String::from_str("JR $");
        push_hex_min2(&mut s, jr_target_exec(pc, n8), " ");
        Some(s)
    } else if op == 0x02 {
        Some(String::from_str("LD (BC), A"))
    } else if op == 0x12 {
        Some(String::from_str("LD (DE), A"))
    } else if op == 0x22 {
        Some(String::from_str("LD (HL+), A"))
    } else if op == 0x32 {
        Some(String::from_str("LD (HL-), A"))
    } else if op == 0x0A {
        Some(String::from_str("LD A, (BC)"))
    } else if op == 0x1A {
        Some(String::from_str("LD A, (DE)"))
    } else if op == 0x2A {
        Some(String::from_str("LD A, (HL+)"))
    } else if op == 0x3A {
        Some(String::from_str("LD A, (HL-)"))
    } else if op == 0x07 {
        Some(String::from_str("RLCA"))
    } else if op == 0x0F {
        Some(String::from_str("RRCA"))
    } else if op == 0x17 {
        Some(String::from_str("RLA"))
    } else if op == 0x1F {
        Some(String::from_str("RRA"))
    } else if op == 0x27 {
        Some(String::from_str("DAA"))
    } else if op == 0x2F {
        Some(String::from_str("CPL"))
    } else if op == 0x37 {
        Some(String::from_str("SCF"))
    } else if op == 0x3F {
        Some(String::from_str("CCF"))
    } else if op == 0x76 {
        Some(String::from_str("HALT"))
    } else if op == 0xC3 {
        let mut s = String::from_str("JP $");
        push_hex4(&mut s, n16);
        Some(s)
    } else if op == 0xCD {
        let mut s = String::from_str("CALL $");
        push_hex4(&mut s, n16);
        Some(s)
    } else if op == 0xC9 {
        Some(String::from_str("RET"))
    } else if op == 0xD9 {
        Some(String::from_str("RETI"))
    } else if op == 0xE0 {
        let mut s = String::from_str("LD ($FF00 + $");
        push_hex2(&mut s, n8);
        s.append("), A");
        Some(s)
    } else if op == 0xF0 {
        let mut s = String::from_str("LD A, ($FF00 + $");
        push_hex2(&mut s, n8);
        s.append(")");
        Some(s)
    } else if op == 0xE2 {
        Some(String::from_str("LD ($FF00 + C), A"))
    } else if op == 0xF2 {
        Some(String::from_str("LD A, ($FF00 + C)"))
    } else if op == 0xE8 {
        let mut s = String::from_str("ADD SP, $");
        push_hex2(&mut s, n8);
        Some(s)
    } else if op == 0xF8 {
        let mut s = String::from_str("LD HL, SP + $");
        push_hex2(&mut s, n8);
        Some(s)
    } else if op == 0xE9 {
        Some(String::from_str("JP (HL)"))
    } else if op == 0xF9 {
        Some(String::from_str("LD SP, HL"))
    } else if op == 0xEA {
        let mut s = String::from_str("LD ($");
        push_hex4(&mut s, n16);
        s.append("), A");
        Some(s)
    } else if op == 0xFA {
        let mut s = String::from_str("LD A, ($");
        push_hex4(&mut s, n16);
        s.append(")");
        Some(s)
    } else if op == 0xF3 {
        Some(String::from_str("DI"))
    } else if op == 0xFB {
        Some(String::from_str("EI"))
    } else {
        None
    }
}

fn push_hex2(s: &mut String, n: u8)
    ensures
        final(s)@ == old(s)@ + hex2(n),
{
    s.append(hex_digit_str(n / 16));
    s.append(hex_digit_str(n % 16));
}

fn push_hex4(s: &mut String, w: u16)
    ensures
        final(s)@ == old(s)@ + hex4(w),
{
    push_hex2(s, (w / 256) as u8);
    push_hex2(s, (w % 256) as u8);
}

fn push_hex_min2(s: &mut String, w: u16, pad: &str)
    ensures
        final(s)@ == old(s)@ + hex_min2(w, pad@),
{
    if w < 0x10 {
        s.append(pad);
        s.append(hex_digit_str(w as u8));
    } else if w < 0x100 {
        push_hex2(s, w as u8);
    } else if w < 0x1000 {
        s.append(hex_digit_str((w / 256) as u8));
        push_hex2(s, (w % 256) as u8);
    } else {
        push_hex4(s, w);
    }
}

fn jr_target_exec(pc: u16, n: u8) -> (t: u16)
    ensures
        t == jr_target(pc, n),
{
    let x = pc.wrapping_add(1);
    if n < 128 {
        x.wrapping_add(n as u16)
    } else {
        x.wrapping_sub(256 - n as u16)
    }
}

/// The text of a CB-prefixed instruction whose second byte is `n`.
fn cb_text(n: u8) -> (s: String)
    ensures
        s@ == cb_mnemonic(n),
{
    let x = n >> 6;
    let y = (n >> 3) & 7;
    let z = n & 7;
    if x == 0 {
        let mut s = String::from_str(shift_name_str(y));
        s.append(" ");
        s.append(reg_name_str(z));
        s
    } else {
        let mut s = String::from_str(bit_op_name_str(x));
        s.append(hex_digit_str(y));
        s.append(", ");
        s.append(reg_name_str(z));
        s
    }
}

/// The text of the instruction of opcode `op`, whose operand bytes start at `pc` and read
/// `n8` (one byte) or `n16` (a little endian word): its mnemonic and operands, or `None`
/// for an opcode that the CPU does not have.
pub fn disassemble(pc: u16, op: u8, n8: u8, n16: u16) -> (m: Option<String>)
    ensures
        text_of(m) == mnemonic(pc, op, n8, n16),
{
    let r = (op >> 3) & 7;
    let z = op & 7;
    let p = (op >> 4) & 3;
    let cc = (op >> 3) & 3;
    if op == 0xCB {
        Some(cb_text(n8))
    } else if 0x40 <= op && op < 0x80 && op != 0x76 {
        let mut s = String::from_str("LD ");
        s.append(reg_name_str(r));
        s.append(", ");
        s.append(reg_name_str(z));
        Some(s)
    } else if 0x80 <= op && op < 0xC0 {
        let mut s = String::from_str(alu_name_str(r));
        s.append(reg_name_str(z));
        Some(s)
    } else if op >= 0xC0 && z == 6 {
        let mut s = String::from_str(alu_name_str(r));
        s.append("$");
        push_hex2(&mut s, n8);
        Some(s)
    } else if op < 0x40 && z == 4 {
        let mut s = String::from_str("INC ");
        s.append(reg_name_str(r));
        Some(s)
    } else if op < 0x40 && z == 5 {
        let mut s = String::from_str("DEC ");
        s.append(reg_name_str(r));
        Some(s)
    } else if op < 0x40 && z == 6 {
        let mut s = String::from_str("LD ");
        s.append(reg_name_str(r));
        s.append(", $");
        push_hex2(&mut s, n8);
        Some(s)
    } else if op < 0x40 && op & 0x0F == 0x01 {
        let mut s = String::from_str("LD ");
        s.append(pair_name_str(p));
        s.append(", $");
        push_hex4(&mut s, n16);
        Some(s)
    } else if op < 0x40 && op & 0x0F == 0x03 {
        let mut s = String::from_str("INC ");
        s.append(pair_name_str(p));
        Some(s)
    } else if op < 0x40 && op & 0x0F == 0x0B {
        let mut s = String::from_str("DEC ");
        s.append(pair_name_str(p));
        Some(s)
    } else if op < 0x40 && op & 0x0F == 0x09 {
        let mut s = String::from_str("ADD HL, ");
        s.append(pair_name_str(p));
        Some(s)
    } else if op >= 0xC0 && op & 0x0F == 0x05 {
        let mut s = String::from_str("PUSH ");
        s.append(stack_pair_name_str(p));
        Some(s)
    } else if op >= 0xC0 && op & 0x0F == 0x01 {
        let mut s = String::from_str("POP ");
        s.append(stack_pair_name_str(p));
        Some(s)
    } else if op >= 0xC0 && z == 7 {
        let mut s = String::from_str("RST $");
        push_hex4(&mut s, (op & 0x38) as u16);
        Some(s)
    } else if 0xC0 <= op && op < 0xE0 && z == 2 {
        let mut s = String::from_str("JP ");
        s.append(cond_name_str(cc));
        s.append(", $");
        push_hex4(&mut s, n16);
        Some(s)
    } else if 0xC0 <= op && op < 0xE0 && z == 4 {
        let mut s = String::from_str("CALL ");
        s.append(cond_name_str(cc));
        s.append(", $");
        push_hex4(&mut s, n16);
        Some(s)
    } else if 0xC0 <= op && op < 0xE0 && z == 0 {
        let mut s = String::from_str("RET ");
        s.append(cond_name_str(cc));
        Some(s)
    } else if 0x20 <= op && op < 0x40 && z == 0 {
        let mut s = String::from_str("JR ");
        s.append(cond_name_str(cc));
        s.append(", $");
        push_hex_min2(&mut s, jr_target_exec(pc, n8), "0");
        Some(s)
    } else {
        misc_text(pc, op, n8, n16)
    }
}

impl Cpu {
    /// The text of the instruction at PC, as `disassemble` gives it, with the bytes that
    /// follow it on the bus as operands.
    pub fn current_instruction(&self, bus: &Bus) -> (m: Option<String>)
        requires
            bus.wf(),
        ensures
            text_of(m) == mnemonic(
                wadd16(self.pc, 1),
                bus.peek(self.pc),
                bus.peek(wadd16(self.pc, 1)),
                word(bus.peek(wadd16(wadd16(self.pc, 1), 1)), bus.peek(wadd16(self.pc, 1))),
            ),
    {
        let pc = self.pc.wrapping_add(1);
        let op = bus.read(self.pc);
        let n8 = bus.read(pc);
        let h = bus.read(pc.wrapping_add(1));
        let n16 = crate::bitops::make_u16(h, n8);
        disassemble(pc, op, n8, n16)
    }
}

/// The disassembly of the register loads, the register increments and decrements and the
/// register arithmetic names the register that the instruction writes, the one `spec_execute`
/// writes: `r` for the loads and the increments and decrements (`(HL)` being memory at
/// HL), and A for the arithmetic, whose source is the register `z` named after the comma.
pub proof fn law_disassembly_names_destination(cpu: Cpu, bus: Bus, pc: u16, op: u8, n8: u8, n16: u16)
    ensures
        ({
            let r = (op >> 3u8) & 7;
            let z = op & 7;
            &&& 0x40 <= op < 0x80 && op != 0x76 ==> {
                &&& mnemonic(pc, op, n8, n16) == Some("LD "@ + reg_name(r) + ", "@ + reg_name(z))
                &&& cpu.spec_execute(bus, op) == if r == 6 {
                    (cpu, bus.poked(cpu.spec_hl(), cpu.reg(z)), 8u8)
                } else {
                    (cpu.with_reg(r, cpu.operand(bus, z)), bus, if z == 6 { 8u8 } else { 4u8 })
                }
            }
            &&& 0x80 <= op < 0xC0 ==> {
                &&& mnemonic(pc, op, n8, n16) == Some(alu_name(r) + reg_name(z))
                &&& cpu.spec_execute(bus, op) == (
                    cpu.spec_alu(r, cpu.operand(bus, z)),
                    bus,
                    if z == 6 { 8u8 } else { 4u8 },
                )
            }
            &&& op < 0x40 && (z == 4 || z == 5) ==> {
                let (c, res) = if z == 4 {
                    cpu.spec_inc(cpu.operand(bus, r))
                } else {
                    cpu.spec_dec(cpu.operand(bus, r))
                };
                &&& mnemonic(pc, op, n8, n16) == Some(
                    (if z == 4 { "INC "@ } else { "DEC "@ }) + reg_name(r),
                )
                &&& cpu.spec_execute(bus, op) == if r == 6 {
                    (c, bus.poked(cpu.spec_hl(), res), 12u8)
                } else {
                    (c.with_reg(r, res), bus, 4u8)
                }
            }
        }),
{
}

} // verus!
