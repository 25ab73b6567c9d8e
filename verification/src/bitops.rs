use vstd::prelude::*;
use vstd::arithmetic::power2::*;
use vstd::bits::*;

verus! {

/// `x + y` modulo 256.
pub open spec fn wadd8(x: u8, y: u8) -> u8 {
    if x + y > 255 {
        (x + y - 256) as u8
    } else {
        (x + y) as u8
    }
}

/// `x - y` modulo 256.
pub open spec fn wsub8(x: u8, y: u8) -> u8 {
    if x - y < 0 {
        (x - y + 256) as u8
    } else {
        (x - y) as u8
    }
}

/// `x + y` modulo 65536.
pub open spec fn wadd16(x: u16, y: u16) -> u16 {
    if x + y > 0xFFFF {
        (x + y - 0x10000) as u16
    } else {
        (x + y) as u16
    }
}

/// `x - y` modulo 65536.
pub open spec fn wsub16(x: u16, y: u16) -> u16 {
    if x - y < 0 {
        (x - y + 0x10000) as u16
    } else {
        (x - y) as u16
    }
}

/// `x + y` modulo 2^32.
pub open spec fn wadd32(x: u32, y: u32) -> u32 {
    if x + y > 0xFFFF_FFFF {
        (x + y - 0x1_0000_0000) as u32
    } else {
        (x + y) as u32
    }
}

/// The 16-bit word with high byte `h` and low byte `l`.
pub open spec fn word(h: u8, l: u8) -> u16 {
    (h * 256 + l) as u16
}

/// Join two bytes into a word.
pub fn make_u16(h: u8, l: u8) -> (w: u16)
    ensures
        w == word(h, l),
{
    let w = ((h as u16) << 8) | l as u16;
    assert(w == h * 256 + l) by (bit_vector)
        requires
            w == ((h as u16) << 8u16) | l as u16,
    ;
    w
}

/// The high byte of a word.
pub fn high_byte(w: u16) -> (h: u8)
    ensures
        h == w / 256,
{
    let h = (w >> 8) as u8;
    assert(h == w / 256) by (bit_vector)
        requires
            h == (w >> 8u16) as u8,
    ;
    h
}

/// The low byte of a word.
pub fn low_byte(w: u16) -> (l: u8)
    ensures
        l == w % 256,
{
    let l = w as u8;
    assert(l == w % 256) by (bit_vector)
        requires
            l == w as u8,
    ;
    l
}

/// Masking a byte bounds it.
pub proof fn lemma_byte_masks(x: u8)
    by (bit_vector)
    ensures
        x & 1u8 < 2,
        x & 3u8 < 4,
        x & 7u8 < 8,
        x & 63u8 < 64,
{
}

/// A right shift of a word does not make it larger.
pub proof fn lemma_shr_le(x: u16, s: u8)
    by (bit_vector)
    ensures
        x >> s <= x,
{
}

/// On bytes, zero is neutral for `|` and `|` associates.
pub proof fn lemma_byte_or(x: u8, y: u8, z: u8)
    by (bit_vector)
    ensures
        x | 0u8 == x,
        (x | y) | z == x | (y | z),
{
}

/// Or-ing two more values into `(r | p) | t` regroups with the values they join.
pub proof fn lemma_byte_or_regroup(r: u8, p: u8, t: u8, d: u8, b: u8)
    by (bit_vector)
    ensures
        (((r | p) | t) | d) | b == (r | (p | d)) | (t | b),
{
}

/// Bit fields of a byte read as arithmetic: halving with and without keeping the top bit,
/// the low bit, the four 2-bit fields, the low five bits under a new top three, bit 2, and
/// a 2-bit number made of one bit of each of two bytes; the top five bits of one byte over
/// the low three of another; bit 2 set or cleared.
pub proof fn lemma_byte_fields(n: u8, pal: u8, rb: u8, v: u8, tac: u8, lo: u8, hi: u8, st: u8, w: u8)
    by (bit_vector)
    ensures
        (n & 0x80u8) | (n >> 1u8) == n / 2 + (if n >= 128 { 128u8 } else { 0u8 }),
        n >> 1u8 == n / 2,
        n & 0x01u8 == n % 2,
        (pal >> 0u8) & 3u8 == pal % 4,
        (pal >> 2u8) & 3u8 == (pal / 4) % 4,
        (pal >> 4u8) & 3u8 == (pal / 16) % 4,
        (pal >> 6u8) & 3u8 == pal / 64,
        ((rb & 0xE0u8) | (v & 0x1Fu8)) % 32 == v % 32,
        ((rb & 0xE0u8) | (v & 0x1Fu8)) / 32 == rb / 32,
        (tac & 4u8 == 4u8) == ((tac / 4) % 2 == 1),
        (lo & 0x01u8) | ((hi & 0x01u8) << 1u8) == lo % 2u8 + 2u8 * (hi % 2u8),
        ((w & 0xF8u8) | (st & 0x07u8)) % 8u8 == st % 8u8,
        ((w & 0xF8u8) | (st & 0x07u8)) / 8u8 == w / 8u8,
        (st | 4u8) % 4u8 == st % 4u8 && (st | 4u8) / 8u8 == st / 8u8 && ((st | 4u8) / 4u8) % 2u8 == 1u8,
        (st & !4u8) % 4u8 == st % 4u8 && (st & !4u8) / 8u8 == st / 8u8 && ((st & !4u8) / 4u8) % 2u8 == 0u8,
        (st & 3u8) == st % 4u8,
{
}

/// Rotations, shifts and nibble swaps of a byte read as arithmetic; one bit of a byte tested,
/// cleared and set; the fields of an opcode; bits 1 and 3 both set; bits 7, 5, 4, 3 and 1
/// clear or set; the upper nibble; the low six bits read and forced to 1.
pub proof fn lemma_byte_rotations(n1: u8, n2: u8, n3: u8, n4: u8, n5: u8, n6: u8, n7: u8, n8: u8, c1: u8, c2: u8, m: u8, y: u8, op: u8)
    by (bit_vector)
    ensures
        c1 <= 1u8 ==> (n1 << 1u8) | c1 == 2u8 * (n1 % 128u8) + c1,
        (n2 << 1u8) | (n2 >> 7u8) == 2u8 * (n2 % 128u8) + n2 / 128u8,
        n3 >> 7u8 == n3 / 128u8,
        c2 <= 1u8 ==> (c2 << 7u8) | (n4 >> 1u8) == 128u8 * c2 + n4 / 2u8,
        (n5 >> 1u8) | (n5 << 7u8) == n5 / 2u8 + 128u8 * (n5 % 2u8),
        n6 << 1u8 == 2u8 * (n6 % 128u8),
        n7 & 0x01u8 == n7 % 2u8,
        (n8 << 4u8) | (n8 >> 4u8) == 16u8 * (n8 % 16u8) + n8 / 16u8,
        y < 8u8 ==> ((m & (1u8 << y)) == 0u8) == ((m >> y) & 1u8 == 0u8),
        y < 8u8 ==> (m & !(1u8 << y)) + ((m >> y) & 1u8) * (1u8 << y) == m,
        y < 8u8 ==> m | (1u8 << y) == (m & !(1u8 << y)) + (1u8 << y),
        op >> 6u8 == op / 64u8,
        (op >> 3u8) & 7u8 == (op / 8u8) % 8u8,
        op & 7u8 == op % 8u8,
        (op & 0xAu8 == 0xAu8) == ((op / 2u8) % 2u8 == 1u8 && (op / 8u8) % 2u8 == 1u8),
        (op & 0x80u8 == 0x80u8) == (op >= 128u8),
        (op & 0x80u8 == 0u8) == !(op & 0x80u8 == 0x80u8),
        (op & 0x10u8 == 0u8) == !(op & 0x10u8 == 0x10u8),
        (op >> 3u8) & 3u8 == (op / 8u8) % 4u8,
        op & 0x38u8 == 8u8 * ((op / 8u8) % 8u8),
        (op & 0x20u8 != 0u8) == ((op / 32u8) % 2u8 == 1u8),
        (op & 0x10u8 != 0u8) == ((op / 16u8) % 2u8 == 1u8),
        (op & 0x80u8 == 0u8) == (op < 128u8),
        (op & 0x02u8 == 0x02u8) == ((op / 2u8) % 2u8 == 1u8),
        (op & 0x08u8 == 0x08u8) == ((op / 8u8) % 2u8 == 1u8),
        op >> 4u8 == op / 16u8,
        op & 0x3Fu8 == op % 64u8,
        op | 0x3Fu8 == 64u8 * (op / 64u8) + 63u8,
{
}

/// Replacing the two low bits of `s` by `m` gives `m` back there and keeps the others.
pub proof fn lemma_set_low_bits(s: u8, m: u8)
    by (bit_vector)
    requires
        m < 4,
    ensures
        ((s & !3u8) | m) & 3u8 == m,
        ((s & !3u8) | m) & 4u8 == s & 4u8,
        ((s & !3u8) | m) & 8u8 == s & 8u8,
        ((s & !3u8) | m) & 0x10u8 == s & 0x10u8,
        ((s & !3u8) | m) & 0x20u8 == s & 0x20u8,
        ((s & !3u8) | m) & 0x40u8 == s & 0x40u8,
{
}

/// Splitting a word and joining its bytes gives it back.
pub proof fn lemma_word_split(w: u16)
    ensures
        word((w / 256) as u8, (w % 256) as u8) == w,
{
}

/// Masking the low bits of a byte or a word takes it modulo a power of two.
pub proof fn lemma_low_masks(b: u8, w: u16)
    ensures
        b & 0xFu8 == b % 16,
        b & 0x3u8 == b % 4,
        w & 0xFu16 == w % 16,
        w & 0xFFu16 == w % 256,
        w & 0xFFFu16 == w % 4096,
{
    lemma_low_bits_mask_values();
    lemma2_to64();
    lemma_u8_low_bits_mask_is_mod(b, 4);
    lemma_u8_low_bits_mask_is_mod(b, 2);
    lemma_u16_low_bits_mask_is_mod(w, 4);
    lemma_u16_low_bits_mask_is_mod(w, 8);
    lemma_u16_low_bits_mask_is_mod(w, 12);
}

} // verus!
