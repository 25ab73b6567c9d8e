use vstd::prelude::*;
use vstd::arithmetic::power2::{lemma2_to64, lemma_pow2_adds};
use vstd::bits::lemma_u16_shl_is_mul;
use vstd::arithmetic::div_mod::lemma_fundamental_div_mod_converse;
use vstd::utf8::{decode_utf8, valid_utf8};

use crate::bitops::{make_u16, word, wsub8};
use crate::error::Error;
use crate::region::{ERAM_REGION_END, ERAM_REGION_START, ROM_REGION_END, ROM_REGION_SIZE};
use super::header::{
    cartridge_type_from_code, cartridge_type_of, licensee_of, new_licensee_from_code,
    old_licensee_from_code, CartridgeType, CgbMode, Licensee,
};
use super::mbc::{cartridge_address, Mbc, Mbc0, Mbc1, Mbc3, DEFAULT_RAM_BANK, DEFAULT_ROM_BANK};

verus! {

pub const HEADER_TITLE_START: usize = 0x0134;
pub const HEADER_TITLE_END: usize = 0x0143;
pub const HEADER_CGB_FLAG: usize = 0x0143;
pub const HEADER_NEW_LICENSEE_CODE: usize = 0x0144;
pub const HEADER_SGB_FLAG: usize = 0x0146;
pub const HEADER_CARTRIDGE_TYPE: usize = 0x0147;
pub const HEADER_ROM_SIZE: usize = 0x0148;
pub const HEADER_RAM_SIZE: usize = 0x0149;
pub const HEADER_DESTINATION_CODE: usize = 0x014A;
pub const HEADER_OLD_LICENSEE_CODE: usize = 0x014B;
pub const HEADER_VERSION: usize = 0x014C;
pub const HEADER_HEADER_CHECKSUM: usize = 0x014D;

/// `std::str::Utf8Error`, carried through unchanged.
#[verifier::external_type_specification]
#[verifier::external_body]
pub struct ExUtf8Error(core::str::Utf8Error);

/// Calls `core::str::from_utf8`, which accepts exactly the valid UTF-8 byte strings and
/// then gives the string that they encode.
#[verifier::external_body]
fn utf8_str(bytes: &[u8]) -> (r: Result<&str, core::str::Utf8Error>)
    ensures
        r is Ok <==> valid_utf8(bytes@),
        r matches Ok(s) ==> s@ == decode_utf8(bytes@),
{
    core::str::from_utf8(bytes)
}

/// The cartridge types that this emulator has a controller for.
pub open spec fn supported_cartridge(t: CartridgeType) -> bool {
    match t {
        CartridgeType::RomOnly | CartridgeType::Mbc1 | CartridgeType::Mbc1Ram
        | CartridgeType::Mbc1RamBattery | CartridgeType::Mbc3 | CartridgeType::Mbc3Ram
        | CartridgeType::Mbc3RamBattery | CartridgeType::Mbc3TimerBattery
        | CartridgeType::Mbc3TimerRamBattery => true,
        _ => false,
    }
}

/// Whether this emulator has a controller for cartridges of type `t`.
pub fn is_supported_cartridge(t: CartridgeType) -> (r: bool)
    ensures
        r == supported_cartridge(t),
{
    match t {
        CartridgeType::RomOnly | CartridgeType::Mbc1 | CartridgeType::Mbc1Ram
        | CartridgeType::Mbc1RamBattery | CartridgeType::Mbc3 | CartridgeType::Mbc3Ram
        | CartridgeType::Mbc3RamBattery | CartridgeType::Mbc3TimerBattery
        | CartridgeType::Mbc3TimerRamBattery => true,
        _ => false,
    }
}

/// Whether `m` is the controller, in its power-on state, for a cartridge of type `t`.
pub open spec fn fresh_controller(m: Mbc, t: CartridgeType) -> bool {
    match t {
        CartridgeType::RomOnly => m is Mbc0,
        CartridgeType::Mbc1 | CartridgeType::Mbc1Ram | CartridgeType::Mbc1RamBattery => {
            &&& m matches Mbc::Mbc1(c)
            &&& c.eram@ == Seq::new(0x8000nat, |i: int| 0u8)
            &&& !c.ram_enabled
            &&& c.ram_bank == DEFAULT_RAM_BANK
            &&& c.rom_bank == DEFAULT_ROM_BANK
            &&& !c.ram_bank_mode
        },
        _ => {
            &&& m matches Mbc::Mbc3(c)
            &&& c.eram@ == Seq::new(0x8000nat, |i: int| 0u8)
            &&& !c.ram_timer_enabled
            &&& c.rom_bank == DEFAULT_ROM_BANK
            &&& c.ram_bank == DEFAULT_RAM_BANK
            &&& c.reg_rtc == 0
            &&& !c.rtc_mode
        },
    }
}

/// The `j`-th byte of the title area.
pub open spec fn title_byte(s: Seq<u8>, j: int) -> u8 {
    s[0x134 + j]
}

/// Length of the title: the bytes from 0x0134 up to the first zero, at most 16.
pub open spec fn title_len_from(s: Seq<u8>, i: int) -> int
    decreases 16 - i,
{
    if i >= 16 {
        16
    } else if title_byte(s, i) == 0 {
        i
    } else {
        title_len_from(s, i + 1)
    }
}

/// The title bytes of an image.
pub open spec fn title_bytes(s: Seq<u8>) -> Seq<u8> {
    s.subrange(0x134, 0x134 + title_len_from(s, 0))
}

proof fn lemma_title_len(s: Seq<u8>, i: int)
    requires
        0 <= i <= 16,
        forall|j: int| 0 <= j < i ==> #[trigger] title_byte(s, j) != 0,
    ensures
        title_len_from(s, 0) == title_len_from(s, i),
    decreases i,
{
    if i > 0 {
        lemma_title_len(s, i - 1);
    }
}

proof fn lemma_title_len_range(s: Seq<u8>, i: int)
    requires
        0 <= i <= 16,
    ensures
        i <= title_len_from(s, i) <= 16,
    decreases 16 - i,
{
    if i < 16 {
        lemma_title_len_range(s, i + 1);
    }
}

/// The header checksum over the bytes `x` of 0x0134..0x014D, as a running value.
pub open spec fn checksum(x: Seq<u8>) -> u8
    decreases x.len(),
{
    if x.len() == 0 {
        0
    } else {
        let c = checksum(x.drop_last());
        wsub8(wsub8(c, x.last()), 1)
    }
}

/// Rom size in KB announced by the header byte at 0x0148: 32KB doubled `code` times.
pub open spec fn rom_size_of(code: u8) -> u16 {
    if code <= 8 {
        32u16 << code
    } else {
        0
    }
}

/// Ram size in KB announced by the header byte at 0x0149.
pub open spec fn ram_size_of(code: u8) -> u16 {
    if code == 0x02 {
        8
    } else if code == 0x03 {
        32
    } else if code == 0x04 {
        128
    } else if code == 0x05 {
        64
    } else {
        0
    }
}

/// Color mode announced by the header byte at 0x0143.
pub open spec fn cgb_mode_of(flag: u8) -> CgbMode {
    if flag == 0xC0 {
        CgbMode::Cgb
    } else if flag & 0x80 == 0x80 {
        CgbMode::Both
    } else {
        CgbMode::NoCgb
    }
}

/// A cartridge: its image and its bank controller.
pub struct Rom {
    /// Cartridge data
    pub storage: Vec<u8>,
    /// Bank controller
    pub mbc_ctrl: Mbc,
}

impl Rom {
    /// The image holds the two fixed ROM banks and the controller is consistent.
    pub open spec fn wf(&self) -> bool {
        &&& self.storage@.len() >= ROM_REGION_SIZE
        &&& self.mbc_ctrl.wf()
    }

    /// The byte of the image at `i`.
    pub open spec fn byte(&self, i: int) -> u8 {
        self.storage@[i]
    }

    /// The byte that the cartridge answers on `address`.
    pub open spec fn peek(&self, address: u16) -> u8 {
        self.mbc_ctrl.peek(self.storage@, address)
    }

    /// The cartridge after a write of `value` on `address`; the image never changes.
    pub open spec fn poked(self, address: u16, value: u8) -> Rom {
        Rom { mbc_ctrl: self.mbc_ctrl.poked(address, value), ..self }
    }

    /// Build a rom from a cartridge image.
    ///
    /// An image shorter than 32KB is refused with its length.  The controller follows the
    /// cartridge type of the header, which must be one that this emulator supports.
    pub fn load(storage: Vec<u8>) -> (r: Result<Rom, Error>)
        requires
            storage@.len() >= ROM_REGION_SIZE ==> supported_cartridge(
                cartridge_type_of(storage@[HEADER_CARTRIDGE_TYPE as int]),
            ),
        ensures
            storage@.len() < ROM_REGION_SIZE <==> r is Err,
            r matches Err(e) ==> e == Error::InvalidRomSize(storage@.len() as usize),
            r matches Ok(rom) ==> {
                &&& rom.wf()
                &&& rom.storage@ == storage@
                &&& fresh_controller(
                    rom.mbc_ctrl,
                    cartridge_type_of(storage@[HEADER_CARTRIDGE_TYPE as int]),
                )
            },
    {
        if storage.len() < ROM_REGION_SIZE {
            Err(Error::InvalidRomSize(storage.len()))
        } else {
            let mbc_ctrl = match cartridge_type_from_code(storage[HEADER_CARTRIDGE_TYPE]) {
                CartridgeType::RomOnly => Mbc::Mbc0(Mbc0),
                CartridgeType::Mbc1 | CartridgeType::Mbc1Ram | CartridgeType::Mbc1RamBattery => {
                    Mbc::Mbc1(Mbc1::new())
                },
                _ => Mbc::Mbc3(Mbc3::new()),
            };
            Ok(Rom { storage, mbc_ctrl })
        }
    }

    /// The header bytes, from the title to the header checksum (excluded).
    pub fn header(&self) -> (h: &[u8])
        requires
            self.wf(),
        ensures
            h@ == self.storage@.subrange(
                HEADER_TITLE_START as int,
                HEADER_HEADER_CHECKSUM as int,
            ),
    {
        vstd::slice::slice_subrange(self.storage.as_slice(), HEADER_TITLE_START, HEADER_HEADER_CHECKSUM)
    }

    /// The title: the bytes of 0x0134..=0x0143 up to the first zero, as UTF-8.
    pub fn title(&self) -> (r: Result<&str, core::str::Utf8Error>)
        requires
            self.wf(),
        ensures
            r is Ok <==> valid_utf8(title_bytes(self.storage@)),
            r matches Ok(t) ==> t@ == decode_utf8(title_bytes(self.storage@)),
    {
        let bytes = self.storage.as_slice();
        let mut i: usize = 0;
        while i < 16
            invariant
                0 <= i <= 16,
                bytes@ == self.storage@,
                self.storage@.len() >= ROM_REGION_SIZE,
                forall|j: int| 0 <= j < i ==> #[trigger] title_byte(self.storage@, j) != 0,
            decreases 16 - i,
        {
            if bytes[HEADER_TITLE_START + i] == 0x00 {
                proof {
                    lemma_title_len(self.storage@, i as int);
                }
                return utf8_str(
                    vstd::slice::slice_subrange(bytes, HEADER_TITLE_START, HEADER_TITLE_START + i),
                );
            }
            i = i + 1;
        }
        proof {
            lemma_title_len(self.storage@, 16);
        }
        utf8_str(vstd::slice::slice_subrange(bytes, HEADER_TITLE_START, HEADER_TITLE_END + 1))
    }

    /// The color mode announced by the header.
    pub fn cgb_mode(&self) -> (m: CgbMode)
        requires
            self.wf(),
        ensures
            m == cgb_mode_of(self.byte(HEADER_CGB_FLAG as int)),
    {
        let cgb_flag = self.storage[HEADER_CGB_FLAG];
        if cgb_flag == 0xC0 {
            CgbMode::Cgb
        } else if cgb_flag & 0x80 == 0x80 {
            CgbMode::Both
        } else {
            CgbMode::NoCgb
        }
    }

    /// The rom size in KB announced by the header (0 for an unknown code).
    pub fn size(&self) -> (s: u16)
        requires
            self.wf(),
        ensures
            s == rom_size_of(self.byte(HEADER_ROM_SIZE as int)),
    {
        let n = self.storage[HEADER_ROM_SIZE];
        if n <= 0x08 {
            32u16 << n
        } else {
            0u16
        }
    }

    /// The ram size in KB announced by the header (0 for an unknown code).
    pub fn ram_size(&self) -> (s: u16)
        requires
            self.wf(),
        ensures
            s == ram_size_of(self.byte(HEADER_RAM_SIZE as int)),
    {
        let code = self.storage[HEADER_RAM_SIZE];
        if code == 0x02 {
            8u16
        } else if code == 0x03 {
            32u16
        } else if code == 0x04 {
            128u16
        } else if code == 0x05 {
            64u16
        } else {
            0u16
        }
    }

    /// Whether the cartridge supports the Super Game Boy functions.
    pub fn is_sgb(&self) -> (b: bool)
        requires
            self.wf(),
        ensures
            b == (self.byte(HEADER_SGB_FLAG as int) == 0x03),
    {
        self.storage[HEADER_SGB_FLAG] == 0x03
    }

    /// The cartridge type announced by the header.
    pub fn cartridge_type(&self) -> (t: CartridgeType)
        requires
            self.wf(),
        ensures
            t == cartridge_type_of(self.byte(HEADER_CARTRIDGE_TYPE as int)),
    {
        cartridge_type_from_code(self.storage[HEADER_CARTRIDGE_TYPE])
    }

    /// Whether the cartridge is for the Japanese market.
    pub fn is_jp(&self) -> (b: bool)
        requires
            self.wf(),
        ensures
            b == (self.byte(HEADER_DESTINATION_CODE as int) == 0x00),
    {
        self.storage[HEADER_DESTINATION_CODE] == 0x00
    }

    /// The version number of the game.
    pub fn version(&self) -> (v: u8)
        requires
            self.wf(),
        ensures
            v == self.byte(HEADER_VERSION as int),
    {
        self.storage[HEADER_VERSION]
    }

    /// Whether the header checksum byte matches the header bytes.
    pub fn verify_header_checksum(&self) -> (ok: bool)
        requires
            self.wf(),
        ensures
            ok == (checksum(
                self.storage@.subrange(HEADER_TITLE_START as int, HEADER_HEADER_CHECKSUM as int),
            ) == self.byte(HEADER_HEADER_CHECKSUM as int)),
    {
        let header = self.header();
        let mut x = 0u8;
        let mut i: usize = 0;
        while i < header.len()
            invariant
                i <= header@.len(),
                x == checksum(header@.subrange(0, i as int)),
            decreases header@.len() - i,
        {
            let byte = header[i];
            assert(header@.subrange(0, i + 1).drop_last() =~= header@.subrange(0, i as int));
            x = x.wrapping_sub(byte).wrapping_sub(1);
            i = i + 1;
        }
        assert(header@.subrange(0, header@.len() as int) =~= header@);
        x == self.storage[HEADER_HEADER_CHECKSUM]
    }

    /// The publisher named by the header.
    pub fn licensee(&self) -> (l: Licensee)
        requires
            self.wf(),
        ensures
            l == licensee_of(
                self.byte(HEADER_OLD_LICENSEE_CODE as int),
                word(
                    self.byte(HEADER_NEW_LICENSEE_CODE as int),
                    self.byte(HEADER_NEW_LICENSEE_CODE as int + 1),
                ),
            ),
    {
        let old_licensee_code = self.storage[HEADER_OLD_LICENSEE_CODE];
        if old_licensee_code == 0x33 {
            let new_licensee_code = make_u16(
                self.storage[HEADER_NEW_LICENSEE_CODE],
                self.storage[HEADER_NEW_LICENSEE_CODE + 1],
            );
            new_licensee_from_code(new_licensee_code)
        } else {
            old_licensee_from_code(old_licensee_code)
        }
    }

    /// The byte that the cartridge answers on a ROM or external RAM address.
    pub fn read(&self, address: u16) -> (r: u8)
        requires
            self.wf(),
            cartridge_address(address),
        ensures
            r == self.peek(address),
    {
        self.mbc_ctrl.read(self.storage.as_slice(), address)
    }

    /// A write on a ROM or external RAM address, handled by the controller.
    pub fn write(&mut self, address: u16, value: u8)
        requires
            old(self).wf(),
            cartridge_address(address),
        ensures
            final(self).wf(),
            *final(self) == old(self).poked(address, value),
    {
        self.mbc_ctrl.write(address, value)
    }
}

/// The RAM size that a header code announces, in KB: none for code 0, one 8KB bank for
/// code 2, four for code 3, sixteen for code 4, eight for code 5, and none for any other
/// code.
pub proof fn law_ram_size_table(code: u8)
    ensures
        ram_size_of(0x00) == 0,
        ram_size_of(0x02) == 8,
        ram_size_of(0x03) == 4 * 8,
        ram_size_of(0x04) == 16 * 8,
        ram_size_of(0x05) == 8 * 8,
        code < 2 || code > 5 ==> ram_size_of(code) == 0,
{
}

/// The ROM size that a header code announces, in KB: 32KB for code 0, doubling with each
/// code up to 8 (8MB), and none for a larger code.
pub proof fn law_rom_size_table(code: u8)
    ensures
        rom_size_of(0) == 32,
        code < 8 ==> rom_size_of((code + 1) as u8) == 2 * rom_size_of(code),
        code > 8 ==> rom_size_of(code) == 0,
{
    lemma2_to64();
    lemma_u16_shl_is_mul(32, 0);
    if code < 8 {
        lemma_u16_shl_is_mul(32, code as u16);
        lemma_u16_shl_is_mul(32, (code + 1) as u16);
        lemma_pow2_adds(code as nat, 1);
        assert(32u16 << code == 32u16 << (code as u16));
    }
}

/// The sum of the bytes of `x`.
pub open spec fn byte_sum(x: Seq<u8>) -> int
    decreases x.len(),
{
    if x.len() == 0 {
        0
    } else {
        byte_sum(x.drop_last()) + x.last()
    }
}

/// The header checksum is what makes the header bytes, each counted one more, sum to zero
/// modulo 256: the checksum plus the sum of the bytes plus their number is a multiple of
/// 256.
pub proof fn law_header_checksum(x: Seq<u8>)
    ensures
        (checksum(x) + byte_sum(x) + x.len()) % 256 == 0,
    decreases x.len(),
{
    if x.len() > 0 {
        law_header_checksum(x.drop_last());
        let c = checksum(x.drop_last());
        let k = (c + byte_sum(x.drop_last()) + x.drop_last().len()) / 256;
        assert(c + byte_sum(x.drop_last()) + x.drop_last().len() == 256 * k);
        let r = checksum(x) as int;
        assert(r == c - x.last() - 1 || r == c - x.last() - 1 + 256 || r == c - x.last() - 1 + 512);
        let e: int = (r - (c - x.last() - 1)) / 256;
        assert(r + byte_sum(x) + x.len() == 256 * (k + e));
        lemma_fundamental_div_mod_converse(r + byte_sum(x) + x.len(), 256, k + e, 0);
    }
}

/// The color mode of the header: 0xC0 marks a cartridge for the Game Boy Color alone, any
/// other value with bit 7 set one that runs on both, and a value below 0x80 one without
/// color support.
pub proof fn law_cgb_mode(flag: u8)
    ensures
        cgb_mode_of(flag) == (if flag == 0xC0 {
            CgbMode::Cgb
        } else if flag >= 0x80 {
            CgbMode::Both
        } else {
            CgbMode::NoCgb
        }),
{
    crate::bitops::lemma_byte_rotations(0, 0, 0, 0, 0, 0, 0, 0, 0, 0, 0, 0, flag);
}

} // verus!
