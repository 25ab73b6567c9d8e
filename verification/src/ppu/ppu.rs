use vstd::prelude::*;
use vstd::arithmetic::power2::pow2;
use vstd::bits::lemma_u8_shr_is_div;

use crate::bitops::{lemma_byte_masks, lemma_byte_or, lemma_set_low_bits, wadd8, wsub8};
use crate::interrupt::{flag_bit, InterruptFlag, InterruptHandler};
use crate::region::{
    MemoryRegion, OAM_REGION_END, OAM_REGION_SIZE, OAM_REGION_START, REG_BGP_ADDR, REG_DMA_ADDR,
    REG_LCDC_ADDR, REG_LYC_ADDR, REG_LY_ADDR, REG_OBP0_ADDR, REG_OBP1_ADDR, REG_SCX_ADDR,
    REG_SCY_ADDR, REG_STAT_ADDR, REG_WX_ADDR, REG_WY_ADDR, VRAM_REGION_END, VRAM_REGION_SIZE,
    VRAM_REGION_START,
};
use super::pipeline::{sorted_prefix, FetchState, Pipeline};
use super::pixel::{Pixel, Sprite, FLAG_OBJ_Y_FLIP};

verus! {

//
// Frame configuration
//
pub const FRAME_WIDTH: usize = 160;
pub const FRAME_HEIGHT: usize = 144;

//
// Default register values
//
pub const DEFAULT_REG_DMG_LCDC: u8 = 0x91;
pub const DEFAULT_REG_DMG_STAT: u8 = 0x81;
pub const DEFAULT_REG_DMG_SCY: u8 = 0x00;
pub const DEFAULT_REG_DMG_SCX: u8 = 0x00;
pub const DEFAULT_REG_DMG_LY: u8 = 0x91;
pub const DEFAULT_REG_DMG_LYC: u8 = 0x00;
pub const DEFAULT_REG_DMG_DMA: u8 = 0xFF;
pub const DEFAULT_REG_DMG_BGP: u8 = 0xFC;
pub const DEFAULT_REG_DMG_WY: u8 = 0x00;
pub const DEFAULT_REG_DMG_WX: u8 = 0x00;
pub const DEFAULT_REG_DMG_OBP0: u8 = 0xFF;
pub const DEFAULT_REG_DMG_OBP1: u8 = 0xFF;

//
// Tile regions
//
pub const TILE_DATA_0_START_ADDR: u16 = 0x8000;
pub const TILE_DATA_1_START_ADDR: u16 = 0x8800;
pub const TILE_MAP_0_START_ADDR: u16 = 0x9800;
pub const TILE_MAP_1_START_ADDR: u16 = 0x9C00;

//
// LCD status flags
//
pub const FLAG_STAT_IT_LYC: u8 = 0b01000000;
pub const FLAG_STAT_IT_OAM: u8 = 0b00100000;
pub const FLAG_STAT_IT_VBLANK: u8 = 0b00010000;
pub const FLAG_STAT_IT_HBLANK: u8 = 0b00001000;
pub const FLAG_STAT_LYC: u8 = 0b00000100;
pub const FLAG_STAT_MODE: u8 = 0b00000011;

//
// LCD status modes
//
pub const LCD_STATUS_MODE_HBLANK: u8 = 0;
pub const LCD_STATUS_MODE_VBLANK: u8 = 1;
pub const LCD_STATUS_MODE_OAM: u8 = 2;
pub const LCD_STATUS_MODE_XFER: u8 = 3;

//
// LCD control flags
//
pub const FLAG_LCDC_LCD_ENABLE: u8 = 0b10000000;
pub const FLAG_LCDC_WIN_TMAP_AREA: u8 = 0b01000000;
pub const FLAG_LCDC_WIN_ENABLE: u8 = 0b00100000;
pub const FLAG_LCDC_BGWIN_TDATA_AREA: u8 = 0b00010000;
pub const FLAG_LCDC_BG_TMAP_AREA: u8 = 0b00001000;
pub const FLAG_LCDC_OBJ_SIZE: u8 = 0b00000100;
pub const FLAG_LCDC_OBJ_ENABLE: u8 = 0b00000010;
pub const FLAG_LCDC_BG_WIN_ENABLE: u8 = 0b00000001;

//
// Modes
//
pub const OAM_LIMIT_PERIOD: u32 = 80;
pub const XFER_LIMIT_PERIOD: u32 = 252;
pub const HBLANK_LIMIT_PERIOD: u32 = 456;
pub const FRAME_LIMIT_PERIOD: u32 = 65664;
pub const VBLANK_LIMIT_PERIOD: u32 = 70224;

/// This represents a Screen surface
///
/// A screen that keeps what it is handed shows it in `frame` and counts the frames in
/// `updates`; one that drops it (such as no screen at all) does not keep it, and then
/// `frame` and `updates` tell nothing.
pub trait Screen {
    /// Whether the screen keeps what it is handed (by default it does not).
    open spec fn keeps_output(&self) -> bool {
        false
    }

    /// The last pixel set at each column and line, for a screen that keeps them.
    open spec fn frame(&self) -> Map<(u8, u8), Pixel> {
        Map::empty()
    }

    /// The number of frames notified, for a screen that keeps them.
    open spec fn updates(&self) -> nat {
        0
    }

    /// Set a single pixel on a screen
    fn set_pixel(&mut self, px: &Pixel, x: u8, y: u8)
        ensures
            final(self).keeps_output() == old(self).keeps_output(),
            old(self).keeps_output() ==> final(self).frame() == old(self).frame().insert((x, y), *px)
                && final(self).updates() == old(self).updates(),
    ;

    /// Notify the screen of a new frame
    fn update(&mut self)
        ensures
            final(self).keeps_output() == old(self).keeps_output(),
            old(self).keeps_output() ==> final(self).frame() == old(self).frame()
                && final(self).updates() == old(self).updates() + 1,
    ;
}

/// `after` is the screen `before` once the pixel `drawn` (with its column and line), if
/// any, was set on it.
pub open spec fn screen_drawn<S: Screen>(before: S, after: S, drawn: Option<(Pixel, u8, u8)>) -> bool {
    &&& after.keeps_output() == before.keeps_output()
    &&& match drawn {
        None => after == before,
        Some((px, x, y)) => before.keeps_output() ==> after.frame() == before.frame().insert(
            (x, y),
            px,
        ) && after.updates() == before.updates(),
    }
}

/// The color of each of the four shades of a palette.
pub open spec fn shade_color(shade: u8) -> Pixel {
    if shade == 0 {
        Pixel { r: 0xFF, g: 0xFF, b: 0xFF, a: 0xFF }
    } else if shade == 1 {
        Pixel { r: 0xC0, g: 0xC0, b: 0xC0, a: 0xFF }
    } else if shade == 2 {
        Pixel { r: 0x60, g: 0x60, b: 0x60, a: 0xFF }
    } else {
        Pixel { r: 0x00, g: 0x00, b: 0x00, a: 0xFF }
    }
}

/// The shade that palette `pal` gives to color `color_id`: bits `2*id+1..2*id`.
pub open spec fn palette_shade(pal: u8, color_id: u8) -> u8 {
    (pal >> (color_id * 2)) & 0x3
}

/// The 2-bit color number of bit `bit` of a tile row.
pub open spec fn color_id(low: u8, high: u8, bit: u8) -> u8 {
    ((low >> bit) & 0x01) | (((high >> bit) & 0x01) << 1u8)
}

pub struct Ppu {
    /// Video ram
    pub vram: [u8; VRAM_REGION_SIZE],
    /// Object Attribute Table
    pub oam: [u8; OAM_REGION_SIZE],
    /// LCD control register
    pub reg_lcdc: u8,
    /// LCD status register
    pub reg_stat: u8,
    /// Scroll Y register
    pub reg_scy: u8,
    /// Scroll X register
    pub reg_scx: u8,
    /// LCD Y register
    pub reg_ly: u8,
    /// LCD Y Compare register
    pub reg_lyc: u8,
    /// Window Y register
    pub reg_wy: u8,
    /// Window X register
    pub reg_wx: u8,
    /// Dma transfer register
    pub reg_dma: u8,
    /// Background Palette
    pub reg_bgp: u8,
    /// Obj palettes 0 & 1
    pub reg_obp0: u8,
    pub reg_obp1: u8,
    /// Keep tracks of horizontal dots
    pub hdots: u32,
    /// Pixel pipeline
    pub pipeline: Pipeline,
    /// Dma
    pub dma_active: bool,
    pub dma_idx: u8,
}

impl Ppu {
    /// The LCD mode of the STAT register.
    pub open spec fn mode(&self) -> u8 {
        self.reg_stat & FLAG_STAT_MODE
    }

    /// The invariant of the PPU: the counters index inside their buffers, LY stays in the
    /// 154 lines of a frame and below 144 outside VBlank, and during a transfer every
    /// fetched pixel is either drawn or waiting in the FIFO.
    pub open spec fn wf(&self) -> bool {
        &&& self.pipeline.wf()
        &&& self.dma_idx <= OAM_REGION_SIZE
        &&& self.dma_active ==> self.dma_idx < OAM_REGION_SIZE
        &&& self.reg_ly <= 153
        &&& self.mode() != LCD_STATUS_MODE_VBLANK ==> self.reg_ly < 144
        &&& self.mode() == LCD_STATUS_MODE_XFER ==> {
            &&& self.pipeline.render_x <= 160
            &&& self.pipeline.bgw_fifo@.len() <= 8
            &&& self.pipeline.fetch_x == self.pipeline.render_x + self.pipeline.bgw_fifo@.len()
        }
    }

    /// The byte at a VRAM, OAM or register address.
    pub open spec fn peek(&self, address: u16) -> u8 {
        if VRAM_REGION_START <= address <= VRAM_REGION_END {
            self.vram@[address - VRAM_REGION_START]
        } else if OAM_REGION_START <= address <= OAM_REGION_END {
            self.oam@[address - OAM_REGION_START]
        } else if address == REG_LCDC_ADDR {
            self.reg_lcdc
        } else if address == REG_STAT_ADDR {
            self.reg_stat
        } else if address == REG_SCY_ADDR {
            self.reg_scy
        } else if address == REG_SCX_ADDR {
            self.reg_scx
        } else if address == REG_LY_ADDR {
            self.reg_ly
        } else if address == REG_LYC_ADDR {
            self.reg_lyc
        } else if address == REG_WY_ADDR {
            self.reg_wy
        } else if address == REG_WX_ADDR {
            self.reg_wx
        } else if address == REG_DMA_ADDR {
            self.reg_dma
        } else if address == REG_BGP_ADDR {
            self.reg_bgp
        } else if address == REG_OBP0_ADDR {
            self.reg_obp0
        } else {
            self.reg_obp1
        }
    }

    /// The PPU after a write of `value` on a VRAM, OAM or register address.  The mode bits
    /// of STAT and LY are read-only; a write to DMA starts a transfer.
    pub open spec fn poked(self, address: u16, value: u8) -> Ppu {
        if VRAM_REGION_START <= address <= VRAM_REGION_END {
            Ppu {
                vram: vstd::array::spec_array_update(
                    self.vram,
                    address - VRAM_REGION_START,
                    value,
                ),
                ..self
            }
        } else if OAM_REGION_START <= address <= OAM_REGION_END {
            Ppu {
                oam: vstd::array::spec_array_update(self.oam, address - OAM_REGION_START, value),
                ..self
            }
        } else if address == REG_LCDC_ADDR {
            Ppu { reg_lcdc: value, ..self }
        } else if address == REG_STAT_ADDR {
            Ppu { reg_stat: (value & 0xF8) | (self.reg_stat & 0x07), ..self }
        } else if address == REG_SCY_ADDR {
            Ppu { reg_scy: value, ..self }
        } else if address == REG_SCX_ADDR {
            Ppu { reg_scx: value, ..self }
        } else if address == REG_LY_ADDR {
            self
        } else if address == REG_LYC_ADDR {
            Ppu { reg_lyc: value, ..self }
        } else if address == REG_WY_ADDR {
            Ppu { reg_wy: value, ..self }
        } else if address == REG_WX_ADDR {
            Ppu { reg_wx: value, ..self }
        } else if address == REG_DMA_ADDR {
            Ppu { reg_dma: value, dma_active: true, dma_idx: 0, ..self }
        } else if address == REG_BGP_ADDR {
            Ppu { reg_bgp: value, ..self }
        } else if address == REG_OBP0_ADDR {
            Ppu { reg_obp0: value, ..self }
        } else {
            Ppu { reg_obp1: value, ..self }
        }
    }

    /// STAT and the LYC interrupt after LY takes `value`.
    pub open spec fn stat_for_ly(self, value: u8) -> u8 {
        if value == self.reg_lyc {
            self.reg_stat | FLAG_STAT_LYC
        } else {
            self.reg_stat & !FLAG_STAT_LYC
        }
    }

    /// Whether LY taking `value` raises the LCDC interrupt.
    pub open spec fn lyc_irq(self, value: u8) -> bool {
        value == self.reg_lyc && self.reg_stat & FLAG_STAT_IT_LYC == FLAG_STAT_IT_LYC
    }

    /// The PPU at power-on: the DMG register values, cleared video memories and an
    /// initial pipeline.
    pub open spec fn is_initial(&self) -> bool {
        &&& self.vram@ == Seq::new(VRAM_REGION_SIZE as nat, |i: int| 0u8)
        &&& self.oam@ == Seq::new(OAM_REGION_SIZE as nat, |i: int| 0u8)
        &&& self.reg_lcdc == DEFAULT_REG_DMG_LCDC
        &&& self.reg_stat == DEFAULT_REG_DMG_STAT
        &&& self.reg_scy == DEFAULT_REG_DMG_SCY
        &&& self.reg_scx == DEFAULT_REG_DMG_SCX
        &&& self.reg_ly == DEFAULT_REG_DMG_LY
        &&& self.reg_lyc == DEFAULT_REG_DMG_LYC
        &&& self.reg_wy == DEFAULT_REG_DMG_WY
        &&& self.reg_wx == DEFAULT_REG_DMG_WX
        &&& self.reg_dma == DEFAULT_REG_DMG_DMA
        &&& self.reg_bgp == DEFAULT_REG_DMG_BGP
        &&& self.reg_obp0 == DEFAULT_REG_DMG_OBP0
        &&& self.reg_obp1 == DEFAULT_REG_DMG_OBP1
        &&& self.hdots == 0
        &&& self.pipeline.is_initial()
        &&& !self.dma_active
        &&& self.dma_idx == 0
    }

    pub fn new() -> (p: Self)
        ensures
            p.wf(),
            p.is_initial(),
    {
        let p = Ppu {
            vram: [0x00u8; VRAM_REGION_SIZE],
            oam: [0x00u8; OAM_REGION_SIZE],
            reg_lcdc: DEFAULT_REG_DMG_LCDC,
            reg_stat: DEFAULT_REG_DMG_STAT,
            reg_scy: DEFAULT_REG_DMG_SCY,
            reg_scx: DEFAULT_REG_DMG_SCX,
            reg_ly: DEFAULT_REG_DMG_LY,
            reg_lyc: DEFAULT_REG_DMG_LYC,
            reg_wy: DEFAULT_REG_DMG_WY,
            reg_wx: DEFAULT_REG_DMG_WX,
            reg_dma: DEFAULT_REG_DMG_DMA,
            reg_bgp: DEFAULT_REG_DMG_BGP,
            reg_obp0: DEFAULT_REG_DMG_OBP0,
            reg_obp1: DEFAULT_REG_DMG_OBP1,
            hdots: 0,
            pipeline: Pipeline::new(),
            dma_active: false,
            dma_idx: 0,
        };
        assert(p.vram@ =~= Seq::new(VRAM_REGION_SIZE as nat, |i: int| 0u8));
        assert(p.oam@ =~= Seq::new(OAM_REGION_SIZE as nat, |i: int| 0u8));
        assert(0x81u8 & 3u8 == 1u8) by (bit_vector);
        p
    }

    /// Back to the power-on registers, video memory and pipeline.
    pub fn reset(&mut self)
        ensures
            final(self).wf(),
            final(self).is_initial(),
    {
        *self = Ppu::new();
    }

    pub fn dma_start(&mut self, source: u8)
        requires
            old(self).wf(),
        ensures
            final(self).wf(),
            *final(self) == (Ppu { reg_dma: source, dma_active: true, dma_idx: 0, ..*old(self) }),
    {
        self.reg_dma = source;
        self.dma_active = true;
        self.dma_idx = 0;
    }

    pub fn is_dma_active(&self) -> (b: bool)
        ensures
            b == self.dma_active,
    {
        self.dma_active
    }

    /// The address that the next DMA byte comes from.
    pub fn dma_source(&self) -> (a: u16)
        ensures
            a == self.reg_dma * 0x100 + self.dma_idx,
    {
        self.reg_dma as u16 * 0x100 + self.dma_idx as u16
    }

    /// The PPU after the DMA stores `byte`.
    pub open spec fn dma_written(self, byte: u8) -> Ppu {
        Ppu {
            oam: vstd::array::spec_array_update(self.oam, self.dma_idx as int, byte),
            dma_idx: (self.dma_idx + 1) as u8,
            dma_active: self.dma_idx + 1 < OAM_REGION_SIZE,
            ..self
        }
    }

    /// Store the next DMA byte into OAM; the transfer ends after 160 bytes.
    pub fn dma_write(&mut self, byte: u8)
        requires
            old(self).wf(),
            old(self).dma_active,
        ensures
            final(self).wf(),
            *final(self) == old(self).dma_written(byte),
    {
        let i = self.dma_idx;
        self.oam[i as usize] = byte;
        self.dma_idx = i + 1;
        if self.dma_idx as usize >= OAM_REGION_SIZE {
            self.dma_active = false;
        }
    }

    fn set_ly(&mut self, value: u8, it: &mut InterruptHandler)
        ensures
            final(self).mode() == old(self).mode(),
            *final(self) == (Ppu {
                reg_ly: value,
                reg_stat: old(self).stat_for_ly(value),
                ..*old(self)
            }),
            *final(it) == (if old(self).lyc_irq(value) {
                old(it).requested(InterruptFlag::Lcdc)
            } else {
                *old(it)
            }),
    {
        let ghost stat = self.reg_stat;
        self.reg_ly = value;
        if self.reg_ly == self.reg_lyc {
            self.reg_stat = self.reg_stat | FLAG_STAT_LYC;
            if self.reg_stat & FLAG_STAT_IT_LYC == FLAG_STAT_IT_LYC {
                it.request(InterruptFlag::Lcdc);
            }
            assert((stat | 4u8) & 0x40u8 == stat & 0x40u8) by (bit_vector);
        } else {
            self.reg_stat = self.reg_stat & !FLAG_STAT_LYC;
        }
        assert((stat | 4u8) & 3u8 == stat & 3u8 && (stat & !4u8) & 3u8 == stat & 3u8)
            by (bit_vector);
    }

    fn pixel_from_id(pal: u8, color_id: u8) -> (p: Pixel)
        requires
            color_id < 4,
        ensures
            p == shade_color(palette_shade(pal, color_id)),
    {
        let shade = (pal >> (color_id * 2)) & 0x3;
        if shade == 0 {
            Pixel { r: 0xFF, g: 0xFF, b: 0xFF, a: 0xFF }
        } else if shade == 1 {
            Pixel { r: 0xC0, g: 0xC0, b: 0xC0, a: 0xFF }
        } else if shade == 2 {
            Pixel { r: 0x60, g: 0x60, b: 0x60, a: 0xFF }
        } else {
            Pixel { r: 0x00, g: 0x00, b: 0x00, a: 0xFF }
        }
    }

    fn set_mode(&mut self, mode: u8)
        requires
            mode < 4,
        ensures
            *final(self) == (Ppu { reg_stat: (old(self).reg_stat & !FLAG_STAT_MODE) | mode, ..*old(self) }),
            final(self).mode() == mode,
    {
        let stat = self.reg_stat;
        self.reg_stat = (stat & !FLAG_STAT_MODE) | mode;
        proof {
            lemma_set_low_bits(stat, mode);
        }
    }

    fn is_bgwin_enabled(&self) -> (b: bool)
        ensures
            b == (self.reg_lcdc & FLAG_LCDC_BG_WIN_ENABLE == FLAG_LCDC_BG_WIN_ENABLE),
    {
        self.reg_lcdc & FLAG_LCDC_BG_WIN_ENABLE == FLAG_LCDC_BG_WIN_ENABLE
    }

    fn is_obj_enabled(&self) -> (b: bool)
        ensures
            b == (self.reg_lcdc & FLAG_LCDC_OBJ_ENABLE == FLAG_LCDC_OBJ_ENABLE),
    {
        self.reg_lcdc & FLAG_LCDC_OBJ_ENABLE == FLAG_LCDC_OBJ_ENABLE
    }

    /// Height of the objects: 16 or 8 lines.
    pub open spec fn spec_obj_size(&self) -> u8 {
        if self.reg_lcdc & FLAG_LCDC_OBJ_SIZE == FLAG_LCDC_OBJ_SIZE {
            16
        } else {
            8
        }
    }

    fn obj_size(&self) -> (s: u8)
        ensures
            s == self.spec_obj_size(),
    {
        if self.reg_lcdc & FLAG_LCDC_OBJ_SIZE == FLAG_LCDC_OBJ_SIZE {
            16
        } else {
            8
        }
    }

    fn bg_map_area(&self) -> (a: u16)
        ensures
            a == (if self.reg_lcdc & FLAG_LCDC_BG_TMAP_AREA == FLAG_LCDC_BG_TMAP_AREA {
                TILE_MAP_1_START_ADDR
            } else {
                TILE_MAP_0_START_ADDR
            }),
    {
        if self.reg_lcdc & FLAG_LCDC_BG_TMAP_AREA == FLAG_LCDC_BG_TMAP_AREA {
            TILE_MAP_1_START_ADDR
        } else {
            TILE_MAP_0_START_ADDR
        }
    }

    fn bgwin_data_area(&self) -> (a: u16)
        ensures
            a == (if self.reg_lcdc & FLAG_LCDC_BGWIN_TDATA_AREA == FLAG_LCDC_BGWIN_TDATA_AREA {
                TILE_DATA_0_START_ADDR
            } else {
                TILE_DATA_1_START_ADDR
            }),
    {
        if self.reg_lcdc & FLAG_LCDC_BGWIN_TDATA_AREA == FLAG_LCDC_BGWIN_TDATA_AREA {
            TILE_DATA_0_START_ADDR
        } else {
            TILE_DATA_1_START_ADDR
        }
    }

    fn is_win_enabled(&self) -> (b: bool)
        ensures
            b == (self.reg_lcdc & FLAG_LCDC_WIN_ENABLE == FLAG_LCDC_WIN_ENABLE),
    {
        self.reg_lcdc & FLAG_LCDC_WIN_ENABLE == FLAG_LCDC_WIN_ENABLE
    }

    fn win_map_area(&self) -> (a: u16)
        ensures
            a == (if self.reg_lcdc & FLAG_LCDC_WIN_TMAP_AREA == FLAG_LCDC_WIN_TMAP_AREA {
                TILE_MAP_1_START_ADDR
            } else {
                TILE_MAP_0_START_ADDR
            }),
    {
        if self.reg_lcdc & FLAG_LCDC_WIN_TMAP_AREA == FLAG_LCDC_WIN_TMAP_AREA {
            TILE_MAP_1_START_ADDR
        } else {
            TILE_MAP_0_START_ADDR
        }
    }

    /// Whether the LCD is switched on.
    pub fn is_lcd_enabled(&self) -> (b: bool)
        ensures
            b == (self.reg_lcdc & FLAG_LCDC_LCD_ENABLE == FLAG_LCDC_LCD_ENABLE),
    {
        self.reg_lcdc & FLAG_LCDC_LCD_ENABLE == FLAG_LCDC_LCD_ENABLE
    }
}

/// The dot counter after one more dot (it saturates, which no frame reaches).
pub open spec fn next_dot(h: u32) -> u32 {
    if h < u32::MAX {
        (h + 1) as u32
    } else {
        h
    }
}

/// The object of OAM entry `k`.
pub open spec fn oam_sprite(oam: Seq<u8>, k: int) -> Sprite {
    Sprite { x: oam[4 * k + 1], y: oam[4 * k], tile_index: oam[4 * k + 2], attrs: oam[4 * k + 3] }
}

/// Whether an object of height `size` covers the line `rel_y` (LY + 16).
pub open spec fn on_line(s: Sprite, rel_y: u8, size: u8) -> bool {
    rel_y >= s.y && rel_y < wadd8(s.y, size)
}

/// The objects among the first `k` OAM entries that cover line `rel_y`, in OAM order.
pub open spec fn visible_upto(oam: Seq<u8>, rel_y: u8, size: u8, k: int) -> Seq<Sprite>
    decreases k,
{
    if k <= 0 {
        Seq::empty()
    } else {
        let prev = visible_upto(oam, rel_y, size, k - 1);
        if on_line(oam_sprite(oam, k - 1), rel_y, size) {
            prev.push(oam_sprite(oam, k - 1))
        } else {
            prev
        }
    }
}

proof fn lemma_visible_grows(oam: Seq<u8>, rel_y: u8, size: u8, k: int, m: int)
    requires
        0 <= k <= m,
    ensures
        visible_upto(oam, rel_y, size, k).len() <= visible_upto(oam, rel_y, size, m).len(),
        visible_upto(oam, rel_y, size, k) == visible_upto(oam, rel_y, size, m).take(
            visible_upto(oam, rel_y, size, k).len() as int,
        ),
    decreases m - k,
{
    if k < m {
        lemma_visible_grows(oam, rel_y, size, k, m - 1);
        let a = visible_upto(oam, rel_y, size, k);
        let b = visible_upto(oam, rel_y, size, m - 1);
        let c = visible_upto(oam, rel_y, size, m);
        assert(c.take(b.len() as int) =~= b);
        assert(c.take(a.len() as int) =~= b.take(a.len() as int));
    } else {
        let a = visible_upto(oam, rel_y, size, k);
        assert(a.take(a.len() as int) =~= a);
    }
}

impl Ppu {
    /// The objects that the line LY shows: the first ten OAM entries that cover it.
    pub open spec fn line_sprites(&self) -> Seq<Sprite> {
        let v = visible_upto(self.oam@, (self.reg_ly + 16) as u8, self.spec_obj_size(), 40);
        if v.len() <= 10 {
            v
        } else {
            v.take(10)
        }
    }

    /// The IF bit that an LCDC interrupt on a STAT condition `flag` adds.
    pub open spec fn stat_irq(stat: u8, flag: u8) -> u8 {
        if stat & flag == flag {
            flag_bit(InterruptFlag::Lcdc)
        } else {
            0
        }
    }

    /// One dot of HBlank (`self` has its dot counter already advanced): at the end of the
    /// line LY moves on, to VBlank after the last visible line and to the OAM scan
    /// otherwise; the interrupt bits raised are returned.
    pub open spec fn hblank_dot(self) -> (Ppu, u8) {
        if self.hdots >= HBLANK_LIMIT_PERIOD {
            let ly = (self.reg_ly + 1) as u8;
            let stat = self.stat_for_ly(ly);
            let lyc = if self.lyc_irq(ly) { flag_bit(InterruptFlag::Lcdc) } else { 0u8 };
            if ly >= FRAME_HEIGHT {
                let stat = (stat & !FLAG_STAT_MODE) | LCD_STATUS_MODE_VBLANK;
                (
                    Ppu { reg_ly: ly, reg_stat: stat, hdots: 0, ..self },
                    lyc | flag_bit(InterruptFlag::Vblank) | Self::stat_irq(stat, FLAG_STAT_IT_VBLANK),
                )
            } else {
                let stat = (stat & !FLAG_STAT_MODE) | LCD_STATUS_MODE_OAM;
                (
                    Ppu { reg_ly: ly, reg_stat: stat, hdots: 0, ..self },
                    lyc | Self::stat_irq(stat, FLAG_STAT_IT_OAM),
                )
            }
        } else {
            (self, 0)
        }
    }

    /// The PPU with its dot counter advanced.
    pub open spec fn advanced(self) -> Ppu {
        Ppu { hdots: next_dot(self.hdots), ..self }
    }

    /// One dot of the PPU, as a relation between the PPU before and after it: the dot
    /// counter advances, then the current mode does its part.
    pub open spec fn dot(self, next: Ppu) -> bool {
        let a = self.advanced();
        if self.mode() == LCD_STATUS_MODE_OAM {
            a.oam_dot(next)
        } else if self.mode() == LCD_STATUS_MODE_XFER {
            next.is_with_fifo(a.xfer_dot().0, a.xfer_dot().1)
        } else if self.mode() == LCD_STATUS_MODE_HBLANK {
            next == a.hblank_dot().0
        } else {
            next == a.vblank_dot().0
        }
    }

    /// The interrupt bits that one dot of the PPU raises.
    pub open spec fn dot_irq(self) -> u8 {
        let a = self.advanced();
        if self.mode() == LCD_STATUS_MODE_OAM {
            0
        } else if self.mode() == LCD_STATUS_MODE_XFER {
            a.xfer_dot().2
        } else if self.mode() == LCD_STATUS_MODE_HBLANK {
            a.hblank_dot().1
        } else {
            a.vblank_dot().1
        }
    }

    /// The window state after the OAM scan of line LY: the window starts on the first line
    /// it covers, and its line counter moves on at each following line it covers.
    pub open spec fn window_line_counted(self) -> Pipeline {
        if self.reg_lcdc & FLAG_LCDC_WIN_ENABLE == FLAG_LCDC_WIN_ENABLE && self.reg_wx
            < FRAME_WIDTH && self.reg_wy < FRAME_HEIGHT && self.reg_ly >= self.reg_wy
            && self.reg_ly < self.reg_wy.wrapping_add(144u8) {
            if !self.pipeline.win_y_triggered {
                Pipeline { win_y_triggered: true, ..self.pipeline }
            } else {
                Pipeline { win_ly: self.pipeline.win_ly.wrapping_add(1), ..self.pipeline }
            }
        } else {
            self.pipeline
        }
    }

    /// One dot of the OAM scan (`self` has its dot counter already advanced), as a relation
    /// between the PPU before and after it: on the first dot the objects of the line are
    /// collected in line order (the other entries of the list stay) and the window line is
    /// counted; once the scan has lasted its period, the transfer starts with an empty FIFO
    /// and the fetcher at the start of the line.
    pub open spec fn oam_dot(self, next: Ppu) -> bool {
        if self.hdots == 1 {
            let n = self.line_sprites().len();
            let w = self.window_line_counted();
            &&& next == self.with_pipeline(
                Pipeline {
                    obj_list: next.pipeline.obj_list,
                    obj_count: n as u8,
                    obj_fetched_count: 0,
                    ..w
                },
            )
            &&& next.pipeline.obj_list@.subrange(0, n as int).to_multiset()
                == self.line_sprites().to_multiset()
            &&& sorted_prefix(next.pipeline.obj_list@, n as int)
            &&& next.pipeline.obj_list@.subrange(n as int, 10) == self.pipeline.obj_list@.subrange(
                n as int,
                10,
            )
        } else if self.hdots >= OAM_LIMIT_PERIOD {
            let y = self.reg_ly.wrapping_add(self.reg_scy);
            next.is_with_fifo(
                Ppu {
                    reg_stat: (self.reg_stat & !FLAG_STAT_MODE) | LCD_STATUS_MODE_XFER,
                    pipeline: Pipeline {
                        addr_y_offset: ((y / 8) as u16 * 32) as u16,
                        tile_y: y % 8,
                        state: FetchState::Tile,
                        render_x: 0,
                        fetch_x: 0,
                        lx: 0,
                        ..self.pipeline
                    },
                    ..self
                },
                Seq::empty(),
            )
        } else {
            next == self
        }
    }

    /// The pixel that a dot of the transfer hands to the screen, with its column and line:
    /// the first pixel of the FIFO after the fetcher's dot, at column `render_x` of line LY.
    pub open spec fn rendered_pixel(self) -> Option<(Pixel, u8, u8)> {
        let (f, fifo) = self.fetched();
        if fifo.len() > 0 {
            Some((fifo[0], f.pipeline.render_x, f.reg_ly))
        } else {
            None
        }
    }

    /// The pixel that one dot of the PPU hands to the screen: only a transfer dot of a line
    /// not yet complete draws one.
    pub open spec fn drawn(self) -> Option<(Pixel, u8, u8)> {
        let a = self.advanced();
        if self.mode() == LCD_STATUS_MODE_XFER && a.pipeline.render_x < FRAME_WIDTH {
            a.rendered_pixel()
        } else {
            None
        }
    }

    /// One dot of the transfer (`self` has its dot counter already advanced): the PPU (its
    /// FIFO left as it was), the content of the FIFO and the interrupt bits raised.  Pixels
    /// are rendered until the line is complete; then, once the transfer has lasted its
    /// period, the FIFO is emptied and HBlank begins.
    pub open spec fn xfer_dot(self) -> (Ppu, Seq<Pixel>, u8) {
        if self.pipeline.render_x < FRAME_WIDTH {
            (self.rendered().0, self.rendered().1, 0)
        } else if self.hdots >= XFER_LIMIT_PERIOD {
            (
                Ppu { reg_stat: (self.reg_stat & !FLAG_STAT_MODE) | LCD_STATUS_MODE_HBLANK, ..self },
                Seq::empty(),
                Self::stat_irq(self.reg_stat, FLAG_STAT_IT_HBLANK),
            )
        } else {
            (self, self.pipeline.bgw_fifo@, 0)
        }
    }

    /// One dot of VBlank: at the end of each line LY moves on, and after line 153 the
    /// frame restarts at line 0 with the OAM scan and the window state cleared.
    pub open spec fn vblank_dot(self) -> (Ppu, u8) {
        if self.hdots >= HBLANK_LIMIT_PERIOD {
            let ly = (self.reg_ly + 1) as u8;
            let stat = self.stat_for_ly(ly);
            let lyc = if self.lyc_irq(ly) { flag_bit(InterruptFlag::Lcdc) } else { 0u8 };
            let p = Ppu { reg_ly: ly, reg_stat: stat, ..self };
            if ly * HBLANK_LIMIT_PERIOD >= VBLANK_LIMIT_PERIOD {
                let stat0 = p.stat_for_ly(0);
                let lyc0 = if p.lyc_irq(0) { flag_bit(InterruptFlag::Lcdc) } else { 0u8 };
                let stat0 = (stat0 & !FLAG_STAT_MODE) | LCD_STATUS_MODE_OAM;
                (
                    Ppu {
                        reg_ly: 0,
                        reg_stat: stat0,
                        hdots: 0,
                        pipeline: Pipeline { win_ly: 0, win_y_triggered: false, ..self.pipeline },
                        ..self
                    },
                    lyc | lyc0 | Self::stat_irq(stat0, FLAG_STAT_IT_OAM),
                )
            } else {
                (Ppu { hdots: 0, ..p }, lyc)
            }
        } else {
            (self, 0)
        }
    }
}

impl Ppu {
    fn inc_ly(&mut self, it: &mut InterruptHandler)
        requires
            old(self).reg_ly < 255,
        ensures
            final(self).mode() == old(self).mode(),
            *final(self) == (Ppu {
                reg_ly: (old(self).reg_ly + 1) as u8,
                reg_stat: old(self).stat_for_ly((old(self).reg_ly + 1) as u8),
                ..*old(self)
            }),
            *final(it) == (if old(self).lyc_irq((old(self).reg_ly + 1) as u8) {
                old(it).requested(InterruptFlag::Lcdc)
            } else {
                *old(it)
            }),
    {
        self.set_ly(self.reg_ly + 1, it);
    }

    /// Advance the PPU by one dot.
    pub fn step<S: Screen>(&mut self, screen: &mut S, it: &mut InterruptHandler)
        requires
            old(self).wf(),
        ensures
            final(self).wf(),
            final(it).reg_ie == old(it).reg_ie,
            old(self).dot(*final(self)),
            final(it).reg_if == old(it).reg_if | old(self).dot_irq(),
            screen_drawn(*old(screen), *final(screen), old(self).drawn()),
            old(self).mode() == LCD_STATUS_MODE_OAM ==> *final(it) == *old(it)
                && final(self).mode() != LCD_STATUS_MODE_HBLANK
                && final(self).reg_ly == old(self).reg_ly,
            old(self).mode() == LCD_STATUS_MODE_XFER ==> final(self).mode() != LCD_STATUS_MODE_OAM
                && final(self).reg_ly == old(self).reg_ly,
            old(self).mode() == LCD_STATUS_MODE_HBLANK ==> {
                let (p, irq) = (Ppu { hdots: next_dot(old(self).hdots), ..*old(self) }).hblank_dot();
                *final(self) == p && final(it).reg_if == old(it).reg_if | irq
            },
            old(self).mode() == LCD_STATUS_MODE_VBLANK ==> {
                let (p, irq) = (Ppu { hdots: next_dot(old(self).hdots), ..*old(self) }).vblank_dot();
                *final(self) == p && final(it).reg_if == old(it).reg_if | irq
            },
    {
        // Dots counter is reset during hblank
        self.hdots = self.hdots.saturating_add(1);
        let stat = self.reg_stat;
        let mode = stat & FLAG_STAT_MODE;
        proof {
            lemma_byte_masks(stat);
        }
        if mode == LCD_STATUS_MODE_OAM {
            self.handle_mode_oam();
            proof {
                lemma_byte_or(it.reg_if, 0u8, 0u8);
            }
        } else if mode == LCD_STATUS_MODE_XFER {
            self.handle_mode_xfer(screen, it);
        } else if mode == LCD_STATUS_MODE_HBLANK {
            self.handle_mode_hblank(it);
        } else {
            self.handle_mode_vblank(it);
        }
    }

    fn handle_mode_oam(&mut self)
        requires
            old(self).wf(),
            old(self).mode() == LCD_STATUS_MODE_OAM,
        ensures
            final(self).wf(),
            final(self).reg_ly == old(self).reg_ly,
            final(self).hdots == old(self).hdots,
            old(self).hdots == 1 ==> final(self).mode() == LCD_STATUS_MODE_OAM
                && final(self).pipeline.obj_list@.subrange(0, final(self).pipeline.obj_count as int).to_multiset()
                    == old(self).line_sprites().to_multiset()
                && sorted_prefix(final(self).pipeline.obj_list@, final(self).pipeline.obj_count as int),
            old(self).hdots != 1 && old(self).hdots >= OAM_LIMIT_PERIOD ==> final(self).mode()
                == LCD_STATUS_MODE_XFER,
            old(self).hdots != 1 && old(self).hdots < OAM_LIMIT_PERIOD ==> *final(self) == *old(self),
            old(self).oam_dot(*final(self)),
    {
        if self.hdots == 1 {
            self.scan_sprites();
            if self.is_win_enabled() && self.reg_wx < (FRAME_WIDTH as u8) && self.reg_wy < (
            FRAME_HEIGHT as u8) && self.reg_ly >= self.reg_wy && self.reg_ly
                < self.reg_wy.wrapping_add(FRAME_HEIGHT as u8) {
                if !self.pipeline.win_y_triggered {
                    self.pipeline.win_y_triggered = true;
                } else {
                    self.pipeline.win_ly = self.pipeline.win_ly.wrapping_add(1);
                }
            }
        } else if self.hdots >= OAM_LIMIT_PERIOD {
            self.set_mode(LCD_STATUS_MODE_XFER);
            let y = self.reg_ly.wrapping_add(self.reg_scy);
            let map_addr = (y / 8) as u16 * 32;
            let tile_y = y % 8;
            self.pipeline.init_fetcher(map_addr, tile_y);
        }
    }

    fn handle_mode_xfer<S: Screen>(&mut self, screen: &mut S, it: &mut InterruptHandler)
        requires
            old(self).wf(),
            old(self).mode() == LCD_STATUS_MODE_XFER,
        ensures
            final(self).wf(),
            final(self).reg_ly == old(self).reg_ly,
            final(self).hdots == old(self).hdots,
            final(it).reg_ie == old(it).reg_ie,
            old(self).pipeline.render_x < FRAME_WIDTH ==> final(self).mode() == LCD_STATUS_MODE_XFER
                && *final(it) == *old(it),
            old(self).pipeline.render_x >= FRAME_WIDTH && old(self).hdots >= XFER_LIMIT_PERIOD
                ==> final(self).mode() == LCD_STATUS_MODE_HBLANK
                && final(self).pipeline.bgw_fifo@ == Seq::<Pixel>::empty()
                && final(it).reg_if == old(it).reg_if | Self::stat_irq(old(self).reg_stat, FLAG_STAT_IT_HBLANK),
            old(self).pipeline.render_x >= FRAME_WIDTH && old(self).hdots < XFER_LIMIT_PERIOD
                ==> *final(self) == *old(self) && *final(it) == *old(it),
            final(self).is_with_fifo(old(self).xfer_dot().0, old(self).xfer_dot().1),
            final(it).reg_if == old(it).reg_if | old(self).xfer_dot().2,
            screen_drawn(
                *old(screen),
                *final(screen),
                if old(self).pipeline.render_x < FRAME_WIDTH {
                    old(self).rendered_pixel()
                } else {
                    None
                },
            ),
    {
        if self.pipeline.render_x < FRAME_WIDTH as u8 {
            self.render(screen);
            proof {
                lemma_byte_or(it.reg_if, 0u8, 0u8);
            }
        } else {
            if self.hdots >= XFER_LIMIT_PERIOD {
                let ghost stat = self.reg_stat;
                self.pipeline.bgw_fifo.clear();
                self.set_mode(LCD_STATUS_MODE_HBLANK);
                proof {
                    lemma_set_low_bits(stat, 0u8);
                    lemma_byte_or(it.reg_if, 0u8, 0u8);
                }
                if self.reg_stat & FLAG_STAT_IT_HBLANK == FLAG_STAT_IT_HBLANK {
                    it.request(InterruptFlag::Lcdc);
                }
            } else {
                proof {
                    lemma_byte_or(it.reg_if, 0u8, 0u8);
                }
            }
        }
    }

    fn handle_mode_hblank(&mut self, it: &mut InterruptHandler)
        requires
            old(self).wf(),
            old(self).mode() == LCD_STATUS_MODE_HBLANK,
        ensures
            final(self).wf(),
            (*final(self), final(it).reg_if) == ({
                let (p, irq) = old(self).hblank_dot();
                (p, old(it).reg_if | irq)
            }),
            final(it).reg_ie == old(it).reg_ie,
    {
        let ghost it0 = *it;
        let ghost s0 = *self;
        if self.hdots >= HBLANK_LIMIT_PERIOD {
            self.inc_ly(it);
            let ghost it1 = *it;
            let ghost stat1 = self.reg_stat;
            if self.reg_ly >= FRAME_HEIGHT as u8 {
                self.set_mode(LCD_STATUS_MODE_VBLANK);
                it.request(InterruptFlag::Vblank);
                if self.reg_stat & FLAG_STAT_IT_VBLANK == FLAG_STAT_IT_VBLANK {
                    it.request(InterruptFlag::Lcdc);
                }
            } else {
                self.set_mode(LCD_STATUS_MODE_OAM);
                if self.reg_stat & FLAG_STAT_IT_OAM == FLAG_STAT_IT_OAM {
                    it.request(InterruptFlag::Lcdc);
                }
            }
            self.hdots = 0;
            proof {
                let r0 = it0.reg_if;
                let l: u8 = if s0.lyc_irq((s0.reg_ly + 1) as u8) { 2u8 } else { 0u8 };
                lemma_byte_or(r0, 0u8, 0u8);
                assert(it1.reg_if == r0 | l);
                let a = if (stat1 & !3u8 | 1u8) & 0x10u8 == 0x10u8 { 2u8 } else { 0u8 };
                let b = if (stat1 & !3u8 | 2u8) & 0x20u8 == 0x20u8 { 2u8 } else { 0u8 };
                lemma_byte_or(r0, l, 1u8);
                lemma_byte_or(r0 | l, 1u8, a);
                lemma_byte_or(l, 1u8, a);
                lemma_byte_or(r0, l, 1u8 | a);
                lemma_byte_or(r0, l, b);
                lemma_byte_or((r0 | l) | 1u8, 0u8, 0u8);
                lemma_byte_or(r0 | l, 0u8, 0u8);
            }
        } else {
            proof {
                lemma_byte_or(it.reg_if, 0u8, 0u8);
            }
        }
    }

    fn handle_mode_vblank(&mut self, it: &mut InterruptHandler)
        requires
            old(self).wf(),
            old(self).mode() == LCD_STATUS_MODE_VBLANK,
        ensures
            final(self).wf(),
            (*final(self), final(it).reg_if) == ({
                let (p, irq) = old(self).vblank_dot();
                (p, old(it).reg_if | irq)
            }),
            final(it).reg_ie == old(it).reg_ie,
    {
        let ghost it0 = *it;
        let ghost s0 = *self;
        if self.hdots >= HBLANK_LIMIT_PERIOD {
            self.inc_ly(it);
            let ghost it1 = *it;
            let ghost s1 = *self;
            proof {
                lemma_byte_or(it0.reg_if, 0u8, 0u8);
            }
            if (self.reg_ly as u32 * HBLANK_LIMIT_PERIOD) >= VBLANK_LIMIT_PERIOD {
                // reset ly
                self.set_ly(0, it);
                let ghost it2 = *it;
                // reset window conditions
                self.pipeline.win_ly = 0;
                self.pipeline.win_y_triggered = false;
                self.set_mode(LCD_STATUS_MODE_OAM);
                if self.reg_stat & FLAG_STAT_IT_OAM == FLAG_STAT_IT_OAM {
                    it.request(InterruptFlag::Lcdc);
                }
                proof {
                    let r0 = it0.reg_if;
                    let l: u8 = if s0.lyc_irq((s0.reg_ly + 1) as u8) { 2u8 } else { 0u8 };
                    let l0: u8 = if s1.lyc_irq(0) { 2u8 } else { 0u8 };
                    let b: u8 = if ((s1.stat_for_ly(0) & !3u8) | 2u8) & 0x20u8 == 0x20u8 { 2u8 } else { 0u8 };
                    let r1 = r0 | l;
                    lemma_byte_or(r0, 0u8, 0u8);
                    lemma_byte_or(r1, 0u8, 0u8);
                    assert(it1.reg_if == r0 | l);
                    assert(it2.reg_if == (r0 | l) | l0);
                    lemma_byte_or(r0 | l, l0, b);
                    lemma_byte_or(r0, l, l0 | b);
                    lemma_byte_or(l, l0, b);
                    lemma_byte_or(r0, l, l0);
                    lemma_byte_or(l | l0, 0u8, 0u8);
                }
            } else {
                assert(self.reg_ly < 154) by (nonlinear_arith)
                    requires
                        self.reg_ly * 456 < 70224,
                ;
            }
            self.hdots = 0;
        } else {
            proof {
                lemma_byte_or(it.reg_if, 0u8, 0u8);
            }
        }
    }
}

impl Ppu {
    /// Only the pipeline differs between `self` and `other`.
    pub open spec fn same_but_pipeline(self, other: Ppu) -> bool {
        self == (Ppu { pipeline: self.pipeline, ..other })
    }

    pub open spec fn with_pipeline(self, pipeline: Pipeline) -> Ppu {
        Ppu { pipeline, ..self }
    }

    /// Added to a tile index when the tiles are numbered from 0x8800 (signed indices).
    pub open spec fn tile_index_offset(self) -> u8 {
        if self.reg_lcdc & FLAG_LCDC_BGWIN_TDATA_AREA != FLAG_LCDC_BGWIN_TDATA_AREA {
            128
        } else {
            0
        }
    }

    pub open spec fn with_bgw_data(self, i: int, v: u8) -> Ppu {
        self.with_pipeline(
            Pipeline {
                bgw_data: vstd::array::spec_array_update(self.pipeline.bgw_data, i, v),
                ..self.pipeline
            },
        )
    }

    /// The fetcher after reading, from the background map, the tile of the 8 pixels being
    /// fetched.
    pub open spec fn bg_tile_selected(self) -> Ppu {
        let x = (self.pipeline.fetch_x.wrapping_add(self.reg_scx) / 8) as u16;
        let base = if self.reg_lcdc & FLAG_LCDC_BG_TMAP_AREA == FLAG_LCDC_BG_TMAP_AREA {
            TILE_MAP_1_START_ADDR
        } else {
            TILE_MAP_0_START_ADDR
        };
        let index = self.peek((base + self.pipeline.addr_y_offset + x) as u16);
        self.with_bgw_data(0, index.wrapping_add(self.tile_index_offset()))
    }

    /// The fetcher after reading the window tile instead, when the window is on screen,
    /// has started on this frame and covers the pixels being fetched.
    pub open spec fn win_tile_selected(self) -> Ppu {
        if self.reg_wx < FRAME_WIDTH + 7 && self.reg_wy < FRAME_HEIGHT
            && self.pipeline.win_y_triggered && self.pipeline.fetch_x + 7 >= self.reg_wx {
            let tile_y = (self.pipeline.win_ly / 8) as u16;
            let addr = (self.pipeline.fetch_x + 7 - self.reg_wx) / 8 + tile_y * 32;
            let base = if self.reg_lcdc & FLAG_LCDC_WIN_TMAP_AREA == FLAG_LCDC_WIN_TMAP_AREA {
                TILE_MAP_1_START_ADDR
            } else {
                TILE_MAP_0_START_ADDR
            };
            let index = self.peek((base + addr) as u16);
            self.with_bgw_data(0, index.wrapping_add(self.tile_index_offset()))
        } else {
            self
        }
    }

    /// The fetcher after reading byte `offset` (low or high) of the row of the fetched
    /// background or window tile.
    pub open spec fn bgwin_data_loaded(self, offset: u16) -> Ppu {
        let base = if self.reg_lcdc & FLAG_LCDC_BGWIN_TDATA_AREA == FLAG_LCDC_BGWIN_TDATA_AREA {
            TILE_DATA_0_START_ADDR
        } else {
            TILE_DATA_1_START_ADDR
        };
        let addr = base + self.pipeline.bgw_data@[0] * 16 + self.pipeline.tile_y * 2 + offset;
        self.with_bgw_data(1 + offset, self.peek(addr as u16))
    }

    /// Whether a line object overlaps the 8 pixels being fetched.
    pub open spec fn sprite_overlaps(self, obj: Sprite) -> bool {
        let rel_x = obj.x.wrapping_sub(8).wrapping_add(self.reg_scx % 8);
        let fx = self.pipeline.fetch_x;
        let end = fx.wrapping_add(8);
        let rel_end = rel_x.wrapping_add(8);
        (rel_x >= fx && rel_x < end) || (rel_end >= fx && rel_end < end)
    }

    /// The fetched objects after looking at the first `i` line objects: the first three
    /// that overlap the pixels being fetched, by their index in the line list.
    pub open spec fn sprites_selected_upto(self, i: int) -> Ppu
        decreases i,
    {
        if i <= 0 {
            self.with_pipeline(Pipeline { obj_fetched_count: 0, ..self.pipeline })
        } else {
            let p = self.sprites_selected_upto(i - 1);
            if p.pipeline.obj_fetched_count >= 3 {
                p
            } else if self.sprite_overlaps(self.pipeline.obj_list@[i - 1]) {
                let c = p.pipeline.obj_fetched_count;
                p.with_pipeline(
                    Pipeline {
                        obj_fetched_idx: vstd::array::spec_array_update(
                            p.pipeline.obj_fetched_idx,
                            c as int,
                            (i - 1) as u8,
                        ),
                        obj_fetched_count: (c + 1) as u8,
                        ..p.pipeline
                    },
                )
            } else {
                p
            }
        }
    }

    pub open spec fn sprites_selected(self) -> Ppu {
        self.sprites_selected_upto(self.pipeline.obj_count as int)
    }

    /// The VRAM address of byte `offset` (low or high) of the row of object `obj` that
    /// line LY shows.
    pub open spec fn sprite_row_addr(self, obj: Sprite, offset: u16) -> u16 {
        let size = self.spec_obj_size();
        let line = self.reg_ly.wrapping_add(16).wrapping_sub(obj.y);
        let row: u8 = if obj.attrs & FLAG_OBJ_Y_FLIP != 0 {
            size.wrapping_mul(2).wrapping_sub(2).wrapping_sub(line.wrapping_mul(2))
        } else {
            line.wrapping_mul(2)
        };
        let tile_index = if size == 16 {
            obj.tile_index & 0xFE
        } else {
            obj.tile_index
        };
        (TILE_DATA_0_START_ADDR + tile_index * 16 + row + offset) as u16
    }

    /// The fetcher after reading byte `offset` of the rows of the first `i` fetched
    /// objects.
    pub open spec fn sprite_data_loaded_upto(self, offset: u16, i: int) -> Ppu
        decreases i,
    {
        if i <= 0 {
            self
        } else {
            let p = self.sprite_data_loaded_upto(offset, i - 1);
            let obj = self.pipeline.obj_list@[self.pipeline.obj_fetched_idx@[i - 1] as int];
            let byte = self.peek(self.sprite_row_addr(obj, offset));
            p.with_pipeline(
                Pipeline {
                    obj_data: vstd::array::spec_array_update(
                        p.pipeline.obj_data,
                        2 * (i - 1) + offset,
                        byte,
                    ),
                    ..p.pipeline
                },
            )
        }
    }

    pub open spec fn sprite_data_loaded(self, offset: u16) -> Ppu {
        self.sprite_data_loaded_upto(offset, self.pipeline.obj_fetched_count as int)
    }

    pub open spec fn with_state(self, state: FetchState) -> Ppu {
        self.with_pipeline(Pipeline { state, ..self.pipeline })
    }

    /// `self` is `p` with its FIFO holding `fifo`.
    pub open spec fn is_with_fifo(self, p: Ppu, fifo: Seq<Pixel>) -> bool {
        &&& self == p.with_pipeline(Pipeline { bgw_fifo: self.pipeline.bgw_fifo, ..p.pipeline })
        &&& self.pipeline.bgw_fifo@ == fifo
    }

    /// The tile step of the fetcher: the background tile, then the window tile over it,
    /// and the objects, each when enabled.
    pub open spec fn tile_fetched(self) -> Ppu {
        let a = if self.reg_lcdc & FLAG_LCDC_BG_WIN_ENABLE == FLAG_LCDC_BG_WIN_ENABLE {
            let b = self.bg_tile_selected();
            if self.reg_lcdc & FLAG_LCDC_WIN_ENABLE == FLAG_LCDC_WIN_ENABLE {
                b.win_tile_selected()
            } else {
                b
            }
        } else {
            self
        };
        let c = if self.reg_lcdc & FLAG_LCDC_OBJ_ENABLE == FLAG_LCDC_OBJ_ENABLE {
            a.sprites_selected()
        } else {
            a
        };
        c.with_state(FetchState::TileDataLow)
    }

    /// One dot of the pixel fetcher, which works every other dot, stepping through tile,
    /// low data, high data, sleep and push (once the FIFO is empty): the PPU (its FIFO
    /// left as it was) and the content of the FIFO.
    pub open spec fn fetched(self) -> (Ppu, Seq<Pixel>) {
        let fifo = self.pipeline.bgw_fifo@;
        if self.pipeline.ticks + 1 == 2 {
            (self.with_pipeline(Pipeline { ticks: 0, ..self.pipeline }), fifo)
        } else {
            let s = self.with_pipeline(
                Pipeline { ticks: (self.pipeline.ticks + 1) as u8, ..self.pipeline },
            );
            match s.pipeline.state {
                FetchState::Tile => (s.tile_fetched(), fifo),
                FetchState::TileDataLow => (
                    s.bgwin_data_loaded(0).sprite_data_loaded(0).with_state(
                        FetchState::TileDataHigh,
                    ),
                    fifo,
                ),
                FetchState::TileDataHigh => (
                    s.bgwin_data_loaded(1).sprite_data_loaded(1).with_state(FetchState::Sleep),
                    fifo,
                ),
                FetchState::Sleep => (s.with_state(FetchState::Push), fifo),
                FetchState::Push => if fifo.len() == 0 {
                    (
                        s.with_pipeline(
                            Pipeline {
                                fetch_x: (s.pipeline.fetch_x + 8) as u8,
                                state: FetchState::Tile,
                                ..s.pipeline
                            },
                        ),
                        s.row_pixels(s.pipeline.fetch_x),
                    )
                } else {
                    (s, fifo)
                },
            }
        }
    }

    /// One dot of the transfer: a fetcher dot, then the first pixel of the FIFO, if any,
    /// goes to the screen at column `render_x` of line LY: the PPU (its FIFO left as it
    /// was) and the content of the FIFO.
    pub open spec fn rendered(self) -> (Ppu, Seq<Pixel>) {
        let (f, fifo) = self.fetched();
        if fifo.len() > 0 {
            (
                f.with_pipeline(
                    Pipeline { render_x: (f.pipeline.render_x + 1) as u8, ..f.pipeline },
                ),
                fifo.drop_first(),
            )
        } else {
            (f, fifo)
        }
    }

    /// Collect the objects of line LY, sorted by X.
    fn scan_sprites(&mut self)
        requires
            old(self).wf(),
        ensures
            final(self).wf(),
            final(self).same_but_pipeline(*old(self)),
            final(self).pipeline == (Pipeline {
                obj_list: final(self).pipeline.obj_list,
                obj_count: final(self).pipeline.obj_count,
                obj_fetched_count: 0,
                ..old(self).pipeline
            }),
            final(self).pipeline.obj_count == old(self).line_sprites().len(),
            final(self).pipeline.obj_list@.subrange(0, final(self).pipeline.obj_count as int).to_multiset()
                == old(self).line_sprites().to_multiset(),
            sorted_prefix(final(self).pipeline.obj_list@, final(self).pipeline.obj_count as int),
            final(self).pipeline.obj_list@.subrange(final(self).pipeline.obj_count as int, 10)
                == old(self).pipeline.obj_list@.subrange(final(self).pipeline.obj_count as int, 10),
    {
        let rel_y = self.reg_ly + 16;
        let obj_size = self.obj_size();
        let ghost oam = self.oam@;
        let ghost s0 = *self;

        self.pipeline.init_sprites();

        let mut i: usize = 0;
        let mut k: usize = 0;
        while i < OAM_REGION_SIZE
            invariant_except_break
                self.pipeline.obj_count < 10,
                self.pipeline.obj_list@.subrange(0, self.pipeline.obj_count as int)
                    == visible_upto(oam, rel_y, obj_size, k as int),
            invariant
                i == 4 * k,
                k <= 40,
                self.wf(),
                oam == self.oam@,
                rel_y == s0.reg_ly + 16,
                obj_size == s0.spec_obj_size(),
                self.same_but_pipeline(s0),
                self.pipeline == (Pipeline {
                    obj_list: self.pipeline.obj_list,
                    obj_count: self.pipeline.obj_count,
                    obj_fetched_count: 0,
                    ..s0.pipeline
                }),
                self.pipeline.obj_count <= 10,
                forall|j: int|
                    self.pipeline.obj_count <= j < 10 ==> #[trigger] self.pipeline.obj_list@[j]
                        == s0.pipeline.obj_list@[j],
            ensures
                forall|j: int|
                    self.pipeline.obj_count <= j < 10 ==> #[trigger] self.pipeline.obj_list@[j]
                        == s0.pipeline.obj_list@[j],
                self.wf(),
                self.same_but_pipeline(s0),
                self.pipeline == (Pipeline {
                    obj_list: self.pipeline.obj_list,
                    obj_count: self.pipeline.obj_count,
                    obj_fetched_count: 0,
                    ..s0.pipeline
                }),
                self.pipeline.obj_list@.subrange(0, self.pipeline.obj_count as int)
                    == s0.line_sprites(),
            decreases OAM_REGION_SIZE - i,
        {
            let y = self.oam[i];
            let x = self.oam[i + 1];
            let tile_index = self.oam[i + 2];
            let attrs = self.oam[i + 3];
            let ghost prev = visible_upto(oam, rel_y, obj_size, k as int);
            if rel_y >= y && rel_y < y.wrapping_add(obj_size) {
                let ghost before = self.pipeline.obj_list@;
                self.pipeline.push_sprite(Sprite::new(x, y, tile_index, attrs));
                assert(oam_sprite(oam, k as int) == (Sprite { x, y, tile_index, attrs }));
                assert(self.pipeline.obj_list@.subrange(0, self.pipeline.obj_count as int)
                    =~= prev.push(Sprite { x, y, tile_index, attrs }));
                if self.pipeline.obj_count >= 10 {
                    proof {
                        lemma_visible_grows(oam, rel_y, obj_size, (k + 1) as int, 40);
                        let v = visible_upto(oam, rel_y, obj_size, 40);
                        assert(visible_upto(oam, rel_y, obj_size, (k + 1) as int) == prev.push(oam_sprite(oam, k as int)));
                        if v.len() == 10 {
                            assert(v.take(10) =~= v);
                        }
                    }
                    break;
                }
            }
            i = i + 4;
            k = k + 1;
        }
        proof {
            if self.pipeline.obj_count < 10 {
                lemma_visible_grows(oam, rel_y, obj_size, 40, 40);
            }
        }
        let ghost unsorted = self.pipeline.obj_list@;
        // Sort sprites by their X coord
        self.pipeline.sort_sprites();
        assert(self.pipeline.obj_list@.subrange(self.pipeline.obj_count as int, 10)
            =~= s0.pipeline.obj_list@.subrange(self.pipeline.obj_count as int, 10)) by {
            assert forall|j: int| self.pipeline.obj_count <= j < 10 implies self.pipeline.obj_list@[j]
                == unsorted[j] by {
                assert(self.pipeline.obj_list@.subrange(self.pipeline.obj_count as int, 10)[j
                    - self.pipeline.obj_count] == unsorted.subrange(self.pipeline.obj_count as int, 10)[j
                    - self.pipeline.obj_count]);
            }
        }
    }

    /// Find the (at most three) line objects that overlap the 8 pixels being fetched.
    fn select_sprites(&mut self)
        requires
            old(self).wf(),
        ensures
            final(self).wf(),
            final(self).same_but_pipeline(*old(self)),
            *final(self) == old(self).sprites_selected(),
            final(self).pipeline == (Pipeline {
                obj_fetched_idx: final(self).pipeline.obj_fetched_idx,
                obj_fetched_count: final(self).pipeline.obj_fetched_count,
                ..old(self).pipeline
            }),
    {
        let ghost s_init = *self;
        let offset = self.reg_scx % 8;
        self.pipeline.obj_fetched_count = 0;
        let n = self.pipeline.obj_count as usize;
        let fetch_x = self.pipeline.fetch_x;
        let ghost s0 = *self;
        let mut i: usize = 0;
        while i < n
            invariant_except_break
                self.pipeline.obj_fetched_count < 3,
                forall|j: int| 0 <= j < self.pipeline.obj_fetched_count ==> #[trigger] self.pipeline.obj_fetched_idx@[j] < i,
                *self == s_init.sprites_selected_upto(i as int),
            invariant
                i <= n,
                n == self.pipeline.obj_count,
                n == s_init.pipeline.obj_count,
                fetch_x == self.pipeline.fetch_x,
                fetch_x == s_init.pipeline.fetch_x,
                offset == s_init.reg_scx % 8,
                s_init.wf(),
                self.wf(),
                self.same_but_pipeline(s0),
                self.pipeline == (Pipeline {
                    obj_fetched_idx: self.pipeline.obj_fetched_idx,
                    obj_fetched_count: self.pipeline.obj_fetched_count,
                    ..s0.pipeline
                }),
                s0 == s_init.with_pipeline(Pipeline { obj_fetched_count: 0, ..s_init.pipeline }),
                self.pipeline.obj_fetched_count <= 3,
                forall|j: int| 0 <= j < self.pipeline.obj_fetched_count ==> #[trigger] self.pipeline.obj_fetched_idx@[j] < n,
            ensures
                *self == s_init.sprites_selected(),
            decreases n - i,
        {
            let obj = self.pipeline.obj_list[i];
            let rel_x = obj.x.wrapping_sub(8).wrapping_add(offset);
            let end = fetch_x.wrapping_add(8);
            let rel_end = rel_x.wrapping_add(8);
            if (rel_x >= fetch_x && rel_x < end) || (rel_end >= fetch_x && rel_end < end) {
                let c = self.pipeline.obj_fetched_count;
                self.pipeline.obj_fetched_idx[c as usize] = i as u8;
                self.pipeline.obj_fetched_count = c + 1;
                assert(self.pipeline.obj_fetched_idx =~= vstd::array::spec_array_update(
                    s_init.sprites_selected_upto(i as int).pipeline.obj_fetched_idx,
                    c as int,
                    i as u8,
                ));
                if self.pipeline.obj_fetched_count >= 3 {
                    proof {
                        lemma_selected_saturates(s_init, i + 1, n as int);
                    }
                    break;
                }
            }
            i = i + 1;
        }
    }

    fn select_bg_tiles(&mut self)
        requires
            old(self).wf(),
        ensures
            final(self).wf(),
            final(self).same_but_pipeline(*old(self)),
            *final(self) == old(self).bg_tile_selected(),
    {
        let x = self.pipeline.fetch_x.wrapping_add(self.reg_scx) as u16 / 8;
        let tile_index = self.read(self.bg_map_area() + self.pipeline.addr_y_offset + x);
        let offset = if self.reg_lcdc & FLAG_LCDC_BGWIN_TDATA_AREA != FLAG_LCDC_BGWIN_TDATA_AREA {
            128u8
        } else {
            0u8
        };
        self.pipeline.bgw_data[0] = tile_index.wrapping_add(offset);
    }

    fn select_win_tiles(&mut self)
        requires
            old(self).wf(),
            old(self).pipeline.fetch_x <= 168,
        ensures
            final(self).wf(),
            final(self).same_but_pipeline(*old(self)),
            *final(self) == old(self).win_tile_selected(),
    {
        if self.reg_wx < (FRAME_WIDTH as u8 + 7) && self.reg_wy < (FRAME_HEIGHT as u8) {
            if self.pipeline.win_y_triggered && (self.pipeline.fetch_x + 7) >= self.reg_wx {
                let tile_y = self.pipeline.win_ly as u16 / 8;
                let addr = (self.pipeline.fetch_x as u16 + 7 - self.reg_wx as u16) / 8 + tile_y * 32;
                let tile_index = self.read(self.win_map_area() + addr);
                let offset = if self.reg_lcdc & FLAG_LCDC_BGWIN_TDATA_AREA
                    != FLAG_LCDC_BGWIN_TDATA_AREA {
                    128u8
                } else {
                    0u8
                };
                self.pipeline.bgw_data[0] = tile_index.wrapping_add(offset);
            }
        }
    }

    fn load_bgwin_data(&mut self, offset: u16)
        requires
            old(self).wf(),
            offset <= 1,
        ensures
            final(self).wf(),
            final(self).same_but_pipeline(*old(self)),
            *final(self) == old(self).bgwin_data_loaded(offset),
    {
        let tile_index = self.pipeline.bgw_data[0];
        let addr = self.bgwin_data_area() + tile_index as u16 * 16 + self.pipeline.tile_y as u16 * 2
            + offset;
        let byte = self.read(addr);
        self.pipeline.bgw_data[1 + offset as usize] = byte;
    }

    fn load_sprite_data(&mut self, offset: u16)
        requires
            old(self).wf(),
            offset <= 1,
        ensures
            final(self).wf(),
            final(self).same_but_pipeline(*old(self)),
            *final(self) == old(self).sprite_data_loaded(offset),
            final(self).pipeline == (Pipeline { obj_data: final(self).pipeline.obj_data, ..old(self).pipeline }),
    {
        let obj_size = self.obj_size();
        let n = self.pipeline.obj_fetched_count as usize;
        let ghost s0 = *self;
        let mut i: usize = 0;
        while i < n
            invariant
                i <= n,
                n == self.pipeline.obj_fetched_count,
                offset <= 1,
                obj_size == 8 || obj_size == 16,
                self.wf(),
                self.same_but_pipeline(s0),
                self.pipeline == (Pipeline { obj_data: self.pipeline.obj_data, ..s0.pipeline }),
                obj_size == s0.spec_obj_size(),
                *self == s0.sprite_data_loaded_upto(offset, i as int),
            decreases n - i,
        {
            let obj = self.pipeline.obj_list[self.pipeline.obj_fetched_idx[i] as usize];
            let line = self.reg_ly.wrapping_add(16).wrapping_sub(obj.y);
            let row: u8 = if obj.is_y_flipped() {
                obj_size.wrapping_mul(2).wrapping_sub(2).wrapping_sub(line.wrapping_mul(2))
            } else {
                line.wrapping_mul(2)
            };
            let tile_y = row as u16;
            let tile_index = if obj_size == 16 {
                obj.tile_index & 0xFE
            } else {
                obj.tile_index
            };
            let base = tile_index as u16 * 16;
            assert(base <= 4080);
            let addr = TILE_DATA_0_START_ADDR + base + tile_y + offset;
            let byte = self.read(addr);
            assert(addr == s0.sprite_row_addr(obj, offset));
            let ghost prev = self.pipeline.obj_data;
            self.pipeline.obj_data[i * 2 + offset as usize] = byte;
            assert(self.pipeline.obj_data =~= vstd::array::spec_array_update(
                prev,
                2 * i + offset,
                byte,
            ));
            i = i + 1;
        }
    }
}

impl Ppu {
    /// The background color number of bit `bit` of the fetched tile row (0 when the
    /// background is off).
    pub open spec fn bg_color_id(self, bit: u8) -> u8 {
        if self.reg_lcdc & FLAG_LCDC_BG_WIN_ENABLE == FLAG_LCDC_BG_WIN_ENABLE {
            color_id(self.pipeline.bgw_data@[1], self.pipeline.bgw_data@[2], bit)
        } else {
            0
        }
    }

    /// The color that the fetched objects from the `j`-th on give to pixel `fx`, over a
    /// background of color number `bg_id`: the first object with an opaque pixel there
    /// that is not hidden behind the background.
    pub open spec fn sprite_pick(self, fx: u8, bg_id: u8, j: int) -> Option<Pixel>
        decreases self.pipeline.obj_fetched_count - j,
    {
        if j < 0 || j >= self.pipeline.obj_fetched_count {
            None
        } else {
            let obj = self.pipeline.obj_list@[self.pipeline.obj_fetched_idx@[j] as int];
            let rel_x = wadd8(wsub8(obj.x, 8), self.reg_scy % 8);
            let offset = fx - rel_x;
            if wadd8(rel_x, 8) < fx || offset < 0 || offset > 7 {
                self.sprite_pick(fx, bg_id, j + 1)
            } else {
                let bit = (if obj.attrs & 0x20 != 0 { offset } else { 7 - offset }) as u8;
                let id = color_id(
                    self.pipeline.obj_data@[2 * j],
                    self.pipeline.obj_data@[2 * j + 1],
                    bit,
                );
                if id == 0 {
                    self.sprite_pick(fx, bg_id, j + 1)
                } else if obj.attrs & 0x80 == 0 || bg_id == 0 {
                    let pal = if obj.attrs & 0x10 != 0 { self.reg_obp1 } else { self.reg_obp0 };
                    Some(shade_color(palette_shade(pal, id)))
                } else {
                    self.sprite_pick(fx, bg_id, j + 1)
                }
            }
        }
    }

    /// The pixel produced for screen column `fx` from bit `bit` of the fetched row.
    pub open spec fn line_pixel(self, fx: u8, bit: u8) -> Pixel {
        let bg_id = self.bg_color_id(bit);
        let bg = shade_color(palette_shade(self.reg_bgp, bg_id));
        if self.reg_lcdc & FLAG_LCDC_OBJ_ENABLE == FLAG_LCDC_OBJ_ENABLE {
            match self.sprite_pick(fx, bg_id, 0) {
                Some(px) => px,
                None => bg,
            }
        } else {
            bg
        }
    }

    /// The eight pixels of the fetched row, leftmost first, starting at column `fx`.
    pub open spec fn row_pixels(self, fx: u8) -> Seq<Pixel> {
        Seq::new(8, |k: int| self.line_pixel((fx + k) as u8, (7 - k) as u8))
    }

    fn sprite_pixel(&self, fx: u8, bg_id: u8) -> (r: Option<Pixel>)
        requires
            self.pipeline.wf(),
        ensures
            r == self.sprite_pick(fx, bg_id, 0),
    {
        let n = self.pipeline.obj_fetched_count as usize;
        let mut j: usize = 0;
        while j < n
            invariant
                j <= n,
                n == self.pipeline.obj_fetched_count,
                self.pipeline.wf(),
                self.sprite_pick(fx, bg_id, 0) == self.sprite_pick(fx, bg_id, j as int),
            decreases n - j,
        {
            let obj = self.pipeline.obj_list[self.pipeline.obj_fetched_idx[j] as usize];
            let rel_x = obj.x.wrapping_sub(8).wrapping_add(self.reg_scy % 8);
            let offset = fx as i16 - rel_x as i16;
            if !(rel_x.wrapping_add(8) < fx || offset < 0 || offset > 7) {
                let bit = (if obj.is_x_flipped() { offset } else { 7 - offset }) as u8;
                let obj_low = self.pipeline.obj_data[j * 2];
                let obj_high = self.pipeline.obj_data[j * 2 + 1];
                let id = ((obj_low >> bit) & 0x01) | (((obj_high >> bit) & 0x01) << 1);
                if id != 0 && (!obj.is_bgwin_prio() || bg_id == 0) {
                    let pal = if obj.palette_number() == 0 { self.reg_obp0 } else { self.reg_obp1 };
                    assert(id < 4) by (bit_vector)
                        requires
                            id == ((obj_low >> bit) & 1u8) | (((obj_high >> bit) & 1u8) << 1u8),
                    ;
                    return Some(Ppu::pixel_from_id(pal, id));
                }
            }
            j = j + 1;
        }
        None
    }

    /// Push the 8 pixels of the fetched row into the FIFO.
    fn push_pixels(&mut self)
        requires
            old(self).wf(),
            old(self).mode() == LCD_STATUS_MODE_XFER,
            old(self).pipeline.bgw_fifo@.len() == 0,
        ensures
            final(self).wf(),
            final(self).same_but_pipeline(*old(self)),
            final(self).pipeline == (Pipeline {
                bgw_fifo: final(self).pipeline.bgw_fifo,
                fetch_x: (old(self).pipeline.fetch_x + 8) as u8,
                ..old(self).pipeline
            }),
            final(self).pipeline.bgw_fifo@ == old(self).row_pixels(old(self).pipeline.fetch_x),
    {
        let bg_low = self.pipeline.bgw_data[1];
        let bg_high = self.pipeline.bgw_data[2];
        let ghost s0 = *self;
        let ghost fx0 = self.pipeline.fetch_x;
        let mut k: u8 = 0;
        while k < 8
            invariant
                k <= 8,
                s0.wf(),
                s0.mode() == LCD_STATUS_MODE_XFER,
                s0.pipeline.bgw_fifo@.len() == 0,
                bg_low == s0.pipeline.bgw_data@[1],
                bg_high == s0.pipeline.bgw_data@[2],
                self.same_but_pipeline(s0),
                self.pipeline.wf(),
                self.pipeline == (Pipeline {
                    bgw_fifo: self.pipeline.bgw_fifo,
                    fetch_x: (fx0 + k) as u8,
                    ..s0.pipeline
                }),
                fx0 <= 160,
                self.pipeline.bgw_fifo@ == s0.row_pixels(fx0).take(k as int),
            decreases 8 - k,
        {
            let i = 7 - k;
            let mut bg_color_id = 0u8;
            // Retrieve bg color id if enabled
            if self.is_bgwin_enabled() {
                bg_color_id = ((bg_low >> i) & 0x01) | (((bg_high >> i) & 0x01) << 1);
            }
            assert(bg_color_id < 4) by (bit_vector)
                requires
                    bg_color_id == 0 || bg_color_id == ((bg_low >> i) & 1u8) | (((bg_high >> i)
                        & 1u8) << 1u8),
            ;
            let mut pixel = Ppu::pixel_from_id(self.reg_bgp, bg_color_id);
            // Check sprites if enabled
            if self.is_obj_enabled() {
                match self.sprite_pixel(self.pipeline.fetch_x, bg_color_id) {
                    Some(px) => {
                        pixel = px;
                    },
                    None => {},
                }
            }
            proof {
                assert(self.sprite_pick(self.pipeline.fetch_x, bg_color_id, 0) == s0.sprite_pick(
                    self.pipeline.fetch_x,
                    bg_color_id,
                    0,
                )) by {
                    lemma_sprite_pick_fetch_x(*self, s0, self.pipeline.fetch_x, bg_color_id, 0);
                }
                assert(pixel == s0.row_pixels(fx0)[k as int]);
            }
            let ghost before = self.pipeline.bgw_fifo@;
            self.pipeline.bgw_fifo.push(pixel);
            self.pipeline.fetch_x = self.pipeline.fetch_x + 1;
            proof {
                assert(self.pipeline.bgw_fifo@ =~= s0.row_pixels(fx0).take(k + 1));
            }
            k = k + 1;
        }
        assert(s0.row_pixels(fx0).take(8) =~= s0.row_pixels(fx0));
    }

    fn render<S: Screen>(&mut self, screen: &mut S)
        requires
            old(self).wf(),
            old(self).mode() == LCD_STATUS_MODE_XFER,
            old(self).pipeline.render_x < FRAME_WIDTH,
        ensures
            final(self).wf(),
            final(self).same_but_pipeline(*old(self)),
            final(self).is_with_fifo(old(self).rendered().0, old(self).rendered().1),
            screen_drawn(*old(screen), *final(screen), old(self).rendered_pixel()),
    {
        self.fetch_pixel_row();

        if self.pipeline.bgw_fifo.size() > 0 {
            let px = self.pipeline.bgw_fifo.pop();
            screen.set_pixel(&px, self.pipeline.render_x, self.reg_ly);
            self.pipeline.render_x = self.pipeline.render_x + 1;
        }
    }

    fn fetch_pixel_row(&mut self)
        requires
            old(self).wf(),
            old(self).mode() == LCD_STATUS_MODE_XFER,
            old(self).pipeline.render_x < FRAME_WIDTH,
        ensures
            final(self).wf(),
            final(self).same_but_pipeline(*old(self)),
            final(self).pipeline.render_x == old(self).pipeline.render_x,
            final(self).is_with_fifo(old(self).fetched().0, old(self).fetched().1),
    {
        self.pipeline.ticks = self.pipeline.ticks + 1;

        if self.pipeline.ticks == 2 {
            // Fetch runs at half cpu speed
            self.pipeline.ticks = 0;
            return;
        }
        // Pixel fetcher state machine
        match self.pipeline.state {
            FetchState::Tile => {
                // Retrieve tile index
                if self.is_bgwin_enabled() {
                    self.select_bg_tiles();

                    if self.is_win_enabled() {
                        self.select_win_tiles();
                    }
                }
                if self.is_obj_enabled() {
                    self.select_sprites();
                }
                self.pipeline.state = FetchState::TileDataLow;
            },
            FetchState::TileDataLow => {
                self.load_bgwin_data(0);
                self.load_sprite_data(0);
                self.pipeline.state = FetchState::TileDataHigh;
            },
            FetchState::TileDataHigh => {
                self.load_bgwin_data(1);
                self.load_sprite_data(1);
                self.pipeline.state = FetchState::Sleep;
            },
            FetchState::Sleep => {
                self.pipeline.state = FetchState::Push;
            },
            FetchState::Push => {
                if self.pipeline.bgw_fifo.is_empty() {
                    self.push_pixels();
                    self.pipeline.state = FetchState::Tile;
                }
            },
        }
    }
}

/// Once three objects are fetched, looking at more line objects changes nothing.
proof fn lemma_selected_saturates(p: Ppu, i: int, k: int)
    requires
        0 <= i <= k,
        p.sprites_selected_upto(i).pipeline.obj_fetched_count >= 3,
    ensures
        p.sprites_selected_upto(k) == p.sprites_selected_upto(i),
    decreases k - i,
{
    if i < k {
        lemma_selected_saturates(p, i, k - 1);
    }
}

/// The object choice for a pixel does not depend on the fetch position or the FIFO.
proof fn lemma_sprite_pick_fetch_x(a: Ppu, b: Ppu, fx: u8, bg_id: u8, j: int)
    requires
        a.pipeline == (Pipeline { bgw_fifo: a.pipeline.bgw_fifo, fetch_x: a.pipeline.fetch_x, ..b.pipeline }),
        a.same_but_pipeline(b),
    ensures
        a.sprite_pick(fx, bg_id, j) == b.sprite_pick(fx, bg_id, j),
    decreases b.pipeline.obj_fetched_count - j,
{
    if 0 <= j < b.pipeline.obj_fetched_count {
        lemma_sprite_pick_fetch_x(a, b, fx, bg_id, j + 1);
    }
}

impl MemoryRegion for Ppu {
    open spec fn maps(address: u16) -> bool {
        ||| VRAM_REGION_START <= address <= VRAM_REGION_END
        ||| OAM_REGION_START <= address <= OAM_REGION_END
        ||| REG_LCDC_ADDR <= address <= REG_WX_ADDR
    }

    open spec fn inv(&self) -> bool {
        self.wf()
    }

    fn read(&self, address: u16) -> (r: u8)
        ensures
            r == self.peek(address),
    {
        if VRAM_REGION_START <= address && address <= VRAM_REGION_END {
            self.vram[(address - VRAM_REGION_START) as usize]
        } else if OAM_REGION_START <= address && address <= OAM_REGION_END {
            self.oam[(address - OAM_REGION_START) as usize]
        } else if address == REG_LCDC_ADDR {
            self.reg_lcdc
        } else if address == REG_STAT_ADDR {
            self.reg_stat
        } else if address == REG_SCY_ADDR {
            self.reg_scy
        } else if address == REG_SCX_ADDR {
            self.reg_scx
        } else if address == REG_LY_ADDR {
            self.reg_ly
        } else if address == REG_LYC_ADDR {
            self.reg_lyc
        } else if address == REG_WY_ADDR {
            self.reg_wy
        } else if address == REG_WX_ADDR {
            self.reg_wx
        } else if address == REG_DMA_ADDR {
            self.reg_dma
        } else if address == REG_BGP_ADDR {
            self.reg_bgp
        } else if address == REG_OBP0_ADDR {
            self.reg_obp0
        } else {
            self.reg_obp1
        }
    }

    /// LY is read-only: a write to it is ignored.
    fn write(&mut self, address: u16, value: u8)
        ensures
            *final(self) == old(self).poked(address, value),
    {
        proof {
            lemma_poked_wf(*self, address, value);
        }
        if VRAM_REGION_START <= address && address <= VRAM_REGION_END {
            self.vram[(address - VRAM_REGION_START) as usize] = value;
        } else if OAM_REGION_START <= address && address <= OAM_REGION_END {
            self.oam[(address - OAM_REGION_START) as usize] = value;
        } else if address == REG_LCDC_ADDR {
            self.reg_lcdc = value;
        } else if address == REG_STAT_ADDR {
            // bit 2, 1 and 0 are readonly
            self.reg_stat = (value & 0xF8) | (self.reg_stat & 0x07);
        } else if address == REG_SCY_ADDR {
            self.reg_scy = value;
        } else if address == REG_SCX_ADDR {
            self.reg_scx = value;
        } else if address == REG_LY_ADDR {
        } else if address == REG_LYC_ADDR {
            self.reg_lyc = value;
        } else if address == REG_WY_ADDR {
            self.reg_wy = value;
        } else if address == REG_WX_ADDR {
            self.reg_wx = value;
        } else if address == REG_DMA_ADDR {
            self.reg_dma = value;
            self.dma_active = true;
            self.dma_idx = 0;
        } else if address == REG_BGP_ADDR {
            self.reg_bgp = value;
        } else if address == REG_OBP0_ADDR {
            self.reg_obp0 = value;
        } else {
            self.reg_obp1 = value;
        }
    }
}

/// A write through the bus keeps the PPU invariant.
pub proof fn lemma_poked_wf(p: Ppu, address: u16, value: u8)
    requires
        p.wf(),
        Ppu::maps(address),
    ensures
        p.poked(address, value).wf(),
{
    let q = p.poked(address, value);
    let stat = p.reg_stat;
    assert(((value & 0xF8u8) | (stat & 0x07u8)) & 3u8 == stat & 3u8) by (bit_vector);
    assert(q.mode() == p.mode());
}

/// During HBlank the VBlank interrupt is raised exactly when a line ends and the next one
/// is line 144, the first one below the screen; the next mode is VBlank then, and the OAM
/// scan otherwise.
pub proof fn law_vblank_interrupt(p: Ppu)
    requires
        p.wf(),
        p.mode() == LCD_STATUS_MODE_HBLANK,
    ensures
        (p.hblank_dot().1 & flag_bit(InterruptFlag::Vblank) != 0) == (p.hdots >= HBLANK_LIMIT_PERIOD
            && p.reg_ly + 1 == FRAME_HEIGHT),
        p.hdots >= HBLANK_LIMIT_PERIOD ==> p.hblank_dot().0.mode() == (if p.reg_ly + 1
            == FRAME_HEIGHT {
            LCD_STATUS_MODE_VBLANK
        } else {
            LCD_STATUS_MODE_OAM
        }),
{
    if p.hdots >= HBLANK_LIMIT_PERIOD {
        let ly = (p.reg_ly + 1) as u8;
        let stat = p.stat_for_ly(ly);
        let l: u8 = if p.lyc_irq(ly) { 2u8 } else { 0u8 };
        let a: u8 = Ppu::stat_irq((stat & !3u8) | 1u8, 0x10u8);
        let b: u8 = Ppu::stat_irq((stat & !3u8) | 2u8, 0x20u8);
        assert(a == 0u8 || a == 2u8);
        assert(b == 0u8 || b == 2u8);
        assert((l | 1u8 | a) & 1u8 != 0u8) by (bit_vector);
        assert((l | b) & 1u8 == 0u8) by (bit_vector)
            requires
                l == 0u8 || l == 2u8,
                b == 0u8 || b == 2u8,
        ;
        lemma_set_low_bits(stat, 1u8);
        lemma_set_low_bits(stat, 2u8);
    } else {
        assert(0u8 & 1u8 == 0u8) by (bit_vector);
    }
}

/// A palette gives color `k` the shade held in its bits `2k + 1` and `2k`: the `k`-th
/// base-4 digit of the palette register.
pub proof fn law_palette_shade(pal: u8, k: u8)
    requires
        k < 4,
    ensures
        palette_shade(pal, k) == (if k == 0 {
            pal % 4
        } else if k == 1 {
            (pal / 4) % 4
        } else if k == 2 {
            (pal / 16) % 4
        } else {
            pal / 64
        }),
        shade_color(palette_shade(pal, k)) == (if palette_shade(pal, k) == 0 {
            Pixel { r: 0xFF, g: 0xFF, b: 0xFF, a: 0xFF }
        } else if palette_shade(pal, k) == 1 {
            Pixel { r: 0xC0, g: 0xC0, b: 0xC0, a: 0xFF }
        } else if palette_shade(pal, k) == 2 {
            Pixel { r: 0x60, g: 0x60, b: 0x60, a: 0xFF }
        } else {
            Pixel { r: 0x00, g: 0x00, b: 0x00, a: 0xFF }
        }),
{
    crate::bitops::lemma_byte_fields(0, pal, 0, 0, 0, 0, 0, 0, 0);
}

/// The color number of a pixel of a tile row is made of its bit in the row's two bytes: the
/// first byte gives bit 0 of the number and the second byte bit 1.
pub proof fn law_color_id(low: u8, high: u8, bit: u8)
    requires
        bit < 8,
    ensures
        color_id(low, high, bit) == (low as nat / pow2(bit as nat)) % 2 + 2 * ((high as nat / pow2(bit as nat)) % 2),
{
    lemma_u8_shr_is_div(low, bit);
    lemma_u8_shr_is_div(high, bit);
    crate::bitops::lemma_byte_fields(0, 0, 0, 0, 0, low >> bit, high >> bit, 0, 0);
}

/// STAT and LY as the CPU sees them: a write to STAT replaces its five upper bits and keeps
/// the mode and the coincidence bit; LY cannot be written.  When LY takes a new value, the
/// coincidence bit (bit 2) of STAT tells whether it equals LYC, and the other bits stay.
pub proof fn law_stat_register(p: Ppu, value: u8, ly: u8)
    ensures
        p.poked(REG_STAT_ADDR, value).reg_stat % 8 == p.reg_stat % 8,
        p.poked(REG_STAT_ADDR, value).reg_stat / 8 == value / 8,
        p.poked(REG_STAT_ADDR, value).mode() == p.mode(),
        p.poked(REG_LY_ADDR, value) == p,
        (p.stat_for_ly(ly) / 4) % 2 == (if ly == p.reg_lyc { 1int } else { 0int }),
        p.stat_for_ly(ly) % 4 == p.reg_stat % 4,
        p.stat_for_ly(ly) / 8 == p.reg_stat / 8,
{
    crate::bitops::lemma_byte_fields(0, 0, 0, 0, 0, 0, 0, p.reg_stat, value);
    let s2 = (value & 0xF8) | (p.reg_stat & 0x07);
    crate::bitops::lemma_byte_fields(0, 0, 0, 0, 0, 0, 0, s2, 0);
}

/// The timing of lines: a line lasts 456 dots.  Before that a dot of HBlank or VBlank
/// changes nothing; at its end LY moves on and the dot count restarts.  After HBlank the
/// next line is scanned (mode 2) unless it is line 144, where VBlank (mode 1) begins;
/// VBlank runs through line 153, after which the frame restarts at line 0 with a scan.
pub proof fn law_line_timing(p: Ppu)
    requires
        p.reg_ly <= 153,
    ensures
        p.hdots < 456 ==> p.hblank_dot() == (p, 0u8) && p.vblank_dot() == (p, 0u8),
        p.hdots >= 456 && p.reg_ly < 144 ==> {
            let q = p.hblank_dot().0;
            &&& q.reg_ly == p.reg_ly + 1
            &&& q.hdots == 0
            &&& q.mode() == (if p.reg_ly == 143 { 1u8 } else { 2u8 })
        },
        p.hdots >= 456 && p.mode() == 1 ==> {
            let q = p.vblank_dot().0;
            &&& q.reg_ly == (if p.reg_ly == 153 { 0 } else { p.reg_ly + 1 })
            &&& q.hdots == 0
            &&& q.mode() == (if p.reg_ly == 153 { 2u8 } else { 1u8 })
        },
{
    if p.hdots >= 456 {
        let ly = (p.reg_ly + 1) as u8;
        let st = p.stat_for_ly(ly);
        crate::bitops::lemma_set_low_bits(st, 1);
        crate::bitops::lemma_set_low_bits(st, 2);
        crate::bitops::lemma_byte_fields(0, 0, 0, 0, 0, 0, 0, p.reg_stat, 0);
        crate::bitops::lemma_byte_fields(0, 0, 0, 0, 0, 0, 0, p.reg_stat | 4u8, 0);
        crate::bitops::lemma_byte_fields(0, 0, 0, 0, 0, 0, 0, p.reg_stat & !4u8, 0);
        let q = Ppu { reg_ly: ly, reg_stat: st, ..p };
        let st0 = q.stat_for_ly(0);
        crate::bitops::lemma_set_low_bits(st0, 2);
        assert(ly * HBLANK_LIMIT_PERIOD >= VBLANK_LIMIT_PERIOD <==> p.reg_ly == 153);
    }
}

/// The timing of the scan and the transfer: the OAM scan lasts 80 dots, after which the
/// transfer (mode 3) starts with an empty FIFO at the start of the line; once the 160
/// pixels of the line are drawn and 252 dots have passed, the FIFO is emptied and HBlank
/// (mode 0) begins.
pub proof fn law_scan_timing(p: Ppu, q: Ppu)
    ensures
        p.hdots != 1 && p.hdots < 80 && p.oam_dot(q) ==> q == p,
        p.hdots != 1 && p.hdots >= 80 && p.oam_dot(q) ==> {
            &&& q.mode() == 3
            &&& q.pipeline.bgw_fifo@.len() == 0
            &&& q.pipeline.render_x == 0
            &&& q.reg_ly == p.reg_ly
        },
        p.pipeline.render_x >= 160 && p.hdots >= 252 ==> {
            &&& p.xfer_dot().0.mode() == 0
            &&& p.xfer_dot().1.len() == 0
        },
        p.pipeline.render_x >= 160 && p.hdots < 252 ==> p.xfer_dot().0 == p,
{
    crate::bitops::lemma_set_low_bits(p.reg_stat, 3);
    crate::bitops::lemma_set_low_bits(p.reg_stat, 0);
}

/// How an object colors a pixel that it covers: its pixel is read from the row's bit for
/// the column, mirrored when bit 5 of its attributes is set; color number 0 is transparent
/// and lets the next object (or the background) show; an object with bit 7 set stays
/// behind a background of color number other than 0; otherwise the pixel takes its shade
/// from OBP1 when bit 4 is set and from OBP0 when it is clear.
pub proof fn law_object_pixel(p: Ppu, fx: u8, bg_id: u8, j: int)
    requires
        0 <= j < p.pipeline.obj_fetched_count,
    ensures
        ({
            let obj = p.pipeline.obj_list@[p.pipeline.obj_fetched_idx@[j] as int];
            let rel_x = wadd8(wsub8(obj.x, 8), p.reg_scy % 8);
            let offset = fx - rel_x;
            let covers = !(wadd8(rel_x, 8) < fx || offset < 0 || offset > 7);
            let mirrored = (obj.attrs / 32) % 2 == 1;
            let behind = obj.attrs >= 128;
            let pal = if (obj.attrs / 16) % 2 == 1 { p.reg_obp1 } else { p.reg_obp0 };
            let bit = (if mirrored { offset } else { 7 - offset }) as u8;
            let id = color_id(p.pipeline.obj_data@[2 * j], p.pipeline.obj_data@[2 * j + 1], bit);
            covers ==> p.sprite_pick(fx, bg_id, j) == (if id == 0 || (behind && bg_id != 0) {
                p.sprite_pick(fx, bg_id, j + 1)
            } else {
                Some(shade_color(palette_shade(pal, id)))
            })
        }),
{
    let obj = p.pipeline.obj_list@[p.pipeline.obj_fetched_idx@[j] as int];
    crate::bitops::lemma_byte_rotations(0, 0, 0, 0, 0, 0, 0, 0, 0, 0, 0, 0, obj.attrs);
}

/// With objects off (LCDC bit 1 clear), a pixel is the background's: the BGP shade of its
/// color number.
pub proof fn law_objects_off(p: Ppu, fx: u8, bit: u8)
    ensures
        (p.reg_lcdc / 2) % 2 == 0 ==> p.line_pixel(fx, bit) == shade_color(
            palette_shade(p.reg_bgp, p.bg_color_id(bit)),
        ),
{
    crate::bitops::lemma_byte_rotations(0, 0, 0, 0, 0, 0, 0, 0, 0, 0, 0, 0, p.reg_lcdc);
}

} // verus!
