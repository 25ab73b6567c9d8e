use vstd::prelude::*;

verus! {

/// A screen pixel.
#[derive(Clone, Copy, PartialEq, Eq, Structural, Debug)]
pub struct Pixel {
    pub r: u8,
    pub g: u8,
    pub b: u8,
    pub a: u8,
}

impl Pixel {
    /// The pixel packed as 0xAARRGGBB.
    pub open spec fn packed(self) -> int {
        self.a * 0x1000000 + self.r * 0x10000 + self.g * 0x100 + self.b
    }

    /// The pixel packed as 0xAARRGGBB.
    pub fn argb(&self) -> (v: u32)
        ensures
            v == self.packed(),
    {
        let a = self.a as u32;
        let r = self.r as u32;
        let g = self.g as u32;
        let b = self.b as u32;
        let v = (a << 24) | (r << 16) | (g << 8) | b;
        assert(v == a * 0x1000000 + r * 0x10000 + g * 0x100 + b) by (bit_vector)
            requires
                v == (a << 24u32) | (r << 16u32) | (g << 8u32) | b,
                a < 256,
                r < 256,
                g < 256,
                b < 256,
        ;
        v
    }
}

impl Default for Pixel {
    /// The all-zero pixel.
    fn default() -> (p: Self)
        ensures
            p == (Pixel { r: 0, g: 0, b: 0, a: 0 }),
    {
        Pixel { r: 0, g: 0, b: 0, a: 0 }
    }
}

/// An object of the OAM table, as seen by the line renderer.
#[derive(Clone, Copy, PartialEq, Eq, Structural, Debug)]
pub struct Sprite {
    pub x: u8,
    pub y: u8,
    pub tile_index: u8,
    pub attrs: u8,
}

/// Order of objects on a line: by X, then by the other fields.
pub open spec fn sprite_le(a: Sprite, b: Sprite) -> bool {
    if a.x != b.x {
        a.x < b.x
    } else if a.y != b.y {
        a.y < b.y
    } else if a.tile_index != b.tile_index {
        a.tile_index < b.tile_index
    } else {
        a.attrs <= b.attrs
    }
}

pub const FLAG_OBJ_BGWIN_PRIO: u8 = 0b1000_0000;
pub const FLAG_OBJ_Y_FLIP: u8 = 0b0100_0000;
pub const FLAG_OBJ_X_FLIP: u8 = 0b0010_0000;
pub const FLAG_OBJ_PALETTE: u8 = 0b0001_0000;

impl Sprite {
    pub fn new(x: u8, y: u8, tile_index: u8, attrs: u8) -> (s: Self)
        ensures
            s == (Sprite { x, y, tile_index, attrs }),
    {
        Sprite { x, y, tile_index, attrs }
    }

    /// Whether the background and window are drawn over this object.
    pub fn is_bgwin_prio(&self) -> (b: bool)
        ensures
            b == (self.attrs & FLAG_OBJ_BGWIN_PRIO != 0),
    {
        self.attrs & FLAG_OBJ_BGWIN_PRIO != 0
    }

    pub fn is_y_flipped(&self) -> (b: bool)
        ensures
            b == (self.attrs & FLAG_OBJ_Y_FLIP != 0),
    {
        self.attrs & FLAG_OBJ_Y_FLIP != 0
    }

    pub fn is_x_flipped(&self) -> (b: bool)
        ensures
            b == (self.attrs & FLAG_OBJ_X_FLIP != 0),
    {
        self.attrs & FLAG_OBJ_X_FLIP != 0
    }

    /// Which object palette (0 or 1) the object uses.
    pub fn palette_number(&self) -> (p: u8)
        ensures
            p == (if self.attrs & FLAG_OBJ_PALETTE != 0 { 1u8 } else { 0u8 }),
    {
        if self.attrs & FLAG_OBJ_PALETTE != 0 {
            1
        } else {
            0
        }
    }

    /// Whether `self` comes before or with `other` in the line order.
    pub fn le(&self, other: &Sprite) -> (b: bool)
        ensures
            b == sprite_le(*self, *other),
    {
        if self.x != other.x {
            self.x < other.x
        } else if self.y != other.y {
            self.y < other.y
        } else if self.tile_index != other.tile_index {
            self.tile_index < other.tile_index
        } else {
            self.attrs <= other.attrs
        }
    }
}

impl Default for Sprite {
    /// The all-zero object.
    fn default() -> (s: Self)
        ensures
            s == (Sprite { x: 0, y: 0, tile_index: 0, attrs: 0 }),
    {
        Sprite { x: 0, y: 0, tile_index: 0, attrs: 0 }
    }
}

} // verus!
