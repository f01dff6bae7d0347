//! The parts of the picture processing unit that the CPU sees: the status
//! port that `$2002` reads, and the sprite attribute record.
use vstd::prelude::*;

verus! {

/// The PPU as the CPU bus sees it: a status register read through `$2002`.
#[derive(Clone, Copy, Debug, PartialEq, Eq, Structural)]
pub struct Ppu {
    pub status: u8,
}

impl Ppu {
    /// A PPU whose status register reads 0.
    pub fn new() -> (r: Ppu)
        ensures
            r.status == 0,
    {
        Ppu { status: 0 }
    }

    /// The PPU status register.
    pub fn read_ppu_status(&self) -> (r: u8)
        ensures
            r == self.status,
    {
        self.status
    }
}

/// Bit `k` of `v`.
pub open spec fn bit(v: u8, k: u8) -> bool {
    (v >> k) & 1 == 1
}

/// One sprite of object attribute memory.
#[derive(Clone, Copy, Debug, PartialEq, Eq, Structural)]
pub struct Spr {
    /// Y coordinate of the top of the sprite, minus one.
    pub y: u8,
    /// Index of the sprite in the pattern table.
    pub index: u8,
    /// Attributes: colour bits 1-0, priority bit 5, flips bits 6 and 7.
    pub attr: u8,
    /// X coordinate of the left of the sprite.
    pub x: u8,
}

impl Spr {
    /// A sprite from its four bytes in attribute memory order.
    pub fn new(bytes: [u8; 4]) -> (r: Spr)
        ensures
            r.y == bytes[0],
            r.index == bytes[1],
            r.attr == bytes[2],
            r.x == bytes[3],
    {
        Spr { y: bytes[0], index: bytes[1], attr: bytes[2], x: bytes[3] }
    }

    /// The two colour bits, moved to bits 3-2 for a palette lookup.
    pub fn color(&self) -> (r: u8)
        ensures
            r == (self.attr % 4) * 4,
    {
        let a = self.attr;
        assert((a & 0x03) << 2 == (a % 4) * 4) by (bit_vector);
        (a & 0x03) << 2
    }

    /// Whether the sprite is drawn in front of the background.
    pub fn has_priority(&self) -> (r: bool)
        ensures
            r == bit(self.attr, 5),
    {
        let a = self.attr;
        assert((a & 0x20 != 0) == bit(a, 5)) by (bit_vector);
        self.attr & 0x20 != 0
    }

    /// Whether the sprite is flipped horizontally.
    pub fn h_flip(&self) -> (r: bool)
        ensures
            r == bit(self.attr, 6),
    {
        let a = self.attr;
        assert((a & 0x40 != 0) == bit(a, 6)) by (bit_vector);
        self.attr & 0x40 != 0
    }

    /// Whether the sprite is flipped vertically.
    pub fn v_flip(&self) -> (r: bool)
        ensures
            r == bit(self.attr, 7),
    {
        let a = self.attr;
        assert((a & 0x80 != 0) == bit(a, 7)) by (bit_vector);
        self.attr & 0x80 != 0
    }
}

} // verus!
