//! The scroll position of the picture processor: the four fields behind the
//! fifteen-bit video address, and the steps that rendering and the register
//! writes take on them.

use vstd::prelude::*;

verus! {

/// A position in the four nametables: a tile column and row, the nametable,
/// and the pixel row inside the tile.
#[derive(Clone, Copy, PartialEq, Eq, Structural, Debug)]
pub struct Loopy {
    pub coarse_x: u8,
    pub coarse_y: u8,
    pub nametable: u8,
    pub fine_y: u8,
}

impl Loopy {
    pub open spec fn wf(self) -> bool {
        self.coarse_x < 32 && self.coarse_y < 32 && self.nametable < 4 && self.fine_y < 8
    }

    pub open spec fn zero() -> Loopy {
        Loopy { coarse_x: 0, coarse_y: 0, nametable: 0, fine_y: 0 }
    }

    /// The fifteen-bit address `yyy NN YYYYY XXXXX`.
    pub open spec fn addr(self) -> int {
        self.fine_y * 0x1000 + self.nametable * 0x400 + self.coarse_y * 32 + self.coarse_x
    }

    /// The position that the low fifteen bits of `a` spell.
    pub open spec fn of_addr(a: int) -> Loopy {
        Loopy {
            coarse_x: (a % 32) as u8,
            coarse_y: ((a / 32) % 32) as u8,
            nametable: ((a / 0x400) % 4) as u8,
            fine_y: ((a / 0x1000) % 8) as u8,
        }
    }

    /// Computes `addr`.
    pub fn to_addr(self) -> (a: u16)
        requires
            self.wf(),
        ensures
            a == self.addr(),
            a < 0x8000,
    {
        (self.fine_y as u16) * 0x1000 + (self.nametable as u16) * 0x400 + (self.coarse_y as u16)
            * 32 + self.coarse_x as u16
    }

    /// Computes `of_addr`.
    pub fn from_addr(a: u16) -> (out: Loopy)
        ensures
            out == Loopy::of_addr(a as int),
            out.wf(),
    {
        Loopy {
            coarse_x: (a % 32) as u8,
            coarse_y: ((a / 32) % 32) as u8,
            nametable: ((a / 0x400) % 4) as u8,
            fine_y: ((a / 0x1000) % 8) as u8,
        }
    }

    /// Where the tile number of this position lies.
    pub open spec fn tile_addr(self) -> int {
        0x2000 + self.nametable * 0x400 + self.coarse_y * 32 + self.coarse_x
    }

    /// Where the attribute byte of this position lies: one byte for each
    /// block of four by four tiles, from `$23C0` on in each nametable.
    pub open spec fn attr_addr(self) -> int {
        0x23C0 + self.nametable * 0x400 + (self.coarse_y / 4) * 8 + self.coarse_x / 4
    }

    /// Which two bits of the attribute byte hold the palette of this
    /// position: the quadrant of two by two tiles inside the block.
    pub open spec fn quadrant(self) -> int {
        ((self.coarse_y % 4) / 2) * 2 + (self.coarse_x % 4) / 2
    }

    /// Computes `tile_addr`.
    pub fn tile_address(self) -> (a: u16)
        requires
            self.wf(),
        ensures
            a == self.tile_addr(),
            0x2000 <= a < 0x3000,
    {
        0x2000 + (self.nametable as u16) * 0x400 + (self.coarse_y as u16) * 32
            + self.coarse_x as u16
    }

    /// Computes `attr_addr`.
    pub fn attr_address(self) -> (a: u16)
        requires
            self.wf(),
        ensures
            a == self.attr_addr(),
            0x2000 <= a < 0x3000,
    {
        0x23C0 + (self.nametable as u16) * 0x400 + ((self.coarse_y / 4) as u16) * 8 + (
        self.coarse_x / 4) as u16
    }

    /// Computes `quadrant`.
    pub fn attr_quadrant(self) -> (q: u8)
        ensures
            q == self.quadrant(),
            q < 4,
    {
        ((self.coarse_y % 4) / 2) * 2 + (self.coarse_x % 4) / 2
    }

    /// One tile to the right; past the last column, into the nametable beside.
    pub open spec fn next_x(self) -> Loopy {
        if self.coarse_x == 31 {
            Loopy {
                coarse_x: 0,
                nametable: if self.nametable % 2 == 0 {
                    (self.nametable + 1) as u8
                } else {
                    (self.nametable - 1) as u8
                },
                ..self
            }
        } else {
            Loopy { coarse_x: (self.coarse_x + 1) as u8, ..self }
        }
    }

    /// One pixel row down; past row 29 of the tiles, into the nametable
    /// below. A tile row of 30 or 31, which only a register write can set,
    /// wraps to 0 in the same nametable.
    pub open spec fn next_y(self) -> Loopy {
        if self.fine_y < 7 {
            Loopy { fine_y: (self.fine_y + 1) as u8, ..self }
        } else if self.coarse_y == 29 {
            Loopy {
                fine_y: 0,
                coarse_y: 0,
                nametable: if self.nametable < 2 {
                    (self.nametable + 2) as u8
                } else {
                    (self.nametable - 2) as u8
                },
                ..self
            }
        } else if self.coarse_y == 31 {
            Loopy { fine_y: 0, coarse_y: 0, ..self }
        } else {
            Loopy { fine_y: 0, coarse_y: (self.coarse_y + 1) as u8, ..self }
        }
    }

    /// This position with the horizontal part of `t`: its tile column and
    /// the horizontal nametable bit.
    pub open spec fn with_x_of(self, t: Loopy) -> Loopy {
        Loopy {
            coarse_x: t.coarse_x,
            nametable: ((self.nametable / 2) * 2 + t.nametable % 2) as u8,
            ..self
        }
    }

    /// This position with the vertical part of `t`: its tile row, pixel row
    /// and the vertical nametable bit.
    pub open spec fn with_y_of(self, t: Loopy) -> Loopy {
        Loopy {
            coarse_y: t.coarse_y,
            fine_y: t.fine_y,
            nametable: ((t.nametable / 2) * 2 + self.nametable % 2) as u8,
            ..self
        }
    }

    /// The address moved on by `step`, wrapping at fifteen bits.
    pub open spec fn advanced(self, step: int) -> Loopy {
        Loopy::of_addr((self.addr() + step) % 0x8000)
    }

    /// Computes `next_x`.
    pub fn increment_x(self) -> (out: Loopy)
        requires
            self.wf(),
        ensures
            out == self.next_x(),
            out.wf(),
    {
        if self.coarse_x == 31 {
            Loopy {
                coarse_x: 0,
                nametable: if self.nametable % 2 == 0 {
                    self.nametable + 1
                } else {
                    self.nametable - 1
                },
                ..self
            }
        } else {
            Loopy { coarse_x: self.coarse_x + 1, ..self }
        }
    }

    /// Computes `next_y`.
    pub fn increment_y(self) -> (out: Loopy)
        requires
            self.wf(),
        ensures
            out == self.next_y(),
            out.wf(),
    {
        if self.fine_y < 7 {
            Loopy { fine_y: self.fine_y + 1, ..self }
        } else if self.coarse_y == 29 {
            Loopy {
                fine_y: 0,
                coarse_y: 0,
                nametable: if self.nametable < 2 {
                    self.nametable + 2
                } else {
                    self.nametable - 2
                },
                ..self
            }
        } else if self.coarse_y == 31 {
            Loopy { fine_y: 0, coarse_y: 0, ..self }
        } else {
            Loopy { fine_y: 0, coarse_y: self.coarse_y + 1, ..self }
        }
    }

    /// Computes `with_x_of`.
    pub fn copy_x(self, t: Loopy) -> (out: Loopy)
        requires
            self.wf(),
            t.wf(),
        ensures
            out == self.with_x_of(t),
            out.wf(),
    {
        Loopy {
            coarse_x: t.coarse_x,
            nametable: (self.nametable / 2) * 2 + t.nametable % 2,
            ..self
        }
    }

    /// Computes `with_y_of`.
    pub fn copy_y(self, t: Loopy) -> (out: Loopy)
        requires
            self.wf(),
            t.wf(),
        ensures
            out == self.with_y_of(t),
            out.wf(),
    {
        Loopy {
            coarse_y: t.coarse_y,
            fine_y: t.fine_y,
            nametable: (t.nametable / 2) * 2 + self.nametable % 2,
            ..self
        }
    }

    /// Computes `advanced`.
    pub fn advance(self, step: u16) -> (out: Loopy)
        requires
            self.wf(),
            step <= 32,
        ensures
            out == self.advanced(step as int),
            out.wf(),
    {
        Loopy::from_addr((self.to_addr() + step) % 0x8000)
    }

    /// After the first write to `$2005`: the tile column is the upper five
    /// bits of `val` (the lower three are the fine X scroll).
    pub open spec fn scroll_x(self, val: u8) -> Loopy {
        Loopy { coarse_x: val / 8, ..self }
    }

    /// After the second write to `$2005`: the tile row is the upper five
    /// bits of `val`, the pixel row the lower three.
    pub open spec fn scroll_y(self, val: u8) -> Loopy {
        Loopy { coarse_y: val / 8, fine_y: val % 8, ..self }
    }

    /// After the first write to `$2006`: address bits 8 to 13 are the lower
    /// six bits of `val`, and bit 14 is clear.
    pub open spec fn high_byte(self, val: u8) -> Loopy {
        Loopy {
            coarse_y: ((val % 4) * 8 + self.coarse_y % 8) as u8,
            nametable: (val / 4) % 4,
            fine_y: (val / 16) % 4,
            ..self
        }
    }

    /// After the second write to `$2006`: address bits 0 to 7 are `val`.
    pub open spec fn low_byte(self, val: u8) -> Loopy {
        Loopy {
            coarse_x: val % 32,
            coarse_y: ((self.coarse_y / 8) * 8 + val / 32) as u8,
            ..self
        }
    }

    /// After a write to `$2000`: the nametable is the lower two bits of `val`.
    pub open spec fn base_nametable(self, val: u8) -> Loopy {
        Loopy { nametable: val % 4, ..self }
    }

    /// Computes `scroll_x`.
    pub fn set_scroll_x(self, val: u8) -> (out: Loopy)
        requires
            self.wf(),
        ensures
            out == self.scroll_x(val),
            out.wf(),
    {
        Loopy { coarse_x: val / 8, ..self }
    }

    /// Computes `scroll_y`.
    pub fn set_scroll_y(self, val: u8) -> (out: Loopy)
        requires
            self.wf(),
        ensures
            out == self.scroll_y(val),
            out.wf(),
    {
        Loopy { coarse_y: val / 8, fine_y: val % 8, ..self }
    }

    /// Computes `high_byte`.
    pub fn set_high_byte(self, val: u8) -> (out: Loopy)
        requires
            self.wf(),
        ensures
            out == self.high_byte(val),
            out.wf(),
    {
        Loopy {
            coarse_y: (val % 4) * 8 + self.coarse_y % 8,
            nametable: (val / 4) % 4,
            fine_y: (val / 16) % 4,
            ..self
        }
    }

    /// Computes `low_byte`.
    pub fn set_low_byte(self, val: u8) -> (out: Loopy)
        requires
            self.wf(),
        ensures
            out == self.low_byte(val),
            out.wf(),
    {
        Loopy { coarse_x: val % 32, coarse_y: (self.coarse_y / 8) * 8 + val / 32, ..self }
    }

    /// Computes `base_nametable`.
    pub fn set_base_nametable(self, val: u8) -> (out: Loopy)
        requires
            self.wf(),
        ensures
            out == self.base_nametable(val),
            out.wf(),
    {
        Loopy { nametable: val % 4, ..self }
    }
}

/// The four fields can be read back from the address that they spell.
proof fn lemma_fields(cx: u16, cy: u16, nt: u16, fy: u16)
    by (bit_vector)
    requires
        cx < 32,
        cy < 32,
        nt < 4,
        fy < 8,
    ensures
        fy * 0x1000 + nt * 0x400 + cy * 32 + cx < 0x8000,
        (fy * 0x1000 + nt * 0x400 + cy * 32 + cx) % 32 == cx,
        ((fy * 0x1000 + nt * 0x400 + cy * 32 + cx) / 32) % 32 == cy,
        ((fy * 0x1000 + nt * 0x400 + cy * 32 + cx) / 0x400) % 4 == nt,
        ((fy * 0x1000 + nt * 0x400 + cy * 32 + cx) / 0x1000) % 8 == fy,
{
}

/// A position and its address determine each other.
pub proof fn lemma_addr_round_trip(p: Loopy)
    requires
        p.wf(),
    ensures
        0 <= p.addr() < 0x8000,
        Loopy::of_addr(p.addr()) == p,
{
    lemma_fields(p.coarse_x as u16, p.coarse_y as u16, p.nametable as u16, p.fine_y as u16);
}

/// The bytes of an address, spelled out of the fields that the two writes set.
proof fn lemma_address_bytes(h: u8, l: u8)
    by (bit_vector)
    ensures
        ((h / 16) % 4) * 0x1000 + ((h / 4) % 4) * 0x400 + ((h % 4) * 8 + l / 32) * 32 + l % 32 == (h
            % 64) * 256 + l,
{
}

/// The two writes to `$2006` spell the address: its high byte without the
/// top two bits, then its low byte.
pub proof fn lemma_address_writes(t: Loopy, high: u8, low: u8)
    requires
        t.wf(),
    ensures
        t.high_byte(high).low_byte(low).addr() == (high % 64) * 256 + low,
{
    let first = t.high_byte(high);
    assert((first.coarse_y / 8) * 8 == (high % 4) * 8);
    lemma_address_bytes(high, low);
}

} // verus!
