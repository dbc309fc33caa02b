//! Sprites: which of the 64 lie on a line, the rows of their patterns, and
//! the pixel that they put at a column.

use crate::board::{Cart, CartView};
use crate::ppu::{Ppu, PpuRegs, PpuView, OAM_LEN, PRE_RENDER_LINE, SECONDARY_LEN};
use vstd::prelude::*;

verus! {

/// The weight of the bit of a pattern byte that holds the pixel `n` columns
/// right of the sprite's left edge.
pub const COLUMN: [u8; 8] = [128, 64, 32, 16, 8, 4, 2, 1];

/// What the sprites put at one pixel.
#[derive(Clone, Copy, Debug)]
pub struct SpritePixel {
    /// 0 to 3, where 0 is transparent.
    pub pixel: u8,
    /// The attribute byte of the sprite.
    pub attr: u8,
    /// The slot of the sprite among those of the line, or 8 for none.
    pub slot: u8,
}

impl SpritePixel {
    pub open spec fn none() -> SpritePixel {
        SpritePixel { pixel: 0, attr: 0, slot: 8 }
    }

    /// Whether the sprite lies behind the background (attribute bit 5).
    pub open spec fn behind(self) -> bool {
        (self.attr / 32) % 2 == 1
    }

    /// What the sprites put where there is none.
    pub fn transparent() -> (p: SpritePixel)
        ensures
            p == SpritePixel::none(),
    {
        SpritePixel { pixel: 0, attr: 0, slot: 8 }
    }

    /// Computes `behind`.
    pub fn is_behind(&self) -> (b: bool)
        ensures
            b == self.behind(),
    {
        (self.attr / 32) % 2 == 1
    }
}

/// The pixel that the bit planes `lo` and `hi` hold `off` columns from the left.
pub open spec fn plane_pixel(lo: u8, hi: u8, off: int) -> int {
    (lo / COLUMN[off]) % 2 + 2 * ((hi / COLUMN[off]) % 2)
}

/// The first opaque pixel at column `x` among the sprites of the line from
/// slot `i` on, where `sprites` holds four bytes for each slot: the bit
/// planes, the attributes and the left edge.
pub open spec fn sprite_pixel(sprites: Seq<u8>, count: int, x: int, i: int) -> SpritePixel
    decreases 8 - i,
{
    if i >= count || i >= 8 || i < 0 {
        SpritePixel::none()
    } else {
        let off = x - sprites[4 * i + 3];
        if 0 <= off < 8 && plane_pixel(sprites[4 * i], sprites[4 * i + 1], off) != 0 {
            SpritePixel {
                pixel: plane_pixel(sprites[4 * i], sprites[4 * i + 1], off) as u8,
                attr: sprites[4 * i + 2],
                slot: i as u8,
            }
        } else {
            sprite_pixel(sprites, count, x, i + 1)
        }
    }
}

/// Computes `sprite_pixel`.
pub fn find_sprite_pixel(sprites: &Vec<u8>, count: u8, x: u16) -> (p: SpritePixel)
    requires
        sprites.len() == SECONDARY_LEN,
        count <= 8,
        x < 256,
    ensures
        p == sprite_pixel(sprites@, count as int, x as int, 0),
        p.pixel < 4,
{
    let mut i: usize = 0;
    while i < count as usize
        invariant
            i <= count <= 8,
            sprites.len() == SECONDARY_LEN,
            x < 256,
            sprite_pixel(sprites@, count as int, x as int, i as int) == sprite_pixel(
                sprites@,
                count as int,
                x as int,
                0,
            ),
        decreases count - i,
    {
        let left = sprites[4 * i + 3] as u16;
        if left <= x && x - left < 8 {
            let weight = COLUMN[(x - left) as usize];
            let pixel = (sprites[4 * i] / weight) % 2 + 2 * ((sprites[4 * i + 1] / weight) % 2);
            if pixel != 0 {
                return SpritePixel { pixel, attr: sprites[4 * i + 2], slot: i as u8 };
            }
        }
        i = i + 1;
    }
    SpritePixel { pixel: 0, attr: 0, slot: 8 }
}

/// Whether a sprite whose top edge is stored as `y` lies on the line after
/// `line`, for sprites `height` pixels high.
pub open spec fn covers(y: u8, line: int, height: int) -> bool {
    y <= line < y + height
}

/// What the scan of object memory has found.
pub struct Scan {
    /// The sprites found, four bytes each; `0xFF` where none was put.
    pub secondary: Seq<u8>,
    /// How many were found, at most 8.
    pub count: int,
    /// Whether sprite 0 is among them.
    pub zero: bool,
}

/// `secondary` with the four bytes of sprite `n` in slot `slot`.
pub open spec fn with_sprite(secondary: Seq<u8>, slot: int, oam: Seq<u8>, n: int) -> Seq<u8> {
    secondary.update(4 * slot, oam[4 * n]).update(4 * slot + 1, oam[4 * n + 1]).update(
        4 * slot + 2,
        oam[4 * n + 2],
    ).update(4 * slot + 3, oam[4 * n + 3])
}

/// The scan from sprite `n` on: each sprite on the line takes the next free
/// slot, until the eight slots are full or object memory ends.
pub open spec fn scan_from(oam: Seq<u8>, line: int, height: int, n: int, acc: Scan) -> Scan
    decreases 64 - n,
{
    if n >= 64 || n < 0 || acc.count >= 8 {
        acc
    } else if covers(oam[4 * n], line, height) {
        scan_from(
            oam,
            line,
            height,
            n + 1,
            Scan {
                secondary: with_sprite(acc.secondary, acc.count, oam, n),
                count: acc.count + 1,
                zero: acc.zero || n == 0,
            },
        )
    } else {
        scan_from(oam, line, height, n + 1, acc)
    }
}

/// The sprite at which the scan from sprite `n` on stops, with `count`
/// slots full: the one after the eighth found, or 64.
pub open spec fn scan_stop(oam: Seq<u8>, line: int, height: int, n: int, count: int) -> int
    decreases 64 - n,
{
    if n >= 64 || n < 0 || count >= 8 {
        n
    } else if covers(oam[4 * n], line, height) {
        scan_stop(oam, line, height, n + 1, count + 1)
    } else {
        scan_stop(oam, line, height, n + 1, count)
    }
}

/// Whether the scan for a ninth sprite, from sprite `n` on, sets the
/// overflow flag. The hardware steps through the bytes of a sprite as it
/// steps through the sprites, so from the second sprite on it takes the tile
/// number, the attributes or the left edge for the top edge.
pub open spec fn overflow_from(oam: Seq<u8>, line: int, height: int, n: int, m: int) -> bool
    decreases 64 - n,
{
    if n >= 64 || n < 0 {
        false
    } else if covers(oam[4 * n + m], line, height) {
        true
    } else {
        overflow_from(oam, line, height, n + 1, (m + 1) % 4)
    }
}

/// Empty secondary object memory.
pub open spec fn cleared() -> Seq<u8> {
    Seq::new(SECONDARY_LEN as nat, |i: int| 0xFFu8)
}

/// The whole scan for the line after `line`.
pub open spec fn scan(oam: Seq<u8>, line: int, height: int) -> Scan {
    scan_from(oam, line, height, 0, Scan { secondary: cleared(), count: 0, zero: false })
}

/// `b` with its bits in reverse order.
pub open spec fn mirrored(b: u8) -> u8 {
    ((b % 2) * 128 + ((b / 2) % 2) * 64 + ((b / 4) % 2) * 32 + ((b / 8) % 2) * 16 + ((b / 16) % 2)
        * 8 + ((b / 32) % 2) * 4 + ((b / 64) % 2) * 2 + b / 128) as u8
}

/// Computes `mirrored`.
pub fn mirror(b: u8) -> (out: u8)
    ensures
        out == mirrored(b),
{
    (b % 2) * 128 + ((b / 2) % 2) * 64 + ((b / 4) % 2) * 32 + ((b / 8) % 2) * 16 + ((b / 16) % 2)
        * 8 + ((b / 32) % 2) * 4 + ((b / 64) % 2) * 2 + b / 128
}

/// Where the lower bit plane of the row of a sprite lies that the line after
/// `line` shows. The bytes `y`, `tile` and `attr` are the sprite's first
/// three; attribute bit 7 turns it upside down. A sprite of 16 rows takes
/// its pattern table from bit 0 of the tile number.
pub open spec fn row_addr(table: int, height: int, y: u8, tile: u8, attr: u8, line: int) -> int {
    let down = if covers(y, line, height) {
        line - y
    } else {
        0
    };
    let row = if attr >= 128 {
        height - 1 - down
    } else {
        down
    };
    if height == 8 {
        table * 0x1000 + tile * 16 + row
    } else {
        (tile % 2) * 0x1000 + ((tile / 2) * 2 + row / 8) * 16 + row % 8
    }
}

/// Where the fetch for an empty slot reads: tile `$FF`.
pub open spec fn idle_addr(table: int, height: int) -> int {
    (if height == 8 {
        table
    } else {
        1
    }) * 0x1000 + 0xFF0
}

/// Computes `row_addr`.
pub fn row_address(table: u16, height: u16, y: u8, tile: u8, attr: u8, line: u16) -> (a: u16)
    requires
        table <= 1,
        height == 8 || height == 16,
        line < 240,
    ensures
        a == row_addr(table as int, height as int, y, tile, attr, line as int),
        a + 8 < 0x2000,
{
    let down: u16 = if y as u16 <= line && line < y as u16 + height {
        line - y as u16
    } else {
        0
    };
    let row: u16 = if attr >= 128 {
        height - 1 - down
    } else {
        down
    };
    if height == 8 {
        table * 0x1000 + (tile as u16) * 16 + row
    } else {
        ((tile % 2) as u16) * 0x1000 + (((tile / 2) as u16) * 2 + row / 8) * 16 + row % 8
    }
}

/// The rows of the sprites of the line, from slot `i` on: for each sprite
/// found, its two bit planes (turned left to right where attribute bit 6 is
/// set), its attributes and its left edge; for each empty slot, zeros. The
/// board sees the address of every fetch, those for the empty slots included.
pub open spec fn rows_from(
    r: PpuRegs,
    secondary: Seq<u8>,
    count: int,
    line: int,
    i: int,
    sprites: Seq<u8>,
    cart: CartView,
) -> (Seq<u8>, CartView)
    decreases 8 - i,
{
    if i >= 8 || i < 0 {
        (sprites, cart)
    } else if i < count {
        let attr = secondary[4 * i + 2];
        let addr = row_addr(
            r.sprite_table(),
            r.sprite_height(),
            secondary[4 * i],
            secondary[4 * i + 1],
            attr,
            line,
        );
        let seen = cart.notified(addr as u16).notified((addr + 8) as u16);
        let lo = cart.ppu_read(addr as u16);
        let hi = cart.ppu_read((addr + 8) as u16);
        let turned = (attr / 64) % 2 == 1;
        rows_from(
            r,
            secondary,
            count,
            line,
            i + 1,
            sprites.update(
                4 * i,
                if turned {
                    mirrored(lo)
                } else {
                    lo
                },
            ).update(
                4 * i + 1,
                if turned {
                    mirrored(hi)
                } else {
                    hi
                },
            ).update(4 * i + 2, attr).update(4 * i + 3, secondary[4 * i + 3]),
            seen,
        )
    } else {
        let addr = idle_addr(r.sprite_table(), r.sprite_height());
        rows_from(
            r,
            secondary,
            count,
            line,
            i + 1,
            sprites.update(4 * i, 0).update(4 * i + 1, 0).update(4 * i + 2, 0).update(4 * i + 3, 0),
            cart.notified(addr as u16).notified((addr + 8) as u16),
        )
    }
}

impl PpuView {
    /// The picture processor after it has prepared the sprites of the next
    /// line, which it does on dot 257 with rendering on: on a line that is
    /// drawn, the outcome of the scan of object memory, the overflow flag,
    /// and the rows of the sprites found; on the pre-render line, no sprite.
    pub open spec fn sprites_prepared(self, cart: CartView) -> (PpuView, CartView) {
        let r = self.regs;
        let line = r.scanline as int;
        let found = if r.scanline < 240 {
            scan(self.oam, line, r.sprite_height())
        } else {
            Scan { secondary: cleared(), count: 0, zero: false }
        };
        let overflow = r.scanline < 240 && found.count == 8 && overflow_from(
            self.oam,
            line,
            r.sprite_height(),
            scan_stop(self.oam, line, r.sprite_height(), 0, 0),
            0,
        );
        let rows = rows_from(r, found.secondary, found.count, line, 0, self.sprites, cart);
        (
            PpuView {
                regs: PpuRegs {
                    sprite_count: found.count as u8,
                    zero_on_line: found.zero,
                    sprite_overflow: r.sprite_overflow || overflow,
                    ..r
                },
                secondary: found.secondary,
                sprites: rows.0,
                ..self
            },
            rows.1,
        )
    }
}

/// Fills `secondary` with `0xFF`.
pub fn clear_secondary(secondary: &mut Vec<u8>)
    requires
        old(secondary).len() == SECONDARY_LEN,
    ensures
        final(secondary)@ == cleared(),
{
    let mut i: usize = 0;
    while i < SECONDARY_LEN
        invariant
            i <= SECONDARY_LEN,
            secondary.len() == SECONDARY_LEN,
            forall|j: int| 0 <= j < i ==> secondary@[j] == 0xFFu8,
        decreases SECONDARY_LEN - i,
    {
        secondary[i] = 0xFF;
        i = i + 1;
    }
    assert(secondary@ =~= cleared());
}

/// What [`evaluate`] reports besides the sprites that it puts in secondary
/// object memory.
pub struct Found {
    pub count: u8,
    pub zero: bool,
    pub overflow: bool,
}

/// Scans object memory for the sprites of the line after `line`.
pub fn evaluate(oam: &Vec<u8>, secondary: &mut Vec<u8>, line: u16, height: u16) -> (found: Found)
    requires
        oam.len() == OAM_LEN,
        old(secondary).len() == SECONDARY_LEN,
        line < 240,
        height == 8 || height == 16,
    ensures
        final(secondary)@ == scan(oam@, line as int, height as int).secondary,
        found.count == scan(oam@, line as int, height as int).count,
        found.count <= 8,
        found.zero == scan(oam@, line as int, height as int).zero,
        found.overflow == (found.count == 8 && overflow_from(
            oam@,
            line as int,
            height as int,
            scan_stop(oam@, line as int, height as int, 0, 0),
            0,
        )),
        final(secondary).len() == SECONDARY_LEN,
{
    clear_secondary(secondary);
    let mut n: usize = 0;
    let mut count: usize = 0;
    let mut zero = false;
    while n < 64 && count < 8
        invariant
            n <= 64,
            count <= 8,
            oam.len() == OAM_LEN,
            secondary.len() == SECONDARY_LEN,
            line < 240,
            height == 8 || height == 16,
            scan_from(
                oam@,
                line as int,
                height as int,
                n as int,
                Scan { secondary: secondary@, count: count as int, zero },
            ) == scan(oam@, line as int, height as int),
            scan_stop(oam@, line as int, height as int, n as int, count as int) == scan_stop(
                oam@,
                line as int,
                height as int,
                0,
                0,
            ),
        decreases 64 - n,
    {
        let y = oam[4 * n] as u16;
        if y <= line && line < y + height {
            secondary[4 * count] = oam[4 * n];
            secondary[4 * count + 1] = oam[4 * n + 1];
            secondary[4 * count + 2] = oam[4 * n + 2];
            secondary[4 * count + 3] = oam[4 * n + 3];
            if n == 0 {
                zero = true;
            }
            count = count + 1;
        }
        n = n + 1;
    }
    let mut m: usize = 0;
    let mut overflow = false;
    let ghost start = n;
    while n < 64 && !overflow
        invariant
            n <= 64,
            m < 4,
            oam.len() == OAM_LEN,
            line < 240,
            height == 8 || height == 16,
            overflow || overflow_from(oam@, line as int, height as int, n as int, m as int)
                == overflow_from(oam@, line as int, height as int, start as int, 0),
            overflow ==> overflow_from(oam@, line as int, height as int, start as int, 0),
        decreases 64 - n + if overflow { 0int } else { 1int },
    {
        let y = oam[4 * n + m] as u16;
        if y <= line && line < y + height {
            overflow = true;
        } else {
            n = n + 1;
            m = (m + 1) % 4;
        }
    }
    Found { count: count as u8, zero, overflow: count == 8 && overflow }
}

impl Ppu {
    /// Fetches the rows of the sprites of the next line.
    pub fn fetch_rows(&mut self, cart: &mut Cart, count: u8, line: u16)
        requires
            old(self)@.wf(),
            old(cart)@.wf(),
            count <= 8,
            line < 240,
        ensures
            final(self)@ == (PpuView {
                sprites: rows_from(
                    old(self)@.regs,
                    old(self)@.secondary,
                    count as int,
                    line as int,
                    0,
                    old(self)@.sprites,
                    old(cart)@,
                ).0,
                ..old(self)@
            }),
            final(cart)@ == rows_from(
                old(self)@.regs,
                old(self)@.secondary,
                count as int,
                line as int,
                0,
                old(self)@.sprites,
                old(cart)@,
            ).1,
            final(self)@.wf(),
            final(cart)@.wf(),
    {
        let table = self.regs.sprite_pattern_table();
        let height = self.regs.sprite_size();
        let mut i: usize = 0;
        while i < 8
            invariant
                i <= 8,
                count <= 8,
                line < 240,
                table == self.regs.sprite_table(),
                height == self.regs.sprite_height(),
                table <= 1,
                height == 8 || height == 16,
                self@.wf(),
                cart@.wf(),
                self@ == (PpuView { sprites: self@.sprites, ..old(self)@ }),
                rows_from(
                    self@.regs,
                    self@.secondary,
                    count as int,
                    line as int,
                    i as int,
                    self@.sprites,
                    cart@,
                ) == rows_from(
                    old(self)@.regs,
                    old(self)@.secondary,
                    count as int,
                    line as int,
                    0,
                    old(self)@.sprites,
                    old(cart)@,
                ),
            decreases 8 - i,
        {
            if i < count as usize {
                let attr = self.secondary[4 * i + 2];
                let addr = row_address(
                    table,
                    height,
                    self.secondary[4 * i],
                    self.secondary[4 * i + 1],
                    attr,
                    line,
                );
                let lo = cart.ppu_read(addr);
                let hi = cart.ppu_read(addr + 8);
                cart.ppu_address_notify(addr);
                cart.ppu_address_notify(addr + 8);
                let turned = (attr / 64) % 2 == 1;
                self.sprites[4 * i] = if turned {
                    mirror(lo)
                } else {
                    lo
                };
                self.sprites[4 * i + 1] = if turned {
                    mirror(hi)
                } else {
                    hi
                };
                self.sprites[4 * i + 2] = attr;
                self.sprites[4 * i + 3] = self.secondary[4 * i + 3];
            } else {
                let addr: u16 = if height == 8 {
                    table * 0x1000 + 0xFF0
                } else {
                    0x1FF0
                };
                cart.ppu_address_notify(addr);
                cart.ppu_address_notify(addr + 8);
                self.sprites[4 * i] = 0;
                self.sprites[4 * i + 1] = 0;
                self.sprites[4 * i + 2] = 0;
                self.sprites[4 * i + 3] = 0;
            }
            i = i + 1;
        }
    }

    /// Prepares the sprites of the next line.
    pub fn prepare_sprites(&mut self, cart: &mut Cart)
        requires
            old(self)@.wf(),
            old(cart)@.wf(),
            old(self)@.regs.on_render_line(),
        ensures
            final(self)@ == old(self)@.sprites_prepared(old(cart)@).0,
            final(cart)@ == old(self)@.sprites_prepared(old(cart)@).1,
            final(self)@.wf(),
            final(cart)@.wf(),
    {
        let line = self.regs.scanline;
        if line < 240 {
            let found = evaluate(&self.oam, &mut self.secondary, line, self.regs.sprite_size());
            self.fetch_rows(cart, found.count, line);
            self.regs.sprite_count = found.count;
            self.regs.zero_on_line = found.zero;
            self.regs.sprite_overflow = self.regs.sprite_overflow || found.overflow;
        } else {
            clear_secondary(&mut self.secondary);
            self.fetch_rows(cart, 0, 0);
            proof {
                lemma_idle_rows(
                    old(self)@.regs,
                    cleared(),
                    line as int,
                    0,
                    0,
                    old(self)@.sprites,
                    old(cart)@,
                );
            }
            self.regs.sprite_count = 0;
            self.regs.zero_on_line = false;
        }
    }
}

/// With no sprite found, the rows do not depend on the line.
pub proof fn lemma_idle_rows(
    r: PpuRegs,
    secondary: Seq<u8>,
    line: int,
    other: int,
    i: int,
    sprites: Seq<u8>,
    cart: CartView,
)
    ensures
        rows_from(r, secondary, 0, line, i, sprites, cart) == rows_from(
            r,
            secondary,
            0,
            other,
            i,
            sprites,
            cart,
        ),
    decreases 8 - i,
{
    if 0 <= i < 8 {
        let addr = idle_addr(r.sprite_table(), r.sprite_height());
        lemma_idle_rows(
            r,
            secondary,
            line,
            other,
            i + 1,
            sprites.update(4 * i, 0).update(4 * i + 1, 0).update(4 * i + 2, 0).update(4 * i + 3, 0),
            cart.notified(addr as u16).notified((addr + 8) as u16),
        );
    }
}

} // verus!
