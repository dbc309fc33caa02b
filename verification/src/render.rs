//! What the picture processor does on each dot: the scanline counters, the
//! flags, the background pipeline and the pixel that leaves it.

use crate::board::{Cart, CartView};
use crate::ppu::{
    palette_index, palette_slot, Ppu, PpuRegs, PpuView, LAST_DOT, PRE_RENDER_LINE, SCREEN_WIDTH,
};
use crate::sprites::{sprite_pixel, SpritePixel};
use vstd::prelude::*;

verus! {

/// The weight of the bit that the fine X scroll selects in a shift register
/// of sixteen bits: the top bit for 0, the eighth from the top for 7.
pub const TAP: [u16; 8] = [0x8000, 0x4000, 0x2000, 0x1000, 0x800, 0x400, 0x200, 0x100];

/// The weight of the lowest bit of each quadrant in an attribute byte.
pub const QUADRANT: [u8; 4] = [1, 4, 16, 64];

/// The colours of the 2C02, as `0x00RRGGBB`.
pub const COLOURS: [u32; 64] = [
    0x666666, 0x002A88, 0x1412A7, 0x3B00A4, 0x5C007E, 0x6E0040, 0x6C0600, 0x561D00,
    0x333500, 0x0B4800, 0x005200, 0x004F08, 0x00404D, 0x000000, 0x000000, 0x000000,
    0xADADAD, 0x155FD9, 0x4240FF, 0x7527FE, 0xA01ACC, 0xB71E7B, 0xB53120, 0x994E00,
    0x6B6D00, 0x388700, 0x0C9300, 0x008F32, 0x007C8D, 0x000000, 0x000000, 0x000000,
    0xFFFEFF, 0x64B0FF, 0x9290FF, 0xC676FF, 0xF36AFF, 0xFE6ECC, 0xFE8170, 0xEA9E22,
    0xBCBE00, 0x88D800, 0x5CE430, 0x45E082, 0x48CDDE, 0x4F4F4F, 0x000000, 0x000000,
    0xFFFEFF, 0xC0DFFF, 0xD3D2FF, 0xE8C8FF, 0xFBC2FF, 0xFEC4EA, 0xFECCC5, 0xF7D8A5,
    0xE4E594, 0xCFEF96, 0xBDF4AB, 0xB3F3CC, 0xB5EBF2, 0xB8B8B8, 0x000000, 0x000000,
];

impl PpuRegs {
    /// Whether the dot about to be left is the one before the dot that an
    /// odd frame drops: dot 338 of the pre-render line, with rendering on.
    pub open spec fn skips_dot(self) -> bool {
        self.scanline == PRE_RENDER_LINE && self.dot == 338 && self.odd_frame && self.rendering()
    }

    /// The counters one dot later. A frame has 262 lines of 341 dots; an odd
    /// frame with rendering on has one dot less.
    pub open spec fn moved_on(self) -> PpuRegs {
        let counted = PpuRegs { dots: self.dots.wrapping_add(1), ..self };
        if self.skips_dot() {
            PpuRegs { dot: LAST_DOT, extra_cycle: true, ..counted }
        } else if self.dot < LAST_DOT {
            PpuRegs { dot: (self.dot + 1) as u16, ..counted }
        } else if self.scanline < PRE_RENDER_LINE {
            PpuRegs { dot: 0, scanline: (self.scanline + 1) as u16, ..counted }
        } else {
            PpuRegs { dot: 0, scanline: 0, odd_frame: !self.odd_frame, ..counted }
        }
    }

    /// Computes `moved_on`.
    pub fn move_on(self) -> (out: PpuRegs)
        requires
            self.wf(),
        ensures
            out == self.moved_on(),
            out.wf(),
    {
        let counted = PpuRegs { dots: self.dots.wrapping_add(1), ..self };
        if self.scanline == PRE_RENDER_LINE && self.dot == 338 && self.odd_frame
            && self.is_rendering() {
            PpuRegs { dot: LAST_DOT, extra_cycle: true, ..counted }
        } else if self.dot < LAST_DOT {
            PpuRegs { dot: self.dot + 1, ..counted }
        } else if self.scanline < PRE_RENDER_LINE {
            PpuRegs { dot: 0, scanline: self.scanline + 1, ..counted }
        } else {
            PpuRegs { dot: 0, scanline: 0, odd_frame: !self.odd_frame, ..counted }
        }
    }

    /// The flags after the dot arrived at: dot 1 of line 241 sets vertical
    /// blank and, where enabled, raises the interrupt; dot 1 of the
    /// pre-render line clears vertical blank, sprite 0 hit and sprite overflow.
    pub open spec fn flagged(self) -> PpuRegs {
        if self.dot == 1 && self.scanline == 241 {
            PpuRegs { vblank: true, nmi_edge: self.nmi_edge || self.nmi_enabled(), ..self }
        } else if self.dot == 1 && self.scanline == PRE_RENDER_LINE {
            PpuRegs { vblank: false, sprite_zero_hit: false, sprite_overflow: false, ..self }
        } else {
            self
        }
    }

    /// Computes `flagged`.
    pub fn flag(self) -> (out: PpuRegs)
        requires
            self.wf(),
        ensures
            out == self.flagged(),
            out.wf(),
    {
        if self.dot == 1 && self.scanline == 241 {
            PpuRegs { vblank: true, nmi_edge: self.nmi_edge || self.ctrl >= 128, ..self }
        } else if self.dot == 1 && self.scanline == PRE_RENDER_LINE {
            PpuRegs { vblank: false, sprite_zero_hit: false, sprite_overflow: false, ..self }
        } else {
            self
        }
    }

    /// Whether the line is drawn or prepares one: lines 0 to 239 and the
    /// pre-render line.
    pub open spec fn on_render_line(self) -> bool {
        self.scanline < 240 || self.scanline == PRE_RENDER_LINE
    }

    /// Whether the dot lies in one of the two windows in which tiles are
    /// fetched and the shift registers move: dots 2 to 257 and 321 to 337.
    pub open spec fn in_fetch_window(self) -> bool {
        (2 <= self.dot < 258) || (321 <= self.dot < 338)
    }

    /// The shift registers moved on by one pixel, where the background is shown.
    pub open spec fn shifted(self) -> PpuRegs {
        if self.show_background() {
            PpuRegs {
                shift_lo: ((self.shift_lo % 0x8000) * 2) as u16,
                shift_hi: ((self.shift_hi % 0x8000) * 2) as u16,
                attr_lo: ((self.attr_lo % 0x8000) * 2) as u16,
                attr_hi: ((self.attr_hi % 0x8000) * 2) as u16,
                ..self
            }
        } else {
            self
        }
    }

    /// The shift registers with the fetched tile in their lower halves: its
    /// two bit planes, and each palette bit spread over eight pixels.
    pub open spec fn loaded(self) -> PpuRegs {
        PpuRegs {
            shift_lo: ((self.shift_lo / 256) * 256 + self.pattern_lo) as u16,
            shift_hi: ((self.shift_hi / 256) * 256 + self.pattern_hi) as u16,
            attr_lo: ((self.attr_lo / 256) * 256 + if self.at_bits % 2 == 1 {
                255int
            } else {
                0int
            }) as u16,
            attr_hi: ((self.attr_hi / 256) * 256 + if self.at_bits / 2 == 1 {
                255int
            } else {
                0int
            }) as u16,
            ..self
        }
    }

    /// Computes `shifted`.
    pub fn shift(self) -> (out: PpuRegs)
        requires
            self.wf(),
        ensures
            out == self.shifted(),
            out.wf(),
    {
        if self.shows_background() {
            PpuRegs {
                shift_lo: (self.shift_lo % 0x8000) * 2,
                shift_hi: (self.shift_hi % 0x8000) * 2,
                attr_lo: (self.attr_lo % 0x8000) * 2,
                attr_hi: (self.attr_hi % 0x8000) * 2,
                ..self
            }
        } else {
            self
        }
    }

    /// Computes `loaded`.
    pub fn load(self) -> (out: PpuRegs)
        requires
            self.wf(),
        ensures
            out == self.loaded(),
            out.wf(),
    {
        let lo: u16 = if self.at_bits % 2 == 1 {
            255
        } else {
            0
        };
        let hi: u16 = if self.at_bits / 2 == 1 {
            255
        } else {
            0
        };
        PpuRegs {
            shift_lo: (self.shift_lo / 256) * 256 + self.pattern_lo as u16,
            shift_hi: (self.shift_hi / 256) * 256 + self.pattern_hi as u16,
            attr_lo: (self.attr_lo / 256) * 256 + lo,
            attr_hi: (self.attr_hi / 256) * 256 + hi,
            ..self
        }
    }

    /// The address that the background pipeline reads on this dot, if it
    /// reads: the tile number on the first dot of each group of eight, the
    /// attribute byte on the third, the two bit planes on the fifth and
    /// seventh; and the tile number again on dots 338 and 340.
    pub open spec fn fetch_addr(self) -> Option<u16> {
        let phase = (self.dot - 1) % 8;
        let pattern = self.background_table() * 0x1000 + self.nt_byte * 16 + self.v.fine_y;
        if self.in_fetch_window() {
            if phase == 0 {
                Some(self.v.tile_addr() as u16)
            } else if phase == 2 {
                Some(self.v.attr_addr() as u16)
            } else if phase == 4 {
                Some(pattern as u16)
            } else if phase == 6 {
                Some((pattern + 8) as u16)
            } else {
                None
            }
        } else if self.dot == 338 || self.dot == 340 {
            Some(self.v.tile_addr() as u16)
        } else {
            None
        }
    }

    /// The latches after the byte `byte` arrives from the read of this dot.
    pub open spec fn latched(self, byte: u8) -> PpuRegs {
        let phase = (self.dot - 1) % 8;
        if !self.in_fetch_window() || phase == 0 {
            PpuRegs { nt_byte: byte, ..self }
        } else if phase == 2 {
            PpuRegs { at_bits: (byte / QUADRANT[self.v.quadrant()]) % 4, ..self }
        } else if phase == 4 {
            PpuRegs { pattern_lo: byte, ..self }
        } else {
            PpuRegs { pattern_hi: byte, ..self }
        }
    }

    /// The scroll position after the dot: one tile to the right on the last
    /// dot of each group of eight in the fetch windows, one row down on dot
    /// 256, back to the left edge on dot 257, and on dots 280 to 304 of the
    /// pre-render line back to the top.
    pub open spec fn scrolled(self) -> PpuRegs {
        let across = if self.in_fetch_window() && (self.dot - 1) % 8 == 7 {
            PpuRegs { v: self.v.next_x(), ..self }
        } else {
            self
        };
        let down = if self.dot == 256 {
            PpuRegs { v: across.v.next_y(), ..across }
        } else {
            across
        };
        let left = if self.dot == 257 {
            PpuRegs { v: down.v.with_x_of(self.t), ..down }
        } else {
            down
        };
        if self.scanline == PRE_RENDER_LINE && 280 <= self.dot < 305 {
            PpuRegs { v: left.v.with_y_of(self.t), ..left }
        } else {
            left
        }
    }

    /// Computes `fetch_addr`.
    pub fn fetch_address(self) -> (addr: Option<u16>)
        requires
            self.wf(),
            self.dot >= 1,
        ensures
            addr == self.fetch_addr(),
            addr matches Some(a) ==> a < 0x3000,
    {
        let phase = (self.dot - 1) % 8;
        let pattern: u16 = self.background_pattern_table() * 0x1000 + (self.nt_byte as u16) * 16
            + self.v.fine_y as u16;
        if (2 <= self.dot && self.dot < 258) || (321 <= self.dot && self.dot < 338) {
            if phase == 0 {
                Some(self.v.tile_address())
            } else if phase == 2 {
                Some(self.v.attr_address())
            } else if phase == 4 {
                Some(pattern)
            } else if phase == 6 {
                Some(pattern + 8)
            } else {
                None
            }
        } else if self.dot == 338 || self.dot == 340 {
            Some(self.v.tile_address())
        } else {
            None
        }
    }

    /// Computes `latched`.
    pub fn latch(self, byte: u8) -> (out: PpuRegs)
        requires
            self.wf(),
            self.dot >= 1,
        ensures
            out == self.latched(byte),
            out.wf(),
    {
        let phase = (self.dot - 1) % 8;
        let window = (2 <= self.dot && self.dot < 258) || (321 <= self.dot && self.dot < 338);
        if !window || phase == 0 {
            PpuRegs { nt_byte: byte, ..self }
        } else if phase == 2 {
            let q = self.v.attr_quadrant();
            PpuRegs { at_bits: (byte / QUADRANT[q as usize]) % 4, ..self }
        } else if phase == 4 {
            PpuRegs { pattern_lo: byte, ..self }
        } else {
            PpuRegs { pattern_hi: byte, ..self }
        }
    }

    /// Computes `scrolled`.
    pub fn scroll(self) -> (out: PpuRegs)
        requires
            self.wf(),
            self.dot >= 1,
        ensures
            out == self.scrolled(),
            out.wf(),
    {
        let window = (2 <= self.dot && self.dot < 258) || (321 <= self.dot && self.dot < 338);
        let mut v = self.v;
        if window && (self.dot - 1) % 8 == 7 {
            v = v.increment_x();
        }
        if self.dot == 256 {
            v = v.increment_y();
        }
        if self.dot == 257 {
            v = v.copy_x(self.t);
        }
        if self.scanline == PRE_RENDER_LINE && 280 <= self.dot && self.dot < 305 {
            v = v.copy_y(self.t);
        }
        PpuRegs { v, ..self }
    }

    /// The background pixel that leaves the shift registers, 0 to 3, where
    /// 0 is transparent.
    pub open spec fn background_pixel(self) -> int {
        (self.shift_lo / TAP[self.fine_x as int]) % 2 + 2 * ((self.shift_hi / TAP[self.fine_x as int])
            % 2)
    }

    /// The palette of that pixel, 0 to 3.
    pub open spec fn background_palette(self) -> int {
        (self.attr_lo / TAP[self.fine_x as int]) % 2 + 2 * ((self.attr_hi / TAP[self.fine_x as int])
            % 2)
    }

    /// Computes `background_pixel`.
    pub fn background_pixel_now(self) -> (p: u8)
        requires
            self.wf(),
        ensures
            p == self.background_pixel(),
            p < 4,
    {
        let tap = TAP[self.fine_x as usize];
        ((self.shift_lo / tap) % 2 + 2 * ((self.shift_hi / tap) % 2)) as u8
    }

    /// Computes `background_palette`.
    pub fn background_palette_now(self) -> (p: u8)
        requires
            self.wf(),
        ensures
            p == self.background_palette(),
            p < 4,
    {
        let tap = TAP[self.fine_x as usize];
        ((self.attr_lo / tap) % 2 + 2 * ((self.attr_hi / tap) % 2)) as u8
    }
}

/// What the two layers put at one pixel.
pub struct Layers {
    /// The background pixel, 0 to 3, and its palette.
    pub bg_pixel: u8,
    pub bg_palette: u8,
    /// The sprite pixel, 0 to 3, with the sprite's attributes and its slot.
    pub sprite: SpritePixel,
}

impl Layers {
    /// Where the colour of the pixel lies in palette memory: the backdrop
    /// where both layers are transparent; the sprite's colour where it is
    /// opaque and either the background is transparent or the sprite is in
    /// front of it; the background's otherwise.
    pub open spec fn colour_slot(self) -> int {
        if self.bg_pixel == 0 && self.sprite.pixel == 0 {
            0
        } else if self.sprite.pixel != 0 && (self.bg_pixel == 0 || !self.sprite.behind()) {
            16 + (self.sprite.attr % 4) * 4 + self.sprite.pixel
        } else {
            self.bg_palette * 4 + self.bg_pixel
        }
    }

    /// Computes `colour_slot`.
    pub fn colour_index(&self) -> (slot: u16)
        requires
            self.bg_pixel < 4,
            self.bg_palette < 4,
            self.sprite.pixel < 4,
        ensures
            slot == self.colour_slot(),
            slot < 32,
    {
        if self.bg_pixel == 0 && self.sprite.pixel == 0 {
            0
        } else if self.sprite.pixel != 0 && (self.bg_pixel == 0 || !self.sprite.is_behind()) {
            16 + ((self.sprite.attr % 4) as u16) * 4 + self.sprite.pixel as u16
        } else {
            (self.bg_palette as u16) * 4 + self.bg_pixel as u16
        }
    }
}

/// The colour number that the palette entry `entry` shows: its lower six
/// bits, of which greyscale keeps only the upper two.
pub open spec fn shown_colour(entry: u8, greyscale: bool) -> int {
    if greyscale {
        ((entry / 16) % 4) * 16
    } else {
        (entry % 64) as int
    }
}

/// The colour that the palette entry `entry` shows, as `0x00RRGGBB`.
pub fn colour_of(entry: u8, greyscale: bool) -> (rgb: u32)
    ensures
        rgb == COLOURS[shown_colour(entry, greyscale)],
{
    if greyscale {
        COLOURS[(((entry / 16) % 4) * 16) as usize]
    } else {
        COLOURS[(entry % 64) as usize]
    }
}

impl PpuView {
    /// What the layers put at column `x` of the line being drawn. A layer
    /// that is switched off, or hidden in the leftmost eight pixels, is
    /// transparent there.
    pub open spec fn layers_at(self, x: int) -> Layers {
        let r = self.regs;
        let bg_on = r.show_background() && (x >= 8 || r.background_left());
        let sp_on = r.show_sprites() && (x >= 8 || r.sprites_left());
        Layers {
            bg_pixel: if bg_on {
                r.background_pixel() as u8
            } else {
                0
            },
            bg_palette: if bg_on {
                r.background_palette() as u8
            } else {
                0
            },
            sprite: if sp_on {
                sprite_pixel(self.sprites, r.sprite_count as int, x, 0)
            } else {
                SpritePixel::none()
            },
        }
    }

    /// Whether the pixel at column `x` is a sprite 0 hit: an opaque pixel of
    /// sprite 0 on an opaque background pixel, left of column 255.
    pub open spec fn hits_at(self, x: int) -> bool {
        let l = self.layers_at(x);
        l.sprite.slot == 0 && self.regs.zero_on_line && l.bg_pixel != 0 && l.sprite.pixel != 0 && x
            != 255
    }

    /// The picture processor after it draws the pixel of its dot, on dots 1
    /// to 256 of lines 0 to 239.
    pub open spec fn drawn(self) -> PpuView {
        let r = self.regs;
        if r.scanline < 240 && 1 <= r.dot <= 256 {
            let x = r.dot - 1;
            let entry = self.palette[palette_slot(self.layers_at(x).colour_slot() as u16)];
            PpuView {
                regs: PpuRegs { sprite_zero_hit: r.sprite_zero_hit || self.hits_at(x), ..r },
                screen: self.screen.update(
                    r.scanline * SCREEN_WIDTH + x,
                    COLOURS[shown_colour(entry, r.greyscale())],
                ),
                ..self
            }
        } else {
            self
        }
    }

    /// The background pipeline's work on the dot arrived at, with rendering
    /// on, on a line that is drawn or the pre-render line: the registers
    /// shift, a finished tile is loaded, a byte is fetched, and the scroll
    /// position moves. The board sees the address of the fetch.
    pub open spec fn piped(self, cart: CartView) -> (PpuRegs, CartView) {
        let r = self.regs;
        let moved = if r.in_fetch_window() {
            r.shifted()
        } else {
            r
        };
        let filled = if (r.in_fetch_window() && (r.dot - 1) % 8 == 0) || r.dot == 257 {
            moved.loaded()
        } else {
            moved
        };
        match filled.fetch_addr() {
            Some(addr) => {
                let seen = cart.notified(addr);
                (filled.latched(self.mem_read(seen, addr)).scrolled(), seen)
            },
            None => (filled.scrolled(), cart),
        }
    }
}

impl Ppu {
    /// Runs the background pipeline for the dot arrived at.
    pub fn pipe(&mut self, cart: &mut Cart)
        requires
            old(self)@.wf(),
            old(cart)@.wf(),
            old(self)@.regs.dot >= 1,
        ensures
            final(self)@ == (PpuView { regs: old(self)@.piped(old(cart)@).0, ..old(self)@ }),
            final(cart)@ == old(self)@.piped(old(cart)@).1,
            final(self)@.wf(),
            final(cart)@.wf(),
    {
        let r = self.regs;
        let window = (2 <= r.dot && r.dot < 258) || (321 <= r.dot && r.dot < 338);
        let moved = if window {
            r.shift()
        } else {
            r
        };
        let filled = if (window && (r.dot - 1) % 8 == 0) || r.dot == 257 {
            moved.load()
        } else {
            moved
        };
        match filled.fetch_address() {
            Some(addr) => {
                cart.ppu_address_notify(addr);
                let byte = self.mem_read(cart, addr);
                self.regs = filled.latch(byte).scroll();
            },
            None => {
                self.regs = filled.scroll();
            },
        }
    }

    /// What the layers put at column `x` of the line being drawn.
    pub fn layers(&self, x: u16) -> (l: Layers)
        requires
            self@.wf(),
            x < 256,
        ensures
            l == self@.layers_at(x as int),
            l.bg_pixel < 4,
            l.bg_palette < 4,
            l.sprite.pixel < 4,
    {
        let bg_on = self.regs.shows_background() && (x >= 8 || self.regs.shows_background_left());
        let sp_on = self.regs.shows_sprites() && (x >= 8 || self.regs.shows_sprites_left());
        Layers {
            bg_pixel: if bg_on {
                self.regs.background_pixel_now()
            } else {
                0
            },
            bg_palette: if bg_on {
                self.regs.background_palette_now()
            } else {
                0
            },
            sprite: if sp_on {
                crate::sprites::find_sprite_pixel(&self.sprites, self.regs.sprite_count, x)
            } else {
                SpritePixel::transparent()
            },
        }
    }

    /// Draws the pixel of the dot arrived at, where it is a visible one.
    pub fn draw(&mut self)
        requires
            old(self)@.wf(),
        ensures
            final(self)@ == old(self)@.drawn(),
            final(self)@.wf(),
    {
        if self.regs.scanline < 240 && 1 <= self.regs.dot && self.regs.dot <= 256 {
            let x = self.regs.dot - 1;
            let l = self.layers(x);
            let hit = l.sprite.slot == 0 && self.regs.zero_on_line && l.bg_pixel != 0
                && l.sprite.pixel != 0 && x != 255;
            let entry = self.palette[palette_index(l.colour_index())];
            let rgb = colour_of(entry, self.regs.is_greyscale());
            let at = (self.regs.scanline as usize) * SCREEN_WIDTH + x as usize;
            self.screen[at] = rgb;
            self.regs.sprite_zero_hit = self.regs.sprite_zero_hit || hit;
        }
    }
}

} // verus!
