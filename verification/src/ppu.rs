//! The picture processor: its registers and memories, and what the
//! processor sees of it through `$2000..=$2007`.

use crate::board::{Cart, CartView};
use crate::mapper::{nametable_index, nametable_offset};
use crate::scroll::Loopy;
use vstd::prelude::*;

verus! {

pub const VRAM_LEN: usize = 0x1000;

pub const PALETTE_LEN: usize = 32;

pub const OAM_LEN: usize = 256;

pub const SECONDARY_LEN: usize = 32;

pub const SCREEN_WIDTH: usize = 256;

pub const SCREEN_HEIGHT: usize = 240;

pub const SCREEN_LEN: usize = 61440;

/// The last scanline of a frame, on which the first visible line is prepared.
pub const PRE_RENDER_LINE: u16 = 261;

/// The last dot of a scanline.
pub const LAST_DOT: u16 = 340;

/// The registers, latches and counters of the picture processor.
#[derive(Clone, Copy, Debug)]
pub struct PpuRegs {
    /// `$2000` as last written.
    pub ctrl: u8,
    /// `$2001` as last written.
    pub mask: u8,
    pub sprite_overflow: bool,
    pub sprite_zero_hit: bool,
    pub vblank: bool,
    pub oam_addr: u8,
    /// The current video address.
    pub v: Loopy,
    /// The address being assembled by the register writes.
    pub t: Loopy,
    /// The pixel column inside a tile, below 8.
    pub fine_x: u8,
    /// The write toggle that `$2005` and `$2006` share.
    pub w: bool,
    /// What the next read of `$2007` below the palette returns.
    pub read_buffer: u8,
    pub scanline: u16,
    pub dot: u16,
    pub odd_frame: bool,
    /// An interrupt request that the processor has not taken yet.
    pub nmi_edge: bool,
    /// Set when the frame was shortened by a dot.
    pub extra_cycle: bool,
    /// The tile being fetched: its number, its palette, its two bit planes.
    pub nt_byte: u8,
    pub at_bits: u8,
    pub pattern_lo: u8,
    pub pattern_hi: u8,
    /// The sixteen pixels in flight, next pixel highest.
    pub shift_lo: u16,
    pub shift_hi: u16,
    pub attr_lo: u16,
    pub attr_hi: u16,
    /// How many sprites lie on the line being drawn, at most 8.
    pub sprite_count: u8,
    /// Whether the first of them is sprite 0.
    pub zero_on_line: bool,
    /// Dots since power-up, modulo 2^64.
    pub dots: u64,
}

/// The picture processor.
pub struct Ppu {
    pub regs: PpuRegs,
    /// Nametable memory: the console's two kilobytes, and the two that a
    /// four-screen board adds.
    pub vram: Vec<u8>,
    pub palette: Vec<u8>,
    pub oam: Vec<u8>,
    /// The sprites found for the next line, four bytes each.
    pub secondary: Vec<u8>,
    /// The sprites of the line being drawn, four bytes each: the two bit
    /// planes of their row (left pixel highest), attributes, and X.
    pub sprites: Vec<u8>,
    /// The frame, row by row, one `0x00RRGGBB` word per pixel.
    pub screen: Vec<u32>,
}

/// The picture processor as plain values.
pub struct PpuView {
    pub regs: PpuRegs,
    pub vram: Seq<u8>,
    pub palette: Seq<u8>,
    pub oam: Seq<u8>,
    pub secondary: Seq<u8>,
    pub sprites: Seq<u8>,
    pub screen: Seq<u32>,
}

impl View for Ppu {
    type V = PpuView;

    open spec fn view(&self) -> PpuView {
        PpuView {
            regs: self.regs,
            vram: self.vram@,
            palette: self.palette@,
            oam: self.oam@,
            secondary: self.secondary@,
            sprites: self.sprites@,
            screen: self.screen@,
        }
    }
}

impl PpuRegs {
    pub open spec fn wf(self) -> bool {
        &&& self.v.wf()
        &&& self.t.wf()
        &&& self.fine_x < 8
        &&& self.scanline <= PRE_RENDER_LINE
        &&& self.dot <= LAST_DOT
        &&& self.at_bits < 4
        &&& self.sprite_count <= 8
    }

    pub open spec fn power_up() -> PpuRegs {
        PpuRegs {
            ctrl: 0,
            mask: 0,
            sprite_overflow: false,
            sprite_zero_hit: false,
            vblank: false,
            oam_addr: 0,
            v: Loopy::zero(),
            t: Loopy::zero(),
            fine_x: 0,
            w: false,
            read_buffer: 0,
            scanline: 0,
            dot: 0,
            odd_frame: false,
            nmi_edge: false,
            extra_cycle: false,
            nt_byte: 0,
            at_bits: 0,
            pattern_lo: 0,
            pattern_hi: 0,
            shift_lo: 0,
            shift_hi: 0,
            attr_lo: 0,
            attr_hi: 0,
            sprite_count: 0,
            zero_on_line: false,
            dots: 0,
        }
    }

    /// Whether the start of vertical blanking raises an interrupt (`$2000` bit 7).
    pub open spec fn nmi_enabled(self) -> bool {
        self.ctrl >= 128
    }

    /// By how much an access to `$2007` moves the address (`$2000` bit 2).
    pub open spec fn increment(self) -> int {
        if (self.ctrl / 4) % 2 == 1 {
            32
        } else {
            1
        }
    }

    /// The pattern table of 8 by 8 sprites (`$2000` bit 3).
    pub open spec fn sprite_table(self) -> int {
        ((self.ctrl / 8) % 2) as int
    }

    /// The pattern table of the background (`$2000` bit 4).
    pub open spec fn background_table(self) -> int {
        ((self.ctrl / 16) % 2) as int
    }

    /// The height of a sprite in pixels (`$2000` bit 5).
    pub open spec fn sprite_height(self) -> int {
        if (self.ctrl / 32) % 2 == 1 {
            16
        } else {
            8
        }
    }

    /// `$2001` bit 0.
    pub open spec fn greyscale(self) -> bool {
        self.mask % 2 == 1
    }

    /// `$2001` bit 1.
    pub open spec fn background_left(self) -> bool {
        (self.mask / 2) % 2 == 1
    }

    /// `$2001` bit 2.
    pub open spec fn sprites_left(self) -> bool {
        (self.mask / 4) % 2 == 1
    }

    /// `$2001` bit 3.
    pub open spec fn show_background(self) -> bool {
        (self.mask / 8) % 2 == 1
    }

    /// `$2001` bit 4.
    pub open spec fn show_sprites(self) -> bool {
        (self.mask / 16) % 2 == 1
    }

    /// Whether either layer is shown.
    pub open spec fn rendering(self) -> bool {
        self.show_background() || self.show_sprites()
    }

    /// What `$2002` reads: vertical blank in bit 7, sprite 0 hit in bit 6,
    /// sprite overflow in bit 5.
    pub open spec fn status(self) -> int {
        (if self.vblank {
            128int
        } else {
            0
        }) + (if self.sprite_zero_hit {
            64int
        } else {
            0
        }) + (if self.sprite_overflow {
            32int
        } else {
            0
        })
    }

    /// After a write to `$2000`: the nametable bits go to the address being
    /// assembled, and enabling the interrupt during vertical blank raises it.
    pub open spec fn ctrl_written(self, val: u8) -> PpuRegs {
        PpuRegs {
            ctrl: val,
            t: self.t.base_nametable(val),
            nmi_edge: self.nmi_edge || (self.vblank && val >= 128 && !self.nmi_enabled()),
            ..self
        }
    }

    /// After a write to `$2005`: the first write of a pair sets the
    /// horizontal scroll, the second the vertical.
    pub open spec fn scroll_written(self, val: u8) -> PpuRegs {
        if !self.w {
            PpuRegs { t: self.t.scroll_x(val), fine_x: val % 8, w: true, ..self }
        } else {
            PpuRegs { t: self.t.scroll_y(val), w: false, ..self }
        }
    }

    /// After a write to `$2006`: the first write of a pair sets the high
    /// byte of the address being assembled, the second sets the low byte and
    /// makes it the current address.
    pub open spec fn addr_written(self, val: u8) -> PpuRegs {
        if !self.w {
            PpuRegs { t: self.t.high_byte(val), w: true, ..self }
        } else {
            PpuRegs { t: self.t.low_byte(val), v: self.t.low_byte(val), w: false, ..self }
        }
    }

    /// Computes `ctrl_written`.
    pub fn write_ctrl(self, val: u8) -> (out: PpuRegs)
        requires
            self.wf(),
        ensures
            out == self.ctrl_written(val),
            out.wf(),
    {
        let rising = self.vblank && val >= 128 && !(self.ctrl >= 128);
        PpuRegs {
            ctrl: val,
            t: self.t.set_base_nametable(val),
            nmi_edge: self.nmi_edge || rising,
            ..self
        }
    }

    /// Computes `scroll_written`.
    pub fn write_scroll(self, val: u8) -> (out: PpuRegs)
        requires
            self.wf(),
        ensures
            out == self.scroll_written(val),
            out.wf(),
    {
        if !self.w {
            PpuRegs { t: self.t.set_scroll_x(val), fine_x: val % 8, w: true, ..self }
        } else {
            PpuRegs { t: self.t.set_scroll_y(val), w: false, ..self }
        }
    }

    /// Computes `addr_written`.
    pub fn write_addr(self, val: u8) -> (out: PpuRegs)
        requires
            self.wf(),
        ensures
            out == self.addr_written(val),
            out.wf(),
    {
        if !self.w {
            PpuRegs { t: self.t.set_high_byte(val), w: true, ..self }
        } else {
            let t = self.t.set_low_byte(val);
            PpuRegs { t, v: t, w: false, ..self }
        }
    }

    /// Computes `increment`.
    pub fn address_step(&self) -> (step: u16)
        ensures
            step == self.increment(),
            step <= 32,
    {
        if (self.ctrl / 4) % 2 == 1 {
            32
        } else {
            1
        }
    }

    /// Computes `sprite_table`.
    pub fn sprite_pattern_table(&self) -> (t: u16)
        ensures
            t == self.sprite_table(),
            t <= 1,
    {
        ((self.ctrl / 8) % 2) as u16
    }

    /// Computes `background_table`.
    pub fn background_pattern_table(&self) -> (t: u16)
        ensures
            t == self.background_table(),
            t <= 1,
    {
        ((self.ctrl / 16) % 2) as u16
    }

    /// Computes `sprite_height`.
    pub fn sprite_size(&self) -> (h: u16)
        ensures
            h == self.sprite_height(),
            h == 8 || h == 16,
    {
        if (self.ctrl / 32) % 2 == 1 {
            16
        } else {
            8
        }
    }

    /// Computes `greyscale`.
    pub fn is_greyscale(&self) -> (b: bool)
        ensures
            b == self.greyscale(),
    {
        self.mask % 2 == 1
    }

    /// Computes `background_left`.
    pub fn shows_background_left(&self) -> (b: bool)
        ensures
            b == self.background_left(),
    {
        (self.mask / 2) % 2 == 1
    }

    /// Computes `sprites_left`.
    pub fn shows_sprites_left(&self) -> (b: bool)
        ensures
            b == self.sprites_left(),
    {
        (self.mask / 4) % 2 == 1
    }

    /// Computes `show_background`.
    pub fn shows_background(&self) -> (b: bool)
        ensures
            b == self.show_background(),
    {
        (self.mask / 8) % 2 == 1
    }

    /// Computes `show_sprites`.
    pub fn shows_sprites(&self) -> (b: bool)
        ensures
            b == self.show_sprites(),
    {
        (self.mask / 16) % 2 == 1
    }

    /// Computes `rendering`.
    pub fn is_rendering(&self) -> (b: bool)
        ensures
            b == self.rendering(),
    {
        (self.mask / 8) % 2 == 1 || (self.mask / 16) % 2 == 1
    }

    /// Computes `status`.
    pub fn status_byte(&self) -> (s: u8)
        ensures
            s == self.status(),
    {
        let mut s: u8 = 0;
        if self.vblank {
            s = s + 128;
        }
        if self.sprite_zero_hit {
            s = s + 64;
        }
        if self.sprite_overflow {
            s = s + 32;
        }
        s
    }
}

/// Where the palette address `addr` lands in the 32 bytes of palette
/// memory: the entries `$10`, `$14`, `$18` and `$1C` are those at `$00`,
/// `$04`, `$08` and `$0C`.
pub open spec fn palette_slot(addr: u16) -> int {
    let i = addr % 32;
    if i >= 16 && i % 4 == 0 {
        i - 16
    } else {
        i as int
    }
}

/// Computes `palette_slot`.
pub fn palette_index(addr: u16) -> (i: usize)
    ensures
        i == palette_slot(addr),
        i < 32,
{
    let i = (addr % 32) as usize;
    if i >= 16 && i % 4 == 0 {
        i - 16
    } else {
        i
    }
}

/// What object memory keeps of a byte written at `addr`: the third byte of
/// each sprite has no bits 2 to 4.
#[verifier::opaque]
pub open spec fn oam_kept(addr: u8, val: u8) -> u8 {
    if addr % 4 == 2 {
        (val - ((val / 4) % 8) * 4) as u8
    } else {
        val
    }
}

/// Computes `oam_kept`.
pub fn oam_keep(addr: u8, val: u8) -> (kept: u8)
    ensures
        kept == oam_kept(addr, val),
{
    proof {
        reveal(oam_kept);
    }
    if addr % 4 == 2 {
        val - ((val / 4) % 8) * 4
    } else {
        val
    }
}

impl PpuView {
    pub open spec fn wf(self) -> bool {
        &&& self.regs.wf()
        &&& self.vram.len() == VRAM_LEN
        &&& self.palette.len() == PALETTE_LEN
        &&& self.oam.len() == OAM_LEN
        &&& self.secondary.len() == SECONDARY_LEN
        &&& self.sprites.len() == SECONDARY_LEN
        &&& self.screen.len() == SCREEN_LEN
    }

    pub open spec fn power_up() -> PpuView {
        PpuView {
            regs: PpuRegs::power_up(),
            vram: Seq::new(VRAM_LEN as nat, |i: int| 0u8),
            palette: Seq::new(PALETTE_LEN as nat, |i: int| 0u8),
            oam: Seq::new(OAM_LEN as nat, |i: int| 0u8),
            secondary: Seq::new(SECONDARY_LEN as nat, |i: int| 0u8),
            sprites: Seq::new(SECONDARY_LEN as nat, |i: int| 0u8),
            screen: Seq::new(SCREEN_LEN as nat, |i: int| 0u32),
        }
    }

    /// What lies at `addr` in the picture address space: pattern memory on
    /// the cartridge below `$2000`, nametables up to `$3EFF`, the palette above.
    pub open spec fn mem_read(self, cart: CartView, addr: u16) -> u8 {
        let a = (addr % 0x4000) as u16;
        if a < 0x2000 {
            cart.ppu_read(a)
        } else if a < 0x3F00 {
            self.vram[nametable_offset(cart.mirroring(), a)]
        } else {
            self.palette[palette_slot(a)]
        }
    }

    /// The picture processor after `val` is stored at `addr` in a nametable
    /// or the palette; pattern memory is the cartridge's.
    pub open spec fn mem_written(self, cart: CartView, addr: u16, val: u8) -> PpuView {
        let a = (addr % 0x4000) as u16;
        if a < 0x2000 {
            self
        } else if a < 0x3F00 {
            PpuView { vram: self.vram.update(nametable_offset(cart.mirroring(), a), val), ..self }
        } else {
            PpuView { palette: self.palette.update(palette_slot(a), val), ..self }
        }
    }

    /// What a read of register `reg` (0 to 7) returns.
    pub open spec fn reg_read_value(self, cart: CartView, reg: u8) -> u8 {
        if reg == 2 {
            self.regs.status() as u8
        } else if reg == 4 {
            self.oam[self.regs.oam_addr as int]
        } else if reg == 7 {
            let a = (self.regs.v.addr() % 0x4000) as u16;
            if a < 0x3F00 {
                self.regs.read_buffer
            } else if self.regs.greyscale() {
                self.palette[palette_slot(a)] & 0x30
            } else {
                self.palette[palette_slot(a)]
            }
        } else {
            0
        }
    }

    /// The registers after a read of register `reg`. Reading `$2002` clears
    /// vertical blank and the write toggle. Reading `$2007` refills the read
    /// buffer (from the nametable underneath, where the address is in the
    /// palette) and moves the address on.
    pub open spec fn after_reg_read(self, cart: CartView, reg: u8) -> PpuRegs {
        if reg == 2 {
            PpuRegs { vblank: false, w: false, ..self.regs }
        } else if reg == 7 {
            let a = (self.regs.v.addr() % 0x4000) as u16;
            let under = if a < 0x3F00 {
                a
            } else {
                (a - 0x1000) as u16
            };
            PpuRegs {
                read_buffer: self.mem_read(cart.notified(a), under),
                v: self.regs.v.advanced(self.regs.increment()),
                ..self.regs
            }
        } else {
            self.regs
        }
    }

    /// The registers after `val` is written to register `reg`.
    pub open spec fn reg_written_regs(self, reg: u8, val: u8) -> PpuRegs {
        let r = self.regs;
        if reg == 0 {
            r.ctrl_written(val)
        } else if reg == 1 {
            PpuRegs { mask: val, ..r }
        } else if reg == 3 {
            PpuRegs { oam_addr: val, ..r }
        } else if reg == 4 {
            PpuRegs { oam_addr: ((r.oam_addr + 1) % 256) as u8, ..r }
        } else if reg == 5 {
            r.scroll_written(val)
        } else if reg == 6 {
            r.addr_written(val)
        } else if reg == 7 {
            PpuRegs { v: r.v.advanced(r.increment()), ..r }
        } else {
            r
        }
    }

    /// The picture processor after `val` is stored in object memory where
    /// `$2003` points, which then moves on by one.
    pub open spec fn oam_written(self, val: u8) -> PpuView {
        PpuView {
            regs: PpuRegs { oam_addr: ((self.regs.oam_addr + 1) % 256) as u8, ..self.regs },
            oam: self.oam.update(self.regs.oam_addr as int, oam_kept(self.regs.oam_addr, val)),
            ..self
        }
    }

    /// The picture processor after `val` is written to register `reg`.
    pub open spec fn reg_written(self, cart: CartView, reg: u8, val: u8) -> PpuView {
        let regs = self.reg_written_regs(reg, val);
        if reg == 4 {
            self.oam_written(val)
        } else if reg == 7 {
            PpuView { regs, ..self.mem_written(cart, self.regs.v.addr() as u16, val) }
        } else {
            PpuView { regs, ..self }
        }
    }

    /// The cartridge after `val` is written to register `reg`: a write to
    /// `$2007` below `$2000` goes to pattern memory, and the board sees the
    /// address of every access and of a completed `$2006` pair.
    pub open spec fn reg_written_cart(self, cart: CartView, reg: u8, val: u8) -> CartView {
        if reg == 7 {
            let a = (self.regs.v.addr() % 0x4000) as u16;
            if a < 0x2000 {
                cart.notified(a).ppu_written(a, val)
            } else {
                cart.notified(a)
            }
        } else if reg == 6 && self.regs.w {
            cart.notified((self.regs.t.low_byte(val).addr() % 0x4000) as u16)
        } else {
            cart
        }
    }

    /// The cartridge after a read of register `reg`.
    pub open spec fn after_reg_read_cart(self, cart: CartView, reg: u8) -> CartView {
        if reg == 7 {
            cart.notified((self.regs.v.addr() % 0x4000) as u16)
        } else {
            cart
        }
    }
}

impl Ppu {
    /// The state at power-up.
    pub fn new() -> (ppu: Ppu)
        ensures
            ppu@ == PpuView::power_up(),
            ppu@.wf(),
    {
        let regs = PpuRegs {
            ctrl: 0,
            mask: 0,
            sprite_overflow: false,
            sprite_zero_hit: false,
            vblank: false,
            oam_addr: 0,
            v: Loopy { coarse_x: 0, coarse_y: 0, nametable: 0, fine_y: 0 },
            t: Loopy { coarse_x: 0, coarse_y: 0, nametable: 0, fine_y: 0 },
            fine_x: 0,
            w: false,
            read_buffer: 0,
            scanline: 0,
            dot: 0,
            odd_frame: false,
            nmi_edge: false,
            extra_cycle: false,
            nt_byte: 0,
            at_bits: 0,
            pattern_lo: 0,
            pattern_hi: 0,
            shift_lo: 0,
            shift_hi: 0,
            attr_lo: 0,
            attr_hi: 0,
            sprite_count: 0,
            zero_on_line: false,
            dots: 0,
        };
        let ppu = Ppu {
            regs,
            vram: crate::board::zeroed(VRAM_LEN),
            palette: crate::board::zeroed(PALETTE_LEN),
            oam: crate::board::zeroed(OAM_LEN),
            secondary: crate::board::zeroed(SECONDARY_LEN),
            sprites: crate::board::zeroed(SECONDARY_LEN),
            screen: blank_screen(),
        };
        assert(ppu@.screen =~= PpuView::power_up().screen);
        ppu
    }

    /// Reads at `addr` in the picture address space.
    pub fn mem_read(&self, cart: &Cart, addr: u16) -> (v: u8)
        requires
            self@.wf(),
            cart@.wf(),
        ensures
            v == self@.mem_read(cart@, addr),
    {
        let a = addr % 0x4000;
        if a < 0x2000 {
            cart.ppu_read(a)
        } else if a < 0x3F00 {
            self.vram[nametable_index(cart.mirroring(), a)]
        } else {
            self.palette[palette_index(a)]
        }
    }

    /// Writes `val` at `addr` in the picture address space.
    pub fn mem_write(&mut self, cart: &mut Cart, addr: u16, val: u8)
        requires
            old(self)@.wf(),
            old(cart)@.wf(),
        ensures
            final(self)@ == old(self)@.mem_written(old(cart)@, addr, val),
            final(cart)@ == (if addr % 0x4000 < 0x2000 {
                old(cart)@.ppu_written((addr % 0x4000) as u16, val)
            } else {
                old(cart)@
            }),
            final(self)@.wf(),
            final(cart)@.wf(),
    {
        let a = addr % 0x4000;
        if a < 0x2000 {
            cart.ppu_write(a, val);
        } else if a < 0x3F00 {
            let i = nametable_index(cart.mirroring(), a);
            self.vram[i] = val;
        } else {
            let i = palette_index(a);
            self.palette[i] = val;
        }
    }

    /// Reads register `reg` (0 to 7) as the processor does at `$2000 + reg`.
    pub fn read_reg(&mut self, cart: &mut Cart, reg: u8) -> (v: u8)
        requires
            old(self)@.wf(),
            old(cart)@.wf(),
            reg < 8,
        ensures
            v == old(self)@.reg_read_value(old(cart)@, reg),
            final(self)@ == (PpuView {
                regs: old(self)@.after_reg_read(old(cart)@, reg),
                ..old(self)@
            }),
            final(cart)@ == old(self)@.after_reg_read_cart(old(cart)@, reg),
            final(self)@.regs.dots == old(self)@.regs.dots,
            final(self)@.wf(),
            final(cart)@.wf(),
    {
        if reg == 2 {
            let v = self.regs.status_byte();
            self.regs.vblank = false;
            self.regs.w = false;
            v
        } else if reg == 4 {
            self.oam[self.regs.oam_addr as usize]
        } else if reg == 7 {
            let a = self.regs.v.to_addr() % 0x4000;
            cart.ppu_address_notify(a);
            let v = if a < 0x3F00 {
                let buffered = self.regs.read_buffer;
                self.regs.read_buffer = self.mem_read(cart, a);
                buffered
            } else {
                let entry = self.palette[palette_index(a)];
                self.regs.read_buffer = self.mem_read(cart, a - 0x1000);
                if self.regs.is_greyscale() {
                    entry & 0x30
                } else {
                    entry
                }
            };
            self.regs.v = self.regs.v.advance(self.regs.address_step());
            v
        } else {
            0
        }
    }

    /// Stores `val` in object memory at `$2003` and moves `$2003` on.
    pub fn write_oam_data(&mut self, val: u8)
        requires
            old(self)@.wf(),
        ensures
            final(self)@ == old(self)@.oam_written(val),
            final(self)@.regs.dots == old(self)@.regs.dots,
            final(self)@.wf(),
    {
        let at = self.regs.oam_addr;
        self.oam[at as usize] = oam_keep(at, val);
        self.regs.oam_addr = at.wrapping_add(1);
    }

    /// Stores `val` at the current video address and moves the address on.
    pub fn write_data(&mut self, cart: &mut Cart, val: u8)
        requires
            old(self)@.wf(),
            old(cart)@.wf(),
        ensures
            final(self)@ == old(self)@.reg_written(old(cart)@, 7, val),
            final(cart)@ == old(self)@.reg_written_cart(old(cart)@, 7, val),
            final(self)@.regs.dots == old(self)@.regs.dots,
            final(self)@.wf(),
            final(cart)@.wf(),
    {
        let a = self.regs.v.to_addr();
        cart.ppu_address_notify(a % 0x4000);
        self.mem_write(cart, a, val);
        self.regs.v = self.regs.v.advance(self.regs.address_step());
    }

    /// Writes `val` to register `reg` (0 to 7) as the processor does at
    /// `$2000 + reg`.
    pub fn write_reg(&mut self, cart: &mut Cart, reg: u8, val: u8)
        requires
            old(self)@.wf(),
            old(cart)@.wf(),
            reg < 8,
        ensures
            final(self)@ == old(self)@.reg_written(old(cart)@, reg, val),
            final(cart)@ == old(self)@.reg_written_cart(old(cart)@, reg, val),
            final(self)@.regs.dots == old(self)@.regs.dots,
            final(self)@.wf(),
            final(cart)@.wf(),
    {
        if reg == 0 {
            self.regs = self.regs.write_ctrl(val);
        } else if reg == 1 {
            self.regs.mask = val;
        } else if reg == 3 {
            self.regs.oam_addr = val;
        } else if reg == 4 {
            self.write_oam_data(val);
        } else if reg == 5 {
            self.regs = self.regs.write_scroll(val);
        } else if reg == 6 {
            let second = self.regs.w;
            self.regs = self.regs.write_addr(val);
            if second {
                cart.ppu_address_notify(self.regs.v.to_addr() % 0x4000);
            }
        } else if reg == 7 {
            self.write_data(cart, val);
        }
    }
}

/// A frame of black pixels.
pub fn blank_screen() -> (screen: Vec<u32>)
    ensures
        screen@ == Seq::new(SCREEN_LEN as nat, |i: int| 0u32),
{
    let mut screen: Vec<u32> = Vec::new();
    let mut i: usize = 0;
    while i < SCREEN_LEN
        invariant
            i <= SCREEN_LEN,
            screen@ == Seq::new(i as nat, |j: int| 0u32),
        decreases SCREEN_LEN - i,
    {
        screen.push(0);
        i = i + 1;
        assert(screen@ =~= Seq::new(i as nat, |j: int| 0u32));
    }
    screen
}

/// Reading `$2002` clears vertical blank and the write toggle, so a second
/// read that follows at once finds vertical blank clear.
pub proof fn lemma_status_read_clears(ppu: PpuView, cart: CartView)
    ensures
        ({
            let regs = ppu.after_reg_read(cart, 2);
            let again = PpuView { regs, ..ppu };
            &&& !regs.vblank
            &&& !regs.w
            &&& again.reg_read_value(ppu.after_reg_read_cart(cart, 2), 2) < 128
        }),
{
}

/// The palette entries `$3F10`, `$3F14`, `$3F18` and `$3F1C` read as
/// `$3F00`, `$3F04`, `$3F08` and `$3F0C` do.
pub proof fn lemma_palette_mirrors(ppu: PpuView, cart: CartView, k: u16)
    requires
        k < 4,
    ensures
        ppu.mem_read(cart, (0x3F10 + 4 * k) as u16) == ppu.mem_read(cart, (0x3F00 + 4 * k) as u16),
{
}

/// A write to one of the mirrored palette entries is read back at its
/// master, and a write to the master at the mirror.
pub proof fn lemma_palette_write_mirrors(ppu: PpuView, cart: CartView, k: u16, val: u8)
    requires
        ppu.wf(),
        k < 4,
    ensures
        ppu.mem_written(cart, (0x3F10 + 4 * k) as u16, val).mem_read(
            cart,
            (0x3F00 + 4 * k) as u16,
        ) == val,
        ppu.mem_written(cart, (0x3F00 + 4 * k) as u16, val).mem_read(
            cart,
            (0x3F10 + 4 * k) as u16,
        ) == val,
{
}

/// A byte written through `$2004` is read back through `$2004` once
/// `$2003` points at it again, as object memory keeps it.
pub proof fn lemma_oam_round_trip(ppu: PpuView, cart: CartView, val: u8)
    requires
        ppu.wf(),
    ensures
        ({
            let at = ppu.regs.oam_addr;
            let written = ppu.reg_written(cart, 4, val);
            let pointed = written.reg_written(cart, 3, at);
            pointed.reg_read_value(cart, 4) == oam_kept(at, val)
        }),
{
}

/// Object memory keeps every byte whole but the third of each sprite, of
/// which it drops bits 2 to 4.
pub proof fn lemma_oam_kept(addr: u8, val: u8)
    ensures
        addr % 4 != 2 ==> oam_kept(addr, val) == val,
        addr % 4 == 2 ==> oam_kept(addr, val) == val % 4 + (val / 32) * 32,
{
    reveal(oam_kept);
}

} // verus!
