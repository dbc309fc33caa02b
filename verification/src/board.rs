//! The cartridge as the console sees it: the image, the mapper's registers
//! and the memories on the board, behind the two address windows.

use crate::cart::{Cartridge, CartridgeView, Mirroring};
use crate::error::Error;
use crate::mapper::Mapper;
use vstd::prelude::*;

verus! {

pub const PRG_RAM_LEN: usize = 0x2000;

pub const CHR_RAM_LEN: usize = 0x2000;

/// Where the trainer is loaded: `$7000`, as an offset into the work memory
/// at `$6000`.
pub const TRAINER_AT: usize = 0x1000;

/// A cartridge in its slot.
pub struct Cart {
    pub image: Cartridge,
    pub mapper: Mapper,
    /// The 8 KiB at `$6000..=$7FFF`.
    pub prg_ram: Vec<u8>,
    /// The 8 KiB of picture memory of a board without picture ROM; empty otherwise.
    pub chr_ram: Vec<u8>,
}

/// A cartridge in its slot, as plain values.
pub struct CartView {
    pub image: CartridgeView,
    pub mapper: Mapper,
    pub prg_ram: Seq<u8>,
    pub chr_ram: Seq<u8>,
}

impl View for Cart {
    type V = CartView;

    open spec fn view(&self) -> CartView {
        CartView {
            image: self.image@,
            mapper: self.mapper,
            prg_ram: self.prg_ram@,
            chr_ram: self.chr_ram@,
        }
    }
}

/// `n` zero bytes.
pub open spec fn zeros(n: nat) -> Seq<u8> {
    Seq::new(n, |i: int| 0u8)
}

/// `n` zero bytes.
pub fn zeroed(n: usize) -> (v: Vec<u8>)
    ensures
        v@ == zeros(n as nat),
{
    let mut v: Vec<u8> = Vec::new();
    let mut i: usize = 0;
    while i < n
        invariant
            i <= n,
            v@ == zeros(i as nat),
        decreases n - i,
    {
        v.push(0);
        i = i + 1;
        assert(v@ =~= zeros(i as nat));
    }
    v
}

/// `dst` with `src` copied over it from offset `at` on.
pub open spec fn overlaid(dst: Seq<u8>, at: int, src: Seq<u8>) -> Seq<u8> {
    Seq::new(
        dst.len(),
        |i: int|
            if at <= i < at + src.len() {
                src[i - at]
            } else {
                dst[i]
            },
    )
}

/// Copies `src` over `dst` from offset `at` on.
pub fn overlay(dst: &mut Vec<u8>, at: usize, src: &Vec<u8>)
    requires
        at + src.len() <= old(dst).len(),
    ensures
        final(dst)@ == overlaid(old(dst)@, at as int, src@),
{
    let mut i: usize = 0;
    while i < src.len()
        invariant
            i <= src.len(),
            at + src.len() <= dst.len(),
            dst.len() == old(dst).len(),
            dst@ == overlaid(old(dst)@, at as int, src@.subrange(0, i as int)),
        decreases src.len() - i,
    {
        dst[at + i] = src[i];
        i = i + 1;
        assert(dst@ =~= overlaid(old(dst)@, at as int, src@.subrange(0, i as int)));
    }
    assert(src@.subrange(0, src.len() as int) =~= src@);
}

impl CartView {
    pub open spec fn wf(self) -> bool {
        &&& self.image.wf()
        &&& self.mapper.wf()
        &&& self.mapper.id() == self.image.mapper_id
        &&& self.prg_ram.len() == PRG_RAM_LEN
        &&& self.chr_ram.len() == if self.image.chr_rom.len() == 0 {
            CHR_RAM_LEN as nat
        } else {
            0nat
        }
    }

    /// The board as it is plugged in: the registers at power-up, the
    /// memories zero but for the trainer at `$7000`.
    pub open spec fn fresh(image: CartridgeView) -> CartView {
        CartView {
            image,
            mapper: Mapper::power_up(image.mapper_id),
            prg_ram: overlaid(zeros(PRG_RAM_LEN as nat), TRAINER_AT as int, image.trainer),
            chr_ram: if image.chr_rom.len() == 0 {
                zeros(CHR_RAM_LEN as nat)
            } else {
                Seq::empty()
            },
        }
    }

    /// What the processor reads at `addr`: program ROM through the mapper at
    /// and above `$8000`, work memory from `$6000` on, zero below.
    #[verifier::opaque]
    pub open spec fn cpu_read(self, addr: u16) -> u8 {
        if addr >= 0x8000 {
            self.image.prg_rom[self.mapper.prg_offset(addr, self.image.prg_rom.len() as int)]
        } else if addr >= 0x6000 {
            self.prg_ram[addr - 0x6000]
        } else {
            0
        }
    }

    /// The board after the processor writes `val` at `addr`: a mapper
    /// register at and above `$8000`, work memory from `$6000` on, nothing below.
    pub open spec fn cpu_written(self, addr: u16, val: u8) -> CartView {
        if addr >= 0x8000 {
            CartView { mapper: self.mapper.written(addr, val), ..self }
        } else if addr >= 0x6000 {
            CartView { prg_ram: self.prg_ram.update(addr - 0x6000, val), ..self }
        } else {
            self
        }
    }

    /// What the picture processor reads at the pattern address `addr`.
    #[verifier::opaque]
    pub open spec fn ppu_read(self, addr: u16) -> u8 {
        if self.image.chr_rom.len() == 0 {
            self.chr_ram[self.mapper.chr_offset(addr, CHR_RAM_LEN as int)]
        } else {
            self.image.chr_rom[self.mapper.chr_offset(addr, self.image.chr_rom.len() as int)]
        }
    }

    /// The board after the picture processor writes `val` at the pattern
    /// address `addr`: picture RAM takes it, picture ROM does not.
    pub open spec fn ppu_written(self, addr: u16, val: u8) -> CartView {
        if self.image.chr_rom.len() == 0 {
            CartView {
                chr_ram: self.chr_ram.update(self.mapper.chr_offset(addr, CHR_RAM_LEN as int), val),
                ..self
            }
        } else {
            self
        }
    }

    /// The board after the picture processor puts `addr` on its bus.
    pub open spec fn notified(self, addr: u16) -> CartView {
        CartView { mapper: self.mapper.notified(addr), ..self }
    }

    /// The mirroring in force.
    pub open spec fn mirroring(self) -> Mirroring {
        self.mapper.mirroring(self.image.mirroring)
    }

    /// The little-endian word at `addr` and the address after it.
    pub open spec fn read_u16(self, addr: u16) -> u16 {
        (self.cpu_read(addr) + 256 * self.cpu_read(((addr + 1) % 0x10000) as u16)) as u16
    }
}

impl Cart {
    /// Plugs the image in.
    pub fn new(image: Cartridge) -> (cart: Cart)
        requires
            image@.wf(),
        ensures
            cart@ == CartView::fresh(image@),
            cart@.wf(),
    {
        let mut prg_ram = zeroed(PRG_RAM_LEN);
        overlay(&mut prg_ram, TRAINER_AT, &image.trainer);
        let chr_ram = if image.chr_rom.len() == 0 {
            zeroed(CHR_RAM_LEN)
        } else {
            Vec::new()
        };
        let mapper = Mapper::new(image.mapper_id);
        Cart { image, mapper, prg_ram, chr_ram }
    }

    /// Reads an iNES 1.0 image and plugs it in.
    pub fn from_bytes(data: &[u8]) -> (r: Result<Cart, Error>)
        ensures
            r matches Ok(cart) ==> (crate::cart::parse_rom(data@) matches Ok(image) && cart@
                == CartView::fresh(image) && cart@.wf()),
            r matches Err(e) ==> crate::cart::parse_rom(data@) == Err::<CartridgeView, Error>(e),
    {
        match Cartridge::from_bytes(data) {
            Ok(image) => Ok(Cart::new(image)),
            Err(e) => Err(e),
        }
    }

    /// Reads at the processor address `addr`.
    pub fn cpu_read(&self, addr: u16) -> (v: u8)
        requires
            self@.wf(),
        ensures
            v == self@.cpu_read(addr),
    {
        proof {
            reveal(CartView::cpu_read);
        }
        if addr >= 0x8000 {
            let i = self.mapper.prg_index(addr, self.image.prg_rom.len());
            self.image.prg_rom[i]
        } else if addr >= 0x6000 {
            self.prg_ram[(addr - 0x6000) as usize]
        } else {
            0
        }
    }

    /// Writes `val` at the processor address `addr`.
    pub fn cpu_write(&mut self, addr: u16, val: u8)
        requires
            old(self)@.wf(),
        ensures
            final(self)@ == old(self)@.cpu_written(addr, val),
            final(self)@.wf(),
    {
        if addr >= 0x8000 {
            self.mapper = self.mapper.write(addr, val);
            proof {
                lemma_write_keeps_id(old(self).mapper, addr, val);
            }
        } else if addr >= 0x6000 {
            self.prg_ram[(addr - 0x6000) as usize] = val;
        }
    }

    /// Reads at the pattern address `addr`.
    pub fn ppu_read(&self, addr: u16) -> (v: u8)
        requires
            self@.wf(),
            addr < 0x2000,
        ensures
            v == self@.ppu_read(addr),
    {
        proof {
            reveal(CartView::ppu_read);
        }
        if self.image.chr_rom.len() == 0 {
            let i = self.mapper.chr_index(addr, CHR_RAM_LEN);
            self.chr_ram[i]
        } else {
            let i = self.mapper.chr_index(addr, self.image.chr_rom.len());
            self.image.chr_rom[i]
        }
    }

    /// Writes `val` at the pattern address `addr`.
    pub fn ppu_write(&mut self, addr: u16, val: u8)
        requires
            old(self)@.wf(),
            addr < 0x2000,
        ensures
            final(self)@ == old(self)@.ppu_written(addr, val),
            final(self)@.wf(),
    {
        if self.image.chr_rom.len() == 0 {
            let i = self.mapper.chr_index(addr, CHR_RAM_LEN);
            self.chr_ram[i] = val;
        }
    }

    /// Tells the board that the picture processor put `addr` on its bus.
    pub fn ppu_address_notify(&mut self, addr: u16)
        requires
            old(self)@.wf(),
        ensures
            final(self)@ == old(self)@.notified(addr),
            final(self)@.wf(),
    {
        self.mapper = self.mapper.notify(addr);
    }

    /// Whether the board asks for an interrupt.
    pub fn irq_pending(&self) -> (pending: bool)
        ensures
            pending == self@.mapper.irq(),
    {
        self.mapper.irq_pending()
    }

    /// The mirroring in force.
    pub fn mirroring(&self) -> (m: Mirroring)
        ensures
            m == self@.mirroring(),
    {
        self.mapper.current_mirroring(self.image.mirroring)
    }

    /// The little-endian word at `addr`, as the vectors are stored.
    pub fn read_cart_u16(&self, addr: u16) -> (w: u16)
        requires
            self@.wf(),
        ensures
            w == self@.read_u16(addr),
    {
        let lo = self.cpu_read(addr);
        let hi = self.cpu_read(addr.wrapping_add(1));
        lo as u16 + 256 * (hi as u16)
    }

    /// Writes the mapper's registers out.
    pub fn save_mapper(&self) -> (bytes: Vec<u8>)
        ensures
            bytes@ == self@.mapper.saved(),
    {
        self.mapper.save()
    }

    /// Reads the mapper's registers back. Bytes that are not the registers
    /// of a board of this family are refused, and the board stays as it is.
    pub fn load_mapper(&mut self, bytes: &[u8]) -> (taken: bool)
        requires
            old(self)@.wf(),
        ensures
            taken == (Mapper::loaded(bytes@) matches Some(m) && m.id() == old(
                self,
            )@.image.mapper_id),
            taken ==> final(self)@ == (CartView {
                mapper: Mapper::loaded(bytes@)->Some_0,
                ..old(self)@
            }),
            !taken ==> final(self)@ == old(self)@,
            final(self)@.wf(),
    {
        match Mapper::load(bytes) {
            Some(m) => {
                if m.family() == self.image.mapper_id {
                    self.mapper = m;
                    true
                } else {
                    false
                }
            },
            None => false,
        }
    }

    /// The work memory of a battery-backed board, which outlives the
    /// session; `None` for a board without a battery.
    pub fn battery_ram(&self) -> (saved: Option<Vec<u8>>)
        ensures
            self@.image.battery ==> (saved matches Some(bytes) && bytes@ == self@.prg_ram),
            !self@.image.battery ==> saved is None,
    {
        if self.image.battery {
            let mut bytes: Vec<u8> = Vec::new();
            let mut i: usize = 0;
            while i < self.prg_ram.len()
                invariant
                    i <= self.prg_ram.len(),
                    bytes@ == self.prg_ram@.subrange(0, i as int),
                decreases self.prg_ram.len() - i,
            {
                bytes.push(self.prg_ram[i]);
                i = i + 1;
                assert(bytes@ =~= self.prg_ram@.subrange(0, i as int));
            }
            assert(bytes@ =~= self.prg_ram@);
            Some(bytes)
        } else {
            None
        }
    }

    /// Puts back work memory that [`Cart::battery_ram`] handed out. An image
    /// of another length than 8 KiB is not taken.
    pub fn restore_battery_ram(&mut self, bytes: &Vec<u8>) -> (taken: bool)
        requires
            old(self)@.wf(),
        ensures
            taken == (bytes.len() == PRG_RAM_LEN),
            taken ==> final(self)@ == (CartView { prg_ram: bytes@, ..old(self)@ }),
            !taken ==> final(self)@ == old(self)@,
            final(self)@.wf(),
    {
        if bytes.len() != PRG_RAM_LEN {
            return false;
        }
        overlay(&mut self.prg_ram, 0, bytes);
        assert(self.prg_ram@ =~= bytes@);
        true
    }
}

/// A register write leaves the board's family as it is.
pub proof fn lemma_write_keeps_id(m: Mapper, addr: u16, val: u8)
    ensures
        m.written(addr, val).id() == m.id(),
        m.notified(addr).id() == m.id(),
{
}

} // verus!
