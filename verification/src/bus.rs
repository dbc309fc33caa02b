//! The processor's address space: work memory, the registers of the picture
//! and sound processors, the controller ports and the cartridge.

use crate::apu::{Apu, ApuRegs};
use crate::board::{Cart, CartView};
use crate::joy::Joy;
use crate::ppu::{Ppu, PpuView};
use vstd::prelude::*;

verus! {

pub const RAM_LEN: usize = 0x800;

pub const NMI_VECTOR_LOC: u16 = 0xFFFA;

pub const RESET_VECTOR_LOC: u16 = 0xFFFC;

pub const IRQ_VECTOR_LOC: u16 = 0xFFFE;

/// Everything that the processor reaches through its address lines.
pub struct Bus {
    pub ram: Vec<u8>,
    pub cart: Cart,
    pub apu: Apu,
    pub ppu: Ppu,
    pub joy: Joy,
    /// The last byte that went over the data lines, which is what a read
    /// finds where nothing is mapped.
    pub last: u8,
}

/// The bus as plain values. The sample queue is not part of it: no access
/// over the bus touches it.
pub struct BusView {
    pub ram: Seq<u8>,
    pub cart: CartView,
    pub apu: ApuRegs,
    pub ppu: PpuView,
    pub joy: Joy,
    pub last: u8,
}

impl View for Bus {
    type V = BusView;

    open spec fn view(&self) -> BusView {
        BusView {
            ram: self.ram@,
            cart: self.cart@,
            apu: self.apu.regs,
            ppu: self.ppu@,
            joy: self.joy,
            last: self.last,
        }
    }
}

/// Whether register `reg` of the picture processor can be read: the status,
/// object memory and picture memory.
pub open spec fn ppu_readable(reg: u8) -> bool {
    reg == 2 || reg == 4 || reg == 7
}

impl BusView {
    pub open spec fn wf(self) -> bool {
        &&& self.ram.len() == RAM_LEN
        &&& self.cart.wf()
        &&& self.apu.wf()
        &&& self.ppu.wf()
    }

    /// What lies at `addr` for an access without side effects: work memory
    /// and the cartridge as they are, zero for the registers.
    pub open spec fn peek(self, addr: u16) -> u8 {
        if addr < 0x2000 {
            self.ram[(addr % 0x800) as int]
        } else if addr >= 0x4020 {
            self.cart.cpu_read(addr)
        } else {
            0
        }
    }

    /// What the processor reads at `addr`. Work memory repeats every 2 KiB
    /// up to `$1FFF`, the eight registers of the picture processor every
    /// eight bytes up to `$3FFF`; `$4015` is the sound processor's status,
    /// `$4016` and `$4017` are the controller ports; from `$4020` on the
    /// cartridge answers. Where nothing is mapped, and at the registers that
    /// are only written, the read finds the last byte that went over the bus.
    #[verifier::opaque]
    pub open spec fn read_value(self, addr: u16) -> u8 {
        if addr < 0x2000 {
            self.ram[(addr % 0x800) as int]
        } else if addr < 0x4000 {
            if ppu_readable((addr % 8) as u8) {
                self.ppu.reg_read_value(self.cart, (addr % 8) as u8)
            } else {
                self.last
            }
        } else if addr == 0x4015 {
            self.apu.status() as u8
        } else if addr == 0x4016 {
            self.joy.read_value(0)
        } else if addr == 0x4017 {
            self.joy.read_value(1)
        } else if addr >= 0x4020 {
            self.cart.cpu_read(addr)
        } else {
            self.last
        }
    }

    /// The bus after the processor reads at `addr`: the byte read is the
    /// last on the bus, and the registers that react to reads have reacted.
    #[verifier::opaque]
    pub open spec fn after_read(self, addr: u16) -> BusView {
        let seen = BusView { last: self.read_value(addr), ..self };
        if 0x2000 <= addr < 0x4000 && ppu_readable((addr % 8) as u8) {
            BusView {
                ppu: PpuView {
                    regs: self.ppu.after_reg_read(self.cart, (addr % 8) as u8),
                    ..self.ppu
                },
                cart: self.ppu.after_reg_read_cart(self.cart, (addr % 8) as u8),
                ..seen
            }
        } else if addr == 0x4015 {
            BusView { apu: self.apu.status_read(), ..seen }
        } else if addr == 0x4016 {
            BusView { joy: self.joy.after_read(0), ..seen }
        } else if addr == 0x4017 {
            BusView { joy: self.joy.after_read(1), ..seen }
        } else {
            seen
        }
    }

    /// The picture processor after bytes `i` to 255 of page `page` are
    /// stored in object memory through `$2004`.
    pub open spec fn dma_from(self, page: u8, i: int, ppu: PpuView) -> PpuView
        decreases 256 - i,
    {
        if i >= 256 || i < 0 {
            ppu
        } else {
            self.dma_from(page, i + 1, ppu.oam_written(self.peek((page * 256 + i) as u16)))
        }
    }

    /// For how many cycles a write of `val` at `addr` holds the processor:
    /// a write to `$4014` for 513 cycles, and for one more on an odd cycle.
    pub open spec fn write_stall(self, addr: u16) -> int {
        if addr == 0x4014 {
            if self.apu.cycles % 2 == 1 {
                514
            } else {
                513
            }
        } else {
            0
        }
    }

    /// The bus after the processor writes `val` at `addr`. A write to
    /// `$4014` copies the page `val` into object memory, from where `$2003`
    /// points on; `$4016` drives the controllers' strobe; the sound
    /// processor takes `$4000` to `$4013`, `$4015` and `$4017`. A write to
    /// what is not mapped is lost.
    #[verifier::opaque]
    pub open spec fn written(self, addr: u16, val: u8) -> BusView {
        BusView { last: val, ..self.stored(addr, val) }
    }

    /// What a write of `val` at `addr` does to what is mapped there.
    pub open spec fn stored(self, addr: u16, val: u8) -> BusView {
        if addr < 0x2000 {
            BusView { ram: self.ram.update((addr % 0x800) as int, val), ..self }
        } else if addr < 0x4000 {
            BusView {
                ppu: self.ppu.reg_written(self.cart, (addr % 8) as u8, val),
                cart: self.ppu.reg_written_cart(self.cart, (addr % 8) as u8, val),
                ..self
            }
        } else if addr == 0x4014 {
            BusView { ppu: self.dma_from(val, 0, self.ppu), ..self }
        } else if addr == 0x4016 {
            BusView { joy: self.joy.written(val), ..self }
        } else if addr < 0x4018 {
            BusView { apu: self.apu.reg_written((addr - 0x4000) as u8, val), ..self }
        } else if addr >= 0x4020 {
            BusView { cart: self.cart.cpu_written(addr, val), ..self }
        } else {
            self
        }
    }

    /// How far the picture processor and the sound processor have run: dots
    /// and cycles since power-up.
    pub open spec fn clocks(self) -> (u64, u64) {
        (self.ppu.regs.dots, self.apu.cycles)
    }
}

impl Bus {
    /// Wires the console up around a cartridge.
    pub fn new(cart: Cart, apu: Apu, ppu: Ppu, joy: Joy) -> (bus: Bus)
        requires
            cart@.wf(),
            apu.wf(),
            ppu@.wf(),
        ensures
            bus@ == (BusView {
                ram: crate::board::zeros(RAM_LEN as nat),
                cart: cart@,
                apu: apu.regs,
                ppu: ppu@,
                joy,
                last: 0,
            }),
            bus.apu.output == apu.output,
            bus@.wf(),
    {
        Bus { ram: crate::board::zeroed(RAM_LEN), cart, apu, ppu, joy, last: 0 }
    }

    /// Looks at `addr` without side effects.
    pub fn peek(&self, addr: u16) -> (v: u8)
        requires
            self@.wf(),
        ensures
            v == self@.peek(addr),
    {
        if addr < 0x2000 {
            self.ram[(addr % 0x800) as usize]
        } else if addr >= 0x4020 {
            self.cart.cpu_read(addr)
        } else {
            0
        }
    }

    /// Reads at `addr`, as the processor does.
    pub fn read(&mut self, addr: u16) -> (v: u8)
        requires
            old(self)@.wf(),
        ensures
            v == old(self)@.read_value(addr),
            final(self)@ == old(self)@.after_read(addr),
            final(self).apu.output == old(self).apu.output,
            final(self)@.clocks() == old(self)@.clocks(),
            final(self)@.wf(),
    {
        proof {
            reveal(BusView::read_value);
            reveal(BusView::after_read);
        }
        let v = if addr < 0x2000 {
            self.ram[(addr % 0x800) as usize]
        } else if addr < 0x4000 {
            let reg = (addr % 8) as u8;
            if reg == 2 || reg == 4 || reg == 7 {
                self.ppu.read_reg(&mut self.cart, reg)
            } else {
                self.last
            }
        } else if addr == 0x4015 {
            self.apu.read_status()
        } else if addr == 0x4016 {
            self.joy.read(0)
        } else if addr == 0x4017 {
            self.joy.read(1)
        } else if addr >= 0x4020 {
            self.cart.cpu_read(addr)
        } else {
            self.last
        };
        self.last = v;
        v
    }

    /// Copies page `page` into object memory.
    pub fn oam_dma(&mut self, page: u8)
        requires
            old(self)@.wf(),
        ensures
            final(self)@ == (BusView {
                ppu: old(self)@.dma_from(page, 0, old(self)@.ppu),
                ..old(self)@
            }),
            final(self).apu.output == old(self).apu.output,
            final(self)@.clocks() == old(self)@.clocks(),
            final(self)@.wf(),
    {
        let mut i: u16 = 0;
        while i < 256
            invariant
                i <= 256,
                self@.wf(),
                self@ == (BusView { ppu: self@.ppu, ..old(self)@ }),
                self.apu.output == old(self).apu.output,
                self@.clocks() == old(self)@.clocks(),
                old(self)@.dma_from(page, i as int, self@.ppu) == old(self)@.dma_from(
                    page,
                    0,
                    old(self)@.ppu,
                ),
            decreases 256 - i,
        {
            let byte = self.peek((page as u16) * 256 + i);
            self.ppu.write_oam_data(byte);
            i = i + 1;
        }
    }

    /// Hands `val` to what is mapped at `addr`.
    fn store(&mut self, addr: u16, val: u8) -> (stall: u16)
        requires
            old(self)@.wf(),
        ensures
            final(self)@ == old(self)@.stored(addr, val),
            stall == old(self)@.write_stall(addr),
            final(self).apu.output == old(self).apu.output,
            final(self)@.clocks() == old(self)@.clocks(),
            final(self)@.wf(),
    {
        if addr < 0x2000 {
            self.ram[(addr % 0x800) as usize] = val;
            0
        } else if addr < 0x4000 {
            self.ppu.write_reg(&mut self.cart, (addr % 8) as u8, val);
            0
        } else if addr == 0x4014 {
            let odd = self.apu.regs.cycles % 2 == 1;
            self.oam_dma(val);
            if odd {
                514
            } else {
                513
            }
        } else if addr == 0x4016 {
            self.joy.write(val);
            0
        } else if addr < 0x4018 {
            self.apu.write_reg((addr - 0x4000) as u8, val);
            0
        } else if addr >= 0x4020 {
            self.cart.cpu_write(addr, val);
            0
        } else {
            0
        }
    }

    /// Writes `val` at `addr` and reports for how many cycles the write
    /// holds the processor.
    pub fn write(&mut self, addr: u16, val: u8) -> (stall: u16)
        requires
            old(self)@.wf(),
        ensures
            final(self)@ == old(self)@.written(addr, val),
            stall == old(self)@.write_stall(addr),
            final(self).apu.output == old(self).apu.output,
            final(self)@.clocks() == old(self)@.clocks(),
            final(self)@.wf(),
    {
        proof {
            reveal(BusView::written);
        }
        let stall = self.store(addr, val);
        self.last = val;
        stall
    }
}

/// For how long a write holds the processor depends on the bus only
/// through the count of cycles, which no read changes.
pub proof fn lemma_stall_by_address(before: BusView, after: BusView, addr: u16)
    requires
        after.apu.cycles == before.apu.cycles,
    ensures
        after.write_stall(addr) == before.write_stall(addr),
        0 <= before.write_stall(addr) <= 514,
{
}

/// Where nothing is mapped, a read finds the byte that was last read or
/// written anywhere.
pub proof fn lemma_open_bus(bus: BusView, addr: u16, val: u8, unmapped: u16)
    requires
        0x4018 <= unmapped < 0x4020 || (0x4000 <= unmapped < 0x4015),
    ensures
        bus.written(addr, val).read_value(unmapped) == val,
        bus.after_read(addr).read_value(unmapped) == bus.read_value(addr),
{
    reveal(BusView::read_value);
    reveal(BusView::written);
    reveal(BusView::after_read);
}

/// A read leaves the count of cycles as it is.
pub proof fn lemma_read_keeps_cycles(bus: BusView, addr: u16)
    ensures
        bus.after_read(addr).apu.cycles == bus.apu.cycles,
{
    reveal(BusView::after_read);
}

/// Below `$2000` a read finds work memory, at the address modulo 2 KiB.
pub proof fn lemma_ram_read(bus: BusView, addr: u16)
    requires
        addr < 0x2000,
    ensures
        bus.read_value(addr) == bus.ram[(addr % 0x800) as int],
{
    reveal(BusView::read_value);
}

/// Below `$2000` a write changes work memory, at the address modulo 2 KiB.
pub proof fn lemma_ram_write(bus: BusView, addr: u16, val: u8)
    requires
        addr < 0x2000,
    ensures
        bus.written(addr, val).ram == bus.ram.update((addr % 0x800) as int, val),
{
    reveal(BusView::written);
}

/// A byte written to work memory is read back at every mirror of its address.
pub proof fn lemma_ram_mirrors(bus: BusView, addr: u16, val: u8, k: u16)
    requires
        bus.wf(),
        addr < 0x800,
        k < 4,
    ensures
        bus.written(addr, val).read_value((addr + 0x800 * k) as u16) == val,
        bus.written((addr + 0x800 * k) as u16, val).read_value(addr) == val,
{
    let mirror = (addr + 0x800 * k) as u16;
    assert(mirror < 0x2000);
    assert(mirror % 0x800 == addr) by {
        if k == 0 {
        } else if k == 1 {
        } else if k == 2 {
        } else {
        }
    }
    lemma_ram_write(bus, addr, val);
    lemma_ram_write(bus, mirror, val);
    lemma_ram_read(bus.written(addr, val), mirror);
    lemma_ram_read(bus.written(mirror, val), addr);
}

/// How far the object memory address `a` lies behind `start`, going up
/// and around.
pub open spec fn behind(a: int, start: int) -> int {
    (a - start) % 256
}

/// The transfer of the bytes from number `i` on, into object memory that
/// points at `start + i`, fills the entries that lie `i` or more behind
/// `start` and leaves the others.
proof fn lemma_dma_from(bus: BusView, page: u8, start: u8, i: int, ppu: PpuView)
    requires
        0 <= i <= 256,
        ppu.oam.len() == 256,
        ppu.regs.oam_addr == (start + i) % 256,
    ensures
        bus.dma_from(page, i, ppu).oam.len() == 256,
        bus.dma_from(page, i, ppu).regs.oam_addr == start,
        forall|a: int|
            0 <= a < 256 ==> #[trigger] bus.dma_from(page, i, ppu).oam[a] == (if behind(a, start as int)
                >= i {
                crate::ppu::oam_kept(
                    a as u8,
                    bus.peek((page * 256 + behind(a, start as int)) as u16),
                )
            } else {
                ppu.oam[a]
            }),
    decreases 256 - i,
{
    if i < 256 {
        let at = ppu.regs.oam_addr as int;
        assert(behind(at, start as int) == i);
        let next = ppu.oam_written(bus.peek((page * 256 + i) as u16));
        assert(next.regs.oam_addr == (start + i + 1) % 256);
        lemma_dma_from(bus, page, start, i + 1, next);
        assert forall|a: int| 0 <= a < 256 implies #[trigger] bus.dma_from(page, i, ppu).oam[a] == (
        if behind(a, start as int) >= i {
            crate::ppu::oam_kept(a as u8, bus.peek((page * 256 + behind(a, start as int)) as u16))
        } else {
            ppu.oam[a]
        }) by {
            if a != at {
                assert(behind(a, start as int) != i);
            }
        }
    }
}

/// A write to `$4014` fills all of object memory from the page written:
/// byte number `n` of the page lands `n` entries behind where `$2003`
/// points, as object memory keeps it, and `$2003` points where it did.
pub proof fn lemma_dma_fills_oam(bus: BusView, page: u8)
    requires
        bus.wf(),
    ensures
        bus.written(0x4014, page).ppu.regs.oam_addr == bus.ppu.regs.oam_addr,
        forall|a: int|
            0 <= a < 256 ==> #[trigger] bus.written(0x4014, page).ppu.oam[a] == crate::ppu::oam_kept(
                a as u8,
                bus.peek((page * 256 + behind(a, bus.ppu.regs.oam_addr as int)) as u16),
            ),
        bus.write_stall(0x4014) == 513 || bus.write_stall(0x4014) == 514,
{
    reveal(BusView::written);
    lemma_dma_from(bus, page, bus.ppu.regs.oam_addr, 0, bus.ppu);
}

} // verus!
