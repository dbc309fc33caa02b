//! Mapper state: the bank registers of the supported boards, what a write
//! into the cartridge window does to them, and the bank that each address
//! selects.

use crate::cart::Mirroring;
use vstd::prelude::*;

verus! {

/// MMC1 (SxROM): a five-bit serial port in front of four registers.
#[derive(Clone, Copy, Debug)]
pub struct Mmc1 {
    /// The bits shifted in so far, first bit lowest.
    pub shift: u8,
    /// How many bits were shifted in, below 5.
    pub count: u8,
    pub control: u8,
    pub chr_bank0: u8,
    pub chr_bank1: u8,
    pub prg_bank: u8,
}

/// MMC3 (TxROM): eight bank registers and a scanline counter.
#[derive(Clone, Copy, Debug)]
pub struct Mmc3 {
    pub bank_select: u8,
    pub r0: u8,
    pub r1: u8,
    pub r2: u8,
    pub r3: u8,
    pub r4: u8,
    pub r5: u8,
    pub r6: u8,
    pub r7: u8,
    pub horizontal: bool,
    pub ram_protect: u8,
    pub irq_latch: u8,
    pub irq_counter: u8,
    pub irq_reload: bool,
    pub irq_enable: bool,
    pub irq_pending: bool,
    /// The level of address line 12 at the last picture access.
    pub last_a12: bool,
}

/// The bank registers and counters of a board.
#[derive(Clone, Copy, Debug)]
pub enum Mapper {
    Nrom,
    Mmc1(Mmc1),
    Uxrom { bank: u8 },
    Cnrom { bank: u8 },
    Mmc3(Mmc3),
}

impl Mmc1 {
    /// The state at power-up: the last program bank fixed at `$C000`.
    pub open spec fn power_up() -> Mmc1 {
        Mmc1 { shift: 0, count: 0, control: 0x0C, chr_bank0: 0, chr_bank1: 0, prg_bank: 0 }
    }

    /// The serial port after the write of `val` at `addr`. A value of 128 or
    /// more clears the port and fixes the last bank; otherwise the lowest bit
    /// of `val` is shifted in, and the fifth bit loads the register that bits
    /// 13 and 14 of `addr` select.
    pub open spec fn written(self, addr: u16, val: u8) -> Mmc1 {
        if val >= 128 {
            Mmc1 { shift: 0, count: 0, control: self.control | 0x0C, ..self }
        } else {
            let value = (self.shift % 16 + (val % 2) * pow2_small(self.count)) as u8;
            if self.count < 4 {
                Mmc1 { shift: value, count: (self.count + 1) as u8, ..self }
            } else {
                let cleared = Mmc1 { shift: 0, count: 0, ..self };
                match (addr / 0x2000) % 4 {
                    0 => Mmc1 { control: value, ..cleared },
                    1 => Mmc1 { chr_bank0: value, ..cleared },
                    2 => Mmc1 { chr_bank1: value, ..cleared },
                    _ => Mmc1 { prg_bank: value, ..cleared },
                }
            }
        }
    }

    /// Fewer than five bits are pending, and nothing lies above them.
    pub open spec fn wf(self) -> bool {
        self.count < 5 && self.shift < pow2_small(self.count)
    }

    /// Computes `written`.
    pub fn write(self, addr: u16, val: u8) -> (out: Mmc1)
        requires
            self.wf(),
        ensures
            out == self.written(addr, val),
            out.wf(),
    {
        if val >= 128 {
            Mmc1 { shift: 0, count: 0, control: self.control | 0x0C, ..self }
        } else {
            let weight: u8 = weight_of(self.count);
            let value: u8 = self.shift % 16 + (val % 2) * weight;
            if self.count < 4 {
                Mmc1 { shift: value, count: self.count + 1, ..self }
            } else {
                let cleared = Mmc1 { shift: 0, count: 0, ..self };
                match (addr / 0x2000) % 4 {
                    0 => Mmc1 { control: value, ..cleared },
                    1 => Mmc1 { chr_bank0: value, ..cleared },
                    2 => Mmc1 { chr_bank1: value, ..cleared },
                    _ => Mmc1 { prg_bank: value, ..cleared },
                }
            }
        }
    }

    /// The mirroring that the control register selects.
    pub open spec fn mirroring(self) -> Mirroring {
        match self.control % 4 {
            0 => Mirroring::SingleLower,
            1 => Mirroring::SingleUpper,
            2 => Mirroring::Vertical,
            _ => Mirroring::Horizontal,
        }
    }

    /// The 16 KiB program bank at `addr`, which is at or above `$8000`, on a
    /// board with `banks` banks.
    pub open spec fn prg_bank_at(self, addr: u16, banks: int) -> int {
        let mode = (self.control / 4) % 4;
        let bank = self.prg_bank % 16;
        let upper = addr >= 0xC000;
        if mode < 2 {
            (bank / 2) * 2 + if upper {
                1int
            } else {
                0int
            }
        } else if mode == 2 {
            if upper {
                bank as int
            } else {
                0
            }
        } else {
            if upper {
                banks - 1
            } else {
                bank as int
            }
        }
    }

    /// The 4 KiB picture bank at `addr`, which is below `$2000`.
    pub open spec fn chr_bank_at(self, addr: u16) -> int {
        let upper = addr >= 0x1000;
        if (self.control / 16) % 2 == 0 {
            (self.chr_bank0 / 2) * 2 + if upper {
                1int
            } else {
                0int
            }
        } else if upper {
            self.chr_bank1 as int
        } else {
            self.chr_bank0 as int
        }
    }
}

/// Two to the power `n`, for `n` up to 4.
pub open spec fn pow2_small(n: u8) -> int {
    if n == 0 {
        1
    } else if n == 1 {
        2
    } else if n == 2 {
        4
    } else if n == 3 {
        8
    } else {
        16
    }
}

/// Computes `pow2_small`.
pub fn weight_of(n: u8) -> (w: u8)
    ensures
        w == pow2_small(n),
{
    if n == 0 {
        1
    } else if n == 1 {
        2
    } else if n == 2 {
        4
    } else if n == 3 {
        8
    } else {
        16
    }
}

impl Mmc3 {
    pub open spec fn power_up() -> Mmc3 {
        Mmc3 {
            bank_select: 0,
            r0: 0,
            r1: 2,
            r2: 4,
            r3: 5,
            r4: 6,
            r5: 7,
            r6: 0,
            r7: 1,
            horizontal: false,
            ram_protect: 0,
            irq_latch: 0,
            irq_counter: 0,
            irq_reload: false,
            irq_enable: false,
            irq_pending: false,
            last_a12: false,
        }
    }

    /// The state with bank register `i` set to `v`.
    pub open spec fn with_reg(self, i: int, v: u8) -> Mmc3 {
        if i == 0 {
            Mmc3 { r0: v, ..self }
        } else if i == 1 {
            Mmc3 { r1: v, ..self }
        } else if i == 2 {
            Mmc3 { r2: v, ..self }
        } else if i == 3 {
            Mmc3 { r3: v, ..self }
        } else if i == 4 {
            Mmc3 { r4: v, ..self }
        } else if i == 5 {
            Mmc3 { r5: v, ..self }
        } else if i == 6 {
            Mmc3 { r6: v, ..self }
        } else {
            Mmc3 { r7: v, ..self }
        }
    }

    /// Computes `with_reg`.
    pub fn set_reg(self, i: u8, v: u8) -> (out: Mmc3)
        ensures
            out == self.with_reg(i as int, v),
    {
        if i == 0 {
            Mmc3 { r0: v, ..self }
        } else if i == 1 {
            Mmc3 { r1: v, ..self }
        } else if i == 2 {
            Mmc3 { r2: v, ..self }
        } else if i == 3 {
            Mmc3 { r3: v, ..self }
        } else if i == 4 {
            Mmc3 { r4: v, ..self }
        } else if i == 5 {
            Mmc3 { r5: v, ..self }
        } else if i == 6 {
            Mmc3 { r6: v, ..self }
        } else {
            Mmc3 { r7: v, ..self }
        }
    }

    /// The registers after the write of `val` at `addr`, which is at or above
    /// `$8000`. Address bits 13 and 14 select a register pair, bit 0 the
    /// register of the pair.
    pub open spec fn written(self, addr: u16, val: u8) -> Mmc3 {
        let odd = addr % 2 == 1;
        match (addr / 0x2000) % 4 {
            0 => if odd {
                self.with_reg((self.bank_select % 8) as int, val)
            } else {
                Mmc3 { bank_select: val, ..self }
            },
            1 => if odd {
                Mmc3 { ram_protect: val, ..self }
            } else {
                Mmc3 { horizontal: val % 2 == 1, ..self }
            },
            2 => if odd {
                Mmc3 { irq_counter: 0, irq_reload: true, ..self }
            } else {
                Mmc3 { irq_latch: val, ..self }
            },
            _ => if odd {
                Mmc3 { irq_enable: true, ..self }
            } else {
                Mmc3 { irq_enable: false, irq_pending: false, ..self }
            },
        }
    }

    /// Computes `written`.
    pub fn write(self, addr: u16, val: u8) -> (out: Mmc3)
        ensures
            out == self.written(addr, val),
    {
        let odd = addr % 2 == 1;
        match (addr / 0x2000) % 4 {
            0 => if odd {
                self.set_reg(self.bank_select % 8, val)
            } else {
                Mmc3 { bank_select: val, ..self }
            },
            1 => if odd {
                Mmc3 { ram_protect: val, ..self }
            } else {
                Mmc3 { horizontal: val % 2 == 1, ..self }
            },
            2 => if odd {
                Mmc3 { irq_counter: 0, irq_reload: true, ..self }
            } else {
                Mmc3 { irq_latch: val, ..self }
            },
            _ => if odd {
                Mmc3 { irq_enable: true, ..self }
            } else {
                Mmc3 { irq_enable: false, irq_pending: false, ..self }
            },
        }
    }

    /// The scanline counter after one clock: it reloads from the latch when
    /// it is zero or a reload was asked for, and counts down otherwise;
    /// reaching zero with interrupts enabled raises the interrupt.
    pub open spec fn clocked(self) -> Mmc3 {
        let counter = if self.irq_counter == 0 || self.irq_reload {
            self.irq_latch
        } else {
            (self.irq_counter - 1) as u8
        };
        Mmc3 {
            irq_counter: counter,
            irq_reload: false,
            irq_pending: self.irq_pending || (counter == 0 && self.irq_enable),
            ..self
        }
    }

    /// Computes `clocked`.
    pub fn clock(self) -> (out: Mmc3)
        ensures
            out == self.clocked(),
    {
        let counter = if self.irq_counter == 0 || self.irq_reload {
            self.irq_latch
        } else {
            self.irq_counter - 1
        };
        Mmc3 {
            irq_counter: counter,
            irq_reload: false,
            irq_pending: self.irq_pending || (counter == 0 && self.irq_enable),
            ..self
        }
    }

    /// The state after the picture processor puts `addr` on its bus: a rise
    /// of address line 12 clocks the scanline counter.
    pub open spec fn notified(self, addr: u16) -> Mmc3 {
        let a12 = (addr / 0x1000) % 2 == 1;
        let next = if a12 && !self.last_a12 {
            self.clocked()
        } else {
            self
        };
        Mmc3 { last_a12: a12, ..next }
    }

    /// Computes `notified`.
    pub fn notify(self, addr: u16) -> (out: Mmc3)
        ensures
            out == self.notified(addr),
    {
        let a12 = (addr / 0x1000) % 2 == 1;
        let next = if a12 && !self.last_a12 {
            self.clock()
        } else {
            self
        };
        Mmc3 { last_a12: a12, ..next }
    }

    /// The 8 KiB program bank at `addr`, which is at or above `$8000`, on a
    /// board with `banks` such banks.
    pub open spec fn prg_bank_at(self, addr: u16, banks: int) -> int {
        let slot = (addr / 0x2000) % 4;
        let swapped = (self.bank_select / 64) % 2 == 1;
        if slot == 3 {
            banks - 1
        } else if slot == 1 {
            (self.r7 % 64) as int
        } else if (slot == 0) == swapped {
            banks - 2
        } else {
            (self.r6 % 64) as int
        }
    }

    /// The 1 KiB picture bank at `addr`, which is below `$2000`.
    pub open spec fn chr_bank_at(self, addr: u16) -> int {
        let inverted = self.bank_select >= 128;
        let slot = (addr / 0x400) % 8;
        let slot = if inverted {
            (slot + 4) % 8
        } else {
            slot as int
        };
        if slot == 0 {
            (self.r0 / 2) * 2
        } else if slot == 1 {
            (self.r0 / 2) * 2 + 1
        } else if slot == 2 {
            (self.r1 / 2) * 2
        } else if slot == 3 {
            (self.r1 / 2) * 2 + 1
        } else if slot == 4 {
            self.r2 as int
        } else if slot == 5 {
            self.r3 as int
        } else if slot == 6 {
            self.r4 as int
        } else {
            self.r5 as int
        }
    }
}

impl Mapper {
    /// The mapper state of a fresh board of family `id`.
    pub open spec fn power_up(id: u8) -> Mapper {
        if id == 1 {
            Mapper::Mmc1(Mmc1::power_up())
        } else if id == 2 {
            Mapper::Uxrom { bank: 0 }
        } else if id == 3 {
            Mapper::Cnrom { bank: 0 }
        } else if id == 4 {
            Mapper::Mmc3(Mmc3::power_up())
        } else {
            Mapper::Nrom
        }
    }

    /// The registers of a fresh board of family `id`.
    pub fn new(id: u8) -> (m: Mapper)
        ensures
            m == Mapper::power_up(id),
            m.wf(),
    {
        if id == 1 {
            Mapper::Mmc1(
                Mmc1 { shift: 0, count: 0, control: 0x0C, chr_bank0: 0, chr_bank1: 0, prg_bank: 0 },
            )
        } else if id == 2 {
            Mapper::Uxrom { bank: 0 }
        } else if id == 3 {
            Mapper::Cnrom { bank: 0 }
        } else if id == 4 {
            Mapper::Mmc3(
                Mmc3 {
                    bank_select: 0,
                    r0: 0,
                    r1: 2,
                    r2: 4,
                    r3: 5,
                    r4: 6,
                    r5: 7,
                    r6: 0,
                    r7: 1,
                    horizontal: false,
                    ram_protect: 0,
                    irq_latch: 0,
                    irq_counter: 0,
                    irq_reload: false,
                    irq_enable: false,
                    irq_pending: false,
                    last_a12: false,
                },
            )
        } else {
            Mapper::Nrom
        }
    }

    pub open spec fn wf(self) -> bool {
        self matches Mapper::Mmc1(m) ==> m.wf()
    }

    /// The family number of the board.
    pub open spec fn id(self) -> u8 {
        match self {
            Mapper::Nrom => 0,
            Mapper::Mmc1(_) => 1,
            Mapper::Uxrom { .. } => 2,
            Mapper::Cnrom { .. } => 3,
            Mapper::Mmc3(_) => 4,
        }
    }

    /// Computes `id`.
    pub fn family(self) -> (id: u8)
        ensures
            id == self.id(),
    {
        match self {
            Mapper::Nrom => 0,
            Mapper::Mmc1(_) => 1,
            Mapper::Uxrom { .. } => 2,
            Mapper::Cnrom { .. } => 3,
            Mapper::Mmc3(_) => 4,
        }
    }

    /// The registers after the processor writes `val` at `addr`, which is at
    /// or above `$8000`.
    pub open spec fn written(self, addr: u16, val: u8) -> Mapper {
        match self {
            Mapper::Nrom => self,
            Mapper::Mmc1(m) => Mapper::Mmc1(m.written(addr, val)),
            Mapper::Uxrom { .. } => Mapper::Uxrom { bank: val },
            Mapper::Cnrom { .. } => Mapper::Cnrom { bank: val },
            Mapper::Mmc3(m) => Mapper::Mmc3(m.written(addr, val)),
        }
    }

    /// Computes `written`.
    pub fn write(self, addr: u16, val: u8) -> (out: Mapper)
        requires
            self.wf(),
        ensures
            out == self.written(addr, val),
            out.wf(),
    {
        match self {
            Mapper::Nrom => self,
            Mapper::Mmc1(m) => Mapper::Mmc1(m.write(addr, val)),
            Mapper::Uxrom { .. } => Mapper::Uxrom { bank: val },
            Mapper::Cnrom { .. } => Mapper::Cnrom { bank: val },
            Mapper::Mmc3(m) => Mapper::Mmc3(m.write(addr, val)),
        }
    }

    /// The registers after the picture processor puts `addr` on its bus.
    pub open spec fn notified(self, addr: u16) -> Mapper {
        match self {
            Mapper::Mmc3(m) => Mapper::Mmc3(m.notified(addr)),
            _ => self,
        }
    }

    /// Computes `notified`.
    pub fn notify(self, addr: u16) -> (out: Mapper)
        requires
            self.wf(),
        ensures
            out == self.notified(addr),
            out.wf(),
    {
        match self {
            Mapper::Mmc3(m) => Mapper::Mmc3(m.notify(addr)),
            _ => self,
        }
    }

    /// Whether the board asks for an interrupt.
    pub open spec fn irq(self) -> bool {
        self matches Mapper::Mmc3(m) && m.irq_pending
    }

    /// Computes `irq`.
    pub fn irq_pending(self) -> (pending: bool)
        ensures
            pending == self.irq(),
    {
        match self {
            Mapper::Mmc3(m) => m.irq_pending,
            _ => false,
        }
    }

    /// The mirroring in force, where `wired` is what the cartridge header asks for.
    pub open spec fn mirroring(self, wired: Mirroring) -> Mirroring {
        match self {
            Mapper::Mmc1(m) => m.mirroring(),
            Mapper::Mmc3(m) => if wired == Mirroring::FourScreen {
                wired
            } else if m.horizontal {
                Mirroring::Horizontal
            } else {
                Mirroring::Vertical
            },
            _ => wired,
        }
    }

    /// Computes `mirroring`.
    pub fn current_mirroring(self, wired: Mirroring) -> (out: Mirroring)
        ensures
            out == self.mirroring(wired),
    {
        match self {
            Mapper::Mmc1(m) => match m.control % 4 {
                0 => Mirroring::SingleLower,
                1 => Mirroring::SingleUpper,
                2 => Mirroring::Vertical,
                _ => Mirroring::Horizontal,
            },
            Mapper::Mmc3(m) => match wired {
                Mirroring::FourScreen => wired,
                _ => if m.horizontal {
                    Mirroring::Horizontal
                } else {
                    Mirroring::Vertical
                },
            },
            _ => wired,
        }
    }

    /// The offset into the program memory of `len` bytes that the processor
    /// address `addr`, at or above `$8000`, selects. `len` is a positive
    /// multiple of 16 KiB; a bank number beyond the memory wraps around.
    #[verifier::opaque]
    pub open spec fn prg_offset(self, addr: u16, len: int) -> int {
        match self {
            Mapper::Nrom | Mapper::Cnrom { .. } => (addr - 0x8000) % len,
            Mapper::Uxrom { bank } => {
                let chosen = if addr >= 0xC000 {
                    len / 0x4000 - 1
                } else {
                    bank as int
                };
                (chosen * 0x4000 + addr % 0x4000) % len
            },
            Mapper::Mmc1(m) => (m.prg_bank_at(addr, len / 0x4000) * 0x4000 + addr % 0x4000) % len,
            Mapper::Mmc3(m) => (m.prg_bank_at(addr, len / 0x2000) * 0x2000 + addr % 0x2000) % len,
        }
    }

    /// The offset into the picture memory of `len` bytes that the picture
    /// address `addr`, below `$2000`, selects. `len` is a positive multiple
    /// of 8 KiB.
    #[verifier::opaque]
    pub open spec fn chr_offset(self, addr: u16, len: int) -> int {
        match self {
            Mapper::Nrom | Mapper::Uxrom { .. } => (addr as int) % len,
            Mapper::Cnrom { bank } => (bank * 0x2000 + addr) % len,
            Mapper::Mmc1(m) => (m.chr_bank_at(addr) * 0x1000 + addr % 0x1000) % len,
            Mapper::Mmc3(m) => (m.chr_bank_at(addr) * 0x400 + addr % 0x400) % len,
        }
    }
}

/// The exec counterpart of [`Mmc1::prg_bank_at`].
pub fn mmc1_prg_bank(m: Mmc1, addr: u16, banks: usize) -> (bank: usize)
    requires
        1 <= banks <= 255,
    ensures
        bank == m.prg_bank_at(addr, banks as int),
        bank < 256,
{
    let mode = (m.control / 4) % 4;
    let bank = (m.prg_bank % 16) as usize;
    let upper = addr >= 0xC000;
    if mode < 2 {
        (bank / 2) * 2 + if upper {
            1
        } else {
            0
        }
    } else if mode == 2 {
        if upper {
            bank
        } else {
            0
        }
    } else {
        if upper {
            banks - 1
        } else {
            bank
        }
    }
}

/// The exec counterpart of [`Mmc1::chr_bank_at`].
pub fn mmc1_chr_bank(m: Mmc1, addr: u16) -> (bank: usize)
    ensures
        bank == m.chr_bank_at(addr),
        bank < 256,
{
    let upper = addr >= 0x1000;
    if (m.control / 16) % 2 == 0 {
        ((m.chr_bank0 / 2) as usize) * 2 + if upper {
            1
        } else {
            0
        }
    } else if upper {
        m.chr_bank1 as usize
    } else {
        m.chr_bank0 as usize
    }
}

/// The exec counterpart of [`Mmc3::prg_bank_at`].
pub fn mmc3_prg_bank(m: Mmc3, addr: u16, banks: usize) -> (bank: usize)
    requires
        2 <= banks <= 510,
    ensures
        bank == m.prg_bank_at(addr, banks as int),
        bank < 510,
{
    let slot = (addr / 0x2000) % 4;
    let swapped = (m.bank_select / 64) % 2 == 1;
    if slot == 3 {
        banks - 1
    } else if slot == 1 {
        (m.r7 % 64) as usize
    } else if (slot == 0) == swapped {
        banks - 2
    } else {
        (m.r6 % 64) as usize
    }
}

/// The exec counterpart of [`Mmc3::chr_bank_at`].
pub fn mmc3_chr_bank(m: Mmc3, addr: u16) -> (bank: usize)
    ensures
        bank == m.chr_bank_at(addr),
        bank < 256,
{
    let inverted = m.bank_select >= 128;
    let slot = (addr / 0x400) % 8;
    let slot = if inverted {
        (slot + 4) % 8
    } else {
        slot
    };
    if slot == 0 {
        ((m.r0 / 2) as usize) * 2
    } else if slot == 1 {
        ((m.r0 / 2) as usize) * 2 + 1
    } else if slot == 2 {
        ((m.r1 / 2) as usize) * 2
    } else if slot == 3 {
        ((m.r1 / 2) as usize) * 2 + 1
    } else if slot == 4 {
        m.r2 as usize
    } else if slot == 5 {
        m.r3 as usize
    } else if slot == 6 {
        m.r4 as usize
    } else {
        m.r5 as usize
    }
}

impl Mapper {
    /// Computes [`Mapper::prg_offset`].
    pub fn prg_index(self, addr: u16, len: usize) -> (i: usize)
        requires
            addr >= 0x8000,
            0 < len <= 255 * 0x4000,
            len % 0x4000 == 0,
        ensures
            i == self.prg_offset(addr, len as int),
            i < len,
    {
        proof {
            reveal(Mapper::prg_offset);
        }
        match self {
            Mapper::Nrom | Mapper::Cnrom { .. } => ((addr - 0x8000) as usize) % len,
            Mapper::Uxrom { bank } => {
                let chosen: usize = if addr >= 0xC000 {
                    len / 0x4000 - 1
                } else {
                    bank as usize
                };
                (chosen * 0x4000 + (addr % 0x4000) as usize) % len
            },
            Mapper::Mmc1(m) => {
                let bank = mmc1_prg_bank(m, addr, len / 0x4000);
                (bank * 0x4000 + (addr % 0x4000) as usize) % len
            },
            Mapper::Mmc3(m) => {
                let bank = mmc3_prg_bank(m, addr, len / 0x2000);
                (bank * 0x2000 + (addr % 0x2000) as usize) % len
            },
        }
    }

    /// Computes [`Mapper::chr_offset`].
    pub fn chr_index(self, addr: u16, len: usize) -> (i: usize)
        requires
            addr < 0x2000,
            0 < len <= 255 * 0x2000,
        ensures
            i == self.chr_offset(addr, len as int),
            i < len,
    {
        proof {
            reveal(Mapper::chr_offset);
        }
        match self {
            Mapper::Nrom | Mapper::Uxrom { .. } => (addr as usize) % len,
            Mapper::Cnrom { bank } => ((bank as usize) * 0x2000 + addr as usize) % len,
            Mapper::Mmc1(m) => {
                let bank = mmc1_chr_bank(m, addr);
                (bank * 0x1000 + (addr % 0x1000) as usize) % len
            },
            Mapper::Mmc3(m) => {
                let bank = mmc3_chr_bank(m, addr);
                (bank * 0x400 + (addr % 0x400) as usize) % len
            },
        }
    }
}

/// Where a nametable address lands in the four kilobytes of nametable
/// memory: the console's own two, and the two that a four-screen board adds.
pub open spec fn nametable_offset(mirroring: Mirroring, addr: u16) -> int {
    let table = ((addr / 0x400) % 4) as int;
    let page = match mirroring {
        Mirroring::Horizontal => table / 2,
        Mirroring::Vertical => table % 2,
        Mirroring::SingleLower => 0,
        Mirroring::SingleUpper => 1,
        Mirroring::FourScreen => table,
    };
    page * 0x400 + addr % 0x400
}

/// Computes `nametable_offset`.
pub fn nametable_index(mirroring: Mirroring, addr: u16) -> (i: usize)
    ensures
        i == nametable_offset(mirroring, addr),
        i < 0x1000,
        mirroring != Mirroring::FourScreen ==> i < 0x800,
{
    let table = ((addr / 0x400) % 4) as usize;
    let page: usize = match mirroring {
        Mirroring::Horizontal => table / 2,
        Mirroring::Vertical => table % 2,
        Mirroring::SingleLower => 0,
        Mirroring::SingleUpper => 1,
        Mirroring::FourScreen => table,
    };
    page * 0x400 + (addr % 0x400) as usize
}

/// The scanline counter after `n` clocks.
pub open spec fn clocked_by(m: Mmc3, n: nat) -> Mmc3
    decreases n,
{
    if n == 0 {
        m
    } else {
        clocked_by(m, (n - 1) as nat).clocked()
    }
}

/// A counter that holds `c` and is not about to reload counts down to zero
/// in `c` clocks, raises the interrupt on the last of them if enabled, and
/// not before.
pub proof fn lemma_counter_counts_down(m: Mmc3, n: nat)
    requires
        !m.irq_reload,
        !m.irq_pending,
        m.irq_counter > 0,
        n <= m.irq_counter,
    ensures
        clocked_by(m, n).irq_counter == m.irq_counter - n,
        !clocked_by(m, n).irq_reload,
        clocked_by(m, n).irq_enable == m.irq_enable,
        clocked_by(m, n).irq_latch == m.irq_latch,
        clocked_by(m, n).irq_pending == (m.irq_enable && n == m.irq_counter),
    decreases n,
{
    if n > 0 {
        lemma_counter_counts_down(m, (n - 1) as nat);
    }
}

/// With the latch at `m.irq_latch`, above zero, and the counter empty or
/// about to reload, the interrupt is raised on clock number
/// `m.irq_latch + 1`, if enabled, and on none before: the first clock loads
/// the counter from the latch, the others count it down. A write to an even
/// address from `$E000` on then acknowledges it.
pub proof fn lemma_mmc3_irq(m: Mmc3, n: nat, addr: u16, val: u8)
    requires
        m.irq_counter == 0 || m.irq_reload,
        m.irq_latch > 0,
        !m.irq_pending,
        m.irq_enable,
        addr >= 0xE000,
        addr % 2 == 0,
    ensures
        clocked_by(m, (m.irq_latch + 1) as nat).irq_pending,
        0 < n <= m.irq_latch ==> !clocked_by(m, n).irq_pending,
        !clocked_by(m, (m.irq_latch + 1) as nat).written(addr, val).irq_pending,
{
    let first = m.clocked();
    assert(clocked_by(m, 1) == first) by {
        reveal_with_fuel(clocked_by, 2);
    }
    lemma_clocks_add(m, 1, m.irq_latch as nat);
    lemma_counter_counts_down(first, m.irq_latch as nat);
    if 0 < n <= m.irq_latch {
        lemma_clocks_add(m, 1, (n - 1) as nat);
        lemma_counter_counts_down(first, (n - 1) as nat);
    }
}

/// `a + b` clocks are `a` clocks and then `b`.
pub proof fn lemma_clocks_add(m: Mmc3, a: nat, b: nat)
    ensures
        clocked_by(m, a + b) == clocked_by(clocked_by(m, a), b),
    decreases b,
{
    if b > 0 {
        lemma_clocks_add(m, a, (b - 1) as nat);
        assert((a + b - 1) as nat == a + (b - 1) as nat);
    }
}

/// The flags of the MMC3 packed in a byte: mirroring in bit 0, then the
/// reload, enable and pending flags of the counter, then the level of
/// address line 12.
pub open spec fn mmc3_flags(m: Mmc3) -> int {
    (if m.horizontal {
        1int
    } else {
        0
    }) + (if m.irq_reload {
        2int
    } else {
        0
    }) + (if m.irq_enable {
        4int
    } else {
        0
    }) + (if m.irq_pending {
        8int
    } else {
        0
    }) + (if m.last_a12 {
        16int
    } else {
        0
    })
}

impl Mapper {
    /// The registers as bytes: the family number, then the registers of
    /// the family in the order of their declaration, with the flags of the
    /// MMC3 packed in one byte behind its bank registers.
    pub open spec fn saved(self) -> Seq<u8> {
        match self {
            Mapper::Nrom => seq![0u8],
            Mapper::Mmc1(m) => seq![
                1u8,
                m.shift,
                m.count,
                m.control,
                m.chr_bank0,
                m.chr_bank1,
                m.prg_bank,
            ],
            Mapper::Uxrom { bank } => seq![2u8, bank],
            Mapper::Cnrom { bank } => seq![3u8, bank],
            Mapper::Mmc3(m) => seq![
                4u8,
                m.bank_select,
                m.r0,
                m.r1,
                m.r2,
                m.r3,
                m.r4,
                m.r5,
                m.r6,
                m.r7,
                mmc3_flags(m) as u8,
                m.ram_protect,
                m.irq_latch,
                m.irq_counter,
            ],
        }
    }

    /// The registers that `bytes` hold, if they are what [`Mapper::saved`]
    /// makes of well-formed registers.
    pub open spec fn loaded(bytes: Seq<u8>) -> Option<Mapper> {
        if bytes.len() == 1 && bytes[0] == 0 {
            Some(Mapper::Nrom)
        } else if bytes.len() == 7 && bytes[0] == 1 {
            let m = Mmc1 {
                shift: bytes[1],
                count: bytes[2],
                control: bytes[3],
                chr_bank0: bytes[4],
                chr_bank1: bytes[5],
                prg_bank: bytes[6],
            };
            if m.wf() {
                Some(Mapper::Mmc1(m))
            } else {
                None
            }
        } else if bytes.len() == 2 && bytes[0] == 2 {
            Some(Mapper::Uxrom { bank: bytes[1] })
        } else if bytes.len() == 2 && bytes[0] == 3 {
            Some(Mapper::Cnrom { bank: bytes[1] })
        } else if bytes.len() == 14 && bytes[0] == 4 && bytes[10] < 32 {
            let f = bytes[10];
            Some(
                Mapper::Mmc3(
                    Mmc3 {
                        bank_select: bytes[1],
                        r0: bytes[2],
                        r1: bytes[3],
                        r2: bytes[4],
                        r3: bytes[5],
                        r4: bytes[6],
                        r5: bytes[7],
                        r6: bytes[8],
                        r7: bytes[9],
                        horizontal: f % 2 == 1,
                        ram_protect: bytes[11],
                        irq_latch: bytes[12],
                        irq_counter: bytes[13],
                        irq_reload: (f / 2) % 2 == 1,
                        irq_enable: (f / 4) % 2 == 1,
                        irq_pending: (f / 8) % 2 == 1,
                        last_a12: (f / 16) % 2 == 1,
                    },
                ),
            )
        } else {
            None
        }
    }

    /// Writes the registers out.
    pub fn save(&self) -> (bytes: Vec<u8>)
        ensures
            bytes@ == self.saved(),
    {
        let mut bytes: Vec<u8> = Vec::new();
        match self {
            Mapper::Nrom => {
                bytes.push(0);
            },
            Mapper::Mmc1(m) => {
                bytes.push(1);
                bytes.push(m.shift);
                bytes.push(m.count);
                bytes.push(m.control);
                bytes.push(m.chr_bank0);
                bytes.push(m.chr_bank1);
                bytes.push(m.prg_bank);
            },
            Mapper::Uxrom { bank } => {
                bytes.push(2);
                bytes.push(*bank);
            },
            Mapper::Cnrom { bank } => {
                bytes.push(3);
                bytes.push(*bank);
            },
            Mapper::Mmc3(m) => {
                let mut flags: u8 = 0;
                if m.horizontal {
                    flags = flags + 1;
                }
                if m.irq_reload {
                    flags = flags + 2;
                }
                if m.irq_enable {
                    flags = flags + 4;
                }
                if m.irq_pending {
                    flags = flags + 8;
                }
                if m.last_a12 {
                    flags = flags + 16;
                }
                bytes.push(4);
                bytes.push(m.bank_select);
                bytes.push(m.r0);
                bytes.push(m.r1);
                bytes.push(m.r2);
                bytes.push(m.r3);
                bytes.push(m.r4);
                bytes.push(m.r5);
                bytes.push(m.r6);
                bytes.push(m.r7);
                bytes.push(flags);
                bytes.push(m.ram_protect);
                bytes.push(m.irq_latch);
                bytes.push(m.irq_counter);
            },
        }
        assert(bytes@ =~= self.saved());
        bytes
    }

    /// Reads registers back that [`Mapper::save`] wrote out. Bytes that it
    /// cannot have written are refused.
    pub fn load(bytes: &[u8]) -> (m: Option<Mapper>)
        ensures
            m == Mapper::loaded(bytes@),
            m matches Some(mapper) ==> mapper.wf(),
    {
        if bytes.len() == 1 && bytes[0] == 0 {
            Some(Mapper::Nrom)
        } else if bytes.len() == 7 && bytes[0] == 1 {
            let m = Mmc1 {
                shift: bytes[1],
                count: bytes[2],
                control: bytes[3],
                chr_bank0: bytes[4],
                chr_bank1: bytes[5],
                prg_bank: bytes[6],
            };
            if m.count < 5 && m.shift < weight_of(m.count) {
                Some(Mapper::Mmc1(m))
            } else {
                None
            }
        } else if bytes.len() == 2 && bytes[0] == 2 {
            Some(Mapper::Uxrom { bank: bytes[1] })
        } else if bytes.len() == 2 && bytes[0] == 3 {
            Some(Mapper::Cnrom { bank: bytes[1] })
        } else if bytes.len() == 14 && bytes[0] == 4 && bytes[10] < 32 {
            let f = bytes[10];
            Some(
                Mapper::Mmc3(
                    Mmc3 {
                        bank_select: bytes[1],
                        r0: bytes[2],
                        r1: bytes[3],
                        r2: bytes[4],
                        r3: bytes[5],
                        r4: bytes[6],
                        r5: bytes[7],
                        r6: bytes[8],
                        r7: bytes[9],
                        horizontal: f % 2 == 1,
                        ram_protect: bytes[11],
                        irq_latch: bytes[12],
                        irq_counter: bytes[13],
                        irq_reload: (f / 2) % 2 == 1,
                        irq_enable: (f / 4) % 2 == 1,
                        irq_pending: (f / 8) % 2 == 1,
                        last_a12: (f / 16) % 2 == 1,
                    },
                ),
            )
        } else {
            None
        }
    }
}

/// Registers that are written out and read back are the same registers,
/// and so select the same banks at every address.
pub proof fn lemma_save_load(m: Mapper)
    requires
        m.wf(),
    ensures
        Mapper::loaded(m.saved()) == Some(m),
        forall|addr: u16, len: int|
            Mapper::loaded(m.saved())->Some_0.prg_offset(addr, len) == m.prg_offset(addr, len),
        forall|addr: u16, len: int|
            Mapper::loaded(m.saved())->Some_0.chr_offset(addr, len) == m.chr_offset(addr, len),
{
    match m {
        Mapper::Mmc3(r) => {
            let f = mmc3_flags(r) as u8;
            assert(f < 32);
            assert((f % 2 == 1) == r.horizontal);
            assert(((f / 2) % 2 == 1) == r.irq_reload);
            assert(((f / 4) % 2 == 1) == r.irq_enable);
            assert(((f / 8) % 2 == 1) == r.irq_pending);
            assert(((f / 16) % 2 == 1) == r.last_a12);
        },
        _ => {},
    }
}

} // verus!
