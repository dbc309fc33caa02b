//! The processor: its state, its accesses to the bus, and the decoding of
//! an instruction into operand, effective address and cycle count.

use crate::alu::{branch_taken, signed, takes_branch, Registers, Status};
use crate::bus::{Bus, BusView};
use crate::opcodes::{decode, op_info, AddressMode, OpKind};
use vstd::prelude::*;

verus! {

/// A decoded instruction.
#[derive(Clone, Copy, Debug)]
pub struct Instruction {
    /// The cycles that the instruction takes, surcharges included.
    pub ticks: u8,
    /// The length of the instruction, 1 to 3.
    pub bytes: u8,
    /// The operand as it stands in the program; 0 where there is none.
    pub operand: u16,
    /// The address that the instruction works on, where it has one.
    pub dest_addr: Option<u16>,
    pub addr_mode: AddressMode,
    /// The mnemonic.
    pub name: &'static str,
}

/// The processor and the bus that it drives.
pub struct Cpu {
    pub regs: Registers,
    /// Where in the scanline the picture processor stands, in dots.
    pub cycle: u16,
    /// Processor cycles since power-up, modulo 2^64.
    pub cycles: u64,
    /// A non-maskable interrupt that is latched and not yet taken.
    pub nmi_pending: bool,
    /// An interrupt request that is latched and not yet taken.
    pub irq_pending: bool,
    pub bus: Bus,
}

/// The processor and its bus as plain values.
pub struct CpuView {
    pub regs: Registers,
    pub cycle: u16,
    pub cycles: u64,
    pub nmi_pending: bool,
    pub irq_pending: bool,
    pub bus: BusView,
}

impl View for Cpu {
    type V = CpuView;

    open spec fn view(&self) -> CpuView {
        CpuView {
            regs: self.regs,
            cycle: self.cycle,
            cycles: self.cycles,
            nmi_pending: self.nmi_pending,
            irq_pending: self.irq_pending,
            bus: self.bus@,
        }
    }
}

/// The word with the low byte `lo` and the high byte `hi`.
pub open spec fn word(lo: u8, hi: u8) -> u16 {
    (lo + 256 * hi) as u16
}

/// Computes `word`.
pub fn make_word(lo: u8, hi: u8) -> (w: u16)
    ensures
        w == word(lo, hi),
{
    lo as u16 + 256 * (hi as u16)
}

/// `addr + n` in sixteen bits.
#[verifier::opaque]
pub open spec fn offset(addr: u16, n: int) -> u16 {
    ((addr + n) % 0x10000) as u16
}

/// Computes `offset`.
pub fn add_offset(addr: u16, n: u8) -> (out: u16)
    ensures
        out == offset(addr, n as int),
{
    proof {
        reveal(offset);
    }
    addr.wrapping_add(n as u16)
}

/// The address after `addr` on the same page: the low byte wraps, the high
/// byte stays.
#[verifier::opaque]
pub open spec fn next_in_page(addr: u16) -> u16 {
    ((addr / 256) * 256 + (addr % 256 + 1) % 256) as u16
}

/// Computes `next_in_page`.
pub fn step_in_page(addr: u16) -> (out: u16)
    ensures
        out == next_in_page(addr),
{
    proof {
        reveal(next_in_page);
    }
    (addr / 256) * 256 + (addr % 256 + 1) % 256
}

/// Whether adding the index `index` to `base` carries into the high byte.
#[verifier::opaque]
pub open spec fn crosses(base: u16, index: u8) -> bool {
    base % 256 + index > 255
}

/// Computes `crosses`.
pub fn does_cross(base: u16, index: u8) -> (c: bool)
    ensures
        c == crosses(base, index),
{
    proof {
        reveal(crosses);
    }
    base % 256 + index as u16 > 255
}

/// Where a branch with the displacement `disp` leads from `pc`, the address
/// after the branch: `disp` counts as a signed byte.
#[verifier::opaque]
pub open spec fn branch_target(pc: u16, disp: u8) -> u16 {
    ((pc + signed(disp)) % 0x10000) as u16
}

/// Computes `branch_target`.
pub fn target_of(pc: u16, disp: u8) -> (t: u16)
    ensures
        t == branch_target(pc, disp),
{
    proof {
        reveal(branch_target);
    }
    if disp < 128 {
        pc.wrapping_add(disp as u16)
    } else {
        pc.wrapping_sub(256 - disp as u16)
    }
}

/// How many operand bytes follow the opcode.
pub open spec fn operand_len(mode: AddressMode) -> int {
    match mode {
        AddressMode::Implied | AddressMode::Accumulator => 0,
        AddressMode::Absolute | AddressMode::AbsoluteX | AddressMode::AbsoluteY | AddressMode::Indirect => 2,
        _ => 1,
    }
}

/// Computes `operand_len`.
pub fn operand_bytes(mode: AddressMode) -> (n: u8)
    ensures
        n == operand_len(mode),
{
    match mode {
        AddressMode::Implied | AddressMode::Accumulator => 0,
        AddressMode::Absolute | AddressMode::AbsoluteX | AddressMode::AbsoluteY | AddressMode::Indirect => 2,
        _ => 1,
    }
}

/// What the effective address of an instruction is, and whether finding it
/// crossed a page.
pub struct Resolved {
    pub dest: Option<u16>,
    pub crossed: bool,
}

/// The effective address for the addressing modes that read no pointer.
pub open spec fn direct(regs: Registers, mode: AddressMode, operand: u16) -> Resolved {
    let x = regs.index_x;
    let y = regs.index_y;
    let pc = regs.program_counter;
    match mode {
        AddressMode::Immediate => Resolved { dest: Some(offset(pc, -1)), crossed: false },
        AddressMode::Zeropage | AddressMode::Absolute => Resolved {
            dest: Some(operand),
            crossed: false,
        },
        AddressMode::ZeropageX => Resolved {
            dest: Some(((operand + x) % 256) as u16),
            crossed: false,
        },
        AddressMode::ZeropageY => Resolved {
            dest: Some(((operand + y) % 256) as u16),
            crossed: false,
        },
        AddressMode::AbsoluteX => Resolved {
            dest: Some(offset(operand, x as int)),
            crossed: crosses(operand, x),
        },
        AddressMode::AbsoluteY => Resolved {
            dest: Some(offset(operand, y as int)),
            crossed: crosses(operand, y),
        },
        AddressMode::Relative => Resolved {
            dest: Some(branch_target(pc, (operand % 256) as u8)),
            crossed: branch_target(pc, (operand % 256) as u8) / 256 != pc / 256,
        },
        _ => Resolved { dest: None, crossed: false },
    }
}

/// Computes `direct`.
pub fn resolve_direct(regs: Registers, mode: AddressMode, operand: u16) -> (found: Resolved)
    requires
        operand_len(mode) < 2 ==> operand < 256,
    ensures
        found == direct(regs, mode, operand),
{
    let x = regs.index_x;
    let y = regs.index_y;
    let pc = regs.program_counter;
    match mode {
        AddressMode::Immediate => {
            proof {
                reveal(offset);
            }
            Resolved { dest: Some(pc.wrapping_sub(1)), crossed: false }
        },
        AddressMode::Zeropage | AddressMode::Absolute => Resolved {
            dest: Some(operand),
            crossed: false,
        },
        AddressMode::ZeropageX => Resolved { dest: Some((operand + x as u16) % 256), crossed: false },
        AddressMode::ZeropageY => Resolved { dest: Some((operand + y as u16) % 256), crossed: false },
        AddressMode::AbsoluteX => Resolved {
            dest: Some(add_offset(operand, x)),
            crossed: does_cross(operand, x),
        },
        AddressMode::AbsoluteY => Resolved {
            dest: Some(add_offset(operand, y)),
            crossed: does_cross(operand, y),
        },
        AddressMode::Relative => {
            let target = target_of(pc, (operand % 256) as u8);
            Resolved { dest: Some(target), crossed: target / 256 != pc / 256 }
        },
        _ => Resolved { dest: None, crossed: false },
    }
}

/// The cycles of the instruction with the opcode `opcode` under the flags
/// `flags`: the count of the opcode matrix; one more where an index carried
/// into the high address byte and the matrix says that this costs a cycle;
/// and for a branch that is taken one more, and a second if it leaves the page.
pub open spec fn ticks_for(flags: Status, opcode: u8, crossed: bool) -> int {
    let info = op_info(opcode);
    info.cycles + (if info.cross && crossed {
        1int
    } else {
        0
    }) + (if info.kind == OpKind::Branch && branch_taken(info.op, flags) {
        if crossed {
            2int
        } else {
            1
        }
    } else {
        0
    })
}

/// Counts the cycles of the instruction with the opcode `opcode`.
pub fn count_ticks(flags: Status, opcode: u8, crossed: bool) -> (ticks: u8)
    ensures
        ticks == ticks_for(flags, opcode, crossed),
        ticks <= 9,
{
    let info = decode(opcode);
    proof {
        lemma_cycles_bounded(opcode);
    }
    let mut ticks = info.cycles;
    if info.cross && crossed {
        ticks = ticks + 1;
    }
    if info.kind == OpKind::Branch && takes_branch(info.op, flags) {
        ticks = ticks + if crossed {
            2
        } else {
            1
        };
    }
    ticks
}

impl CpuView {
    pub open spec fn wf(self) -> bool {
        self.bus.wf() && self.cycle < 341
    }

    /// The processor after a read at `addr`.
    pub open spec fn after_read(self, addr: u16) -> CpuView {
        CpuView { bus: self.bus.after_read(addr), ..self }
    }

    /// The byte at the program counter.
    pub open spec fn fetch_value(self) -> u8 {
        self.bus.read_value(self.regs.program_counter)
    }

    /// The processor after it fetches a byte of the program.
    pub open spec fn fetched(self) -> CpuView {
        CpuView {
            regs: Registers {
                program_counter: offset(self.regs.program_counter, 1),
                ..self.regs
            },
            bus: self.bus.after_read(self.regs.program_counter),
            ..self
        }
    }

    /// The operand of `len` bytes at the program counter, low byte first.
    pub open spec fn operand_value(self, len: int) -> u16 {
        if len == 0 {
            0
        } else if len == 1 {
            self.fetch_value() as u16
        } else {
            word(self.fetch_value(), self.fetched().fetch_value())
        }
    }

    /// The processor after it fetches an operand of `len` bytes.
    pub open spec fn operand_fetched(self, len: int) -> CpuView {
        if len == 0 {
            self
        } else if len == 1 {
            self.fetched()
        } else {
            self.fetched().fetched()
        }
    }

    /// The word that the pointer at `ptr` holds, where the pointer's second
    /// byte is taken from the same page as its first.
    pub open spec fn pointer_value(self, ptr: u16) -> u16 {
        word(self.bus.read_value(ptr), self.after_read(ptr).bus.read_value(next_in_page(ptr)))
    }

    /// The processor after it reads the pointer at `ptr`.
    pub open spec fn pointer_read(self, ptr: u16) -> CpuView {
        self.after_read(ptr).after_read(next_in_page(ptr))
    }

    /// The effective address for the addressing mode `mode` and the operand
    /// `operand`, with the program counter behind the instruction. An
    /// immediate operand is its own address; the indexed modes add the index
    /// register, within the zero page for a zero-page operand; the indirect
    /// modes read a pointer, whose two bytes lie on one page; a branch leads
    /// to the address that its displacement gives.
    pub open spec fn resolved(self, mode: AddressMode, operand: u16) -> Resolved {
        let x = self.regs.index_x;
        let y = self.regs.index_y;
        match mode {
            AddressMode::Indirect => Resolved {
                dest: Some(self.pointer_value(operand)),
                crossed: false,
            },
            AddressMode::XIndirect => Resolved {
                dest: Some(self.pointer_value(((operand + x) % 256) as u16)),
                crossed: false,
            },
            AddressMode::IndirectY => Resolved {
                dest: Some(offset(self.pointer_value(operand), y as int)),
                crossed: crosses(self.pointer_value(operand), y),
            },
            _ => direct(self.regs, mode, operand),
        }
    }

    /// The processor after it found the effective address: the indirect
    /// modes have read their pointer.
    pub open spec fn after_resolve(self, mode: AddressMode, operand: u16) -> CpuView {
        match mode {
            AddressMode::Indirect | AddressMode::IndirectY => self.pointer_read(operand),
            AddressMode::XIndirect => self.pointer_read(
                ((operand + self.regs.index_x) % 256) as u16,
            ),
            _ => self,
        }
    }

    /// The opcode at the program counter.
    pub open spec fn next_opcode(self) -> u8 {
        self.fetch_value()
    }

    /// The instruction at the program counter, decoded.
    pub open spec fn next_instruction(self) -> Instruction {
        let opcode = self.next_opcode();
        let info = op_info(opcode);
        let len = operand_len(info.mode);
        let at_operand = self.fetched();
        let operand = at_operand.operand_value(len);
        let behind = at_operand.operand_fetched(len);
        let found = behind.resolved(info.mode, operand);
        Instruction {
            ticks: ticks_for(self.regs.status_reg, opcode, found.crossed) as u8,
            bytes: (1 + len) as u8,
            operand,
            dest_addr: found.dest,
            addr_mode: info.mode,
            name: info.name,
        }
    }

    /// The processor after it decoded the instruction at the program
    /// counter: the program counter stands behind the instruction.
    pub open spec fn instruction_read(self) -> CpuView {
        let info = op_info(self.next_opcode());
        let len = operand_len(info.mode);
        let at_operand = self.fetched();
        let operand = at_operand.operand_value(len);
        at_operand.operand_fetched(len).after_resolve(info.mode, operand)
    }
}

impl Cpu {
    /// The processor at reset: the program counter at `pc`, the stack
    /// pointer at `$FD`, interrupts masked.
    pub fn new(bus: Bus, pc: u16) -> (cpu: Cpu)
        requires
            bus@.wf(),
        ensures
            cpu@ == (CpuView {
                regs: Registers {
                    accumulator: 0,
                    index_x: 0,
                    index_y: 0,
                    stack_pointer: 0xFD,
                    program_counter: pc,
                    status_reg: Status::power_up(),
                },
                cycle: 0,
                cycles: 0,
                nmi_pending: false,
                irq_pending: false,
                bus: bus@,
            }),
            cpu.bus.apu.output == bus.apu.output,
            cpu@.wf(),
    {
        Cpu {
            regs: Registers {
                accumulator: 0,
                index_x: 0,
                index_y: 0,
                stack_pointer: 0xFD,
                program_counter: pc,
                status_reg: Status::new(),
            },
            cycle: 0,
            cycles: 0,
            nmi_pending: false,
            irq_pending: false,
            bus,
        }
    }

    /// Reads at `addr`.
    pub fn read(&mut self, addr: u16) -> (v: u8)
        requires
            old(self)@.wf(),
        ensures
            v == old(self)@.bus.read_value(addr),
            final(self)@ == old(self)@.after_read(addr),
            final(self).bus.apu.output == old(self).bus.apu.output,
            final(self)@.bus.clocks() == old(self)@.bus.clocks(),
            final(self)@.cycles == old(self)@.cycles,
            final(self)@.wf(),
    {
        self.bus.read(addr)
    }

    /// Fetches the byte at the program counter.
    pub fn fetch(&mut self) -> (v: u8)
        requires
            old(self)@.wf(),
        ensures
            v == old(self)@.fetch_value(),
            final(self)@ == old(self)@.fetched(),
            final(self).bus.apu.output == old(self).bus.apu.output,
            final(self)@.bus.clocks() == old(self)@.bus.clocks(),
            final(self)@.cycles == old(self)@.cycles,
            final(self)@.wf(),
    {
        let v = self.bus.read(self.regs.program_counter);
        self.regs.program_counter = add_offset(self.regs.program_counter, 1);
        v
    }

    /// Fetches an operand of `len` bytes.
    pub fn fetch_operand(&mut self, len: u8) -> (operand: u16)
        requires
            old(self)@.wf(),
            len <= 2,
        ensures
            operand == old(self)@.operand_value(len as int),
            final(self)@ == old(self)@.operand_fetched(len as int),
            final(self).bus.apu.output == old(self).bus.apu.output,
            final(self)@.bus.clocks() == old(self)@.bus.clocks(),
            final(self)@.cycles == old(self)@.cycles,
            final(self)@.wf(),
    {
        if len == 0 {
            0
        } else if len == 1 {
            self.fetch() as u16
        } else {
            let lo = self.fetch();
            let hi = self.fetch();
            make_word(lo, hi)
        }
    }

    /// Reads the pointer at `ptr`.
    pub fn read_pointer(&mut self, ptr: u16) -> (w: u16)
        requires
            old(self)@.wf(),
        ensures
            w == old(self)@.pointer_value(ptr),
            final(self)@ == old(self)@.pointer_read(ptr),
            final(self).bus.apu.output == old(self).bus.apu.output,
            final(self)@.bus.clocks() == old(self)@.bus.clocks(),
            final(self)@.cycles == old(self)@.cycles,
            final(self)@.wf(),
    {
        let lo = self.bus.read(ptr);
        let hi = self.bus.read(step_in_page(ptr));
        make_word(lo, hi)
    }

    /// Finds the effective address.
    #[verifier::rlimit(40)]
    pub fn resolve(&mut self, mode: AddressMode, operand: u16) -> (found: Resolved)
        requires
            old(self)@.wf(),
            operand_len(mode) < 2 ==> operand < 256,
        ensures
            found == old(self)@.resolved(mode, operand),
            final(self)@ == old(self)@.after_resolve(mode, operand),
            final(self).bus.apu.output == old(self).bus.apu.output,
            final(self)@.bus.clocks() == old(self)@.bus.clocks(),
            final(self)@.cycles == old(self)@.cycles,
            final(self)@.wf(),
    {
        let x = self.regs.index_x;
        let y = self.regs.index_y;
        match mode {
            AddressMode::Indirect => {
                let target = self.read_pointer(operand);
                Resolved { dest: Some(target), crossed: false }
            },
            AddressMode::XIndirect => {
                let target = self.read_pointer((operand + x as u16) % 256);
                Resolved { dest: Some(target), crossed: false }
            },
            AddressMode::IndirectY => {
                let base = self.read_pointer(operand);
                Resolved { dest: Some(add_offset(base, y)), crossed: does_cross(base, y) }
            },
            _ => resolve_direct(self.regs, mode, operand),
        }
    }

    /// Decodes the instruction at the program counter and moves the program
    /// counter behind it. Returns the opcode and what it decodes to.
    #[verifier::rlimit(40)]
    pub fn read_instruction(&mut self) -> (r: (u8, Instruction))
        requires
            old(self)@.wf(),
        ensures
            r.0 == old(self)@.next_opcode(),
            r.1 == old(self)@.next_instruction(),
            r.1.ticks <= 9,
            final(self)@ == old(self)@.instruction_read(),
            final(self).bus.apu.output == old(self).bus.apu.output,
            final(self)@.bus.clocks() == old(self)@.bus.clocks(),
            final(self)@.cycles == old(self)@.cycles,
            final(self)@.wf(),
    {
        let ghost start = self@;
        let flags = self.regs.status_reg;
        let opcode = self.fetch();
        let info = decode(opcode);
        let len = operand_bytes(info.mode);
        let ghost at_operand = self@;
        let operand = self.fetch_operand(len);
        let ghost behind = self@;
        proof {
            lemma_short_operand(at_operand, len as int);
            assert(at_operand == start.fetched());
            assert(behind == at_operand.operand_fetched(len as int));
        }
        let found = self.resolve(info.mode, operand);
        let ticks = count_ticks(flags, opcode, found.crossed);
        (
            opcode,
            Instruction {
                ticks,
                bytes: 1 + len,
                operand,
                dest_addr: found.dest,
                addr_mode: info.mode,
                name: info.name,
            },
        )
    }
}

/// No row of the opcode matrix counts more than eight cycles, and a branch
/// counts two.
pub proof fn lemma_cycles_bounded(opcode: u8)
    ensures
        op_info(opcode).cycles <= 8,
        op_info(opcode).kind == OpKind::Branch ==> op_info(opcode).cycles == 2 && !op_info(
            opcode,
        ).cross,
        op_info(opcode).cross ==> op_info(opcode).cycles <= 5,
{
    reveal(op_info);
}

/// An operand of one byte is below 256.
pub proof fn lemma_short_operand(cpu: CpuView, len: int)
    ensures
        0 <= len < 2 ==> cpu.operand_value(len) < 256,
{
}

/// The address after `addr` on the same page is the next address, but
/// after the last byte of a page it is the first byte of that page.
pub proof fn lemma_next_in_page(addr: u16)
    ensures
        addr % 256 == 255 ==> next_in_page(addr) == addr - 255,
        addr % 256 != 255 ==> next_in_page(addr) == addr + 1,
{
    reveal(next_in_page);
}

/// An indirect jump through a pointer in the last byte of a page takes the
/// high byte of its target from the first byte of the same page, not from
/// the next page.
pub proof fn lemma_indirect_jump_wraps(cpu: CpuView, ptr: u16)
    requires
        ptr % 256 == 255,
    ensures
        cpu.resolved(AddressMode::Indirect, ptr).dest == Some(
            word(
                cpu.bus.read_value(ptr),
                cpu.after_read(ptr).bus.read_value((ptr - 255) as u16),
            ),
        ),
        op_info(0x6C).mode == AddressMode::Indirect,
        op_info(0x6C).kind == OpKind::Jump,
{
    lemma_next_in_page(ptr);
    reveal(op_info);
}

/// A branch takes two cycles if it is not taken, three if it is taken
/// within the page, and four if it is taken across a page boundary.
pub proof fn lemma_branch_ticks(flags: Status, opcode: u8, crossed: bool)
    requires
        op_info(opcode).kind == OpKind::Branch,
    ensures
        !branch_taken(op_info(opcode).op, flags) ==> ticks_for(flags, opcode, crossed) == 2,
        branch_taken(op_info(opcode).op, flags) && !crossed ==> ticks_for(flags, opcode, crossed)
            == 3,
        branch_taken(op_info(opcode).op, flags) && crossed ==> ticks_for(flags, opcode, crossed)
            == 4,
{
    lemma_cycles_bounded(opcode);
}

/// An instruction other than a branch takes the cycles of the opcode
/// matrix, and one more if the matrix marks it and an index carried into
/// the high address byte. Decoding reports exactly these.
pub proof fn lemma_ticks_of_matrix(cpu: CpuView)
    requires
        op_info(cpu.next_opcode()).kind != OpKind::Branch,
    ensures
        op_info(cpu.next_opcode()).cycles <= cpu.next_instruction().ticks <= op_info(
            cpu.next_opcode(),
        ).cycles + 1,
        !op_info(cpu.next_opcode()).cross ==> cpu.next_instruction().ticks == op_info(
            cpu.next_opcode(),
        ).cycles,
{
    lemma_cycles_bounded(cpu.next_opcode());
}

} // verus!
