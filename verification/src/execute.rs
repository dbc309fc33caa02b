//! The processor at work: what each kind of instruction does to the
//! registers and the bus, the stack, and the interrupt sequence.

use crate::alu::{
    apply_implied, apply_modify, apply_read, branch_taken, implied_op, modify_op, read_op,
    store_value, stored, takes_branch, Registers, Status,
};
use crate::bus::{IRQ_VECTOR_LOC, NMI_VECTOR_LOC};
use crate::cpu::{add_offset, make_word, offset, word, Cpu, CpuView, Instruction};
use crate::opcodes::{decode, op_info, AddressMode, Op, OpKind};
use vstd::prelude::*;

verus! {

/// The cycles that the interrupt sequence takes.
pub const INTERRUPT_TICKS: u8 = 7;

/// The flags as the stack holds them: the unused bit set, and the break bit
/// as `brk` says.
pub open spec fn stacked(flags: Status, brk: bool) -> Status {
    Status { brk, unused: true, ..flags }
}

/// The flags that the byte `b` from the stack restores: the break bit is not
/// a flag of the processor, and the unused bit reads as set.
pub open spec fn restored(b: u8) -> Status {
    Status { brk: false, unused: true, ..Status::of_byte(b) }
}

impl CpuView {
    /// The processor after it writes `val` at `addr`.
    pub open spec fn after_write(self, addr: u16, val: u8) -> CpuView {
        CpuView { bus: self.bus.written(addr, val), ..self }
    }

    /// The processor after it pushes `v` on the stack, which lies in page 1
    /// and grows down.
    pub open spec fn pushed(self, v: u8) -> CpuView {
        CpuView {
            regs: Registers {
                stack_pointer: crate::alu::decremented(self.regs.stack_pointer),
                ..self.regs
            },
            bus: self.bus.written((0x100 + self.regs.stack_pointer) as u16, v),
            ..self
        }
    }

    /// The byte on top of the stack.
    pub open spec fn pull_value(self) -> u8 {
        self.bus.read_value((0x100 + crate::alu::incremented(self.regs.stack_pointer)) as u16)
    }

    /// The processor after it pulls a byte from the stack.
    pub open spec fn pulled(self) -> CpuView {
        CpuView {
            regs: Registers {
                stack_pointer: crate::alu::incremented(self.regs.stack_pointer),
                ..self.regs
            },
            bus: self.bus.after_read(
                (0x100 + crate::alu::incremented(self.regs.stack_pointer)) as u16,
            ),
            ..self
        }
    }

    /// The processor after it pushes the word `w`, high byte first.
    pub open spec fn pushed_word(self, w: u16) -> CpuView {
        self.pushed((w / 256) as u8).pushed((w % 256) as u8)
    }

    /// The word on top of the stack, low byte on top.
    pub open spec fn pull_word_value(self) -> u16 {
        word(self.pull_value(), self.pulled().pull_value())
    }

    /// The processor with the program counter at `pc`.
    pub open spec fn at(self, pc: u16) -> CpuView {
        CpuView { regs: Registers { program_counter: pc, ..self.regs }, ..self }
    }

    /// The processor with the registers `regs`.
    pub open spec fn with_regs(self, regs: Registers) -> CpuView {
        CpuView { regs, ..self }
    }

    /// The word at `addr` and the address after it, as the processor reads it.
    pub open spec fn read_word_value(self, addr: u16) -> u16 {
        word(
            self.bus.read_value(addr),
            self.after_read(addr).bus.read_value(offset(addr, 1)),
        )
    }

    /// The processor after it reads the word at `addr`.
    pub open spec fn word_read(self, addr: u16) -> CpuView {
        self.after_read(addr).after_read(offset(addr, 1))
    }

    /// The processor after the interrupt sequence through the vector at
    /// `vector`: the program counter and the flags go to the stack, with the
    /// break bit as `brk` says; interrupts are masked; the program counter
    /// is loaded from the vector.
    pub open spec fn interrupted(self, vector: u16, brk: bool) -> CpuView {
        self.saved(brk).vectored(vector)
    }

    /// The processor after it saves the program counter and the flags on
    /// the stack and masks interrupts.
    #[verifier::opaque]
    pub open spec fn saved(self, brk: bool) -> CpuView {
        let stored = self.pushed_word(self.regs.program_counter).pushed(
            stacked(self.regs.status_reg, brk).byte() as u8,
        );
        stored.with_regs(
            Registers {
                status_reg: Status { interrupt: true, ..stored.regs.status_reg },
                ..stored.regs
            },
        )
    }

    /// The processor after it loads the program counter from the vector at
    /// `vector`.
    #[verifier::opaque]
    pub open spec fn vectored(self, vector: u16) -> CpuView {
        self.word_read(vector).at(self.read_word_value(vector))
    }

    /// The processor after an instruction of kind `Read`: the operand, which
    /// an immediate instruction carries and any other reads at its address,
    /// goes through the operation.
    #[verifier::opaque]
    pub open spec fn read_executed(self, op: Op, instr: Instruction) -> CpuView {
        match instr.dest_addr {
            Some(addr) => if instr.addr_mode == AddressMode::Immediate {
                self.with_regs(read_op(op, self.regs, (instr.operand % 256) as u8))
            } else {
                self.after_read(addr).with_regs(
                    read_op(op, self.regs, self.bus.read_value(addr)),
                )
            },
            None => self,
        }
    }

    /// The processor after an instruction of kind `Write`.
    #[verifier::opaque]
    pub open spec fn write_executed(self, op: Op, instr: Instruction) -> CpuView {
        match instr.dest_addr {
            Some(addr) => self.after_write(addr, store_value(op, self.regs)),
            None => self,
        }
    }

    /// The processor after an instruction of kind `Modify`: the byte at the
    /// address goes through the operation and back; without an address, the
    /// accumulator does.
    #[verifier::opaque]
    pub open spec fn modify_executed(self, op: Op, instr: Instruction) -> CpuView {
        match instr.dest_addr {
            Some(addr) => {
                let read = self.after_read(addr);
                let done = modify_op(op, self.regs, self.bus.read_value(addr));
                read.with_regs(done.0).after_write(addr, done.1)
            },
            None => {
                let done = modify_op(op, self.regs, self.regs.accumulator);
                self.with_regs(Registers { accumulator: done.1, ..done.0 })
            },
        }
    }

    /// The processor after an instruction of kind `Implied`.
    #[verifier::opaque]
    pub open spec fn implied_executed(self, op: Op) -> CpuView {
        self.with_regs(implied_op(op, self.regs))
    }

    /// The processor after a jump to the address of the instruction, which
    /// a branch makes only if its condition holds.
    #[verifier::opaque]
    pub open spec fn jumped(self, instr: Instruction, taken: bool) -> CpuView {
        match instr.dest_addr {
            Some(addr) => if taken {
                self.at(addr)
            } else {
                self
            },
            None => self,
        }
    }

    /// The processor after `JSR`: the address of the last byte of the
    /// instruction goes to the stack.
    #[verifier::opaque]
    pub open spec fn called(self, instr: Instruction) -> CpuView {
        self.pushed_word(offset(self.regs.program_counter, -1)).jumped(instr, true)
    }

    /// The processor after `RTS`, which resumes behind the `JSR`, or `RTI`,
    /// which first restores the flags and resumes where the interrupt struck.
    #[verifier::opaque]
    pub open spec fn returned(self, op: Op) -> CpuView {
        if op == Op::Rti {
            let flagged = self.pulled().with_regs(
                Registers { status_reg: restored(self.pull_value()), ..self.pulled().regs },
            );
            flagged.pulled().pulled().at(flagged.pull_word_value())
        } else {
            self.pulled().pulled().at(offset(self.pull_word_value(), 1))
        }
    }

    /// The processor after `PHA`, or `PHP`, which pushes the flags with the
    /// break bit set.
    #[verifier::opaque]
    pub open spec fn push_executed(self, op: Op) -> CpuView {
        if op == Op::Php {
            self.pushed(stacked(self.regs.status_reg, true).byte() as u8)
        } else {
            self.pushed(self.regs.accumulator)
        }
    }

    /// The processor after `PLA`, which sets zero and negative from the
    /// byte, or `PLP`.
    #[verifier::opaque]
    pub open spec fn pull_executed(self, op: Op) -> CpuView {
        let v = self.pull_value();
        let p = self.pulled();
        if op == Op::Plp {
            p.with_regs(Registers { status_reg: restored(v), ..p.regs })
        } else {
            p.with_regs(
                Registers { accumulator: v, status_reg: p.regs.status_reg.with_zn(v), ..p.regs },
            )
        }
    }

    /// The processor after `BRK`: the interrupt sequence through the vector
    /// at `$FFFE`, with the break bit set in the flags on the stack and the
    /// return address one byte behind the instruction.
    #[verifier::opaque]
    pub open spec fn broken(self) -> CpuView {
        self.at(offset(self.regs.program_counter, 1)).interrupted(IRQ_VECTOR_LOC, true)
    }

    /// The processor after an instruction that works on the program
    /// counter or the stack.
    #[verifier::opaque]
    pub open spec fn flow_executed(self, kind: OpKind, op: Op, instr: Instruction) -> CpuView {
        match kind {
            OpKind::Branch => self.jumped(instr, branch_taken(op, self.regs.status_reg)),
            OpKind::Jump => self.jumped(instr, true),
            OpKind::Call => self.called(instr),
            OpKind::Return => self.returned(op),
            OpKind::Push => self.push_executed(op),
            OpKind::Pull => self.pull_executed(op),
            OpKind::Break => self.broken(),
            _ => self,
        }
    }

    /// The processor after it executes the decoded instruction `instr` with
    /// the opcode `opcode`.
    pub open spec fn executed(self, opcode: u8, instr: Instruction) -> CpuView {
        let info = op_info(opcode);
        match info.kind {
            OpKind::Read => self.read_executed(info.op, instr),
            OpKind::Write => self.write_executed(info.op, instr),
            OpKind::Modify => self.modify_executed(info.op, instr),
            OpKind::Implied => self.implied_executed(info.op),
            _ => self.flow_executed(info.kind, info.op, instr),
        }
    }

    /// For how many cycles the instruction holds the processor beyond its
    /// own: those of a write that starts a transfer into object memory.
    pub open spec fn execute_stall(self, opcode: u8, instr: Instruction) -> int {
        let kind = op_info(opcode).kind;
        match instr.dest_addr {
            Some(addr) => if kind == OpKind::Write || kind == OpKind::Modify {
                self.bus.write_stall(addr)
            } else {
                0
            },
            None => 0,
        }
    }

    /// The processor after it takes the non-maskable interrupt.
    pub open spec fn nmi_taken(self) -> CpuView {
        self.interrupted(NMI_VECTOR_LOC, false)
    }

    /// Whether the processor takes an interrupt request: only while the
    /// interrupt flag is clear.
    pub open spec fn takes_irq(self) -> bool {
        !self.regs.status_reg.interrupt
    }

    /// The processor after an interrupt request.
    pub open spec fn irq_taken(self) -> CpuView {
        if self.takes_irq() {
            self.interrupted(IRQ_VECTOR_LOC, false)
        } else {
            self
        }
    }
}

impl Cpu {
    /// Writes `val` at `addr` and reports the cycles that the write holds
    /// the processor.
    pub fn write(&mut self, addr: u16, val: u8) -> (stall: u16)
        requires
            old(self)@.wf(),
        ensures
            final(self)@ == old(self)@.after_write(addr, val),
            stall == old(self)@.bus.write_stall(addr),
            final(self).bus.apu.output == old(self).bus.apu.output,
            final(self)@.bus.clocks() == old(self)@.bus.clocks(),
            final(self)@.cycles == old(self)@.cycles,
            final(self)@.wf(),
    {
        self.bus.write(addr, val)
    }

    /// Pushes `v` on the stack.
    pub fn push(&mut self, v: u8)
        requires
            old(self)@.wf(),
        ensures
            final(self)@ == old(self)@.pushed(v),
            final(self).bus.apu.output == old(self).bus.apu.output,
            final(self)@.bus.clocks() == old(self)@.bus.clocks(),
            final(self)@.cycles == old(self)@.cycles,
            final(self)@.wf(),
    {
        let _ = self.bus.write(0x100 + self.regs.stack_pointer as u16, v);
        self.regs.stack_pointer = crate::alu::decrement(self.regs.stack_pointer);
    }

    /// Pulls a byte from the stack.
    pub fn pull(&mut self) -> (v: u8)
        requires
            old(self)@.wf(),
        ensures
            v == old(self)@.pull_value(),
            final(self)@ == old(self)@.pulled(),
            final(self).bus.apu.output == old(self).bus.apu.output,
            final(self)@.bus.clocks() == old(self)@.bus.clocks(),
            final(self)@.cycles == old(self)@.cycles,
            final(self)@.wf(),
    {
        self.regs.stack_pointer = crate::alu::increment(self.regs.stack_pointer);
        self.bus.read(0x100 + self.regs.stack_pointer as u16)
    }

    /// Pushes the word `w` on the stack, high byte first.
    pub fn push_word(&mut self, w: u16)
        requires
            old(self)@.wf(),
        ensures
            final(self)@ == old(self)@.pushed_word(w),
            final(self).bus.apu.output == old(self).bus.apu.output,
            final(self)@.bus.clocks() == old(self)@.bus.clocks(),
            final(self)@.cycles == old(self)@.cycles,
            final(self)@.wf(),
    {
        self.push((w / 256) as u8);
        self.push((w % 256) as u8);
    }

    /// Pulls a word from the stack, low byte first.
    pub fn pull_word(&mut self) -> (w: u16)
        requires
            old(self)@.wf(),
        ensures
            w == old(self)@.pull_word_value(),
            final(self)@ == old(self)@.pulled().pulled(),
            final(self).bus.apu.output == old(self).bus.apu.output,
            final(self)@.bus.clocks() == old(self)@.bus.clocks(),
            final(self)@.cycles == old(self)@.cycles,
            final(self)@.wf(),
    {
        let lo = self.pull();
        let hi = self.pull();
        make_word(lo, hi)
    }

    /// Reads the word at `addr` and the address after it.
    pub fn read_word(&mut self, addr: u16) -> (w: u16)
        requires
            old(self)@.wf(),
        ensures
            w == old(self)@.read_word_value(addr),
            final(self)@ == old(self)@.word_read(addr),
            final(self).bus.apu.output == old(self).bus.apu.output,
            final(self)@.bus.clocks() == old(self)@.bus.clocks(),
            final(self)@.cycles == old(self)@.cycles,
            final(self)@.wf(),
    {
        let lo = self.bus.read(addr);
        let hi = self.bus.read(add_offset(addr, 1));
        make_word(lo, hi)
    }

    /// Runs the interrupt sequence through the vector at `vector`.
    pub fn interrupt(&mut self, vector: u16, brk: bool)
        requires
            old(self)@.wf(),
        ensures
            final(self)@ == old(self)@.interrupted(vector, brk),
            final(self).bus.apu.output == old(self).bus.apu.output,
            final(self)@.bus.clocks() == old(self)@.bus.clocks(),
            final(self)@.cycles == old(self)@.cycles,
            final(self)@.wf(),
    {
        self.save(brk);
        self.load_vector(vector);
    }

    #[verifier::rlimit(40)]
    fn save(&mut self, brk: bool)
        requires
            old(self)@.wf(),
        ensures
            final(self)@ == old(self)@.saved(brk),
            final(self).bus.apu.output == old(self).bus.apu.output,
            final(self)@.bus.clocks() == old(self)@.bus.clocks(),
            final(self)@.cycles == old(self)@.cycles,
            final(self)@.wf(),
    {
        proof {
            reveal(CpuView::saved);
        }
        let flags = Status { brk, unused: true, ..self.regs.status_reg };
        let byte = flags.to_byte();
        self.push_word(self.regs.program_counter);
        self.push(byte);
        self.regs.status_reg.interrupt = true;
    }

    fn load_vector(&mut self, vector: u16)
        requires
            old(self)@.wf(),
        ensures
            final(self)@ == old(self)@.vectored(vector),
            final(self).bus.apu.output == old(self).bus.apu.output,
            final(self)@.bus.clocks() == old(self)@.bus.clocks(),
            final(self)@.cycles == old(self)@.cycles,
            final(self)@.wf(),
    {
        proof {
            reveal(CpuView::vectored);
        }
        let target = self.read_word(vector);
        self.regs.program_counter = target;
    }

    /// Takes the non-maskable interrupt.
    pub fn nmi(&mut self)
        requires
            old(self)@.wf(),
        ensures
            final(self)@ == old(self)@.nmi_taken(),
            final(self).bus.apu.output == old(self).bus.apu.output,
            final(self)@.bus.clocks() == old(self)@.bus.clocks(),
            final(self)@.cycles == old(self)@.cycles,
            final(self)@.wf(),
    {
        self.interrupt(NMI_VECTOR_LOC, false);
    }

    /// Takes an interrupt request, unless interrupts are masked. Reports
    /// whether it was taken.
    pub fn irq(&mut self) -> (taken: bool)
        requires
            old(self)@.wf(),
        ensures
            taken == old(self)@.takes_irq(),
            final(self)@ == old(self)@.irq_taken(),
            final(self).bus.apu.output == old(self).bus.apu.output,
            final(self)@.bus.clocks() == old(self)@.bus.clocks(),
            final(self)@.cycles == old(self)@.cycles,
            final(self)@.wf(),
    {
        if !self.regs.status_reg.interrupt {
            self.interrupt(IRQ_VECTOR_LOC, false);
            true
        } else {
            false
        }
    }

    fn execute_read(&mut self, op: Op, instr: &Instruction)
        requires
            old(self)@.wf(),
        ensures
            final(self)@ == old(self)@.read_executed(op, *instr),
            final(self).bus.apu.output == old(self).bus.apu.output,
            final(self)@.bus.clocks() == old(self)@.bus.clocks(),
            final(self)@.cycles == old(self)@.cycles,
            final(self)@.wf(),
    {
        proof {
            reveal(CpuView::read_executed);
        }
        match instr.dest_addr {
            Some(addr) => {
                let regs = self.regs;
                let m = if instr.addr_mode == AddressMode::Immediate {
                    (instr.operand % 256) as u8
                } else {
                    self.bus.read(addr)
                };
                self.regs = apply_read(op, regs, m);
            },
            None => {},
        }
    }

    fn execute_write(&mut self, op: Op, instr: &Instruction) -> (stall: u16)
        requires
            old(self)@.wf(),
        ensures
            final(self)@ == old(self)@.write_executed(op, *instr),
            stall == (match instr.dest_addr {
                Some(addr) => old(self)@.bus.write_stall(addr),
                None => 0,
            }),
            stall <= 514,
            final(self).bus.apu.output == old(self).bus.apu.output,
            final(self)@.bus.clocks() == old(self)@.bus.clocks(),
            final(self)@.cycles == old(self)@.cycles,
            final(self)@.wf(),
    {
        proof {
            reveal(CpuView::write_executed);
        }
        match instr.dest_addr {
            Some(addr) => self.bus.write(addr, stored(op, self.regs)),
            None => 0,
        }
    }

    #[verifier::rlimit(40)]
    fn execute_modify(&mut self, op: Op, instr: &Instruction) -> (stall: u16)
        requires
            old(self)@.wf(),
        ensures
            final(self)@ == old(self)@.modify_executed(op, *instr),
            stall == (match instr.dest_addr {
                Some(addr) => old(self)@.bus.write_stall(addr),
                None => 0,
            }),
            stall <= 514,
            final(self).bus.apu.output == old(self).bus.apu.output,
            final(self)@.bus.clocks() == old(self)@.bus.clocks(),
            final(self)@.cycles == old(self)@.cycles,
            final(self)@.wf(),
    {
        proof {
            reveal(CpuView::modify_executed);
        }
        match instr.dest_addr {
            Some(addr) => {
                let regs = self.regs;
                let m = self.bus.read(addr);
                let done = apply_modify(op, regs, m);
                self.regs = done.0;
                proof {
                    crate::bus::lemma_read_keeps_cycles(old(self)@.bus, addr);
                    crate::bus::lemma_stall_by_address(old(self)@.bus, self@.bus, addr);
                }
                self.bus.write(addr, done.1)
            },
            None => {
                let done = apply_modify(op, self.regs, self.regs.accumulator);
                self.regs = Registers { accumulator: done.1, ..done.0 };
                0
            },
        }
    }

    fn execute_implied(&mut self, op: Op)
        requires
            old(self)@.wf(),
        ensures
            final(self)@ == old(self)@.implied_executed(op),
            final(self).bus.apu.output == old(self).bus.apu.output,
            final(self)@.bus.clocks() == old(self)@.bus.clocks(),
            final(self)@.cycles == old(self)@.cycles,
            final(self)@.wf(),
    {
        proof {
            reveal(CpuView::implied_executed);
        }
        self.regs = apply_implied(op, self.regs);
    }

    fn execute_jump(&mut self, instr: &Instruction, taken: bool)
        requires
            old(self)@.wf(),
        ensures
            final(self)@ == old(self)@.jumped(*instr, taken),
            final(self).bus.apu.output == old(self).bus.apu.output,
            final(self)@.bus.clocks() == old(self)@.bus.clocks(),
            final(self)@.cycles == old(self)@.cycles,
            final(self)@.wf(),
    {
        proof {
            reveal(CpuView::jumped);
        }
        match instr.dest_addr {
            Some(addr) => {
                if taken {
                    self.regs.program_counter = addr;
                }
            },
            None => {},
        }
    }

    fn execute_call(&mut self, instr: &Instruction)
        requires
            old(self)@.wf(),
        ensures
            final(self)@ == old(self)@.called(*instr),
            final(self).bus.apu.output == old(self).bus.apu.output,
            final(self)@.bus.clocks() == old(self)@.bus.clocks(),
            final(self)@.cycles == old(self)@.cycles,
            final(self)@.wf(),
    {
        proof {
            reveal(CpuView::called);
        }
        proof {
            reveal(offset);
        }
        self.push_word(self.regs.program_counter.wrapping_sub(1));
        self.execute_jump(instr, true);
    }

    #[verifier::rlimit(40)]
    fn execute_return(&mut self, op: Op)
        requires
            old(self)@.wf(),
        ensures
            final(self)@ == old(self)@.returned(op),
            final(self).bus.apu.output == old(self).bus.apu.output,
            final(self)@.bus.clocks() == old(self)@.bus.clocks(),
            final(self)@.cycles == old(self)@.cycles,
            final(self)@.wf(),
    {
        proof {
            reveal(CpuView::returned);
        }
        if op == Op::Rti {
            let p = self.pull();
            self.regs.status_reg = Status { brk: false, unused: true, ..Status::from_byte(p) };
            let target = self.pull_word();
            self.regs.program_counter = target;
        } else {
            let target = self.pull_word();
            self.regs.program_counter = add_offset(target, 1);
        }
    }

    fn execute_push(&mut self, op: Op)
        requires
            old(self)@.wf(),
        ensures
            final(self)@ == old(self)@.push_executed(op),
            final(self).bus.apu.output == old(self).bus.apu.output,
            final(self)@.bus.clocks() == old(self)@.bus.clocks(),
            final(self)@.cycles == old(self)@.cycles,
            final(self)@.wf(),
    {
        proof {
            reveal(CpuView::push_executed);
        }
        if op == Op::Php {
            let flags = Status { brk: true, unused: true, ..self.regs.status_reg };
            self.push(flags.to_byte());
        } else {
            self.push(self.regs.accumulator);
        }
    }

    fn execute_pull(&mut self, op: Op)
        requires
            old(self)@.wf(),
        ensures
            final(self)@ == old(self)@.pull_executed(op),
            final(self).bus.apu.output == old(self).bus.apu.output,
            final(self)@.bus.clocks() == old(self)@.bus.clocks(),
            final(self)@.cycles == old(self)@.cycles,
            final(self)@.wf(),
    {
        proof {
            reveal(CpuView::pull_executed);
        }
        let v = self.pull();
        if op == Op::Plp {
            self.regs.status_reg = Status { brk: false, unused: true, ..Status::from_byte(v) };
        } else {
            self.regs.accumulator = v;
            self.regs.status_reg = self.regs.status_reg.set_zn(v);
        }
    }

    fn execute_break(&mut self)
        requires
            old(self)@.wf(),
        ensures
            final(self)@ == old(self)@.broken(),
            final(self).bus.apu.output == old(self).bus.apu.output,
            final(self)@.bus.clocks() == old(self)@.bus.clocks(),
            final(self)@.cycles == old(self)@.cycles,
            final(self)@.wf(),
    {
        proof {
            reveal(CpuView::broken);
        }
        self.regs.program_counter = add_offset(self.regs.program_counter, 1);
        self.interrupt(IRQ_VECTOR_LOC, true);
    }

    #[verifier::rlimit(40)]
    fn execute_flow(&mut self, kind: OpKind, op: Op, instr: &Instruction)
        requires
            old(self)@.wf(),
        ensures
            final(self)@ == old(self)@.flow_executed(kind, op, *instr),
            final(self).bus.apu.output == old(self).bus.apu.output,
            final(self)@.bus.clocks() == old(self)@.bus.clocks(),
            final(self)@.cycles == old(self)@.cycles,
            final(self)@.wf(),
    {
        proof {
            reveal(CpuView::flow_executed);
        }
        match kind {
            OpKind::Branch => {
                let taken = takes_branch(op, self.regs.status_reg);
                self.execute_jump(instr, taken);
            },
            OpKind::Jump => {
                self.execute_jump(instr, true);
            },
            OpKind::Call => {
                self.execute_call(instr);
            },
            OpKind::Return => {
                self.execute_return(op);
            },
            OpKind::Push => {
                self.execute_push(op);
            },
            OpKind::Pull => {
                self.execute_pull(op);
            },
            OpKind::Break => {
                self.execute_break();
            },
            _ => {},
        }
    }

    /// Executes the decoded instruction `instr` with the opcode `op`.
    /// Reports for how many cycles beyond its own the instruction holds the
    /// processor.
    #[verifier::rlimit(40)]
    pub fn execute_op(&mut self, op: u8, instr: &Instruction) -> (stall: u16)
        requires
            old(self)@.wf(),
        ensures
            final(self)@ == old(self)@.executed(op, *instr),
            stall == old(self)@.execute_stall(op, *instr),
            stall <= 514,
            final(self).bus.apu.output == old(self).bus.apu.output,
            final(self)@.bus.clocks() == old(self)@.bus.clocks(),
            final(self)@.cycles == old(self)@.cycles,
            final(self)@.wf(),
    {
        let info = decode(op);
        match info.kind {
            OpKind::Read => {
                self.execute_read(info.op, instr);
                0
            },
            OpKind::Write => self.execute_write(info.op, instr),
            OpKind::Modify => self.execute_modify(info.op, instr),
            OpKind::Implied => {
                self.execute_implied(info.op);
                0
            },
            _ => {
                self.execute_flow(info.kind, info.op, instr);
                0
            },
        }
    }
}

} // verus!
