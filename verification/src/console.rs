//! The master loop's step: one instruction, with the picture processor and
//! the sound processor kept in step, and the interrupts between
//! instructions.

use crate::cpu::{Cpu, CpuView, Instruction};
use crate::bus::BusView;
use crate::error::Error;
use crate::execute::INTERRUPT_TICKS;
use crate::opcodes::{decode, op_info, OpKind};
use crate::timing::Caught;
use vstd::prelude::*;

verus! {

/// Dots of the picture processor for each cycle of the processor.
pub const PPU_MULTIPLIER: u16 = 3;

/// Dots in a scanline.
pub const SCANLINE_DOTS: u16 = 341;

/// What the peripherals ask for after a stretch of cycles.
#[derive(Clone, Copy, PartialEq, Eq, Structural, Debug)]
pub struct Pending {
    /// The picture processor raised the non-maskable interrupt.
    pub nmi: bool,
    /// The sound processor or the board holds the interrupt line.
    pub irq: bool,
    /// The picture processor finished the last visible scanline.
    pub frame: bool,
}

/// How a step ended.
#[derive(Clone, Copy, PartialEq, Eq, Structural, Debug)]
pub enum StepEvent {
    /// An instruction was executed.
    Running,
    /// An instruction was executed, and a frame is complete: it is time to
    /// present the screen and to sample the controllers.
    FrameReady,
    /// The processor stands on a `BRK` at address 0, which is what an
    /// uninitialised processor does. Nothing was executed.
    Halted,
    /// The opcode is not one that the processor executes. It was decoded
    /// and nothing more.
    Fault(Error),
}

/// What a step did.
#[derive(Clone, Copy, PartialEq, Eq, Structural, Debug)]
pub struct Step {
    pub event: StepEvent,
    /// The processor cycles that went by.
    pub cycles: u16,
}

impl CpuView {
    /// Whether the processor stands on a `BRK` at address 0.
    pub open spec fn halted(self) -> bool {
        self.regs.program_counter == 0 && self.bus.peek(0) == 0
    }

    /// The console after the picture processor has run for `k` processor
    /// cycles, three dots for each, and has handed over its interrupt
    /// request. The count of dots within the scanline follows, and counts
    /// the dot that an odd frame drops.
    #[verifier::opaque]
    pub open spec fn video_advanced(self, k: nat) -> CpuView {
        let video = self.bus.ppu.run(self.bus.cart, 3 * k);
        let skipped: int = if video.0.regs.extra_cycle {
            1
        } else {
            0
        };
        CpuView {
            cycle: ((self.cycle + 3 * k + skipped) % (SCANLINE_DOTS as int)) as u16,
            bus: BusView { ppu: video.0.settled(), cart: video.1, ..self.bus },
            ..self
        }
    }

    /// The console after the sound processor has run for `k` processor cycles.
    #[verifier::opaque]
    pub open spec fn sound_advanced(self, k: nat) -> CpuView {
        CpuView {
            cycles: self.cycles.wrapping_add(k as u64),
            bus: BusView { apu: self.bus.apu.run(self.bus.cart, k), ..self.bus },
            ..self
        }
    }

    /// The console `k` processor cycles later, the processor idle: first
    /// the picture processor runs, then the sound processor.
    pub open spec fn advanced(self, k: nat) -> CpuView {
        self.video_advanced(k).sound_advanced(k)
    }

    /// What the peripherals ask for after `k` cycles.
    pub open spec fn pending_after(self, k: nat) -> Pending {
        let video = self.bus.ppu.caught(self.bus.cart, 3 * k);
        Pending {
            nmi: video.nmi,
            irq: self.advanced(k).bus.apu.irq() || video.irq,
            frame: video.frame,
        }
    }
}

impl Cpu {
    /// Lets the picture processor run for `k` processor cycles.
    #[verifier::rlimit(40)]
    pub fn advance_video(&mut self, k: u16) -> (out: Caught)
        requires
            old(self)@.wf(),
            k <= 21845,
        ensures
            final(self)@ == old(self)@.video_advanced(k as nat),
            out == old(self)@.bus.ppu.caught(old(self)@.bus.cart, (3 * k) as nat),
            final(self)@.bus.ppu.regs.dots == old(self)@.bus.ppu.regs.dots.wrapping_add(
                (3 * k) as u64,
            ),
            final(self)@.bus.apu == old(self)@.bus.apu,
            final(self)@.cycles == old(self)@.cycles,
            final(self).bus.apu.output == old(self).bus.apu.output,
            final(self)@.wf(),
    {
        proof {
            reveal(CpuView::video_advanced);
        }
        let out = self.bus.ppu.catch_up(&mut self.bus.cart, PPU_MULTIPLIER * k);
        let skipped: u32 = if out.skipped {
            1
        } else {
            0
        };
        self.cycle = ((self.cycle as u32 + 3 * (k as u32) + skipped) % (SCANLINE_DOTS as u32)) as u16;
        out
    }

    /// Lets the sound processor run for `k` processor cycles. Reports
    /// whether it holds the interrupt line.
    pub fn advance_sound(&mut self, k: u16) -> (irq: bool)
        requires
            old(self)@.wf(),
        ensures
            final(self)@ == old(self)@.sound_advanced(k as nat),
            irq == final(self)@.bus.apu.irq(),
            final(self)@.bus.apu.cycles == old(self)@.bus.apu.cycles.wrapping_add(k as u64),
            final(self)@.cycles == old(self)@.cycles.wrapping_add(k as u64),
            final(self)@.bus.ppu == old(self)@.bus.ppu,
            final(self)@.bus.cart == old(self)@.bus.cart,
            final(self)@.wf(),
    {
        proof {
            reveal(CpuView::sound_advanced);
        }
        self.cycles = self.cycles.wrapping_add(k as u64);
        self.bus.apu.tick(k, &self.bus.cart)
    }

    /// Lets `k` processor cycles pass on the picture processor and the
    /// sound processor.
    pub fn advance(&mut self, k: u16) -> (ask: Pending)
        requires
            old(self)@.wf(),
            k <= 21845,
        ensures
            final(self)@ == old(self)@.advanced(k as nat),
            ask == old(self)@.pending_after(k as nat),
            final(self)@.bus.ppu.regs.dots == old(self)@.bus.ppu.regs.dots.wrapping_add(
                (3 * k) as u64,
            ),
            final(self)@.bus.apu.cycles == old(self)@.bus.apu.cycles.wrapping_add(k as u64),
            final(self)@.cycles == old(self)@.cycles.wrapping_add(k as u64),
            final(self)@.wf(),
    {
        let video = self.advance_video(k);
        let sound = self.advance_sound(k);
        Pending { nmi: video.nmi, irq: sound || video.irq, frame: video.frame }
    }
}

/// What the peripherals asked for over two stretches of cycles, one after
/// the other: the interrupt line as it stands after the second.
pub open spec fn merged(first: Pending, second: Pending) -> Pending {
    Pending { nmi: first.nmi || second.nmi, irq: second.irq, frame: first.frame || second.frame }
}

/// Nothing asked for.
pub open spec fn quiet() -> Pending {
    Pending { nmi: false, irq: false, frame: false }
}

/// What servicing an interrupt did.
pub struct Service {
    /// Whether the interrupt was taken.
    pub taken: bool,
    /// What the peripherals asked for during its seven cycles.
    pub ask: Pending,
}

impl CpuView {
    /// Whether a non-maskable interrupt is due: one was raised, or one is
    /// latched from before.
    pub open spec fn nmi_due(self, raised: bool) -> bool {
        raised || self.nmi_pending
    }

    /// The processor right after it has taken the non-maskable interrupt.
    pub open spec fn in_nmi(self) -> CpuView {
        CpuView { nmi_pending: false, ..self.nmi_taken() }
    }

    /// What servicing the non-maskable interrupt does, if one is due.
    pub open spec fn nmi_service(self, raised: bool) -> Service {
        if self.nmi_due(raised) {
            Service { taken: true, ask: self.in_nmi().pending_after(INTERRUPT_TICKS as nat) }
        } else {
            Service { taken: false, ask: quiet() }
        }
    }

    /// The console after the non-maskable interrupt is serviced, if one is
    /// due: the processor takes it, and seven cycles pass. One that is
    /// raised during these is latched.
    #[verifier::opaque]
    pub open spec fn nmi_serviced(self, raised: bool) -> CpuView {
        if self.nmi_due(raised) {
            CpuView {
                nmi_pending: self.in_nmi().pending_after(INTERRUPT_TICKS as nat).nmi,
                ..self.in_nmi().advanced(INTERRUPT_TICKS as nat)
            }
        } else {
            self
        }
    }

    /// What servicing an interrupt request does, where `level` is the
    /// level of the interrupt line.
    pub open spec fn irq_service(self, level: bool) -> Service {
        if level && self.takes_irq() {
            Service { taken: true, ask: self.irq_taken().pending_after(INTERRUPT_TICKS as nat) }
        } else {
            Service { taken: false, ask: quiet() }
        }
    }

    /// The console after an interrupt request is serviced: the processor
    /// takes it unless interrupts are masked, and seven cycles pass. The
    /// level of the line is latched either way.
    #[verifier::opaque]
    pub open spec fn irq_serviced(self, level: bool) -> CpuView {
        if level && self.takes_irq() {
            CpuView {
                irq_pending: level,
                nmi_pending: self.nmi_pending || self.irq_taken().pending_after(
                    INTERRUPT_TICKS as nat,
                ).nmi,
                ..self.irq_taken().advanced(INTERRUPT_TICKS as nat)
            }
        } else {
            CpuView { irq_pending: level, ..self }
        }
    }

    /// The processor with the sound processor's held cycles taken over.
    pub open spec fn stall_taken(self) -> CpuView {
        CpuView {
            bus: BusView {
                apu: crate::apu::ApuRegs { stall: 0, ..self.bus.apu },
                ..self.bus
            },
            ..self
        }
    }

    /// The cycles that the next instruction takes: its own, and those for
    /// which sample fetches have held the processor.
    pub open spec fn next_cycles(self) -> int {
        self.stall_taken().next_instruction().ticks + self.bus.apu.stall
    }

    /// The console after the instruction at the program counter has run its
    /// course: the instruction is decoded, the peripherals run for its
    /// cycles, then it is executed, and the peripherals run for the cycles
    /// for which it holds the processor.
    #[verifier::opaque]
    pub open spec fn instruction_done(self) -> CpuView {
        let start = self.stall_taken();
        let opcode = start.next_opcode();
        let instr = start.next_instruction();
        let ready = start.instruction_read().advanced(self.next_cycles() as nat);
        ready.executed(opcode, instr).advanced(ready.execute_stall(opcode, instr) as nat)
    }

    /// For how many cycles the next instruction holds the processor beyond its own.
    pub open spec fn next_stall(self) -> int {
        let start = self.stall_taken();
        let ready = start.instruction_read().advanced(self.next_cycles() as nat);
        ready.execute_stall(start.next_opcode(), start.next_instruction())
    }

    /// What the peripherals ask for while the next instruction runs its course.
    pub open spec fn instruction_ask(self) -> Pending {
        let start = self.stall_taken();
        let opcode = start.next_opcode();
        let instr = start.next_instruction();
        let decoded = start.instruction_read();
        let ready = decoded.advanced(self.next_cycles() as nat);
        merged(
            decoded.pending_after(self.next_cycles() as nat),
            ready.executed(opcode, instr).pending_after(ready.execute_stall(opcode, instr) as nat),
        )
    }

    /// Whether the processor cannot execute the opcode at the program counter.
    pub open spec fn faulted(self) -> bool {
        op_info(self.stall_taken().next_opcode()).kind == OpKind::Halt
    }

    /// The level of the interrupt line when the interrupt request is looked
    /// at, where `ask` is what the peripherals asked for during the
    /// instruction: as it stands after the cycles of the non-maskable
    /// interrupt, if one was taken, and after the instruction otherwise.
    pub open spec fn level_after(self, ask: Pending) -> bool {
        if self.nmi_due(ask.nmi) {
            self.nmi_service(ask.nmi).ask.irq
        } else {
            ask.irq
        }
    }

    /// What a step reports whose instruction took `spent` cycles and during
    /// which the peripherals asked for `ask`.
    pub open spec fn service_report(self, ask: Pending, spent: int) -> Step {
        let first = self.nmi_service(ask.nmi);
        let second = self.nmi_serviced(ask.nmi).irq_service(self.level_after(ask));
        Step {
            event: if ask.frame || first.ask.frame || second.ask.frame {
                StepEvent::FrameReady
            } else {
                StepEvent::Running
            },
            cycles: (spent + (if first.taken {
                INTERRUPT_TICKS as int
            } else {
                0
            }) + (if second.taken {
                INTERRUPT_TICKS as int
            } else {
                0
            })) as u16,
        }
    }

    /// The console one step later. A processor that stands on a `BRK` at
    /// address 0 does nothing; one that stands on an opcode that it cannot
    /// execute decodes it and stops; otherwise the instruction runs its
    /// course, and then the interrupts are serviced: first the non-maskable
    /// one, which masks the other.
    pub open spec fn stepped(self) -> CpuView {
        if self.halted() {
            self
        } else if self.faulted() {
            self.stall_taken().instruction_read()
        } else {
            let ask = self.instruction_ask();
            let done = self.instruction_done();
            done.nmi_serviced(ask.nmi).irq_serviced(done.level_after(ask))
        }
    }

    /// What a step reports.
    pub open spec fn step_report(self) -> Step {
        if self.halted() {
            Step { event: StepEvent::Halted, cycles: 0 }
        } else if self.faulted() {
            Step {
                event: StepEvent::Fault(Error::UnsupportedOpcode(self.stall_taken().next_opcode())),
                cycles: 0,
            }
        } else {
            self.instruction_done().service_report(
                self.instruction_ask(),
                self.next_cycles() + self.next_stall(),
            )
        }
    }
}

impl Cpu {
    /// Services the non-maskable interrupt, if one is due.
    pub fn service_nmi(&mut self, raised: bool) -> (done: Service)
        requires
            old(self)@.wf(),
        ensures
            final(self)@ == old(self)@.nmi_serviced(raised),
            done == old(self)@.nmi_service(raised),
            final(self)@.bus.ppu.regs.dots == old(self)@.bus.ppu.regs.dots.wrapping_add(
                if done.taken {
                    21u64
                } else {
                    0u64
                },
            ),
            final(self)@.bus.apu.cycles == old(self)@.bus.apu.cycles.wrapping_add(
                if done.taken {
                    7u64
                } else {
                    0u64
                },
            ),
            final(self)@.cycles == old(self)@.cycles.wrapping_add(
                if done.taken {
                    7u64
                } else {
                    0u64
                },
            ),
            final(self)@.wf(),
    {
        proof {
            reveal(CpuView::nmi_serviced);
        }
        if raised || self.nmi_pending {
            self.nmi();
            self.nmi_pending = false;
            let ask = self.advance(INTERRUPT_TICKS as u16);
            self.nmi_pending = ask.nmi;
            Service { taken: true, ask }
        } else {
            Service { taken: false, ask: Pending { nmi: false, irq: false, frame: false } }
        }
    }

    /// Services an interrupt request, where `level` is the level of the
    /// interrupt line.
    pub fn service_irq(&mut self, level: bool) -> (done: Service)
        requires
            old(self)@.wf(),
        ensures
            final(self)@ == old(self)@.irq_serviced(level),
            done == old(self)@.irq_service(level),
            final(self)@.bus.ppu.regs.dots == old(self)@.bus.ppu.regs.dots.wrapping_add(
                if done.taken {
                    21u64
                } else {
                    0u64
                },
            ),
            final(self)@.bus.apu.cycles == old(self)@.bus.apu.cycles.wrapping_add(
                if done.taken {
                    7u64
                } else {
                    0u64
                },
            ),
            final(self)@.cycles == old(self)@.cycles.wrapping_add(
                if done.taken {
                    7u64
                } else {
                    0u64
                },
            ),
            final(self)@.wf(),
    {
        proof {
            reveal(CpuView::irq_serviced);
        }
        let latched = self.nmi_pending;
        if level && self.irq() {
            let ask = self.advance(INTERRUPT_TICKS as u16);
            self.nmi_pending = latched || ask.nmi;
            self.irq_pending = level;
            Service { taken: true, ask }
        } else {
            self.irq_pending = level;
            Service { taken: false, ask: Pending { nmi: false, irq: false, frame: false } }
        }
    }

    /// Takes over the cycles for which sample fetches have held the processor.
    pub fn take_stall(&mut self) -> (stall: u8)
        requires
            old(self)@.wf(),
        ensures
            stall == old(self)@.bus.apu.stall,
            final(self)@ == old(self)@.stall_taken(),
            final(self)@.wf(),
    {
        self.bus.apu.take_stall()
    }

    /// Lets the instruction with the opcode `op`, decoded as `instr`, run
    /// its course, where `k` is the cycles that it takes. Reports what the
    /// peripherals asked for, and for how many cycles beyond `k` the
    /// instruction held the processor.
    pub fn run_instruction(&mut self, op: u8, instr: &Instruction, k: u16) -> (out: (Pending, u16))
        requires
            old(self)@.wf(),
            k <= 300,
        ensures
            out.1 == old(self)@.advanced(k as nat).execute_stall(op, *instr),
            out.1 <= 514,
            final(self)@ == old(self)@.advanced(k as nat).executed(op, *instr).advanced(
                out.1 as nat,
            ),
            out.0 == merged(
                old(self)@.pending_after(k as nat),
                old(self)@.advanced(k as nat).executed(op, *instr).pending_after(out.1 as nat),
            ),
            final(self)@.bus.ppu.regs.dots == old(self)@.bus.ppu.regs.dots.wrapping_add(
                (3 * (k + out.1)) as u64,
            ),
            final(self)@.bus.apu.cycles == old(self)@.bus.apu.cycles.wrapping_add(
                (k + out.1) as u64,
            ),
            final(self)@.cycles == old(self)@.cycles.wrapping_add((k + out.1) as u64),
            final(self)@.wf(),
    {
        let first = self.advance(k);
        let stall = self.execute_op(op, instr);
        let second = self.advance(stall);
        (
            Pending {
                nmi: first.nmi || second.nmi,
                irq: second.irq,
                frame: first.frame || second.frame,
            },
            stall,
        )
    }

    /// Decodes the instruction at the program counter, after taking over
    /// the cycles for which sample fetches have held the processor. Returns
    /// the opcode, what it decodes to, and the cycles taken over.
    #[verifier::rlimit(40)]
    pub fn decode_next(&mut self) -> (out: (u8, Instruction, u8))
        requires
            old(self)@.wf(),
        ensures
            out.0 == old(self)@.stall_taken().next_opcode(),
            out.1 == old(self)@.stall_taken().next_instruction(),
            out.2 == old(self)@.bus.apu.stall,
            out.1.ticks <= 9,
            final(self)@ == old(self)@.stall_taken().instruction_read(),
            final(self)@.bus.clocks() == old(self)@.bus.clocks(),
            final(self)@.cycles == old(self)@.cycles,
            final(self)@.wf(),
    {
        let held = self.take_stall();
        let (op, instr) = self.read_instruction();
        (op, instr, held)
    }

    /// Lets the instruction that [`Cpu::decode_next`] has decoded run its
    /// course, unless the processor cannot execute it. Reports what the
    /// peripherals asked for and the cycles that went by, or the opcode
    /// that the processor cannot execute.
    #[verifier::rlimit(40)]
    pub fn run_decoded(&mut self, op: u8, instr: &Instruction, held: u8) -> (out: Result<
        (Pending, u16),
        u8,
    >)
        requires
            old(self)@.wf(),
            instr.ticks <= 9,
        ensures
            out is Err <==> op_info(op).kind == OpKind::Halt,
            out matches Err(bad) ==> bad == op && final(self)@ == old(self)@,
            out matches Ok(done) ==> {
                &&& done.1 == instr.ticks + held + old(self)@.advanced(
                    (instr.ticks + held) as nat,
                ).execute_stall(op, *instr)
                &&& final(self)@ == old(self)@.advanced((instr.ticks + held) as nat).executed(
                    op,
                    *instr,
                ).advanced((done.1 - instr.ticks - held) as nat)
                &&& done.0 == merged(
                    old(self)@.pending_after((instr.ticks + held) as nat),
                    old(self)@.advanced((instr.ticks + held) as nat).executed(
                        op,
                        *instr,
                    ).pending_after((done.1 - instr.ticks - held) as nat),
                )
                &&& done.1 <= 900
                &&& final(self)@.bus.ppu.regs.dots == old(self)@.bus.ppu.regs.dots.wrapping_add(
                    (3 * done.1) as u64,
                )
                &&& final(self)@.bus.apu.cycles == old(self)@.bus.apu.cycles.wrapping_add(
                    done.1 as u64,
                )
                &&& final(self)@.cycles == old(self)@.cycles.wrapping_add(done.1 as u64)
            },
            final(self)@.wf(),
    {
        if decode(op).kind == OpKind::Halt {
            return Err(op);
        }
        let k = instr.ticks as u16 + held as u16;
        let (ask, stall) = self.run_instruction(op, instr, k);
        Ok((ask, k + stall))
    }

    /// Decodes the instruction at the program counter and lets it run its
    /// course, unless the processor cannot execute it. Reports what the
    /// peripherals asked for and the cycles that went by, or the opcode
    /// that the processor cannot execute.
    #[verifier::rlimit(40)]
    pub fn run_next(&mut self) -> (out: Result<(Pending, u16), u8>)
        requires
            old(self)@.wf(),
        ensures
            out is Err <==> old(self)@.faulted(),
            out matches Err(op) ==> op == old(self)@.stall_taken().next_opcode() && final(self)@
                == old(self)@.stall_taken().instruction_read() && final(self)@.bus.clocks() == old(
                self,
            )@.bus.clocks() && final(self)@.cycles == old(self)@.cycles,
            out matches Ok(done) ==> {
                &&& final(self)@ == old(self)@.instruction_done()
                &&& done.0 == old(self)@.instruction_ask()
                &&& done.1 == old(self)@.next_cycles() + old(self)@.next_stall()
                &&& done.1 <= 900
                &&& final(self)@.bus.ppu.regs.dots == old(self)@.bus.ppu.regs.dots.wrapping_add(
                    (3 * done.1) as u64,
                )
                &&& final(self)@.bus.apu.cycles == old(self)@.bus.apu.cycles.wrapping_add(
                    done.1 as u64,
                )
                &&& final(self)@.cycles == old(self)@.cycles.wrapping_add(done.1 as u64)
            },
            final(self)@.wf(),
    {
        proof {
            reveal(CpuView::instruction_done);
        }
        let (op, instr, held) = self.decode_next();
        self.run_decoded(op, &instr, held)
    }

    /// Services the interrupts that are due after an instruction, where
    /// `ask` is what the peripherals asked for while it ran and `spent` the
    /// cycles that it took.
    #[verifier::rlimit(40)]
    pub fn service(&mut self, ask: Pending, spent: u16) -> (report: Step)
        requires
            old(self)@.wf(),
            spent <= 900,
        ensures
            final(self)@ == old(self)@.nmi_serviced(ask.nmi).irq_serviced(
                old(self)@.level_after(ask),
            ),
            report == old(self)@.service_report(ask, spent as int),
            spent <= report.cycles <= spent + 14,
            final(self)@.bus.ppu.regs.dots == old(self)@.bus.ppu.regs.dots.wrapping_add(
                (3 * (report.cycles - spent)) as u64,
            ),
            final(self)@.bus.apu.cycles == old(self)@.bus.apu.cycles.wrapping_add(
                (report.cycles - spent) as u64,
            ),
            final(self)@.cycles == old(self)@.cycles.wrapping_add((report.cycles - spent) as u64),
            final(self)@.wf(),
    {
        let first = self.service_nmi(ask.nmi);
        let level = if first.taken {
            first.ask.irq
        } else {
            ask.irq
        };
        let second = self.service_irq(level);
        let mut cycles = spent;
        if first.taken {
            cycles = cycles + INTERRUPT_TICKS as u16;
        }
        if second.taken {
            cycles = cycles + INTERRUPT_TICKS as u16;
        }
        Step {
            event: if ask.frame || first.ask.frame || second.ask.frame {
                StepEvent::FrameReady
            } else {
                StepEvent::Running
            },
            cycles,
        }
    }

    /// Runs the console for one instruction, and services the interrupts
    /// that are due after it.
    ///
    /// For every cycle that the step reports, the picture processor has
    /// advanced by three dots and the sound processor by one cycle.
    #[verifier::rlimit(40)]
    pub fn step(&mut self) -> (report: Step)
        requires
            old(self)@.wf(),
        ensures
            final(self)@ == old(self)@.stepped(),
            report == old(self)@.step_report(),
            final(self)@.bus.ppu.regs.dots == old(self)@.bus.ppu.regs.dots.wrapping_add(
                (3 * report.cycles) as u64,
            ),
            final(self)@.bus.apu.cycles == old(self)@.bus.apu.cycles.wrapping_add(
                report.cycles as u64,
            ),
            final(self)@.cycles == old(self)@.cycles.wrapping_add(report.cycles as u64),
            final(self)@.wf(),
    {
        proof {
            lemma_count_on(self@.bus.ppu.regs.dots, 0, 0);
            lemma_count_on(self@.bus.apu.cycles, 0, 0);
            lemma_count_on(self@.cycles, 0, 0);
        }
        if self.regs.program_counter == 0 && self.bus.peek(0) == 0 {
            return Step { event: StepEvent::Halted, cycles: 0 };
        }
        match self.run_next() {
            Err(op) => Step { event: StepEvent::Fault(Error::UnsupportedOpcode(op)), cycles: 0 },
            Ok((ask, spent)) => {
                let report = self.service(ask, spent);
                proof {
                    let more = (report.cycles - spent) as u64;
                    lemma_count_on(old(self)@.bus.ppu.regs.dots, (3 * spent) as u64, (3 * more) as u64);
                    lemma_count_on(old(self)@.bus.apu.cycles, spent as u64, more);
                    lemma_count_on(old(self)@.cycles, spent as u64, more);
                }
                report
            },
        }
    }
}

impl Cpu {
    /// Does what [`Cpu::step`] does, and returns the trace line of the
    /// instruction beside: what the processor looked like when it had
    /// decoded the instruction and not yet executed it. A processor that
    /// stands on a `BRK` at address 0 leaves the line empty.
    #[verifier::rlimit(40)]
    pub fn step_traced(&mut self) -> (out: (Step, String))
        requires
            old(self)@.wf(),
        ensures
            final(self)@ == old(self)@.stepped(),
            out.0 == old(self)@.step_report(),
            out.1@ == old(self)@.step_trace(),
            final(self)@.wf(),
    {
        proof {
            reveal(CpuView::instruction_done);
        }
        if self.regs.program_counter == 0 && self.bus.peek(0) == 0 {
            return (Step { event: StepEvent::Halted, cycles: 0 }, String::new());
        }
        let (op, instr, held) = self.decode_next();
        let line = crate::trace::cpu_debug(op, &instr, self);
        match self.run_decoded(op, &instr, held) {
            Err(bad) => (
                Step { event: StepEvent::Fault(Error::UnsupportedOpcode(bad)), cycles: 0 },
                line,
            ),
            Ok((ask, spent)) => (self.service(ask, spent), line),
        }
    }
}

impl CpuView {
    /// The trace line that belongs to a step: empty for a processor that
    /// stands on a `BRK` at address 0.
    pub open spec fn step_trace(self) -> Seq<char> {
        if self.halted() {
            Seq::empty()
        } else {
            let start = self.stall_taken();
            crate::trace::trace_line(
                start.next_opcode(),
                start.next_instruction(),
                start.instruction_read(),
            )
        }
    }
}

/// Counting on by `x` and then by `y` is counting on by their sum.
pub proof fn lemma_count_on(start: u64, x: u64, y: u64)
    requires
        x + y <= u64::MAX,
    ensures
        start.wrapping_add(x).wrapping_add(y) == start.wrapping_add((x + y) as u64),
        start.wrapping_add(0) == start,
{
}

/// With the non-maskable interrupt and an interrupt request due at the
/// same time, the processor takes the non-maskable interrupt: the next
/// instruction is fetched from the address in the vector at `$FFFA`, and
/// the interrupt request waits behind the interrupt mask.
pub proof fn lemma_nmi_first(cpu: CpuView)
    ensures
        ({
            let after = cpu.nmi_serviced(true).irq_serviced(true);
            &&& after.regs.program_counter == cpu.saved(false).read_word_value(
                crate::bus::NMI_VECTOR_LOC,
            )
            &&& after.regs.status_reg.interrupt
            &&& after.irq_pending
            &&& !cpu.nmi_serviced(true).takes_irq()
        }),
{
    reveal(CpuView::nmi_serviced);
    reveal(CpuView::irq_serviced);
    reveal(CpuView::video_advanced);
    reveal(CpuView::sound_advanced);
    reveal(CpuView::saved);
    reveal(CpuView::vectored);
}

} // verus!
