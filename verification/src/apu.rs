//! The sound processor: five channels behind `$4000..=$4017`, clocked once
//! per processor cycle, mixed and resampled into the sample queue.

use crate::audio::{is_suffix, produced, push_sample, room};
use crate::board::{Cart, CartView};
use crate::channels::{Dmc, Noise, Pulse, Triangle, DMC_STALL};
use crate::units::{length_after, FrameClock, FrameCounter};
use ringbuf::Producer;
use vstd::prelude::*;

verus! {

/// The processor clock in hertz (NTSC).
pub const CPU_CLOCK: u32 = 1_789_773;

/// The host's sample rate unless it asks for another.
pub const SAMPLE_RATE: u32 = 44_100;

/// The state of the sound processor but for the queue.
#[derive(Clone, Copy, Debug)]
pub struct ApuRegs {
    pub pulse1: Pulse,
    pub pulse2: Pulse,
    pub triangle: Triangle,
    pub noise: Noise,
    pub dmc: Dmc,
    pub frame: FrameCounter,
    /// Processor cycles since power-up, modulo 2^64.
    pub cycles: u64,
    /// The resampler's accumulator: sample periods gone by since the last
    /// sample, in units of one over clock times rate.
    pub phase: u32,
    /// The host's sample rate in hertz.
    pub sample_rate: u32,
    /// Cycles for which sample fetches have held the processor and which it
    /// has not accounted for yet.
    pub stall: u8,
}

/// The sound processor.
pub struct Apu {
    pub regs: ApuRegs,
    /// The producing end of the sample queue.
    pub output: Producer<u32>,
}

impl ApuRegs {
    pub open spec fn wf(self) -> bool {
        &&& self.pulse1.wf()
        &&& self.pulse2.wf()
        &&& self.triangle.wf()
        &&& self.noise.wf()
        &&& self.dmc.wf()
        &&& self.frame.wf()
        &&& self.phase < CPU_CLOCK
        &&& 0 < self.sample_rate <= CPU_CLOCK
    }

    pub open spec fn power_up(sample_rate: u32) -> ApuRegs {
        ApuRegs {
            pulse1: Pulse::silent(false),
            pulse2: Pulse::silent(true),
            triangle: Triangle::silent(),
            noise: Noise::silent(),
            dmc: Dmc::silent(),
            frame: FrameCounter::power_up(),
            cycles: 0,
            phase: 0,
            sample_rate,
            stall: 0,
        }
    }

    /// The channels after the frame sequencer's clocks: a quarter frame
    /// clocks the envelopes and the linear counter, a half frame the length
    /// counters and the sweeps.
    pub open spec fn framed(self, clock: FrameClock) -> ApuRegs {
        let q = if clock.quarter {
            ApuRegs {
                pulse1: self.pulse1.quarter(),
                pulse2: self.pulse2.quarter(),
                triangle: self.triangle.quarter(),
                noise: self.noise.quarter(),
                ..self
            }
        } else {
            self
        };
        if clock.half {
            ApuRegs {
                pulse1: q.pulse1.half(),
                pulse2: q.pulse2.half(),
                triangle: q.triangle.half(),
                noise: q.noise.half(),
                ..q
            }
        } else {
            q
        }
    }

    /// The timers after one processor cycle: triangle, noise and delta
    /// channel on every cycle, the pulse channels on every second one.
    pub open spec fn timed(self) -> ApuRegs {
        ApuRegs {
            pulse1: if self.cycles % 2 == 1 {
                self.pulse1.timed()
            } else {
                self.pulse1
            },
            pulse2: if self.cycles % 2 == 1 {
                self.pulse2.timed()
            } else {
                self.pulse2
            },
            triangle: self.triangle.timed(),
            noise: self.noise.timed(),
            dmc: self.dmc.timed(),
            ..self
        }
    }

    /// Whether the cycle about to pass completes a sample period.
    pub open spec fn sample_due(self) -> bool {
        self.phase + self.sample_rate >= CPU_CLOCK
    }

    /// The resampler after one processor cycle.
    pub open spec fn resampled(self) -> ApuRegs {
        ApuRegs {
            phase: if self.sample_due() {
                (self.phase + self.sample_rate - CPU_CLOCK) as u32
            } else {
                (self.phase + self.sample_rate) as u32
            },
            ..self
        }
    }

    /// The sound processor after the delta channel's read ahead, which
    /// takes `byte` from memory if the channel wants one, and holds the
    /// processor for it.
    pub open spec fn fed(self, byte: u8) -> ApuRegs {
        if self.dmc.wants_byte() {
            ApuRegs {
                dmc: self.dmc.fed(byte),
                stall: if self.stall <= 255 - DMC_STALL {
                    (self.stall + DMC_STALL) as u8
                } else {
                    255
                },
                ..self
            }
        } else {
            self
        }
    }

    /// The sound processor one processor cycle later, where `byte` is what
    /// lies in memory at the delta channel's read address.
    pub open spec fn cycled(self, byte: u8) -> ApuRegs {
        let clocked = self.fed(byte).framed(self.frame.asks());
        ApuRegs {
            frame: self.frame.counted(),
            cycles: self.cycles.wrapping_add(1),
            ..clocked.timed().resampled()
        }
    }

    /// The index of the mixer's pulse table: the sum of the two pulse levels.
    pub open spec fn pulse_index(self) -> int {
        self.pulse1.level() + self.pulse2.level()
    }

    /// The index of the mixer's other table: three times the triangle
    /// level, twice the noise level, and the delta channel's level.
    pub open spec fn tnd_index(self) -> int {
        3 * self.triangle.level() + 2 * self.noise.level() + self.dmc.level
    }

    /// The mixer code of the current output: the pulse index in the second
    /// byte, the other index in the first.
    pub open spec fn mix(self) -> u32 {
        (256 * self.pulse_index() + self.tnd_index()) as u32
    }

    /// What `$4015` reads: a bit for each channel whose length counter (for
    /// the delta channel: sample) has not run out, the frame interrupt in
    /// bit 6, the delta channel's in bit 7.
    pub open spec fn status(self) -> int {
        (if self.pulse1.length > 0 {
            1int
        } else {
            0
        }) + (if self.pulse2.length > 0 {
            2int
        } else {
            0
        }) + (if self.triangle.length > 0 {
            4int
        } else {
            0
        }) + (if self.noise.length > 0 {
            8int
        } else {
            0
        }) + (if self.dmc.remaining > 0 {
            16int
        } else {
            0
        }) + (if self.frame.irq {
            64int
        } else {
            0
        }) + (if self.dmc.irq {
            128int
        } else {
            0
        })
    }

    /// The sound processor after a read of `$4015`, which clears the frame
    /// interrupt and nothing else.
    pub open spec fn status_read(self) -> ApuRegs {
        ApuRegs { frame: FrameCounter { irq: false, ..self.frame }, ..self }
    }

    /// Whether the sound processor asks for an interrupt.
    pub open spec fn irq(self) -> bool {
        self.frame.irq || self.dmc.irq
    }

    /// The sound processor after a write of `val` to `$4015`: bits 0 to 4
    /// switch pulse 1, pulse 2, triangle, noise and delta channel.
    pub open spec fn switched(self, val: u8) -> ApuRegs {
        ApuRegs {
            pulse1: self.pulse1.switched(val % 2 == 1),
            pulse2: self.pulse2.switched((val / 2) % 2 == 1),
            triangle: self.triangle.switched((val / 4) % 2 == 1),
            noise: self.noise.switched((val / 8) % 2 == 1),
            dmc: self.dmc.switched((val / 16) % 2 == 1),
            ..self
        }
    }

    /// The sound processor after a write of `val` to `$4017`: the sequencer
    /// takes its mode, and the mode of five steps clocks a quarter and a
    /// half frame at once.
    pub open spec fn sequenced(self, val: u8) -> ApuRegs {
        let set = ApuRegs { frame: self.frame.written(val, self.cycles % 2 == 1), ..self };
        if val >= 128 {
            set.framed(FrameClock { quarter: true, half: true })
        } else {
            set
        }
    }

    /// The sound processor after a write of `val` to `$4000 + reg`, for
    /// `reg` up to `$17`.
    pub open spec fn reg_written(self, reg: u8, val: u8) -> ApuRegs {
        if reg < 4 {
            ApuRegs { pulse1: self.pulse1.written(reg, val), ..self }
        } else if reg < 8 {
            ApuRegs { pulse2: self.pulse2.written((reg - 4) as u8, val), ..self }
        } else if reg < 12 {
            ApuRegs { triangle: self.triangle.written((reg - 8) as u8, val), ..self }
        } else if reg < 16 {
            ApuRegs { noise: self.noise.written((reg - 12) as u8, val), ..self }
        } else if reg < 20 {
            ApuRegs { dmc: self.dmc.written((reg - 16) as u8, val), ..self }
        } else if reg == 0x15 {
            self.switched(val)
        } else if reg == 0x17 {
            self.sequenced(val)
        } else {
            self
        }
    }

    /// The sound processor `n` processor cycles later. The delta channel
    /// reads ahead from the cartridge.
    pub open spec fn run(self, cart: CartView, n: nat) -> ApuRegs
        decreases n,
    {
        if n == 0 {
            self
        } else {
            self.cycled(cart.cpu_read(self.dmc.current)).run(cart, (n - 1) as nat)
        }
    }

    /// The state at power-up.
    pub fn new(sample_rate: u32) -> (r: ApuRegs)
        requires
            0 < sample_rate <= CPU_CLOCK,
        ensures
            r == ApuRegs::power_up(sample_rate),
            r.wf(),
    {
        ApuRegs {
            pulse1: Pulse::new(false),
            pulse2: Pulse::new(true),
            triangle: Triangle::new(),
            noise: Noise::new(),
            dmc: Dmc::new(),
            frame: FrameCounter::new(),
            cycles: 0,
            phase: 0,
            sample_rate,
            stall: 0,
        }
    }

    /// Computes `framed`.
    pub fn clock_frame(self, clock: FrameClock) -> (out: ApuRegs)
        requires
            self.wf(),
        ensures
            out == self.framed(clock),
            out.wf(),
    {
        let q = if clock.quarter {
            ApuRegs {
                pulse1: self.pulse1.clock_quarter(),
                pulse2: self.pulse2.clock_quarter(),
                triangle: self.triangle.clock_quarter(),
                noise: self.noise.clock_quarter(),
                ..self
            }
        } else {
            self
        };
        if clock.half {
            ApuRegs {
                pulse1: q.pulse1.clock_half(),
                pulse2: q.pulse2.clock_half(),
                triangle: q.triangle.clock_half(),
                noise: q.noise.clock_half(),
                ..q
            }
        } else {
            q
        }
    }

    /// Computes `timed`.
    pub fn clock_timers(self) -> (out: ApuRegs)
        requires
            self.wf(),
        ensures
            out == self.timed(),
            out.wf(),
    {
        let odd = self.cycles % 2 == 1;
        ApuRegs {
            pulse1: if odd {
                self.pulse1.clock_timer()
            } else {
                self.pulse1
            },
            pulse2: if odd {
                self.pulse2.clock_timer()
            } else {
                self.pulse2
            },
            triangle: self.triangle.clock_timer(),
            noise: self.noise.clock_timer(),
            dmc: self.dmc.clock_timer(),
            ..self
        }
    }

    /// Computes `sample_due`.
    pub fn is_sample_due(self) -> (due: bool)
        requires
            self.wf(),
        ensures
            due == self.sample_due(),
    {
        self.phase + self.sample_rate >= CPU_CLOCK
    }

    /// Computes `resampled`.
    pub fn resample(self) -> (out: ApuRegs)
        requires
            self.wf(),
        ensures
            out == self.resampled(),
            out.wf(),
    {
        let sum = self.phase + self.sample_rate;
        ApuRegs {
            phase: if sum >= CPU_CLOCK {
                sum - CPU_CLOCK
            } else {
                sum
            },
            ..self
        }
    }

    /// Computes `fed`.
    pub fn feed(self, byte: u8) -> (out: ApuRegs)
        requires
            self.wf(),
        ensures
            out == self.fed(byte),
            out.wf(),
    {
        if self.dmc.needs_byte() {
            ApuRegs {
                dmc: self.dmc.feed(byte),
                stall: if self.stall <= 255 - DMC_STALL {
                    self.stall + DMC_STALL
                } else {
                    255
                },
                ..self
            }
        } else {
            self
        }
    }

    /// Computes `cycled`.
    pub fn cycle(self, byte: u8) -> (out: ApuRegs)
        requires
            self.wf(),
        ensures
            out == self.cycled(byte),
            out.wf(),
    {
        let clocked = self.feed(byte).clock_frame(self.frame.ask());
        ApuRegs {
            frame: self.frame.count(),
            cycles: self.cycles.wrapping_add(1),
            ..clocked.clock_timers().resample()
        }
    }

    /// Computes `mix`.
    pub fn mix_code(self) -> (code: u32)
        requires
            self.wf(),
        ensures
            code == self.mix(),
            code < 0x2000,
    {
        let pulse = (self.pulse1.output() + self.pulse2.output()) as u32;
        let tnd = 3 * (self.triangle.output() as u32) + 2 * (self.noise.output() as u32)
            + self.dmc.level as u32;
        256 * pulse + tnd
    }

    /// Computes `status`.
    pub fn status_byte(self) -> (s: u8)
        ensures
            s == self.status(),
    {
        let mut s: u8 = 0;
        if self.pulse1.length > 0 {
            s = s + 1;
        }
        if self.pulse2.length > 0 {
            s = s + 2;
        }
        if self.triangle.length > 0 {
            s = s + 4;
        }
        if self.noise.length > 0 {
            s = s + 8;
        }
        if self.dmc.remaining > 0 {
            s = s + 16;
        }
        if self.frame.irq {
            s = s + 64;
        }
        if self.dmc.irq {
            s = s + 128;
        }
        s
    }

    /// Computes `switched`.
    pub fn switch(self, val: u8) -> (out: ApuRegs)
        requires
            self.wf(),
        ensures
            out == self.switched(val),
            out.wf(),
    {
        ApuRegs {
            pulse1: self.pulse1.switch(val % 2 == 1),
            pulse2: self.pulse2.switch((val / 2) % 2 == 1),
            triangle: self.triangle.switch((val / 4) % 2 == 1),
            noise: self.noise.switch((val / 8) % 2 == 1),
            dmc: self.dmc.switch((val / 16) % 2 == 1),
            ..self
        }
    }

    /// Computes `sequenced`.
    pub fn sequence(self, val: u8) -> (out: ApuRegs)
        requires
            self.wf(),
        ensures
            out == self.sequenced(val),
            out.wf(),
    {
        let set = ApuRegs { frame: self.frame.write(val, self.cycles % 2 == 1), ..self };
        if val >= 128 {
            set.clock_frame(FrameClock { quarter: true, half: true })
        } else {
            set
        }
    }

    /// Computes `reg_written`.
    pub fn write(self, reg: u8, val: u8) -> (out: ApuRegs)
        requires
            self.wf(),
        ensures
            out == self.reg_written(reg, val),
            out.cycles == self.cycles,
            out.wf(),
    {
        if reg < 4 {
            ApuRegs { pulse1: self.pulse1.write(reg, val), ..self }
        } else if reg < 8 {
            ApuRegs { pulse2: self.pulse2.write(reg - 4, val), ..self }
        } else if reg < 12 {
            ApuRegs { triangle: self.triangle.write(reg - 8, val), ..self }
        } else if reg < 16 {
            ApuRegs { noise: self.noise.write(reg - 12, val), ..self }
        } else if reg < 20 {
            ApuRegs { dmc: self.dmc.write(reg - 16, val), ..self }
        } else if reg == 0x15 {
            self.switch(val)
        } else if reg == 0x17 {
            self.sequence(val)
        } else {
            self
        }
    }
}

/// How the queue behind `after` relates to the queue behind `before` once
/// `code` was offered to it: with room, `code` is its newest sample; without,
/// `code` is dropped and the queue is full. Either way the samples queued
/// before keep their order, but for those that the consumer took meanwhile.
pub open spec fn offered(before: Producer<u32>, after: Producer<u32>, code: u32, queued: bool) -> bool {
    &&& room(after) == room(before)
    &&& produced(after).len() <= room(after)
    &&& queued ==> produced(after).len() > 0 && produced(after).last() == code && is_suffix(
        produced(after).drop_last(),
        produced(before),
    )
    &&& !queued ==> is_suffix(produced(after), produced(before)) && produced(after).len() == room(
        after,
    )
}

impl Apu {
    pub open spec fn wf(&self) -> bool {
        self.regs.wf()
    }

    /// The queue holds no more than its capacity.
    pub open spec fn within_capacity(&self) -> bool {
        produced(self.output).len() <= room(self.output)
    }

    /// A silent sound processor that feeds `output` at `sample_rate` hertz.
    pub fn new(output: Producer<u32>, sample_rate: u32) -> (apu: Apu)
        requires
            0 < sample_rate <= CPU_CLOCK,
        ensures
            apu.regs == ApuRegs::power_up(sample_rate),
            apu.output == output,
            apu.wf(),
            apu.within_capacity() == (produced(output).len() <= room(output)),
    {
        Apu { regs: ApuRegs::new(sample_rate), output }
    }

    /// Reads `$4015`.
    pub fn read_status(&mut self) -> (s: u8)
        requires
            old(self).wf(),
        ensures
            s == old(self).regs.status(),
            final(self).regs == old(self).regs.status_read(),
            final(self).regs.cycles == old(self).regs.cycles,
            final(self).output == old(self).output,
            final(self).wf(),
    {
        let s = self.regs.status_byte();
        self.regs.frame.irq = false;
        s
    }

    /// Writes `val` to `$4000 + reg`.
    pub fn write_reg(&mut self, reg: u8, val: u8)
        requires
            old(self).wf(),
        ensures
            final(self).regs == old(self).regs.reg_written(reg, val),
            final(self).regs.cycles == old(self).regs.cycles,
            final(self).output == old(self).output,
            final(self).wf(),
    {
        self.regs = self.regs.write(reg, val);
    }

    /// Hands a sample to the queue. A full queue drops it: the newest
    /// sample, never a queued one.
    pub fn emit(&mut self, code: u32) -> (queued: bool)
        ensures
            final(self).regs == old(self).regs,
            offered(old(self).output, final(self).output, code, queued),
    {
        push_sample(&mut self.output, code)
    }

    /// Advances the sound processor by one processor cycle. If the cycle
    /// completes a sample period of the host, the mixer code of the output
    /// is offered to the queue.
    pub fn step(&mut self, cart: &Cart)
        requires
            old(self).wf(),
            cart@.wf(),
        ensures
            final(self).regs == old(self).regs.cycled(cart@.cpu_read(old(self).regs.dmc.current)),
            old(self).within_capacity() ==> final(self).within_capacity(),
            !old(self).regs.sample_due() ==> final(self).output == old(self).output,
            old(self).regs.sample_due() ==> exists|queued: bool|
                offered(old(self).output, final(self).output, final(self).regs.mix(), queued),
            room(final(self).output) == room(old(self).output),
            final(self).wf(),
    {
        let due = self.regs.is_sample_due();
        let byte = cart.cpu_read(self.regs.dmc.current);
        self.regs = self.regs.cycle(byte);
        if due {
            let code = self.regs.mix_code();
            let queued = self.emit(code);
            assert(offered(old(self).output, self.output, self.regs.mix(), queued));
        }
    }

    /// Advances the sound processor by `cycles` processor cycles and
    /// reports whether it asks for an interrupt. A sample goes to the queue
    /// each time a sample period of the host completes.
    pub fn tick(&mut self, cycles: u16, cart: &Cart) -> (irq: bool)
        requires
            old(self).wf(),
            cart@.wf(),
        ensures
            final(self).regs == old(self).regs.run(cart@, cycles as nat),
            irq == final(self).regs.irq(),
            final(self).regs.cycles == old(self).regs.cycles.wrapping_add(cycles as u64),
            room(final(self).output) == room(old(self).output),
            old(self).within_capacity() ==> final(self).within_capacity(),
            final(self).wf(),
    {
        let mut i: u16 = 0;
        while i < cycles
            invariant
                i <= cycles,
                self.wf(),
                cart@.wf(),
                self.regs.run(cart@, (cycles - i) as nat) == old(self).regs.run(cart@, cycles as nat),
                self.regs.cycles == old(self).regs.cycles.wrapping_add(i as u64),
                room(self.output) == room(old(self).output),
                old(self).within_capacity() ==> self.within_capacity(),
            decreases cycles - i,
        {
            self.step(cart);
            i = i + 1;
        }
        self.regs.frame.irq || self.regs.dmc.irq
    }

    /// Hands out the cycles for which sample fetches have held the
    /// processor since the last call.
    pub fn take_stall(&mut self) -> (stall: u8)
        requires
            old(self).wf(),
        ensures
            stall == old(self).regs.stall,
            final(self).regs == (ApuRegs { stall: 0, ..old(self).regs }),
            final(self).output == old(self).output,
            final(self).wf(),
    {
        let stall = self.regs.stall;
        self.regs.stall = 0;
        stall
    }
}

/// Two samples that are queued one after the other lie in the queue in
/// that order, the second at the back and the first right before it, as
/// long as the consumer has not taken the first.
pub proof fn lemma_production_order(
    start: Producer<u32>,
    between: Producer<u32>,
    end: Producer<u32>,
    first: u32,
    second: u32,
)
    requires
        offered(start, between, first, true),
        offered(between, end, second, true),
        produced(end).len() >= 2,
    ensures
        produced(end)[produced(end).len() - 1] == second,
        produced(end)[produced(end).len() - 2] == first,
        produced(end).len() <= room(start),
{
    let mid = produced(between);
    let last = produced(end);
    let kept = last.drop_last();
    assert(kept.len() >= 1);
    assert(mid.subrange(mid.len() - kept.len(), mid.len() as int) == kept);
    assert(kept[kept.len() - 1] == mid.subrange(mid.len() - kept.len(), mid.len() as int)[kept.len()
        - 1]);
    assert(mid[mid.len() - 1] == first);
}

/// Reading `$4015` clears the frame interrupt, which the next read then
/// finds clear, and leaves the delta channel's interrupt as it is.
pub proof fn lemma_status_read(r: ApuRegs)
    ensures
        !r.status_read().frame.irq,
        r.status_read().dmc.irq == r.dmc.irq,
        (r.status_read().status() / 64) % 2 == 0,
        r.status_read().status() / 128 == r.status() / 128,
        r.status() / 128 == 1 <==> r.dmc.irq,
        (r.status() / 64) % 2 == 1 <==> r.frame.irq,
{
}

/// A pulse channel after `n` half-frame clocks.
pub open spec fn halves(p: Pulse, n: nat) -> Pulse
    decreases n,
{
    if n == 0 {
        p
    } else {
        halves(p.half(), (n - 1) as nat)
    }
}

/// The length counter of a pulse channel counts the half frames.
pub proof fn lemma_pulse_length(p: Pulse, n: nat)
    ensures
        halves(p, n).length == length_after(p.length, p.envelope.looping, n),
        halves(p, n).envelope == p.envelope,
    decreases n,
{
    if n > 0 {
        lemma_pulse_length(p.half(), (n - 1) as nat);
    }
}

/// An enabled pulse channel that is loaded with a length and not halted
/// plays for that many half frames: after them its length counter is
/// empty, it puts out nothing, and before them it is not empty.
pub proof fn lemma_pulse_falls_silent(p: Pulse, val: u8, n: nat)
    requires
        p.enabled,
        !p.envelope.looping,
    ensures
        p.written(3, val).length == crate::units::length_of(val),
        n >= crate::units::length_of(val) ==> halves(p.written(3, val), n).length == 0
            && halves(p.written(3, val), n).level() == 0,
        n < crate::units::length_of(val) ==> halves(p.written(3, val), n).length > 0,
{
    let loaded = p.written(3, val);
    lemma_pulse_length(loaded, n);
    crate::units::lemma_length_runs_out(loaded.length, n);
}

} // verus!
