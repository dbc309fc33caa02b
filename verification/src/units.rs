//! The building blocks of the sound channels: length counter, envelope,
//! sweep and linear counter, and the sequencer that clocks them.

use vstd::prelude::*;

verus! {

/// What a length counter is loaded with, by the five bits written.
pub const LENGTHS: [u8; 32] = [
    10, 254, 20, 2, 40, 4, 80, 6, 160, 8, 60, 10, 14, 12, 26, 14,
    12, 16, 24, 18, 48, 20, 96, 22, 192, 24, 72, 26, 16, 28, 32, 30,
];

/// The length that the upper five bits of `val` select.
pub open spec fn length_of(val: u8) -> u8 {
    LENGTHS[(val / 8) as int]
}

/// Computes `length_of`.
pub fn length_for(val: u8) -> (len: u8)
    ensures
        len == length_of(val),
{
    LENGTHS[(val / 8) as usize]
}

/// A length counter after a half-frame clock: it counts down to zero and
/// stays there, unless halted.
pub open spec fn length_clocked(length: u8, halt: bool) -> u8 {
    if length > 0 && !halt {
        (length - 1) as u8
    } else {
        length
    }
}

/// Computes `length_clocked`.
pub fn clock_length(length: u8, halt: bool) -> (out: u8)
    ensures
        out == length_clocked(length, halt),
{
    if length > 0 && !halt {
        length - 1
    } else {
        length
    }
}

/// A length counter after `n` half-frame clocks.
pub open spec fn length_after(length: u8, halt: bool, n: nat) -> u8
    decreases n,
{
    if n == 0 {
        length
    } else {
        length_after(length_clocked(length, halt), halt, (n - 1) as nat)
    }
}

/// A length counter that is not halted reaches zero after as many clocks as
/// it held, and not before.
pub proof fn lemma_length_runs_out(length: u8, n: nat)
    ensures
        n >= length ==> length_after(length, false, n) == 0,
        n < length ==> length_after(length, false, n) == length - n,
    decreases n,
{
    if n > 0 {
        lemma_length_runs_out(length_clocked(length, false), (n - 1) as nat);
    }
}

/// The volume envelope of a pulse or noise channel.
#[derive(Clone, Copy, Debug)]
pub struct Envelope {
    /// Set by a length load; the next clock restarts the decay.
    pub start: bool,
    /// Whether the decay starts over at zero. The same bit halts the length counter.
    pub looping: bool,
    /// Whether the channel plays at `volume` rather than at the decay level.
    pub constant: bool,
    /// The volume, which is also the period of the divider; below 16.
    pub volume: u8,
    pub divider: u8,
    /// The decay level, below 16.
    pub decay: u8,
}

impl Envelope {
    pub open spec fn wf(self) -> bool {
        self.volume < 16 && self.divider < 16 && self.decay < 16
    }

    pub open spec fn silent() -> Envelope {
        Envelope { start: false, looping: false, constant: false, volume: 0, divider: 0, decay: 0 }
    }

    /// The envelope after a quarter-frame clock.
    pub open spec fn clocked(self) -> Envelope {
        if self.start {
            Envelope { start: false, decay: 15, divider: self.volume, ..self }
        } else if self.divider > 0 {
            Envelope { divider: (self.divider - 1) as u8, ..self }
        } else if self.decay > 0 {
            Envelope { divider: self.volume, decay: (self.decay - 1) as u8, ..self }
        } else if self.looping {
            Envelope { divider: self.volume, decay: 15, ..self }
        } else {
            Envelope { divider: self.volume, ..self }
        }
    }

    /// The level that the envelope puts out, below 16.
    pub open spec fn level(self) -> u8 {
        if self.constant {
            self.volume
        } else {
            self.decay
        }
    }

    /// The envelope after a write of `val` to the channel's first register:
    /// `--LC VVVV`.
    pub open spec fn configured(self, val: u8) -> Envelope {
        Envelope {
            looping: (val / 32) % 2 == 1,
            constant: (val / 16) % 2 == 1,
            volume: val % 16,
            ..self
        }
    }

    /// The state at power-up.
    pub fn new() -> (e: Envelope)
        ensures
            e == Envelope::silent(),
            e.wf(),
    {
        Envelope { start: false, looping: false, constant: false, volume: 0, divider: 0, decay: 0 }
    }

    /// Computes `clocked`.
    pub fn clock(self) -> (out: Envelope)
        requires
            self.wf(),
        ensures
            out == self.clocked(),
            out.wf(),
    {
        if self.start {
            Envelope { start: false, decay: 15, divider: self.volume, ..self }
        } else if self.divider > 0 {
            Envelope { divider: self.divider - 1, ..self }
        } else if self.decay > 0 {
            Envelope { divider: self.volume, decay: self.decay - 1, ..self }
        } else if self.looping {
            Envelope { divider: self.volume, decay: 15, ..self }
        } else {
            Envelope { divider: self.volume, ..self }
        }
    }

    /// Computes `level`.
    pub fn output(self) -> (v: u8)
        requires
            self.wf(),
        ensures
            v == self.level(),
            v < 16,
    {
        if self.constant {
            self.volume
        } else {
            self.decay
        }
    }

    /// Computes `configured`.
    pub fn configure(self, val: u8) -> (out: Envelope)
        requires
            self.wf(),
        ensures
            out == self.configured(val),
            out.wf(),
    {
        Envelope {
            looping: (val / 32) % 2 == 1,
            constant: (val / 16) % 2 == 1,
            volume: val % 16,
            ..self
        }
    }
}

/// The sweep unit of a pulse channel.
#[derive(Clone, Copy, Debug)]
pub struct Sweep {
    pub enabled: bool,
    pub negate: bool,
    /// The period of the divider, below 8.
    pub period: u8,
    /// By how many bits the period is shifted for the change, below 8.
    pub shift: u8,
    pub divider: u8,
    pub reload: bool,
}

/// Two to the power `n`, for `n` below 8.
pub const POWERS: [u16; 8] = [1, 2, 4, 8, 16, 32, 64, 128];

impl Sweep {
    pub open spec fn wf(self) -> bool {
        self.period < 8 && self.shift < 8 && self.divider < 8
    }

    pub open spec fn off() -> Sweep {
        Sweep { enabled: false, negate: false, period: 0, shift: 0, divider: 0, reload: false }
    }

    /// The period that the sweep aims at from `timer`: the period plus its
    /// shifted self, or minus it. The first pulse channel subtracts one more
    /// (it adds the one's complement), the second does not.
    pub open spec fn target(self, timer: u16, second: bool) -> int {
        let change = timer / POWERS[self.shift as int];
        if !self.negate {
            timer + change
        } else if second {
            timer - change
        } else {
            timer - change - 1
        }
    }

    /// Whether the sweep silences the channel: the period is below 8, or the
    /// target is beyond eleven bits.
    pub open spec fn muting(self, timer: u16, second: bool) -> bool {
        timer < 8 || self.target(timer, second) > 0x7FF
    }

    /// The channel's period after a half-frame clock.
    pub open spec fn swept(self, timer: u16, second: bool) -> u16 {
        if self.divider == 0 && self.enabled && self.shift != 0 && !self.muting(timer, second) {
            if self.target(timer, second) < 0 {
                0
            } else {
                self.target(timer, second) as u16
            }
        } else {
            timer
        }
    }

    /// The sweep after a half-frame clock.
    pub open spec fn clocked(self) -> Sweep {
        if self.divider == 0 || self.reload {
            Sweep { divider: self.period, reload: false, ..self }
        } else {
            Sweep { divider: (self.divider - 1) as u8, ..self }
        }
    }

    /// The sweep after a write of `val` to the channel's second register:
    /// `EPPP NSSS`.
    pub open spec fn configured(self, val: u8) -> Sweep {
        Sweep {
            enabled: val >= 128,
            period: (val / 16) % 8,
            negate: (val / 8) % 2 == 1,
            shift: val % 8,
            reload: true,
            ..self
        }
    }

    /// The state at power-up.
    pub fn new() -> (s: Sweep)
        ensures
            s == Sweep::off(),
            s.wf(),
    {
        Sweep { enabled: false, negate: false, period: 0, shift: 0, divider: 0, reload: false }
    }

    /// Computes `muting`.
    pub fn is_muting(self, timer: u16, second: bool) -> (m: bool)
        requires
            self.wf(),
            timer < 0x800,
        ensures
            m == self.muting(timer, second),
    {
        let change = timer / POWERS[self.shift as usize];
        timer < 8 || (!self.negate && timer + change > 0x7FF)
    }

    /// Computes `swept`.
    pub fn sweep(self, timer: u16, second: bool) -> (out: u16)
        requires
            self.wf(),
            timer < 0x800,
        ensures
            out == self.swept(timer, second),
            out < 0x800,
    {
        if self.divider == 0 && self.enabled && self.shift != 0 && !self.is_muting(timer, second) {
            let change = timer / POWERS[self.shift as usize];
            if !self.negate {
                timer + change
            } else if second {
                timer - change
            } else if timer > change {
                timer - change - 1
            } else {
                0
            }
        } else {
            timer
        }
    }

    /// Computes `clocked`.
    pub fn clock(self) -> (out: Sweep)
        requires
            self.wf(),
        ensures
            out == self.clocked(),
            out.wf(),
    {
        if self.divider == 0 || self.reload {
            Sweep { divider: self.period, reload: false, ..self }
        } else {
            Sweep { divider: self.divider - 1, ..self }
        }
    }

    /// Computes `configured`.
    pub fn configure(self, val: u8) -> (out: Sweep)
        requires
            self.wf(),
        ensures
            out == self.configured(val),
            out.wf(),
    {
        Sweep {
            enabled: val >= 128,
            period: (val / 16) % 8,
            negate: (val / 8) % 2 == 1,
            shift: val % 8,
            reload: true,
            ..self
        }
    }
}

/// The frame sequencer: a divider of the processor clock that clocks the
/// envelopes, the linear counter, the length counters and the sweeps.
#[derive(Clone, Copy, Debug)]
pub struct FrameCounter {
    /// Whether the sequence has five steps rather than four.
    pub five_step: bool,
    pub irq_inhibit: bool,
    /// The interrupt flag of the sequencer.
    pub irq: bool,
    /// Processor cycles since the sequence started.
    pub cycle: u16,
    /// Processor cycles until a pending restart of the sequence; 0 for none.
    pub restart_in: u8,
}

/// What the sequencer asks of the channels on a cycle.
#[derive(Clone, Copy, PartialEq, Eq, Structural, Debug)]
pub struct FrameClock {
    /// Clock the envelopes and the linear counter.
    pub quarter: bool,
    /// Clock the length counters and the sweeps.
    pub half: bool,
}

/// The cycles on which the steps of the sequence fall.
pub const STEP_0: u16 = 7457;

pub const STEP_1: u16 = 14913;

pub const STEP_2: u16 = 22371;

pub const STEP_3: u16 = 29829;

pub const STEP_4: u16 = 37281;

impl FrameCounter {
    pub open spec fn wf(self) -> bool {
        self.cycle < STEP_4 && self.restart_in <= 4
    }

    pub open spec fn power_up() -> FrameCounter {
        FrameCounter { five_step: false, irq_inhibit: false, irq: false, cycle: 0, restart_in: 0 }
    }

    /// Which step of the sequence the cycle about to be counted reaches: 0 to
    /// 4, or 5 for none.
    pub open spec fn step_reached(self) -> int {
        let at = self.cycle + 1;
        if at == STEP_0 {
            0
        } else if at == STEP_1 {
            1
        } else if at == STEP_2 {
            2
        } else if at == STEP_3 {
            3
        } else if at == STEP_4 {
            4
        } else {
            5
        }
    }

    /// What the sequencer asks for on the cycle about to be counted. With
    /// four steps: a quarter frame on each step, a half frame on steps 1 and
    /// 3. With five: a quarter frame on steps 0, 1, 2 and 4, a half frame on
    /// steps 1 and 4.
    pub open spec fn asks(self) -> FrameClock {
        let step = self.step_reached();
        if self.five_step {
            FrameClock { quarter: step == 0 || step == 1 || step == 2 || step == 4, half: step == 1 || step == 4 }
        } else {
            FrameClock { quarter: step <= 3, half: step == 1 || step == 3 }
        }
    }

    /// The sequencer one cycle later. The sequence of four steps ends on
    /// step 3, where it raises the interrupt unless inhibited; that of five
    /// ends on step 4 (as does one that was switched to four steps after step 3). A pending restart counts down and, on its last cycle,
    /// starts the sequence over.
    pub open spec fn counted(self) -> FrameCounter {
        let step = self.step_reached();
        let ends = step == 4 || (step == 3 && !self.five_step);
        let irq = self.irq || (!self.five_step && step == 3 && !self.irq_inhibit);
        if self.restart_in == 1 {
            FrameCounter { cycle: 0, restart_in: 0, irq, ..self }
        } else {
            FrameCounter {
                cycle: if ends {
                    0
                } else {
                    (self.cycle + 1) as u16
                },
                restart_in: if self.restart_in > 0 {
                    (self.restart_in - 1) as u8
                } else {
                    0
                },
                irq,
                ..self
            }
        }
    }

    /// The sequencer after a write of `val` to `$4017`: bit 7 selects five
    /// steps, bit 6 inhibits the interrupt and clears its flag. The sequence
    /// starts over three cycles later, or four where the write falls on an
    /// odd cycle.
    pub open spec fn written(self, val: u8, odd_cycle: bool) -> FrameCounter {
        let inhibit = (val / 64) % 2 == 1;
        FrameCounter {
            five_step: val >= 128,
            irq_inhibit: inhibit,
            irq: self.irq && !inhibit,
            restart_in: if odd_cycle {
                4
            } else {
                3
            },
            ..self
        }
    }

    /// The state at power-up.
    pub fn new() -> (f: FrameCounter)
        ensures
            f == FrameCounter::power_up(),
            f.wf(),
    {
        FrameCounter { five_step: false, irq_inhibit: false, irq: false, cycle: 0, restart_in: 0 }
    }

    /// Computes `step_reached`.
    pub fn step_now(self) -> (step: u8)
        requires
            self.wf(),
        ensures
            step == self.step_reached(),
    {
        let at = self.cycle + 1;
        if at == STEP_0 {
            0
        } else if at == STEP_1 {
            1
        } else if at == STEP_2 {
            2
        } else if at == STEP_3 {
            3
        } else if at == STEP_4 {
            4
        } else {
            5
        }
    }

    /// Computes `asks`.
    pub fn ask(self) -> (clock: FrameClock)
        requires
            self.wf(),
        ensures
            clock == self.asks(),
    {
        let step = self.step_now();
        if self.five_step {
            FrameClock { quarter: step == 0 || step == 1 || step == 2 || step == 4, half: step == 1 || step == 4 }
        } else {
            FrameClock { quarter: step <= 3, half: step == 1 || step == 3 }
        }
    }

    /// Computes `counted`.
    pub fn count(self) -> (out: FrameCounter)
        requires
            self.wf(),
        ensures
            out == self.counted(),
            out.wf(),
    {
        let step = self.step_now();
        let ends = step == 4 || (step == 3 && !self.five_step);
        let irq = self.irq || (!self.five_step && step == 3 && !self.irq_inhibit);
        if self.restart_in == 1 {
            FrameCounter { cycle: 0, restart_in: 0, irq, ..self }
        } else {
            FrameCounter {
                cycle: if ends {
                    0
                } else {
                    self.cycle + 1
                },
                restart_in: if self.restart_in > 0 {
                    self.restart_in - 1
                } else {
                    0
                },
                irq,
                ..self
            }
        }
    }

    /// Computes `written`.
    pub fn write(self, val: u8, odd_cycle: bool) -> (out: FrameCounter)
        requires
            self.wf(),
        ensures
            out == self.written(val, odd_cycle),
            out.wf(),
    {
        let inhibit = (val / 64) % 2 == 1;
        FrameCounter {
            five_step: val >= 128,
            irq_inhibit: inhibit,
            irq: self.irq && !inhibit,
            restart_in: if odd_cycle {
                4
            } else {
                3
            },
            ..self
        }
    }
}

} // verus!
