//! The five sound channels.

use crate::units::{clock_length, length_clocked, length_for, length_of, Envelope, Sweep};
use vstd::prelude::*;

verus! {

/// The four duty sequences of a pulse channel, eight steps each.
pub const DUTY: [u8; 32] = [
    0, 1, 0, 0, 0, 0, 0, 0,
    0, 1, 1, 0, 0, 0, 0, 0,
    0, 1, 1, 1, 1, 0, 0, 0,
    1, 0, 0, 1, 1, 1, 1, 1,
];

/// The periods of the noise channel, in processor cycles.
pub const NOISE_PERIODS: [u16; 16] = [
    4, 8, 16, 32, 64, 96, 128, 160, 202, 254, 380, 508, 762, 1016, 2034, 4068,
];

/// The periods of the delta channel, in processor cycles.
pub const DMC_PERIODS: [u16; 16] = [
    428, 380, 340, 320, 286, 254, 226, 214, 190, 160, 142, 128, 106, 84, 72, 54,
];

/// A pulse channel.
#[derive(Clone, Copy, Debug)]
pub struct Pulse {
    /// Whether this is the second pulse channel, whose sweep subtracts differently.
    pub second: bool,
    pub enabled: bool,
    /// Which duty sequence plays, below 4.
    pub duty: u8,
    /// The position in the sequence, below 8.
    pub step: u8,
    /// The period, eleven bits.
    pub timer: u16,
    /// What is left of the current period.
    pub counter: u16,
    pub length: u8,
    pub envelope: Envelope,
    pub sweep: Sweep,
}

impl Pulse {
    pub open spec fn wf(self) -> bool {
        &&& self.duty < 4
        &&& self.step < 8
        &&& self.timer < 0x800
        &&& self.counter < 0x800
        &&& self.envelope.wf()
        &&& self.sweep.wf()
    }

    pub open spec fn silent(second: bool) -> Pulse {
        Pulse {
            second,
            enabled: false,
            duty: 0,
            step: 0,
            timer: 0,
            counter: 0,
            length: 0,
            envelope: Envelope::silent(),
            sweep: Sweep::off(),
        }
    }

    /// The channel after a write of `val` to its register `reg` (0 to 3):
    /// duty and envelope; sweep; the low byte of the period; the length and
    /// the high bits of the period, which also restarts the sequence and the
    /// envelope. A disabled channel takes no length.
    pub open spec fn written(self, reg: u8, val: u8) -> Pulse {
        if reg == 0 {
            Pulse { duty: val / 64, envelope: self.envelope.configured(val), ..self }
        } else if reg == 1 {
            Pulse { sweep: self.sweep.configured(val), ..self }
        } else if reg == 2 {
            Pulse { timer: ((self.timer / 256) * 256 + val) as u16, ..self }
        } else {
            Pulse {
                timer: ((val % 8) * 256 + self.timer % 256) as u16,
                length: if self.enabled {
                    length_of(val)
                } else {
                    self.length
                },
                step: 0,
                envelope: Envelope { start: true, ..self.envelope },
                ..self
            }
        }
    }

    /// The channel after its timer is clocked, which happens every second
    /// processor cycle: at the end of a period the sequence moves on.
    pub open spec fn timed(self) -> Pulse {
        if self.counter == 0 {
            Pulse { counter: self.timer, step: ((self.step + 1) % 8) as u8, ..self }
        } else {
            Pulse { counter: (self.counter - 1) as u16, ..self }
        }
    }

    /// The channel after a quarter-frame clock.
    pub open spec fn quarter(self) -> Pulse {
        Pulse { envelope: self.envelope.clocked(), ..self }
    }

    /// The channel after a half-frame clock.
    pub open spec fn half(self) -> Pulse {
        Pulse {
            length: length_clocked(self.length, self.envelope.looping),
            timer: self.sweep.swept(self.timer, self.second),
            sweep: self.sweep.clocked(),
            ..self
        }
    }

    /// The channel after `$4015` enables or disables it; disabling empties
    /// the length counter.
    pub open spec fn switched(self, on: bool) -> Pulse {
        Pulse {
            enabled: on,
            length: if on {
                self.length
            } else {
                0
            },
            ..self
        }
    }

    /// What the channel puts out, below 16: silence while the length counter
    /// is empty, the sweep mutes or the sequence is low, and the envelope's
    /// level otherwise.
    pub open spec fn level(self) -> u8 {
        if self.length == 0 || self.sweep.muting(self.timer, self.second) || DUTY[self.duty * 8
            + self.step] == 0 {
            0
        } else {
            self.envelope.level()
        }
    }

    /// The state at power-up.
    pub fn new(second: bool) -> (p: Pulse)
        ensures
            p == Pulse::silent(second),
            p.wf(),
    {
        Pulse {
            second,
            enabled: false,
            duty: 0,
            step: 0,
            timer: 0,
            counter: 0,
            length: 0,
            envelope: Envelope::new(),
            sweep: Sweep::new(),
        }
    }

    /// Computes `written`.
    pub fn write(self, reg: u8, val: u8) -> (out: Pulse)
        requires
            self.wf(),
        ensures
            out == self.written(reg, val),
            out.wf(),
    {
        if reg == 0 {
            Pulse { duty: val / 64, envelope: self.envelope.configure(val), ..self }
        } else if reg == 1 {
            Pulse { sweep: self.sweep.configure(val), ..self }
        } else if reg == 2 {
            Pulse { timer: (self.timer / 256) * 256 + val as u16, ..self }
        } else {
            Pulse {
                timer: ((val % 8) as u16) * 256 + self.timer % 256,
                length: if self.enabled {
                    length_for(val)
                } else {
                    self.length
                },
                step: 0,
                envelope: Envelope { start: true, ..self.envelope },
                ..self
            }
        }
    }

    /// Computes `timed`.
    pub fn clock_timer(self) -> (out: Pulse)
        requires
            self.wf(),
        ensures
            out == self.timed(),
            out.wf(),
    {
        if self.counter == 0 {
            Pulse { counter: self.timer, step: (self.step + 1) % 8, ..self }
        } else {
            Pulse { counter: self.counter - 1, ..self }
        }
    }

    /// Computes `quarter`.
    pub fn clock_quarter(self) -> (out: Pulse)
        requires
            self.wf(),
        ensures
            out == self.quarter(),
            out.wf(),
    {
        Pulse { envelope: self.envelope.clock(), ..self }
    }

    /// Computes `half`.
    pub fn clock_half(self) -> (out: Pulse)
        requires
            self.wf(),
        ensures
            out == self.half(),
            out.wf(),
    {
        Pulse {
            length: clock_length(self.length, self.envelope.looping),
            timer: self.sweep.sweep(self.timer, self.second),
            sweep: self.sweep.clock(),
            ..self
        }
    }

    /// Computes `switched`.
    pub fn switch(self, on: bool) -> (out: Pulse)
        requires
            self.wf(),
        ensures
            out == self.switched(on),
            out.wf(),
    {
        Pulse {
            enabled: on,
            length: if on {
                self.length
            } else {
                0
            },
            ..self
        }
    }

    /// Computes `level`.
    pub fn output(self) -> (v: u8)
        requires
            self.wf(),
        ensures
            v == self.level(),
            v < 16,
    {
        if self.length == 0 || self.sweep.is_muting(self.timer, self.second) || DUTY[(self.duty * 8
            + self.step) as usize] == 0 {
            0
        } else {
            self.envelope.output()
        }
    }
}

/// The triangle channel.
#[derive(Clone, Copy, Debug)]
pub struct Triangle {
    pub enabled: bool,
    /// Halts the length counter and keeps the linear counter reloading.
    pub control: bool,
    /// What the linear counter is reloaded with, seven bits.
    pub reload_value: u8,
    pub linear: u8,
    pub reload: bool,
    pub timer: u16,
    pub counter: u16,
    /// The position in the sequence of 32 steps.
    pub step: u8,
    pub length: u8,
}

impl Triangle {
    pub open spec fn wf(self) -> bool {
        self.step < 32 && self.timer < 0x800 && self.counter < 0x800
    }

    pub open spec fn silent() -> Triangle {
        Triangle {
            enabled: false,
            control: false,
            reload_value: 0,
            linear: 0,
            reload: false,
            timer: 0,
            counter: 0,
            step: 0,
            length: 0,
        }
    }

    /// The channel after a write of `val` to its register `reg` (0 to 3).
    pub open spec fn written(self, reg: u8, val: u8) -> Triangle {
        if reg == 0 {
            Triangle { control: val >= 128, reload_value: val % 128, ..self }
        } else if reg == 2 {
            Triangle { timer: ((self.timer / 256) * 256 + val) as u16, ..self }
        } else if reg == 3 {
            Triangle {
                timer: ((val % 8) * 256 + self.timer % 256) as u16,
                length: if self.enabled {
                    length_of(val)
                } else {
                    self.length
                },
                reload: true,
                ..self
            }
        } else {
            self
        }
    }

    /// Whether both counters let the sequence run.
    pub open spec fn running(self) -> bool {
        self.length > 0 && self.linear > 0
    }

    /// The channel after its timer is clocked, which happens every
    /// processor cycle: the timer always counts, and at the end of a period
    /// the sequence moves on if both counters are above zero.
    pub open spec fn timed(self) -> Triangle {
        if self.counter == 0 {
            Triangle {
                counter: self.timer,
                step: if self.running() {
                    ((self.step + 1) % 32) as u8
                } else {
                    self.step
                },
                ..self
            }
        } else {
            Triangle { counter: (self.counter - 1) as u16, ..self }
        }
    }

    /// The channel after a quarter-frame clock of the linear counter.
    pub open spec fn quarter(self) -> Triangle {
        Triangle {
            linear: if self.reload {
                self.reload_value
            } else if self.linear > 0 {
                (self.linear - 1) as u8
            } else {
                0
            },
            reload: self.reload && self.control,
            ..self
        }
    }

    /// The channel after a half-frame clock.
    pub open spec fn half(self) -> Triangle {
        Triangle { length: length_clocked(self.length, self.control), ..self }
    }

    pub open spec fn switched(self, on: bool) -> Triangle {
        Triangle {
            enabled: on,
            length: if on {
                self.length
            } else {
                0
            },
            ..self
        }
    }

    /// What the channel puts out, below 16: the sequence runs from 15 down
    /// to 0 and up again; a silenced channel puts out nothing.
    pub open spec fn level(self) -> u8 {
        if !self.running() {
            0
        } else if self.step < 16 {
            (15 - self.step) as u8
        } else {
            (self.step - 16) as u8
        }
    }

    /// The state at power-up.
    pub fn new() -> (t: Triangle)
        ensures
            t == Triangle::silent(),
            t.wf(),
    {
        Triangle {
            enabled: false,
            control: false,
            reload_value: 0,
            linear: 0,
            reload: false,
            timer: 0,
            counter: 0,
            step: 0,
            length: 0,
        }
    }

    /// Computes `written`.
    pub fn write(self, reg: u8, val: u8) -> (out: Triangle)
        requires
            self.wf(),
        ensures
            out == self.written(reg, val),
            out.wf(),
    {
        if reg == 0 {
            Triangle { control: val >= 128, reload_value: val % 128, ..self }
        } else if reg == 2 {
            Triangle { timer: (self.timer / 256) * 256 + val as u16, ..self }
        } else if reg == 3 {
            Triangle {
                timer: ((val % 8) as u16) * 256 + self.timer % 256,
                length: if self.enabled {
                    length_for(val)
                } else {
                    self.length
                },
                reload: true,
                ..self
            }
        } else {
            self
        }
    }

    /// Computes `timed`.
    pub fn clock_timer(self) -> (out: Triangle)
        requires
            self.wf(),
        ensures
            out == self.timed(),
            out.wf(),
    {
        if self.counter == 0 {
            Triangle {
                counter: self.timer,
                step: if self.length > 0 && self.linear > 0 {
                    (self.step + 1) % 32
                } else {
                    self.step
                },
                ..self
            }
        } else {
            Triangle { counter: self.counter - 1, ..self }
        }
    }

    /// Computes `quarter`.
    pub fn clock_quarter(self) -> (out: Triangle)
        requires
            self.wf(),
        ensures
            out == self.quarter(),
            out.wf(),
    {
        Triangle {
            linear: if self.reload {
                self.reload_value
            } else if self.linear > 0 {
                self.linear - 1
            } else {
                0
            },
            reload: self.reload && self.control,
            ..self
        }
    }

    /// Computes `half`.
    pub fn clock_half(self) -> (out: Triangle)
        requires
            self.wf(),
        ensures
            out == self.half(),
            out.wf(),
    {
        Triangle { length: clock_length(self.length, self.control), ..self }
    }

    /// Computes `switched`.
    pub fn switch(self, on: bool) -> (out: Triangle)
        requires
            self.wf(),
        ensures
            out == self.switched(on),
            out.wf(),
    {
        Triangle {
            enabled: on,
            length: if on {
                self.length
            } else {
                0
            },
            ..self
        }
    }

    /// Computes `level`.
    pub fn output(self) -> (v: u8)
        requires
            self.wf(),
        ensures
            v == self.level(),
            v < 16,
    {
        if !(self.length > 0 && self.linear > 0) {
            0
        } else if self.step < 16 {
            15 - self.step
        } else {
            self.step - 16
        }
    }
}

/// The noise channel.
#[derive(Clone, Copy, Debug)]
pub struct Noise {
    pub enabled: bool,
    /// Whether the feedback is taken from bit 6 rather than bit 1.
    pub short: bool,
    /// Which period plays, below 16.
    pub period: u8,
    pub counter: u16,
    /// The shift register, fifteen bits, never zero.
    pub lfsr: u16,
    pub length: u8,
    pub envelope: Envelope,
}

impl Noise {
    pub open spec fn wf(self) -> bool {
        self.period < 16 && self.lfsr < 0x8000 && self.counter <= 4068 && self.envelope.wf()
    }

    pub open spec fn silent() -> Noise {
        Noise {
            enabled: false,
            short: false,
            period: 0,
            counter: 0,
            lfsr: 1,
            length: 0,
            envelope: Envelope::silent(),
        }
    }

    pub open spec fn written(self, reg: u8, val: u8) -> Noise {
        if reg == 0 {
            Noise { envelope: self.envelope.configured(val), ..self }
        } else if reg == 2 {
            Noise { short: val >= 128, period: val % 16, ..self }
        } else if reg == 3 {
            Noise {
                length: if self.enabled {
                    length_of(val)
                } else {
                    self.length
                },
                envelope: Envelope { start: true, ..self.envelope },
                ..self
            }
        } else {
            self
        }
    }

    /// The bit that the shift register feeds back: the exclusive or of bit 0
    /// and bit 1, or bit 6 in the short mode.
    pub open spec fn feedback(self) -> int {
        let other = if self.short {
            (self.lfsr / 64) % 2
        } else {
            (self.lfsr / 2) % 2
        };
        (self.lfsr % 2 + other) % 2
    }

    /// The channel after its timer is clocked, every processor cycle: at
    /// the end of a period the register shifts right and the feedback enters
    /// at bit 14.
    pub open spec fn timed(self) -> Noise {
        if self.counter == 0 {
            Noise {
                counter: (NOISE_PERIODS[self.period as int] - 1) as u16,
                lfsr: (self.lfsr / 2 + self.feedback() * 0x4000) as u16,
                ..self
            }
        } else {
            Noise { counter: (self.counter - 1) as u16, ..self }
        }
    }

    pub open spec fn quarter(self) -> Noise {
        Noise { envelope: self.envelope.clocked(), ..self }
    }

    pub open spec fn half(self) -> Noise {
        Noise { length: length_clocked(self.length, self.envelope.looping), ..self }
    }

    pub open spec fn switched(self, on: bool) -> Noise {
        Noise {
            enabled: on,
            length: if on {
                self.length
            } else {
                0
            },
            ..self
        }
    }

    /// What the channel puts out, below 16: silence while bit 0 of the shift
    /// register is set or the length counter is empty.
    pub open spec fn level(self) -> u8 {
        if self.lfsr % 2 == 1 || self.length == 0 {
            0
        } else {
            self.envelope.level()
        }
    }

    /// The state at power-up.
    pub fn new() -> (n: Noise)
        ensures
            n == Noise::silent(),
            n.wf(),
    {
        Noise {
            enabled: false,
            short: false,
            period: 0,
            counter: 0,
            lfsr: 1,
            length: 0,
            envelope: Envelope::new(),
        }
    }

    /// Computes `written`.
    pub fn write(self, reg: u8, val: u8) -> (out: Noise)
        requires
            self.wf(),
        ensures
            out == self.written(reg, val),
            out.wf(),
    {
        if reg == 0 {
            Noise { envelope: self.envelope.configure(val), ..self }
        } else if reg == 2 {
            Noise { short: val >= 128, period: val % 16, ..self }
        } else if reg == 3 {
            Noise {
                length: if self.enabled {
                    length_for(val)
                } else {
                    self.length
                },
                envelope: Envelope { start: true, ..self.envelope },
                ..self
            }
        } else {
            self
        }
    }

    /// Computes `timed`.
    pub fn clock_timer(self) -> (out: Noise)
        requires
            self.wf(),
        ensures
            out == self.timed(),
            out.wf(),
    {
        if self.counter == 0 {
            let other = if self.short {
                (self.lfsr / 64) % 2
            } else {
                (self.lfsr / 2) % 2
            };
            let feedback = (self.lfsr % 2 + other) % 2;
            Noise {
                counter: NOISE_PERIODS[self.period as usize] - 1,
                lfsr: self.lfsr / 2 + feedback * 0x4000,
                ..self
            }
        } else {
            Noise { counter: self.counter - 1, ..self }
        }
    }

    /// Computes `quarter`.
    pub fn clock_quarter(self) -> (out: Noise)
        requires
            self.wf(),
        ensures
            out == self.quarter(),
            out.wf(),
    {
        Noise { envelope: self.envelope.clock(), ..self }
    }

    /// Computes `half`.
    pub fn clock_half(self) -> (out: Noise)
        requires
            self.wf(),
        ensures
            out == self.half(),
            out.wf(),
    {
        Noise { length: clock_length(self.length, self.envelope.looping), ..self }
    }

    /// Computes `switched`.
    pub fn switch(self, on: bool) -> (out: Noise)
        requires
            self.wf(),
        ensures
            out == self.switched(on),
            out.wf(),
    {
        Noise {
            enabled: on,
            length: if on {
                self.length
            } else {
                0
            },
            ..self
        }
    }

    /// Computes `level`.
    pub fn output(self) -> (v: u8)
        requires
            self.wf(),
        ensures
            v == self.level(),
            v < 16,
    {
        if self.lfsr % 2 == 1 || self.length == 0 {
            0
        } else {
            self.envelope.output()
        }
    }
}

/// The delta modulation channel.
#[derive(Clone, Copy, Debug)]
pub struct Dmc {
    pub irq_enable: bool,
    pub looping: bool,
    /// Which period plays, below 16.
    pub rate: u8,
    pub counter: u16,
    /// The output level, seven bits.
    pub level: u8,
    /// Where the sample starts, at or above `$C000`.
    pub sample_addr: u16,
    /// How long the sample is, in bytes.
    pub sample_len: u16,
    /// Where the next byte is read, at or above `$8000`.
    pub current: u16,
    /// How many bytes are left to read.
    pub remaining: u16,
    /// The byte read ahead, where `buffered` is set.
    pub buffer: u8,
    pub buffered: bool,
    /// The bits being played, next bit lowest.
    pub shift: u8,
    /// How many of them are left, 1 to 8.
    pub bits: u8,
    pub silence: bool,
    /// The interrupt flag of the channel.
    pub irq: bool,
}

/// How many processor cycles a sample fetch holds the processor.
pub const DMC_STALL: u8 = 4;

impl Dmc {
    pub open spec fn wf(self) -> bool {
        &&& self.rate < 16
        &&& self.counter <= 428
        &&& self.level < 128
        &&& self.sample_addr >= 0xC000
        &&& 1 <= self.sample_len <= 4081
        &&& self.current >= 0x8000
        &&& self.remaining <= 4081
        &&& 1 <= self.bits <= 8
    }

    pub open spec fn silent() -> Dmc {
        Dmc {
            irq_enable: false,
            looping: false,
            rate: 0,
            counter: 0,
            level: 0,
            sample_addr: 0xC000,
            sample_len: 1,
            current: 0xC000,
            remaining: 0,
            buffer: 0,
            buffered: false,
            shift: 0,
            bits: 8,
            silence: true,
            irq: false,
        }
    }

    /// The channel after a write of `val` to its register `reg` (0 to 3):
    /// flags and rate (clearing the interrupt enable clears the flag); the
    /// output level; the sample address `$C000 + 64 * val`; the sample
    /// length `16 * val + 1`.
    pub open spec fn written(self, reg: u8, val: u8) -> Dmc {
        if reg == 0 {
            Dmc {
                irq_enable: val >= 128,
                looping: (val / 64) % 2 == 1,
                rate: val % 16,
                irq: self.irq && val >= 128,
                ..self
            }
        } else if reg == 1 {
            Dmc { level: val % 128, ..self }
        } else if reg == 2 {
            Dmc { sample_addr: (0xC000 + 64 * val) as u16, ..self }
        } else {
            Dmc { sample_len: (16 * val + 1) as u16, ..self }
        }
    }

    /// The channel after `$4015` starts or stops it: stopping drops what is
    /// left of the sample, starting a finished channel begins the sample
    /// anew, and either clears the interrupt flag.
    pub open spec fn switched(self, on: bool) -> Dmc {
        if !on {
            Dmc { remaining: 0, irq: false, ..self }
        } else if self.remaining == 0 {
            Dmc { current: self.sample_addr, remaining: self.sample_len, irq: false, ..self }
        } else {
            Dmc { irq: false, ..self }
        }
    }

    /// Whether the channel wants a byte from memory.
    pub open spec fn wants_byte(self) -> bool {
        !self.buffered && self.remaining > 0
    }

    /// The channel after the byte `byte` arrives from `current`: the address
    /// moves on, wrapping from `$FFFF` to `$8000`; after the last byte the
    /// sample starts anew if it loops, and otherwise the interrupt is raised
    /// if enabled.
    pub open spec fn fed(self, byte: u8) -> Dmc {
        let next = if self.current == 0xFFFF {
            0x8000u16
        } else {
            (self.current + 1) as u16
        };
        let left = (self.remaining - 1) as u16;
        let loaded = Dmc { buffer: byte, buffered: true, current: next, remaining: left, ..self };
        if left > 0 {
            loaded
        } else if self.looping {
            Dmc { current: self.sample_addr, remaining: self.sample_len, ..loaded }
        } else {
            Dmc { irq: self.irq || self.irq_enable, ..loaded }
        }
    }

    /// The output level after one bit is played: up by two for a one, down
    /// by two for a zero, where that stays within seven bits.
    pub open spec fn stepped_level(self) -> u8 {
        if self.silence {
            self.level
        } else if self.shift % 2 == 1 {
            if self.level <= 125 {
                (self.level + 2) as u8
            } else {
                self.level
            }
        } else if self.level >= 2 {
            (self.level - 2) as u8
        } else {
            self.level
        }
    }

    /// The channel after its timer is clocked, every processor cycle: at the
    /// end of a period a bit is played, and after the eighth the byte read
    /// ahead is taken, or silence where there is none.
    pub open spec fn timed(self) -> Dmc {
        if self.counter > 0 {
            Dmc { counter: (self.counter - 1) as u16, ..self }
        } else {
            let played = Dmc {
                counter: (DMC_PERIODS[self.rate as int] - 1) as u16,
                level: self.stepped_level(),
                shift: self.shift / 2,
                ..self
            };
            if self.bits > 1 {
                Dmc { bits: (self.bits - 1) as u8, ..played }
            } else if self.buffered {
                Dmc { bits: 8, silence: false, shift: self.buffer, buffered: false, ..played }
            } else {
                Dmc { bits: 8, silence: true, ..played }
            }
        }
    }

    /// The state at power-up.
    pub fn new() -> (d: Dmc)
        ensures
            d == Dmc::silent(),
            d.wf(),
    {
        Dmc {
            irq_enable: false,
            looping: false,
            rate: 0,
            counter: 0,
            level: 0,
            sample_addr: 0xC000,
            sample_len: 1,
            current: 0xC000,
            remaining: 0,
            buffer: 0,
            buffered: false,
            shift: 0,
            bits: 8,
            silence: true,
            irq: false,
        }
    }

    /// Computes `written`.
    pub fn write(self, reg: u8, val: u8) -> (out: Dmc)
        requires
            self.wf(),
        ensures
            out == self.written(reg, val),
            out.wf(),
    {
        if reg == 0 {
            Dmc {
                irq_enable: val >= 128,
                looping: (val / 64) % 2 == 1,
                rate: val % 16,
                irq: self.irq && val >= 128,
                ..self
            }
        } else if reg == 1 {
            Dmc { level: val % 128, ..self }
        } else if reg == 2 {
            Dmc { sample_addr: 0xC000 + 64 * (val as u16), ..self }
        } else {
            Dmc { sample_len: 16 * (val as u16) + 1, ..self }
        }
    }

    /// Computes `switched`.
    pub fn switch(self, on: bool) -> (out: Dmc)
        requires
            self.wf(),
        ensures
            out == self.switched(on),
            out.wf(),
    {
        if !on {
            Dmc { remaining: 0, irq: false, ..self }
        } else if self.remaining == 0 {
            Dmc { current: self.sample_addr, remaining: self.sample_len, irq: false, ..self }
        } else {
            Dmc { irq: false, ..self }
        }
    }

    /// Computes `wants_byte`.
    pub fn needs_byte(self) -> (b: bool)
        ensures
            b == self.wants_byte(),
    {
        !self.buffered && self.remaining > 0
    }

    /// Computes `fed`.
    pub fn feed(self, byte: u8) -> (out: Dmc)
        requires
            self.wf(),
            self.wants_byte(),
        ensures
            out == self.fed(byte),
            out.wf(),
    {
        let next: u16 = if self.current == 0xFFFF {
            0x8000
        } else {
            self.current + 1
        };
        let left = self.remaining - 1;
        let loaded = Dmc { buffer: byte, buffered: true, current: next, remaining: left, ..self };
        if left > 0 {
            loaded
        } else if self.looping {
            Dmc { current: self.sample_addr, remaining: self.sample_len, ..loaded }
        } else {
            Dmc { irq: self.irq || self.irq_enable, ..loaded }
        }
    }

    /// Computes `stepped_level`.
    pub fn step_level(self) -> (v: u8)
        requires
            self.wf(),
        ensures
            v == self.stepped_level(),
            v < 128,
    {
        if self.silence {
            self.level
        } else if self.shift % 2 == 1 {
            if self.level <= 125 {
                self.level + 2
            } else {
                self.level
            }
        } else if self.level >= 2 {
            self.level - 2
        } else {
            self.level
        }
    }

    /// Computes `timed`.
    pub fn clock_timer(self) -> (out: Dmc)
        requires
            self.wf(),
        ensures
            out == self.timed(),
            out.wf(),
    {
        if self.counter > 0 {
            Dmc { counter: self.counter - 1, ..self }
        } else {
            let played = Dmc {
                counter: DMC_PERIODS[self.rate as usize] - 1,
                level: self.step_level(),
                shift: self.shift / 2,
                ..self
            };
            if self.bits > 1 {
                Dmc { bits: self.bits - 1, ..played }
            } else if self.buffered {
                Dmc { bits: 8, silence: false, shift: self.buffer, buffered: false, ..played }
            } else {
                Dmc { bits: 8, silence: true, ..played }
            }
        }
    }
}

} // verus!
